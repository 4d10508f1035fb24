use vstd::prelude::*;

verus! {

/// The little-endian byte image of a 64-bit immediate, lowest byte first.
pub open spec fn u64_le_bytes(x: u64) -> Seq<u8> {
    seq![
        x as u8,
        (x >> 8) as u8,
        (x >> 16) as u8,
        (x >> 24) as u8,
        (x >> 32) as u8,
        (x >> 40) as u8,
        (x >> 48) as u8,
        (x >> 56) as u8,
    ]
}

/// The label-lookup entry point: `mov rax, addr; mov rdx, len; ret`. It
/// ignores its data argument and returns the address and byte length of the
/// bound label text, both baked in as immediates.
pub open spec fn label_code(addr: u64, len: u64) -> Seq<u8> {
    seq![0x48u8, 0xb8u8] + u64_le_bytes(addr) + seq![0x48u8, 0xbau8] + u64_le_bytes(len)
        + seq![0xc3u8]
}

/// The value-lookup entry point: `mov rax, rdi; ret`. An identity
/// pass-through: it hands its data argument (the underlying value's own
/// address) back unchanged.
pub open spec fn value_code() -> Seq<u8> {
    seq![0x48u8, 0x89u8, 0xf8u8, 0xc3u8]
}

/// Append the little-endian bytes of `x` to `out`.
pub fn emit_u64_le(out: &mut Vec<u8>, x: u64)
    ensures
        final(out)@ == old(out)@ + u64_le_bytes(x),
{
    out.push(#[verifier::truncate] (x as u8));
    out.push(#[verifier::truncate] ((x >> 8) as u8));
    out.push(#[verifier::truncate] ((x >> 16) as u8));
    out.push(#[verifier::truncate] ((x >> 24) as u8));
    out.push(#[verifier::truncate] ((x >> 32) as u8));
    out.push(#[verifier::truncate] ((x >> 40) as u8));
    out.push(#[verifier::truncate] ((x >> 48) as u8));
    out.push(#[verifier::truncate] ((x >> 56) as u8));
    proof {
        assert(out@ =~= old(out)@ + u64_le_bytes(x));
    }
}

/// Append the label-lookup entry point for a label whose text lives at
/// `addr` and is `len` bytes long.
pub fn emit_label_code(out: &mut Vec<u8>, addr: u64, len: u64)
    ensures
        final(out)@ == old(out)@ + label_code(addr, len),
{
    out.push(0x48);
    out.push(0xb8);
    emit_u64_le(out, addr);
    out.push(0x48);
    out.push(0xba);
    emit_u64_le(out, len);
    out.push(0xc3);
    proof {
        assert(out@ =~= old(out)@ + label_code(addr, len));
    }
}

/// Append the value-lookup entry point.
pub fn emit_value_code(out: &mut Vec<u8>)
    ensures
        final(out)@ == old(out)@ + value_code(),
{
    out.push(0x48);
    out.push(0x89);
    out.push(0xf8);
    out.push(0xc3);
    proof {
        assert(out@ =~= old(out)@ + value_code());
    }
}

} // verus!
