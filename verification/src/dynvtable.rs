use crate::emit::{emit_label_code, emit_value_code, label_code, value_code};
use vstd::prelude::*;

verus! {

/// The housekeeping header every dispatch table starts with, as plain
/// values: the destructor entry point's address, and the size and alignment
/// of the concrete type the table was made for.
#[derive(Clone, Copy, PartialEq, Eq, Structural, Debug)]
pub struct VtableHeader {
    pub destructor_addr: usize,
    pub size: usize,
    pub align: usize,
}

/// A dispatch table for the two-operation contract: the housekeeping header
/// copied from a reference representation, then one entry point per
/// operation, each given as an offset into the entry's generated code.
#[derive(Clone, Copy, PartialEq, Eq, Structural, Debug)]
pub struct DispatchTable {
    pub header: VtableHeader,
    pub label_fn_offset: usize,
    pub as_string_fn_offset: usize,
}

/// A registry entry: the label, the address and byte length of its text as
/// baked into the generated code, the dispatch table, and the generated code
/// backing the table's two entry points.
pub struct TypeInfo {
    pub label: String,
    pub label_addr: usize,
    pub label_len: usize,
    pub table: DispatchTable,
    pub code: Vec<u8>,
}

/// The byte length of a label's text.
pub open spec fn byte_len(label: Seq<char>) -> nat {
    vstd::utf8::encode_utf8(label).len()
}

/// A well-formed entry: the table carries the session's header, its two
/// entry points sit at the start of the two generated blocks, and the code
/// is exactly those blocks, with the label text's address and byte length
/// baked into the first.
pub open spec fn info_wf(info: TypeInfo, header: VtableHeader) -> bool {
    &&& info.label_len == byte_len(info.label@) as usize
    &&& info.table.header == header
    &&& info.table.label_fn_offset == 0
    &&& info.table.as_string_fn_offset == label_code(
        info.label_addr as u64,
        info.label_len as u64,
    ).len()
    &&& info.code@ == label_code(info.label_addr as u64, info.label_len as u64) + value_code()
}

/// No two entries share a label.
pub open spec fn labels_unique(infos: Seq<TypeInfo>) -> bool {
    forall|i: int, j: int| 0 <= i < j < infos.len() ==> infos[i].label@ != infos[j].label@
}

/// Some entry carries `label`.
pub open spec fn has_label(infos: Seq<TypeInfo>, label: Seq<char>) -> bool {
    exists|j: int| 0 <= j < infos.len() && infos[j].label@ == label
}

/// One synthesis step on a registry's entries: a label already present is
/// left alone, a new one gets its entry appended.
pub open spec fn synth_step(infos: Seq<TypeInfo>, entry: TypeInfo) -> Seq<TypeInfo> {
    if has_label(infos, entry.label@) {
        infos
    } else {
        infos.push(entry)
    }
}

/// Law: synthesizing a table for a label is idempotent. Once a synthesis
/// step for a label has run, a second step for the same label changes
/// nothing, whatever entry it would have inserted.
pub proof fn lemma_synthesize_idempotent(infos: Seq<TypeInfo>, e1: TypeInfo, e2: TypeInfo)
    requires
        e1.label@ == e2.label@,
    ensures
        synth_step(synth_step(infos, e1), e2) == synth_step(infos, e1),
{
    if !has_label(infos, e1.label@) {
        let stepped = infos.push(e1);
        assert(stepped[infos.len() as int].label@ == e2.label@);
    }
}

/// Law: a label's cached dispatch table is unique. In a registry whose
/// labels are cached at most once, two entries carrying the same label are
/// one and the same entry, so every handle built for that label is backed by
/// the identical table.
pub proof fn lemma_label_index_unique(infos: Seq<TypeInfo>, i: int, j: int)
    requires
        labels_unique(infos),
        0 <= i < infos.len(),
        0 <= j < infos.len(),
        infos[i].label@ == infos[j].label@,
    ensures
        i == j,
{
}

/// The header a dispatch table must carry to be sound for the concrete
/// string type: its size and alignment fields report that type's layout.
pub open spec fn header_matches_string(h: VtableHeader) -> bool {
    &&& h.size as nat == vstd::layout::size_of::<String>()
    &&& h.align as nat == vstd::layout::align_of::<String>()
}

/// The synthesis-time layout check: the harvested header must report the
/// concrete value type's exact size and alignment, or the table would be
/// unsound.
pub fn header_layout_ok(h: &VtableHeader) -> (b: bool)
    ensures
        b == header_matches_string(*h),
{
    h.size == core::mem::size_of::<String>() && h.align == core::mem::align_of::<String>()
}

/// Relies on `str::as_ptr`: the address of the string's first byte. Which
/// address the text lives at is machine state, so nothing more is stated.
#[verifier::external_body]
fn str_addr(s: &str) -> usize {
    s.as_ptr() as usize
}

/// Synthesize a registry entry for `label`: generate the code for the two
/// entry points — the label text's address and byte length are baked into
/// the label-lookup block as immediates — copy the housekeeping `header`,
/// and record where each entry point starts in the code buffer.
fn build(label: String, header: VtableHeader) -> (info: TypeInfo)
    ensures
        info.label@ == label@,
        info_wf(info, header),
{
    let addr = str_addr(label.as_str());
    let len = label.as_str().len();
    let mut code: Vec<u8> = Vec::new();
    emit_label_code(&mut code, addr as u64, len as u64);
    let value_off = code.len();
    emit_value_code(&mut code);
    proof {
        assert(code@ =~= label_code(addr as u64, len as u64) + value_code());
    }
    TypeInfo {
        label,
        label_addr: addr,
        label_len: len,
        table: DispatchTable { header, label_fn_offset: 0, as_string_fn_offset: value_off },
        code,
    }
}

/// A polymorphic handle: borrows the underlying value (never a copy of it),
/// reports the label it was annotated with, and records which cached
/// dispatch table backs it.
pub struct Handle<'a> {
    pub value: &'a String,
    pub label: String,
    pub table_index: usize,
}

impl<'a> Handle<'a> {
    /// The label this handle was annotated with.
    pub fn label(&self) -> (r: &str)
        ensures
            r@ == self.label@,
    {
        self.label.as_str()
    }

    /// The borrowed underlying value, handed back unchanged.
    pub fn as_string(&self) -> (r: &'a String)
        ensures
            r@ == self.value@,
    {
        self.value
    }
}

impl<'a> crate::object::Object for Handle<'a> {
    open spec fn spec_label(&self) -> Seq<char> {
        self.label@
    }

    open spec fn spec_value(&self) -> Seq<char> {
        self.value@
    }

    fn label(&self) -> &str {
        self.label.as_str()
    }

    fn as_string(&self) -> &String {
        self.value
    }
}

/// The handle constructor: pair the underlying value's borrow with (the
/// index of) a cached dispatch table. Pure: no allocation, no table change.
pub fn pair<'a>(input: &'a String, label: String, table_index: usize) -> (h: Handle<'a>)
    ensures
        h.value@ == input@,
        h.label@ == label@,
        h.table_index == table_index,
{
    Handle { value: input, label, table_index }
}

/// An annotation session's label registry: per label, a cached dispatch
/// table and the generated code backing it, created lazily on first use of
/// the label and reused afterwards.
pub struct TypeSystem {
    header: VtableHeader,
    infos: Vec<TypeInfo>,
}

impl View for TypeSystem {
    type V = Seq<TypeInfo>;

    closed spec fn view(&self) -> Seq<TypeInfo> {
        self.infos@
    }
}

impl TypeSystem {
    /// The housekeeping header the session copies into every table it
    /// synthesizes.
    pub closed spec fn spec_header(self) -> VtableHeader {
        self.header
    }

    /// Every cached table carries the session's header, which reports the
    /// concrete type's true layout; labels are cached at most once.
    pub open spec fn wf(self) -> bool {
        &&& header_matches_string(self.spec_header())
        &&& labels_unique(self@)
        &&& forall|i: int| 0 <= i < self@.len() ==> info_wf(#[trigger] self@[i], self.spec_header())
    }

    /// Start a session from the housekeeping header harvested from a
    /// reference representation of the concrete string type. The header must
    /// report that type's exact size and alignment; a mismatch means the
    /// reference representation came from an incompatible type.
    pub fn new(header: VtableHeader) -> (ts: TypeSystem)
        requires
            header_matches_string(header),
        ensures
            ts.wf(),
            ts@.len() == 0,
            ts.spec_header() == header,
    {
        TypeSystem { header, infos: Vec::new() }
    }

    /// How many labels have a cached dispatch table.
    pub fn table_count(&self) -> (n: usize)
        ensures
            n == self@.len(),
    {
        self.infos.len()
    }

    /// The dispatch table cached for entry `i`.
    pub fn table_at(&self, i: usize) -> (t: DispatchTable)
        requires
            i < self@.len(),
        ensures
            t == self@[i as int].table,
    {
        self.infos[i].table
    }

    /// The index of the entry carrying `label`, if one is cached.
    fn find(&self, label: &String) -> (r: Option<usize>)
        ensures
            match r {
                Some(i) => i < self@.len() && self@[i as int].label@ == label@,
                None => !has_label(self@, label@),
            },
    {
        let mut k: usize = 0;
        while k < self.infos.len()
            invariant
                k <= self@.len(),
                forall|j: int| 0 <= j < k ==> self@[j].label@ != label@,
            decreases self@.len() - k,
        {
            if self.infos[k].label == *label {
                return Some(k);
            }
            k += 1;
        }
        None
    }

    /// Return the index of `label`'s cached dispatch table. A cache hit
    /// changes nothing and generates no code; a miss synthesizes the entry
    /// and appends it.
    pub fn lookup_or_synthesize(&mut self, label: &str) -> (i: usize)
        requires
            old(self).wf(),
        ensures
            final(self).wf(),
            final(self).spec_header() == old(self).spec_header(),
            i < final(self)@.len(),
            final(self)@[i as int].label@ == label@,
            final(self)@ == synth_step(old(self)@, final(self)@[i as int]),
            has_label(old(self)@, label@) ==> final(self)@ == old(self)@,
            !has_label(old(self)@, label@) ==> i == old(self)@.len()
                && final(self)@ == old(self)@.push(final(self)@[i as int]),
    {
        let owned = label.to_owned();
        match self.find(&owned) {
            Some(i) => {
                proof {
                    assert(self@[i as int].label@ == label@);
                    assert(has_label(self@, label@));
                }
                i
            },
            None => {
                let info = build(owned, self.header);
                self.infos.push(info);
                let i = self.infos.len() - 1;
                proof {
                    assert(self@ =~= old(self)@.push(self@[i as int]));
                    assert forall|p: int, q: int|
                        0 <= p < q < self@.len() implies self@[p].label@ != self@[q].label@ by {
                        if q < self@.len() - 1 {
                            assert(old(self)@[p].label@ != old(self)@[q].label@);
                        } else if old(self)@[p].label@ == label@ {
                            assert(has_label(old(self)@, label@));
                        }
                    }
                    assert(has_label(self@, label@)) by {
                        assert(self@[i as int].label@ == label@);
                    }
                }
                i
            },
        }
    }

    /// Annotate `input` with `label`: reuse the label's cached dispatch
    /// table — synthesizing it first if the label is new — and pair
    /// `input`'s borrow with it. Handles for one label share one table.
    pub fn annotate<'a>(&mut self, input: &'a String, label: &str) -> (h: Handle<'a>)
        requires
            old(self).wf(),
        ensures
            final(self).wf(),
            final(self).spec_header() == old(self).spec_header(),
            h.label@ == label@,
            h.value@ == input@,
            h.table_index < final(self)@.len(),
            final(self)@[h.table_index as int].label@ == label@,
            has_label(old(self)@, label@) ==> final(self)@ == old(self)@,
            !has_label(old(self)@, label@) ==> h.table_index == old(self)@.len()
                && final(self)@ == old(self)@.push(final(self)@[h.table_index as int]),
    {
        let i = self.lookup_or_synthesize(label);
        let cached = self.infos[i].label.clone();
        pair(input, cached, i)
    }
}

} // verus!
