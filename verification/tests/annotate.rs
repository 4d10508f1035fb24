use typelabel::dynvtable::{TypeSystem, VtableHeader};

fn string_header() -> VtableHeader {
    VtableHeader {
        destructor_addr: 0,
        size: std::mem::size_of::<String>(),
        align: std::mem::align_of::<String>(),
    }
}

#[test]
fn leaking_test() {
    let input: String = "hello".into();
    let annotated1 = typelabel::annotate(&input, "Widget");
    let annotated2 = typelabel::annotate(&input, "Gadget");

    assert_eq!("Widget", annotated1.label());
    assert_eq!("Gadget", annotated2.label());

    let unwrapped1 = annotated1.as_string();
    let unwrapped2 = annotated2.as_string();

    assert!(std::ptr::eq(unwrapped1, &input));
    assert!(std::ptr::eq(unwrapped2, &input));
}

#[test]
fn arena_test() {
    let input: String = "hello".into();
    let ts = typelabel::arena::TypeSystem::new();

    let annotated1 = ts.annotate(&input, "Widget");
    let annotated2 = ts.annotate(&input, "Gadget");

    assert_eq!("Widget", annotated1.label());
    assert_eq!("Gadget", annotated2.label());

    let unwrapped1 = annotated1.as_string();
    let unwrapped2 = annotated2.as_string();

    assert!(std::ptr::eq(unwrapped1, &input));
    assert!(std::ptr::eq(unwrapped2, &input));
}

#[test]
fn dynvtable_test() {
    let mut ts = TypeSystem::new(string_header());

    let input: String = "hello".into();
    let annotated1 = ts.annotate(&input, "Widget");
    let annotated2 = ts.annotate(&input, "Gadget");

    assert_eq!("Widget", annotated1.label());
    assert_eq!("Gadget", annotated2.label());

    let unwrapped1 = annotated1.as_string();
    let unwrapped2 = annotated2.as_string();

    assert!(std::ptr::eq(unwrapped1, &input));
    assert!(std::ptr::eq(unwrapped2, &input));
}

#[test]
fn same_label_reuses_the_cached_table() {
    let mut ts = TypeSystem::new(string_header());

    let input: String = "hello".into();
    let h1 = ts.annotate(&input, "Widget");
    let h2 = ts.annotate(&input, "Widget");

    assert_eq!(h1.label(), h2.label());
    assert_eq!(h1.table_index, h2.table_index);
    assert_eq!(ts.table_count(), 1);
    assert!(std::ptr::eq(h1.as_string(), &input));
    assert!(std::ptr::eq(h2.as_string(), &input));

    let h3 = ts.annotate(&input, "Gadget");
    assert_ne!(h3.table_index, h1.table_index);
    assert_eq!(ts.table_count(), 2);
}

#[test]
fn empty_label_round_trips() {
    let input: String = "hello".into();

    let leaked = typelabel::annotate(&input, "");
    assert_eq!("", leaked.label());
    assert!(std::ptr::eq(leaked.as_string(), &input));

    let arena = typelabel::arena::TypeSystem::new();
    let pooled = arena.annotate(&input, "");
    assert_eq!("", pooled.label());
    assert!(std::ptr::eq(pooled.as_string(), &input));

    let mut ts = TypeSystem::new(string_header());
    let dynamic = ts.annotate(&input, "");
    assert_eq!("", dynamic.label());
    assert!(std::ptr::eq(dynamic.as_string(), &input));
}

#[test]
fn emitted_code_bytes() {
    let mut out: Vec<u8> = Vec::new();
    typelabel::emit::emit_label_code(&mut out, 0x1122334455667788, 5);
    typelabel::emit::emit_value_code(&mut out);
    assert_eq!(
        out,
        vec![
            0x48, 0xb8, 0x88, 0x77, 0x66, 0x55, 0x44, 0x33, 0x22, 0x11, // mov rax, addr
            0x48, 0xba, 0x05, 0x00, 0x00, 0x00, 0x00, 0x00, 0x00, 0x00, // mov rdx, len
            0xc3, // ret
            0x48, 0x89, 0xf8, // mov rax, rdi
            0xc3, // ret
        ]
    );
}

#[test]
fn synthesized_table_shape() {
    let header = string_header();
    let mut ts = TypeSystem::new(header);

    let input: String = "hello".into();
    let h = ts.annotate(&input, "Widget");
    let table = ts.table_at(h.table_index);

    assert_eq!(table.header, header);
    assert_eq!(table.label_fn_offset, 0);
    assert_eq!(table.as_string_fn_offset, 21);
}

#[test]
fn layout_mismatch_is_detected() {
    let good = string_header();
    assert!(typelabel::dynvtable::header_layout_ok(&good));

    let bad = VtableHeader { destructor_addr: 0, size: 1, align: 1 };
    assert!(!typelabel::dynvtable::header_layout_ok(&bad));
}
