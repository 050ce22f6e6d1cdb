use odin_extension::extension::OdinExtension;
use odin_extension::labels::{CodeLabel, CodeLabelSpan, Completion, CompletionKind, LabelRange, Symbol, SymbolKind};

fn completion(label: &str, detail: Option<&str>, kind: Option<CompletionKind>) -> Completion {
    Completion { label: label.to_string(), detail: detail.map(|d| d.to_string()), kind }
}

fn label_of(label: &str, detail: Option<&str>, kind: CompletionKind) -> Option<CodeLabel> {
    OdinExtension::new().label_for_completion(completion(label, detail, Some(kind)))
}

fn code_range(l: &CodeLabel) -> (usize, usize) {
    assert_eq!(l.spans.len(), 1);
    match &l.spans[0] {
        CodeLabelSpan::CodeRange(r) => (r.start, r.end),
        CodeLabelSpan::Literal { .. } => panic!("expected a code range"),
    }
}

fn filter(l: &CodeLabel) -> (usize, usize) {
    (l.filter_range.start, l.filter_range.end)
}

#[test]
fn enum_with_union_detail_renders_as_union() {
    let l = label_of("Shape", Some("union { a, b }"), CompletionKind::Enum).unwrap();
    assert_eq!(l.code, "Shape :: union");
    assert_eq!(code_range(&l), (0, 14));
    assert_eq!(filter(&l), (0, 5));
}

#[test]
fn struct_with_array_detail_renders_the_array_type() {
    let l = label_of("name", Some("[4]int"), CompletionKind::Struct).unwrap();
    assert_eq!(l.code, "name :: [4]int");
    assert_eq!(code_range(&l), (0, 14));
    assert_eq!(filter(&l), (0, 4));
}

#[test]
fn struct_with_distinct_detail_renders_the_distinct_type() {
    let l = label_of("Id", Some("distinct u32"), CompletionKind::Struct).unwrap();
    assert_eq!(l.code, "Id :: distinct u32");
}

#[test]
fn struct_with_other_or_no_detail_renders_struct() {
    let l = label_of("Point", Some("struct {x, y}"), CompletionKind::Struct).unwrap();
    assert_eq!(l.code, "Point :: struct");
    let l = label_of("Point", None, CompletionKind::Struct).unwrap();
    assert_eq!(l.code, "Point :: struct");
}

#[test]
fn enum_with_integer_backing_shows_the_type() {
    let l = label_of("Color", Some("u8"), CompletionKind::Enum).unwrap();
    assert_eq!(l.code, "Color :: enum u8");
    let l = label_of("Color", Some("i128be"), CompletionKind::Enum).unwrap();
    assert_eq!(l.code, "Color :: enum i128be");
}

#[test]
fn enum_with_other_or_no_detail_renders_enum() {
    let l = label_of("Color", Some("f32"), CompletionKind::Enum).unwrap();
    assert_eq!(l.code, "Color :: enum");
    let l = label_of("Color", None, CompletionKind::Enum).unwrap();
    assert_eq!(l.code, "Color :: enum");
}

#[test]
fn variable_and_field_show_their_type() {
    let l = label_of("count", Some("int"), CompletionKind::Variable).unwrap();
    assert_eq!(l.code, "count: int");
    assert_eq!(code_range(&l), (0, 10));
    let l = label_of("x", None, CompletionKind::Field).unwrap();
    assert_eq!(l.code, "x: type");
}

#[test]
fn constant_shows_its_value() {
    let l = label_of("PI", Some("3.14"), CompletionKind::Constant).unwrap();
    assert_eq!(l.code, "PI :: 3.14");
    let l = label_of("PI", None, CompletionKind::Constant).unwrap();
    assert_eq!(l.code, "PI :: value");
}

#[test]
fn enum_member_and_property_highlight_the_name() {
    let l = label_of("Red", None, CompletionKind::EnumMember).unwrap();
    assert_eq!(l.code, ".Red");
    assert_eq!(code_range(&l), (1, 4));
    assert_eq!(filter(&l), (0, 3));
    let l = label_of("len", Some("int"), CompletionKind::Property).unwrap();
    assert_eq!(l.code, ".len");
    assert_eq!(code_range(&l), (1, 4));
}

#[test]
fn keyword_is_a_literal_span() {
    let l = label_of("proc", None, CompletionKind::Keyword).unwrap();
    assert_eq!(l.code, "proc");
    assert_eq!(l.spans.len(), 1);
    match &l.spans[0] {
        CodeLabelSpan::Literal { text, highlight_name } => {
            assert_eq!(text, "proc");
            assert_eq!(highlight_name.as_deref(), Some("keyword"));
        }
        CodeLabelSpan::CodeRange(_) => panic!("expected a literal"),
    }
    assert_eq!(filter(&l), (0, 4));
}

#[test]
fn module_highlights_the_package_name() {
    let l = label_of("fmt", None, CompletionKind::Module).unwrap();
    assert_eq!(l.code, "package fmt");
    assert_eq!(code_range(&l), (8, 11));
    assert_eq!(filter(&l), (0, 3));
}

#[test]
fn other_kinds_get_no_label() {
    assert!(label_of("foo", None, CompletionKind::Function).is_none());
    assert!(label_of("foo", None, CompletionKind::Other(99)).is_none());
    let ext = OdinExtension::new();
    assert!(ext.label_for_completion(completion("foo", None, None)).is_none());
}

#[test]
fn ranges_count_bytes() {
    let l = label_of("h\u{e9}llo", None, CompletionKind::Variable).unwrap();
    assert_eq!(l.code, "h\u{e9}llo: type");
    assert_eq!(filter(&l), (0, 6));
    assert_eq!(code_range(&l), (0, 12));
}

#[test]
fn same_completion_gives_same_label() {
    let a = label_of("Shape", Some("union { a, b }"), CompletionKind::Enum).unwrap();
    let b = label_of("Shape", Some("union { a, b }"), CompletionKind::Enum).unwrap();
    assert_eq!(a.code, b.code);
    assert_eq!(code_range(&a), code_range(&b));
    assert_eq!(filter(&a), filter(&b));
}

#[test]
fn symbols_render_generic_types() {
    let ext = OdinExtension::new();
    let cases = [
        (SymbolKind::Function, "main :: proc"),
        (SymbolKind::Variable, "main: type"),
        (SymbolKind::Field, "main: type"),
        (SymbolKind::Struct, "main :: struct"),
        (SymbolKind::Enum, "main :: enum"),
    ];
    for (kind, code) in cases {
        let l = ext.label_for_symbol(Symbol { name: "main".to_string(), kind }).unwrap();
        assert_eq!(l.code, code);
        assert_eq!(code_range(&l), (0, code.len()));
        assert_eq!(filter(&l), (0, 4));
    }
    assert!(ext.label_for_symbol(Symbol { name: "main".to_string(), kind: SymbolKind::Module }).is_none());
}

#[test]
fn integer_type_names() {
    for name in ["int", "i8", "uint", "uintptr", "byte", "rune", "u64le", "i16be", "u128be"] {
        assert!(OdinExtension::is_integer_type(name), "{name}");
    }
    for name in ["f32", "string", "Int", "i256", ""] {
        assert!(!OdinExtension::is_integer_type(name), "{name}");
    }
}

#[test]
fn label_helpers() {
    let l = OdinExtension::create_label("abc :: x".to_string(), 3);
    assert_eq!(code_range(&l), (0, 8));
    assert_eq!(filter(&l), (0, 3));
    let l = OdinExtension::create_label_with_span(".abc".to_string(), LabelRange { start: 1, end: 4 }, 3);
    assert_eq!(code_range(&l), (1, 4));
}
