//! Display labels for completion items and symbols, written the way the
//! declaration would read in Odin source.

use vstd::prelude::*;
use crate::extension::OdinExtension;
use crate::text::{byte_len, contains_seq, contains_text, lemma_byte_len_concat, same_text, starts_with_text};
use vstd::utf8::{is_ascii_chars, is_ascii_chars_encode_utf8};

verus! {

/// The kind of a completion item, as the language server reports it.
#[derive(Clone, Copy, Debug, PartialEq, Eq, Structural)]
pub enum CompletionKind {
    Text,
    Method,
    Function,
    Constructor,
    Field,
    Variable,
    Class,
    Interface,
    Module,
    Property,
    Unit,
    Value,
    Enum,
    Keyword,
    Snippet,
    Color,
    File,
    Reference,
    Folder,
    EnumMember,
    Constant,
    Struct,
    Event,
    Operator,
    TypeParameter,
    Other(i32),
}

/// The kind of a document or workspace symbol.
#[derive(Clone, Copy, Debug, PartialEq, Eq, Structural)]
pub enum SymbolKind {
    File,
    Module,
    Namespace,
    Package,
    Class,
    Method,
    Property,
    Field,
    Constructor,
    Enum,
    Interface,
    Function,
    Variable,
    Constant,
    String,
    Number,
    Boolean,
    Array,
    Object,
    Key,
    Null,
    EnumMember,
    Struct,
    Event,
    Operator,
    TypeParameter,
    Other(i32),
}

/// A completion item: its label, the server's free-text detail and its kind.
pub struct Completion {
    pub label: String,
    pub detail: Option<String>,
    pub kind: Option<CompletionKind>,
}

/// A symbol: its name and kind.
pub struct Symbol {
    pub name: String,
    pub kind: SymbolKind,
}

/// A half-open byte range `start..end` into a label's code.
#[derive(Clone, Copy, Debug, PartialEq, Eq, Structural)]
pub struct LabelRange {
    pub start: usize,
    pub end: usize,
}

/// A highlighted part of a label.
pub enum CodeLabelSpan {
    /// A range of the label's code, highlighted as code.
    CodeRange(LabelRange),
    /// Literal text with an optional highlight name.
    Literal { text: String, highlight_name: Option<String> },
}

/// A rendered label: code to highlight, the spans shown, and the range used
/// for filtering.
pub struct CodeLabel {
    pub code: String,
    pub spans: Vec<CodeLabelSpan>,
    pub filter_range: LabelRange,
}

/// A completion item as text.
pub struct CompletionView {
    pub label: Seq<char>,
    pub detail: Option<Seq<char>>,
    pub kind: Option<CompletionKind>,
}

/// A label span as text.
pub enum SpanView {
    CodeRange(LabelRange),
    Literal(Seq<char>, Option<Seq<char>>),
}

/// A label as text.
pub struct CodeLabelView {
    pub code: Seq<char>,
    pub spans: Seq<SpanView>,
    pub filter_range: LabelRange,
}

/// The text of an optional string.
pub open spec fn opt_text(o: Option<String>) -> Option<Seq<char>> {
    match o {
        Some(s) => Some(s@),
        None => None,
    }
}

impl View for Completion {
    type V = CompletionView;

    open spec fn view(&self) -> CompletionView {
        CompletionView { label: self.label@, detail: opt_text(self.detail), kind: self.kind }
    }
}

impl View for CodeLabelSpan {
    type V = SpanView;

    open spec fn view(&self) -> SpanView {
        match self {
            CodeLabelSpan::CodeRange(r) => SpanView::CodeRange(*r),
            CodeLabelSpan::Literal { text, highlight_name } => SpanView::Literal(
                text@,
                opt_text(*highlight_name),
            ),
        }
    }
}

impl View for CodeLabel {
    type V = CodeLabelView;

    open spec fn view(&self) -> CodeLabelView {
        CodeLabelView {
            code: self.code@,
            spans: self.spans@.map_values(|s: CodeLabelSpan| s@),
            filter_range: self.filter_range,
        }
    }
}

/// The text of an optional label.
pub open spec fn opt_label_view(o: Option<CodeLabel>) -> Option<CodeLabelView> {
    match o {
        Some(l) => Some(l@),
        None => None,
    }
}

/// The integer type names that an enum may be backed by: sized signed and
/// unsigned integers in native, little-endian and big-endian form, plus
/// `byte` and `rune`.
pub open spec fn is_integer_type_spec(s: Seq<char>) -> bool {
    s == "int"@ || s == "i8"@ || s == "i16"@ || s == "i32"@ || s == "i64"@ || s == "i128"@
        || s == "uint"@ || s == "u8"@ || s == "u16"@ || s == "u32"@ || s == "u64"@
        || s == "u128"@ || s == "uintptr"@ || s == "byte"@ || s == "rune"@ || s == "i16le"@
        || s == "i32le"@ || s == "i64le"@ || s == "i128le"@ || s == "u16le"@ || s == "u32le"@
        || s == "u64le"@ || s == "u128le"@ || s == "i16be"@ || s == "i32be"@ || s == "i64be"@
        || s == "i128be"@ || s == "u16be"@ || s == "u32be"@ || s == "u64be"@ || s == "u128be"@
}

/// A label whose whole code is highlighted and whose first `filter_len`
/// bytes are matched when filtering.
pub open spec fn whole_label(code: Seq<char>, filter_len: nat) -> CodeLabelView {
    CodeLabelView {
        code,
        spans: seq![SpanView::CodeRange(LabelRange { start: 0, end: byte_len(code) as usize })],
        filter_range: LabelRange { start: 0, end: filter_len as usize },
    }
}

/// A label with one highlighted byte range `start..end`.
pub open spec fn ranged_label(code: Seq<char>, start: nat, end: nat, filter_len: nat) -> CodeLabelView {
    CodeLabelView {
        code,
        spans: seq![SpanView::CodeRange(LabelRange { start: start as usize, end: end as usize })],
        filter_range: LabelRange { start: 0, end: filter_len as usize },
    }
}

/// The code shown for a struct: its array or distinct type when the detail
/// gives one, else `struct`.
pub open spec fn struct_code(name: Seq<char>, detail: Option<Seq<char>>) -> Seq<char> {
    if detail is Some && ("["@.is_prefix_of(detail->0) || "distinct"@.is_prefix_of(detail->0)) {
        name + " :: "@ + detail->0
    } else {
        name + " :: struct"@
    }
}

/// The code shown for an enum: a union when the detail mentions one, the
/// backing integer type when the detail names one, else a plain enum.
pub open spec fn enum_code(name: Seq<char>, detail: Option<Seq<char>>) -> Seq<char> {
    if detail is Some && contains_seq(detail->0, "union"@) {
        name + " :: union"@
    } else if detail is Some && is_integer_type_spec(detail->0) {
        name + " :: enum "@ + detail->0
    } else {
        name + " :: enum"@
    }
}

/// The detail, or `fallback` when there is none.
pub open spec fn detail_or(detail: Option<Seq<char>>, fallback: Seq<char>) -> Seq<char> {
    match detail {
        Some(d) => d,
        None => fallback,
    }
}

/// The label of a completion item, or `None` for kinds that get no label.
pub open spec fn completion_label(c: CompletionView) -> Option<CodeLabelView> {
    let name = c.label;
    let n = byte_len(name);
    match c.kind {
        Some(CompletionKind::Struct) => Some(whole_label(struct_code(name, c.detail), n)),
        Some(CompletionKind::Enum) => Some(whole_label(enum_code(name, c.detail), n)),
        Some(CompletionKind::Variable) | Some(CompletionKind::Field) => Some(
            whole_label(name + ": "@ + detail_or(c.detail, "type"@), n),
        ),
        Some(CompletionKind::Constant) => Some(
            whole_label(name + " :: "@ + detail_or(c.detail, "value"@), n),
        ),
        Some(CompletionKind::EnumMember) | Some(CompletionKind::Property) => Some(
            ranged_label("."@ + name, 1, n + 1, n),
        ),
        Some(CompletionKind::Keyword) => Some(
            CodeLabelView {
                code: name,
                spans: seq![SpanView::Literal(name, Some("keyword"@))],
                filter_range: LabelRange { start: 0, end: n as usize },
            },
        ),
        Some(CompletionKind::Module) => Some(ranged_label("package "@ + name, 8, n + 8, n)),
        _ => None,
    }
}

/// The label of a symbol, or `None` for kinds that get no label. Symbols
/// carry no type detail, so enums and unions read alike.
pub open spec fn symbol_label(kind: SymbolKind, name: Seq<char>) -> Option<CodeLabelView> {
    let n = byte_len(name);
    match kind {
        SymbolKind::Function => Some(whole_label(name + " :: proc"@, n)),
        SymbolKind::Variable | SymbolKind::Field => Some(whole_label(name + ": type"@, n)),
        SymbolKind::Struct => Some(whole_label(name + " :: struct"@, n)),
        SymbolKind::Enum => Some(whole_label(name + " :: enum"@, n)),
        _ => None,
    }
}

proof fn lemma_ascii_prefix_len(prefix: Seq<char>, name: Seq<char>)
    requires
        is_ascii_chars(prefix),
    ensures
        byte_len(prefix + name) == prefix.len() + byte_len(name),
{
    lemma_byte_len_concat(prefix, name);
    is_ascii_chars_encode_utf8(prefix);
}

impl OdinExtension {
    /// Whether `s` names an integer type that can back an enum.
    pub fn is_integer_type(s: &str) -> (r: bool)
        ensures
            r == is_integer_type_spec(s@),
    {
        same_text(s, "int") || same_text(s, "i8") || same_text(s, "i16") || same_text(s, "i32")
            || same_text(s, "i64") || same_text(s, "i128") || same_text(s, "uint")
            || same_text(s, "u8") || same_text(s, "u16") || same_text(s, "u32")
            || same_text(s, "u64") || same_text(s, "u128") || same_text(s, "uintptr")
            || same_text(s, "byte") || same_text(s, "rune") || same_text(s, "i16le")
            || same_text(s, "i32le") || same_text(s, "i64le") || same_text(s, "i128le")
            || same_text(s, "u16le") || same_text(s, "u32le") || same_text(s, "u64le")
            || same_text(s, "u128le") || same_text(s, "i16be") || same_text(s, "i32be")
            || same_text(s, "i64be") || same_text(s, "i128be") || same_text(s, "u16be")
            || same_text(s, "u32be") || same_text(s, "u64be") || same_text(s, "u128be")
    }

    /// A label whose whole code is highlighted.
    pub fn create_label(code: String, filter_len: usize) -> (r: CodeLabel)
        ensures
            r@ == whole_label(code@, filter_len as nat),
    {
        let code_len = code.as_str().len();
        let spans = vec![CodeLabelSpan::CodeRange(LabelRange { start: 0, end: code_len })];
        let r = CodeLabel { code, spans, filter_range: LabelRange { start: 0, end: filter_len } };
        assert(r@.spans =~= whole_label(code@, filter_len as nat).spans);
        r
    }

    /// A label with one highlighted range of its code.
    pub fn create_label_with_span(code: String, span: LabelRange, filter_len: usize) -> (r: CodeLabel)
        ensures
            r@ == ranged_label(code@, span.start as nat, span.end as nat, filter_len as nat),
    {
        let spans = vec![CodeLabelSpan::CodeRange(span)];
        let r = CodeLabel { code, spans, filter_range: LabelRange { start: 0, end: filter_len } };
        assert(r@.spans =~= ranged_label(code@, span.start as nat, span.end as nat, filter_len as nat).spans);
        r
    }

    /// The label for a completion item, or `None` when its kind gets none.
    pub fn label_for_completion(&self, completion: Completion) -> (r: Option<CodeLabel>)
        ensures
            opt_label_view(r) == completion_label(completion@),
    {
        let ghost c = completion@;
        let kind = match completion.kind {
            Some(k) => k,
            None => {
                return None;
            },
        };
        let label = completion.label.as_str();
        let filter_len = label.len();
        let ghost name = label@;
        proof {
            reveal_strlit("");
            assert(name + " :: struct"@ + ""@ =~= name + " :: struct"@);
            assert(name + " :: union"@ + ""@ =~= name + " :: union"@);
            assert(name + " :: enum"@ + ""@ =~= name + " :: enum"@);
        }
        match kind {
            CompletionKind::Struct => {
                let mut code = join3(label, " :: struct", "");
                if let Some(detail) = &completion.detail {
                    if starts_with_text(detail.as_str(), "[") || starts_with_text(
                        detail.as_str(),
                        "distinct",
                    ) {
                        code = join3(label, " :: ", detail.as_str());
                    }
                }
                Some(Self::create_label(code, filter_len))
            },
            CompletionKind::Enum => {
                let mut code = join3(label, " :: enum", "");
                if let Some(detail) = &completion.detail {
                    if contains_text(detail.as_str(), "union") {
                        code = join3(label, " :: union", "");
                    } else if Self::is_integer_type(detail.as_str()) {
                        code = join3(label, " :: enum ", detail.as_str());
                    }
                }
                Some(Self::create_label(code, filter_len))
            },
            CompletionKind::Variable | CompletionKind::Field => {
                let code = match &completion.detail {
                    Some(detail) => join3(label, ": ", detail.as_str()),
                    None => join3(label, ": ", "type"),
                };
                Some(Self::create_label(code, filter_len))
            },
            CompletionKind::Constant => {
                let code = match &completion.detail {
                    Some(detail) => join3(label, " :: ", detail.as_str()),
                    None => join3(label, " :: ", "value"),
                };
                Some(Self::create_label(code, filter_len))
            },
            CompletionKind::EnumMember | CompletionKind::Property => {
                let code = join3(".", label, "");
                proof {
                    reveal_strlit(".");
                    reveal_strlit("");
                    assert(code@ =~= "."@ + name);
                    lemma_ascii_prefix_len("."@, name);
                }
                let span = LabelRange { start: 1, end: code.as_str().len() };
                Some(Self::create_label_with_span(code, span, filter_len))
            },
            CompletionKind::Keyword => {
                let spans = vec![
                    CodeLabelSpan::Literal {
                        text: completion.label.clone(),
                        highlight_name: Some(String::from_str("keyword")),
                    },
                ];
                let r = CodeLabel {
                    code: completion.label,
                    spans,
                    filter_range: LabelRange { start: 0, end: filter_len },
                };
                assert(r@.spans =~= completion_label(c)->0.spans);
                Some(r)
            },
            CompletionKind::Module => {
                let code = join3("package ", label, "");
                proof {
                    reveal_strlit("package ");
                    reveal_strlit("");
                    assert(code@ =~= "package "@ + name);
                    assert(is_ascii_chars("package "@));
                    lemma_ascii_prefix_len("package "@, name);
                }
                let span = LabelRange { start: 8, end: code.as_str().len() };
                Some(Self::create_label_with_span(code, span, filter_len))
            },
            _ => None,
        }
    }
    /// The label for a symbol, or `None` when its kind gets none.
    pub fn label_for_symbol(&self, symbol: Symbol) -> (r: Option<CodeLabel>)
        ensures
            opt_label_view(r) == symbol_label(symbol.kind, symbol.name@),
    {
        let name = symbol.name.as_str();
        let filter_len = name.len();
        proof {
            reveal_strlit("");
            assert(name@ + " :: proc"@ + ""@ =~= name@ + " :: proc"@);
            assert(name@ + ": type"@ + ""@ =~= name@ + ": type"@);
            assert(name@ + " :: struct"@ + ""@ =~= name@ + " :: struct"@);
            assert(name@ + " :: enum"@ + ""@ =~= name@ + " :: enum"@);
        }
        match symbol.kind {
            SymbolKind::Function => Some(Self::create_label(join3(name, " :: proc", ""), filter_len)),
            SymbolKind::Variable | SymbolKind::Field => Some(
                Self::create_label(join3(name, ": type", ""), filter_len),
            ),
            SymbolKind::Struct => Some(Self::create_label(join3(name, " :: struct", ""), filter_len)),
            SymbolKind::Enum => Some(Self::create_label(join3(name, " :: enum", ""), filter_len)),
            _ => None,
        }
    }
}

/// Labels depend on nothing but the item: two completion items with the same
/// kind, label and detail get the same label.
pub proof fn lemma_completion_label_is_pure(
    a: Completion,
    b: Completion,
    la: Option<CodeLabel>,
    lb: Option<CodeLabel>,
)
    requires
        a@ == b@,
        opt_label_view(la) == completion_label(a@),
        opt_label_view(lb) == completion_label(b@),
    ensures
        opt_label_view(la) == opt_label_view(lb),
{
}

/// Two symbols with the same kind and name get the same label.
pub proof fn lemma_symbol_label_is_pure(a: Symbol, b: Symbol, la: Option<CodeLabel>, lb: Option<CodeLabel>)
    requires
        a.kind == b.kind,
        a.name@ == b.name@,
        opt_label_view(la) == symbol_label(a.kind, a.name@),
        opt_label_view(lb) == symbol_label(b.kind, b.name@),
    ensures
        opt_label_view(la) == opt_label_view(lb),
{
}

/// `a` followed by `b` and `c`.
fn join3(a: &str, b: &str, c: &str) -> (r: String)
    ensures
        r@ == a@ + b@ + c@,
{
    let mut s = String::from_str(a);
    s.append(b);
    s.append(c);
    s
}

} // verus!
