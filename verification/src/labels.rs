//! How completions and symbols of the language server are shown in Zed: the
//! name is placed in a small piece of Haxe code that the grammar highlights.

use vstd::prelude::*;
use vstd::string::StringSliceAdditionalSpecFns;
use vstd::utf8::encode_utf8;

use crate::text::{lemma_encode_utf8_concat, lemma_encoding_at_most_four_bytes, lemma_trim_encoding_shorter, trim, trim_str};

verus! {

/// The kind of an LSP completion.
#[derive(Debug, Clone, Copy, PartialEq, Eq)]
pub enum CompletionKind {
    Text,
    Method,
    Function,
    Constructor,
    Field,
    Variable,
    Class,
    Interface,
    Module,
    Property,
    Unit,
    Value,
    Enum,
    Keyword,
    Snippet,
    Color,
    File,
    Reference,
    Folder,
    EnumMember,
    Constant,
    Struct,
    Event,
    Operator,
    TypeParameter,
    Other(i32),
}

/// The kind of an LSP symbol.
#[derive(Debug, Clone, Copy, PartialEq, Eq)]
pub enum SymbolKind {
    File,
    Module,
    Namespace,
    Package,
    Class,
    Method,
    Property,
    Field,
    Constructor,
    Enum,
    Interface,
    Function,
    Variable,
    Constant,
    String,
    Number,
    Boolean,
    Array,
    Object,
    Key,
    Null,
    EnumMember,
    Struct,
    Event,
    Operator,
    TypeParameter,
    Other(i32),
}

/// The Haxe declarations that a name can be shown in.
#[derive(Debug, Clone, Copy, PartialEq, Eq)]
pub enum Declaration {
    Function,
    Method,
    Class,
    Interface,
    Variable,
    Constant,
    Field,
    Property,
    Enum,
    EnumMember,
    Constructor,
    TypeParameter,
    Keyword,
}

/// The declaration that shows a completion of the given kind, if any.
pub open spec fn completion_declaration(kind: CompletionKind) -> Option<Declaration> {
    match kind {
        CompletionKind::Function => Some(Declaration::Function),
        CompletionKind::Method => Some(Declaration::Method),
        CompletionKind::Class => Some(Declaration::Class),
        CompletionKind::Interface => Some(Declaration::Interface),
        CompletionKind::Variable => Some(Declaration::Variable),
        CompletionKind::Constant => Some(Declaration::Constant),
        CompletionKind::Field => Some(Declaration::Field),
        CompletionKind::Property => Some(Declaration::Property),
        CompletionKind::Enum => Some(Declaration::Enum),
        CompletionKind::EnumMember => Some(Declaration::EnumMember),
        CompletionKind::Constructor => Some(Declaration::Constructor),
        CompletionKind::TypeParameter => Some(Declaration::TypeParameter),
        CompletionKind::Keyword => Some(Declaration::Keyword),
        _ => None,
    }
}

/// The declaration that shows a symbol of the given kind, if any.
pub open spec fn symbol_declaration(kind: SymbolKind) -> Option<Declaration> {
    match kind {
        SymbolKind::Function => Some(Declaration::Function),
        SymbolKind::Method => Some(Declaration::Method),
        SymbolKind::Class => Some(Declaration::Class),
        SymbolKind::Interface => Some(Declaration::Interface),
        SymbolKind::Variable => Some(Declaration::Variable),
        SymbolKind::Constant => Some(Declaration::Constant),
        SymbolKind::Field => Some(Declaration::Field),
        SymbolKind::Property => Some(Declaration::Property),
        SymbolKind::Enum => Some(Declaration::Enum),
        SymbolKind::EnumMember => Some(Declaration::EnumMember),
        SymbolKind::Constructor => Some(Declaration::Constructor),
        SymbolKind::TypeParameter => Some(Declaration::TypeParameter),
        _ => None,
    }
}

/// The Haxe code before and after the name in a declaration.
pub open spec fn declaration_affixes(d: Declaration) -> (Seq<char>, Seq<char>) {
    match d {
        Declaration::Function => ("function NOT_REAL_"@, "(){}"@),
        Declaration::Method => ("class NOT_REAL { public function NOT_REAL_"@, "(){} }"@),
        Declaration::Class => ("class NOT_REAL_"@, "{}"@),
        Declaration::Interface => ("interface NOT_REAL_"@, "{}"@),
        Declaration::Variable => ("var NOT_REAL_"@, ":Any;"@),
        Declaration::Constant => ("public static inline final NOT_REAL_"@, ":Any = null;"@),
        Declaration::Field => ("class NOT_REAL { var NOT_REAL_"@, ":Any; }"@),
        Declaration::Property => ("class NOT_REAL { var NOT_REAL_"@, "(get, set):Any; }"@),
        Declaration::Enum => ("enum NOT_REAL_"@, "{}"@),
        Declaration::EnumMember => ("enum NOT_REAL { NOT_REAL_"@, "; }"@),
        Declaration::Constructor => ("enum NOT_REAL { NOT_REAL_"@, "(foo:Any); }"@),
        Declaration::TypeParameter => ("class NOT_REAL<"@, ">{}"@),
        Declaration::Keyword => (""@, ""@),
    }
}

/// A range of bytes.
#[derive(Debug, Clone, Copy, PartialEq, Eq)]
pub struct LabelRange {
    pub start: usize,
    pub end: usize,
}

/// How Zed shows a completion or a symbol: a piece of code to highlight, the
/// bytes of it that are shown, and the bytes that filtering looks at.
pub struct CodeLabel {
    pub code: String,
    pub span: LabelRange,
    pub filter_range: LabelRange,
}

/// `label` shows `name` between `prefix` and `suffix`: the span covers the
/// name's bytes in the code, and filtering covers as many bytes from the
/// start.
pub open spec fn shows_name(label: CodeLabel, prefix: Seq<char>, name: Seq<char>, suffix: Seq<char>) -> bool {
    &&& label.code@ == prefix + name + suffix
    &&& label.span.start == encode_utf8(prefix).len()
    &&& label.span.end == encode_utf8(prefix).len() + encode_utf8(name).len()
    &&& label.filter_range.start == 0
    &&& label.filter_range.end == encode_utf8(name).len()
}

/// `label` shows `text`, trimmed, in the declaration `d`, if there is one.
pub open spec fn labels_as(label: Option<CodeLabel>, text: Seq<char>, d: Option<Declaration>) -> bool {
    match d {
        Some(d) => label matches Some(l) && shows_name(
            l,
            declaration_affixes(d).0,
            trim(text),
            declaration_affixes(d).1,
        ),
        None => label is None,
    }
}

fn affixes(d: Declaration) -> (res: (&'static str, &'static str))
    ensures
        (res.0@, res.1@) == declaration_affixes(d),
        res.0@.len() <= 64,
        res.1@.len() <= 64,
{
    match d {
        Declaration::Function => {
            proof { reveal_strlit("function NOT_REAL_"); reveal_strlit("(){}"); }
            ("function NOT_REAL_", "(){}")
        },
        Declaration::Method => {
            proof { reveal_strlit("class NOT_REAL { public function NOT_REAL_"); reveal_strlit("(){} }"); }
            ("class NOT_REAL { public function NOT_REAL_", "(){} }")
        },
        Declaration::Class => {
            proof { reveal_strlit("class NOT_REAL_"); reveal_strlit("{}"); }
            ("class NOT_REAL_", "{}")
        },
        Declaration::Interface => {
            proof { reveal_strlit("interface NOT_REAL_"); reveal_strlit("{}"); }
            ("interface NOT_REAL_", "{}")
        },
        Declaration::Variable => {
            proof { reveal_strlit("var NOT_REAL_"); reveal_strlit(":Any;"); }
            ("var NOT_REAL_", ":Any;")
        },
        Declaration::Constant => {
            proof { reveal_strlit("public static inline final NOT_REAL_"); reveal_strlit(":Any = null;"); }
            ("public static inline final NOT_REAL_", ":Any = null;")
        },
        Declaration::Field => {
            proof { reveal_strlit("class NOT_REAL { var NOT_REAL_"); reveal_strlit(":Any; }"); }
            ("class NOT_REAL { var NOT_REAL_", ":Any; }")
        },
        Declaration::Property => {
            proof { reveal_strlit("class NOT_REAL { var NOT_REAL_"); reveal_strlit("(get, set):Any; }"); }
            ("class NOT_REAL { var NOT_REAL_", "(get, set):Any; }")
        },
        Declaration::Enum => {
            proof { reveal_strlit("enum NOT_REAL_"); reveal_strlit("{}"); }
            ("enum NOT_REAL_", "{}")
        },
        Declaration::EnumMember => {
            proof { reveal_strlit("enum NOT_REAL { NOT_REAL_"); reveal_strlit("; }"); }
            ("enum NOT_REAL { NOT_REAL_", "; }")
        },
        Declaration::Constructor => {
            proof { reveal_strlit("enum NOT_REAL { NOT_REAL_"); reveal_strlit("(foo:Any); }"); }
            ("enum NOT_REAL { NOT_REAL_", "(foo:Any); }")
        },
        Declaration::TypeParameter => {
            proof { reveal_strlit("class NOT_REAL<"); reveal_strlit(">{}"); }
            ("class NOT_REAL<", ">{}")
        },
        Declaration::Keyword => {
            proof { reveal_strlit(""); }
            ("", "")
        },
    }
}

/// Shows `text`, trimmed, in the declaration `d`.
fn label_in(text: &str, d: Declaration) -> (res: CodeLabel)
    requires
        text.spec_bytes().len() <= isize::MAX,
    ensures
        shows_name(res, declaration_affixes(d).0, trim(text@), declaration_affixes(d).1),
{
    let name = trim_str(text);
    let (prefix, suffix) = affixes(d);
    proof {
        lemma_trim_encoding_shorter(text@);
        lemma_encoding_at_most_four_bytes(prefix@);
    }
    let start = prefix.len();
    let name_len = name.len();
    let mut code = prefix.to_string();
    code.append(name);
    code.append(suffix);
    CodeLabel {
        code,
        span: LabelRange { start, end: start + name_len },
        filter_range: LabelRange { start: 0, end: name_len },
    }
}

/// How a completion with the given text and kind is shown, if its kind is
/// one that Haxe code can show.
pub fn label_for_completion(label: &str, kind: Option<CompletionKind>) -> (res: Option<CodeLabel>)
    requires
        label.spec_bytes().len() <= isize::MAX,
    ensures
        labels_as(
            res,
            label@,
            match kind {
                Some(k) => completion_declaration(k),
                None => None,
            },
        ),
{
    let k = match kind {
        Some(k) => k,
        None => return None,
    };
    let d = match k {
        CompletionKind::Function => Declaration::Function,
        CompletionKind::Method => Declaration::Method,
        CompletionKind::Class => Declaration::Class,
        CompletionKind::Interface => Declaration::Interface,
        CompletionKind::Variable => Declaration::Variable,
        CompletionKind::Constant => Declaration::Constant,
        CompletionKind::Field => Declaration::Field,
        CompletionKind::Property => Declaration::Property,
        CompletionKind::Enum => Declaration::Enum,
        CompletionKind::EnumMember => Declaration::EnumMember,
        CompletionKind::Constructor => Declaration::Constructor,
        CompletionKind::TypeParameter => Declaration::TypeParameter,
        CompletionKind::Keyword => Declaration::Keyword,
        _ => return None,
    };
    Some(label_in(label, d))
}

/// How a symbol with the given name and kind is shown, if its kind is one
/// that Haxe code can show.
pub fn label_for_symbol(name: &str, kind: SymbolKind) -> (res: Option<CodeLabel>)
    requires
        name.spec_bytes().len() <= isize::MAX,
    ensures
        labels_as(res, name@, symbol_declaration(kind)),
{
    let d = match kind {
        SymbolKind::Function => Declaration::Function,
        SymbolKind::Method => Declaration::Method,
        SymbolKind::Class => Declaration::Class,
        SymbolKind::Interface => Declaration::Interface,
        SymbolKind::Variable => Declaration::Variable,
        SymbolKind::Constant => Declaration::Constant,
        SymbolKind::Field => Declaration::Field,
        SymbolKind::Property => Declaration::Property,
        SymbolKind::Enum => Declaration::Enum,
        SymbolKind::EnumMember => Declaration::EnumMember,
        SymbolKind::Constructor => Declaration::Constructor,
        SymbolKind::TypeParameter => Declaration::TypeParameter,
        _ => return None,
    };
    Some(label_in(name, d))
}

/// The span of a label picks out exactly the bytes of the name in its code,
/// and filtering looks at as many bytes, from the start of the name.
pub proof fn law_span_is_the_name(label: CodeLabel, prefix: Seq<char>, name: Seq<char>, suffix: Seq<char>)
    requires
        shows_name(label, prefix, name, suffix),
    ensures
        encode_utf8(label.code@).subrange(label.span.start as int, label.span.end as int) == encode_utf8(name),
        label.filter_range.start == 0,
        label.filter_range.end == label.span.end - label.span.start,
{
    lemma_encode_utf8_concat(prefix, name);
    lemma_encode_utf8_concat(prefix + name, suffix);
    let p = encode_utf8(prefix);
    let n = encode_utf8(name);
    let s = encode_utf8(suffix);
    assert((p + n + s).subrange(p.len() as int, (p.len() + n.len()) as int) =~= n);
}

/// Each kind of symbol that Haxe code can show is shown in its own
/// declaration: the code is the Haxe text of that declaration around the
/// trimmed name (a method in a class, a variable with a `var`, and so on).
/// The other kinds get no label.
pub proof fn law_symbol_code(name: Seq<char>, kind: SymbolKind, res: Option<CodeLabel>)
    requires
        labels_as(res, name, symbol_declaration(kind)),
    ensures
        ({
            let n = trim(name);
            match kind {
                SymbolKind::Function => res matches Some(l) && l.code@ == "function NOT_REAL_"@ + n + "(){}"@,
                SymbolKind::Method => res matches Some(l) && l.code@ == "class NOT_REAL { public function NOT_REAL_"@
                    + n + "(){} }"@,
                SymbolKind::Class => res matches Some(l) && l.code@ == "class NOT_REAL_"@ + n + "{}"@,
                SymbolKind::Interface => res matches Some(l) && l.code@ == "interface NOT_REAL_"@ + n + "{}"@,
                SymbolKind::Variable => res matches Some(l) && l.code@ == "var NOT_REAL_"@ + n + ":Any;"@,
                SymbolKind::Constant => res matches Some(l) && l.code@ == "public static inline final NOT_REAL_"@ + n
                    + ":Any = null;"@,
                SymbolKind::Field => res matches Some(l) && l.code@ == "class NOT_REAL { var NOT_REAL_"@ + n
                    + ":Any; }"@,
                SymbolKind::Property => res matches Some(l) && l.code@ == "class NOT_REAL { var NOT_REAL_"@ + n
                    + "(get, set):Any; }"@,
                SymbolKind::Enum => res matches Some(l) && l.code@ == "enum NOT_REAL_"@ + n + "{}"@,
                SymbolKind::EnumMember => res matches Some(l) && l.code@ == "enum NOT_REAL { NOT_REAL_"@ + n + "; }"@,
                SymbolKind::Constructor => res matches Some(l) && l.code@ == "enum NOT_REAL { NOT_REAL_"@ + n
                    + "(foo:Any); }"@,
                SymbolKind::TypeParameter => res matches Some(l) && l.code@ == "class NOT_REAL<"@ + n + ">{}"@,
                _ => res is None,
            }
        }),
{
}

/// Each kind of completion that Haxe code can show is shown in its own
/// declaration, as symbols are, and a keyword is shown as the trimmed text
/// alone. Completions without a kind, or of the other kinds, get no label.
pub proof fn law_completion_code(text: Seq<char>, kind: Option<CompletionKind>, res: Option<CodeLabel>)
    requires
        labels_as(
            res,
            text,
            match kind {
                Some(k) => completion_declaration(k),
                None => None,
            },
        ),
    ensures
        ({
            let n = trim(text);
            match kind {
                Some(CompletionKind::Function) => res matches Some(l) && l.code@ == "function NOT_REAL_"@ + n
                    + "(){}"@,
                Some(CompletionKind::Method) => res matches Some(l) && l.code@
                    == "class NOT_REAL { public function NOT_REAL_"@ + n + "(){} }"@,
                Some(CompletionKind::Class) => res matches Some(l) && l.code@ == "class NOT_REAL_"@ + n + "{}"@,
                Some(CompletionKind::Interface) => res matches Some(l) && l.code@ == "interface NOT_REAL_"@ + n
                    + "{}"@,
                Some(CompletionKind::Variable) => res matches Some(l) && l.code@ == "var NOT_REAL_"@ + n + ":Any;"@,
                Some(CompletionKind::Constant) => res matches Some(l) && l.code@
                    == "public static inline final NOT_REAL_"@ + n + ":Any = null;"@,
                Some(CompletionKind::Field) => res matches Some(l) && l.code@ == "class NOT_REAL { var NOT_REAL_"@ + n
                    + ":Any; }"@,
                Some(CompletionKind::Property) => res matches Some(l) && l.code@ == "class NOT_REAL { var NOT_REAL_"@
                    + n + "(get, set):Any; }"@,
                Some(CompletionKind::Enum) => res matches Some(l) && l.code@ == "enum NOT_REAL_"@ + n + "{}"@,
                Some(CompletionKind::EnumMember) => res matches Some(l) && l.code@ == "enum NOT_REAL { NOT_REAL_"@ + n
                    + "; }"@,
                Some(CompletionKind::Constructor) => res matches Some(l) && l.code@ == "enum NOT_REAL { NOT_REAL_"@
                    + n + "(foo:Any); }"@,
                Some(CompletionKind::TypeParameter) => res matches Some(l) && l.code@ == "class NOT_REAL<"@ + n
                    + ">{}"@,
                Some(CompletionKind::Keyword) => res matches Some(l) && l.code@ == n,
                _ => res is None,
            }
        }),
{
    if kind == Some(CompletionKind::Keyword) {
        reveal_strlit("");
        assert(""@ + trim(text) + ""@ =~= trim(text));
    }
}

} // verus!
