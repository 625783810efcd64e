use zed_haxe::labels::{label_for_completion, label_for_symbol, CodeLabel, CompletionKind, SymbolKind};

fn shown(label: &CodeLabel) -> &str {
    &label.code[label.span.start..label.span.end]
}

#[test]
fn function_completion_is_shown_in_a_function() {
    let label = label_for_completion("  trace ", Some(CompletionKind::Function)).unwrap();
    assert_eq!(label.code, "function NOT_REAL_trace(){}");
    assert_eq!((label.span.start, label.span.end), (18, 23));
    assert_eq!((label.filter_range.start, label.filter_range.end), (0, 5));
    assert_eq!(shown(&label), "trace");
}

#[test]
fn every_supported_completion_kind_shows_the_name() {
    let kinds = [
        (CompletionKind::Function, "function NOT_REAL_x(){}"),
        (CompletionKind::Method, "class NOT_REAL { public function NOT_REAL_x(){} }"),
        (CompletionKind::Class, "class NOT_REAL_x{}"),
        (CompletionKind::Interface, "interface NOT_REAL_x{}"),
        (CompletionKind::Variable, "var NOT_REAL_x:Any;"),
        (CompletionKind::Constant, "public static inline final NOT_REAL_x:Any = null;"),
        (CompletionKind::Field, "class NOT_REAL { var NOT_REAL_x:Any; }"),
        (CompletionKind::Property, "class NOT_REAL { var NOT_REAL_x(get, set):Any; }"),
        (CompletionKind::Enum, "enum NOT_REAL_x{}"),
        (CompletionKind::EnumMember, "enum NOT_REAL { NOT_REAL_x; }"),
        (CompletionKind::Constructor, "enum NOT_REAL { NOT_REAL_x(foo:Any); }"),
        (CompletionKind::TypeParameter, "class NOT_REAL<x>{}"),
        (CompletionKind::Keyword, "x"),
    ];
    for (kind, code) in kinds {
        let label = label_for_completion("x", Some(kind)).unwrap();
        assert_eq!(label.code, code);
        assert_eq!(shown(&label), "x");
    }
}

#[test]
fn unsupported_completions_have_no_label() {
    assert!(label_for_completion("x", None).is_none());
    for kind in [CompletionKind::Text, CompletionKind::Module, CompletionKind::Snippet, CompletionKind::Other(3)] {
        assert!(label_for_completion("x", Some(kind)).is_none());
    }
}

#[test]
fn ranges_count_bytes_of_the_name() {
    let label = label_for_completion("\u{a0}café\n", Some(CompletionKind::Variable)).unwrap();
    assert_eq!(label.code, "var NOT_REAL_café:Any;");
    assert_eq!((label.span.start, label.span.end), (13, 18));
    assert_eq!((label.filter_range.start, label.filter_range.end), (0, 5));
    assert_eq!(shown(&label), "café");
}

#[test]
fn symbols_are_shown_like_completions() {
    let label = label_for_symbol(" Main ", SymbolKind::Class).unwrap();
    assert_eq!(label.code, "class NOT_REAL_Main{}");
    assert_eq!(shown(&label), "Main");
    let label = label_for_symbol("T", SymbolKind::TypeParameter).unwrap();
    assert_eq!(label.code, "class NOT_REAL<T>{}");
    for kind in [SymbolKind::File, SymbolKind::Namespace, SymbolKind::Number, SymbolKind::Other(0)] {
        assert!(label_for_symbol("x", kind).is_none());
    }
}

#[test]
fn blank_name_gives_empty_span() {
    let label = label_for_symbol("   ", SymbolKind::Function).unwrap();
    assert_eq!(label.code, "function NOT_REAL_(){}");
    assert_eq!((label.span.start, label.span.end), (18, 18));
}
