use memoize_macro::decl::Parameter;
use memoize_macro::diagnostic::{Diagnostic, DiagnosticKind, Site};
use memoize_macro::syntax::{memoize_item, read_function};

fn read(source: &str) -> memoize_macro::decl::FunctionDecl {
    read_function(&syn::parse_str::<syn::ItemFn>(source).unwrap())
}

fn memoized(attr: &str, source: &str) -> Result<String, Diagnostic> {
    memoize_item(attr, &syn::parse_str::<syn::ItemFn>(source).unwrap())
}

fn refusal(source: &str) -> Diagnostic {
    match memoized("", source) {
        Err(d) => d,
        Ok(text) => panic!("{}", text),
    }
}

#[test]
fn read_a_plain_function() {
    let f = read("fn fib(n: u64) -> u64 { n }");
    assert_eq!(f.qualifiers, "");
    assert_eq!(f.name, "fib");
    assert_eq!(f.generics, "");
    assert_eq!(f.params.len(), 1);
    match &f.params[0] {
        Parameter::Named { binding, name, ty } => {
            assert_eq!(binding, "n");
            assert_eq!(name, "n");
            assert_eq!(ty, "u64");
        }
        _ => panic!("a named parameter"),
    }
    assert_eq!(f.output, Some("u64".to_string()));
    assert_eq!(f.where_clause, "");
    assert_eq!(f.body, "{ n }");
}

#[test]
fn read_what_stands_around_the_signature() {
    let f = read(
        "#[inline] pub(crate) unsafe fn f<T>(mut t: T, _: u8) -> T where T: Clone { #![allow(unused)] t }",
    );
    assert_eq!(f.qualifiers, "# [ inline ] pub ( crate ) unsafe");
    assert_eq!(f.name, "f");
    assert_eq!(f.generics, "< T >");
    assert_eq!(f.where_clause, "where T : Clone");
    assert_eq!(f.body, "{ # ! [ allow ( unused ) ] t }");
    assert_eq!(f.params.len(), 2);
    match &f.params[0] {
        Parameter::Named { binding, name, ty } => {
            assert_eq!(binding, "mut t");
            assert_eq!(name, "t");
            assert_eq!(ty, "T");
        }
        _ => panic!("a named parameter"),
    }
    match &f.params[1] {
        Parameter::Wildcard { ty } => assert_eq!(ty, "u8"),
        _ => panic!("a wildcard"),
    }
}

#[test]
fn read_the_shapes_of_parameters() {
    let f = read("fn f(&mut self, (a, b): (u8, u8), u16) { }");
    assert_eq!(f.output, None);
    match &f.params[0] {
        Parameter::Receiver { text } => assert_eq!(text, "& mut self"),
        _ => panic!("a receiver"),
    }
    match &f.params[1] {
        Parameter::Destructured { pattern, ty } => {
            assert_eq!(pattern, "( a , b )");
            assert_eq!(ty, "( u8 , u8 )");
        }
        _ => panic!("a pattern"),
    }
    match &f.params[2] {
        Parameter::Bare { ty } => assert_eq!(ty, "u16"),
        _ => panic!("a bare type"),
    }
    match &read("fn g(self) -> u8 { 1 }").params[0] {
        Parameter::Receiver { text } => assert_eq!(text, "self"),
        _ => panic!("a receiver"),
    }
}

#[test]
fn a_function_memoized_from_its_source_is_three_items() {
    let text = memoized(
        "",
        "pub fn fib(n: u64) -> u64 { match n { 0 | 1 => 1, n => fib(n - 2) + fib(n - 1) } }",
    )
    .unwrap();
    let file = syn::parse_str::<syn::File>(&text).unwrap();
    assert_eq!(file.items.len(), 3);
    match &file.items[0] {
        syn::Item::Macro(cache) => {
            assert_eq!(cache.mac.path.segments[0].ident.to_string(), "thread_local");
            assert!(cache.mac.tts.to_string().starts_with("static _FIB_CACHE :"));
        }
        _ => panic!("the cache comes first"),
    }
    match &file.items[1] {
        syn::Item::Fn(wrapper) => {
            assert_eq!(wrapper.ident.to_string(), "fib");
            assert_eq!(wrapper.decl.inputs.len(), 1);
            assert_eq!(wrapper.block.stmts.len(), 3);
        }
        _ => panic!("the wrapper comes second"),
    }
    match &file.items[2] {
        syn::Item::Fn(inner) => {
            assert_eq!(inner.ident.to_string(), "_fib_aux");
            assert_eq!(inner.block.stmts.len(), 1);
        }
        _ => panic!("the inner implementation comes last"),
    }
}

#[test]
fn the_source_of_a_memoized_function() {
    let text = memoized("BTreeMap", "fn double(n: u64, _: bool) -> u64 { n * 2 }").unwrap();
    assert_eq!(
        text,
        "thread_local!(
    static _DOUBLE_CACHE: std::cell::RefCell<
        BTreeMap<(u64), u64>
    > = Default::default()
);
fn double(n: u64, _ignored__: bool) -> u64 {
    let key = (n.clone());
    let cached = _DOUBLE_CACHE.with(|cell| cell.borrow_mut().get(&key).cloned());
    if let Some(value) = cached {
        value.clone()
    } else {
        let value = _double_aux(n, _ignored__);
        _DOUBLE_CACHE.with(|cell| {
            let mut cache = cell.borrow_mut();
            cache.insert(key.clone(), value);
            cache.get(&key).cloned().unwrap()
        })
    }
}
fn _double_aux(n: u64, _: bool) -> u64 { n * 2 }
"
    );
    assert!(syn::parse_str::<syn::File>(&text).is_ok());
}

#[test]
fn memoize_item_takes_the_tree() {
    let tree = syn::parse_str::<syn::ItemFn>("fn one() -> u8 { 1 }").unwrap();
    let text = memoize_item("", &tree).unwrap();
    assert!(text.contains("std::collections::HashMap<(), u8>"));
    assert!(text.contains("let key = ();"));
    assert!(text.contains("let value = _one_aux();"));
    assert!(text.ends_with("fn _one_aux() -> u8 { 1 }\n"));
}

#[test]
fn a_method_is_refused() {
    assert_eq!(
        refusal("fn f(&self, n: u64) -> u64 { n }"),
        Diagnostic { kind: DiagnosticKind::UnsupportedParameterForm, site: Site::Parameter(0) }
    );
    assert_eq!(
        refusal("fn f(mut self) -> u64 { 1 }"),
        Diagnostic { kind: DiagnosticKind::UnsupportedParameterForm, site: Site::Parameter(0) }
    );
}

#[test]
fn a_function_that_returns_nothing_is_refused() {
    assert_eq!(
        refusal("fn f(n: u64) { }"),
        Diagnostic { kind: DiagnosticKind::MissingReturnType, site: Site::Body }
    );
}

#[test]
fn a_destructuring_parameter_is_refused() {
    assert_eq!(
        refusal("fn f(n: u64, (a, b): (u8, u8)) -> u64 { n }"),
        Diagnostic { kind: DiagnosticKind::DestructuredParameter, site: Site::Parameter(1) }
    );
}

#[test]
fn a_refusal_from_the_tree_is_the_refusal_of_the_declaration() {
    for source in ["fn f(&self) { }", "fn f(n: u64) { }", "fn f((a, b): (u8, u8), self) -> u8 { a }"] {
        let tree = syn::parse_str::<syn::ItemFn>(source).unwrap();
        let declaration = read_function(&tree);
        assert_eq!(
            memoize_item("", &tree).unwrap_err(),
            memoize_macro::expand::expand("", &declaration).unwrap_err()
        );
    }
    assert_eq!(
        refusal("fn f((a, b): (u8, u8), self) -> u8 { a }"),
        Diagnostic { kind: DiagnosticKind::DestructuredParameter, site: Site::Parameter(0) }
    );
}

#[test]
fn read_keywords_and_documentation() {
    let f = read("/// Twice.\npub const unsafe extern \"C\" fn twice(n: u8) -> u8 { n }");
    assert_eq!(f.qualifiers, "# [ doc = \" Twice.\" ] pub const unsafe extern \"C\"");
    let g = read("#[a] #[b(c)] fn g<'a, T: Clone>(x: &'a T) -> &'a T where T: 'a { x }");
    assert_eq!(g.qualifiers, "# [ a ] # [ b ( c ) ]");
    assert_eq!(g.generics, "< 'a , T : Clone >");
    assert_eq!(g.where_clause, "where T : 'a");
    assert_eq!(
        g.render(),
        "# [ a ] # [ b ( c ) ] fn g< 'a , T : Clone >(x: & 'a T) -> & 'a T where T : 'a { x }"
    );
}

#[test]
fn types_with_commas_stay_whole_in_the_key() {
    let text = memoized(
        "",
        "fn total(pairs: Vec<(u8, u8)>, names: [String; 2]) -> Option<u64> { None }",
    )
    .unwrap();
    assert_eq!(
        text.lines().nth(2),
        Some("        std::collections::HashMap<(Vec < ( u8 , u8 ) >, [ String ; 2 ]), Option < u64 >>")
    );
    assert!(syn::parse_str::<syn::File>(&text).is_ok());
}
