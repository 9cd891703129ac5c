use nickel_js::format::InputFormat;
use nickel_js::parse::document_imports;
use nickel_js::crawl::LoadError;

#[test]
fn nickel_imports_are_listed_in_tree_order() {
    let text = "{ a = import \"b.ncl\", b = import \"c.json\" }";
    let imports = document_imports(text, InputFormat::Nickel).unwrap();
    assert_eq!(imports.len(), 2);
    assert_eq!(imports[0].path, b"b.ncl".to_vec());
    assert_eq!(imports[1].path, b"c.json".to_vec());
    let (s0, e0) = imports[0].span.unwrap();
    let (s1, e1) = imports[1].span.unwrap();
    assert_eq!(s0, 6);
    assert!(s0 < e0 && e0 <= s1 && s1 < e1);
    assert!(e1 as usize <= text.len());
}

#[test]
fn document_without_imports_lists_none() {
    let imports = document_imports("{ a = 1, b = \"x\" }", InputFormat::Nickel).unwrap();
    assert!(imports.is_empty());
}

#[test]
fn unparsable_document_is_a_parse_error() {
    match document_imports("let x = in", InputFormat::Nickel) {
        Err(LoadError::Parse { message }) => assert!(!message.is_empty()),
        other => panic!("unexpected {other:?}"),
    }
}

#[test]
fn structured_data_imports_nothing() {
    let imports = document_imports("{\"import\": 1}", InputFormat::Json).unwrap();
    assert!(imports.is_empty());
    let imports = document_imports("not: [valid", InputFormat::Yaml).unwrap();
    assert!(imports.is_empty());
}
