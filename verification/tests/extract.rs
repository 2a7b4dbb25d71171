use snippet_extract::extract_snippets;
use snippet_extract::snippets_of;

fn parse(text: &str) -> serde_json::Value {
    serde_json::from_str(text).unwrap()
}

#[test]
fn invalid_json_is_absent() {
    assert!(extract_snippets("not json").is_none());
    assert!(extract_snippets("").is_none());
    assert!(extract_snippets("{\"contributes\":").is_none());
    assert!(extract_snippets("{'contributes': 1}").is_none());
}

#[test]
fn one_element_array_is_returned() {
    let out = extract_snippets(
        "{\"contributes\":{\"snippets\":[{\"language\":\"go\",\"path\":\"./snip.json\"}]}}",
    )
    .unwrap();
    let expected = parse("[{\"language\":\"go\",\"path\":\"./snip.json\"}]");
    assert_eq!(out, expected);
}

#[test]
fn empty_array_is_returned() {
    let out = extract_snippets("{\"contributes\":{\"snippets\":[]}}").unwrap();
    assert_eq!(out, parse("[]"));
}

#[test]
fn array_contents_and_order_are_kept() {
    let out = extract_snippets("{\"contributes\":{\"snippets\":[3,1,2,{\"a\":[true,null]}]}}")
        .unwrap();
    assert_eq!(out, parse("[3,1,2,{\"a\":[true,null]}]"));
    assert_ne!(out, parse("[1,2,3,{\"a\":[true,null]}]"));
}

#[test]
fn snippets_string_is_absent() {
    assert!(extract_snippets("{\"contributes\":{\"snippets\":\"oops\"}}").is_none());
}

#[test]
fn snippets_wrong_type_is_absent() {
    assert!(extract_snippets("{\"contributes\":{\"snippets\":7}}").is_none());
    assert!(extract_snippets("{\"contributes\":{\"snippets\":null}}").is_none());
    assert!(extract_snippets("{\"contributes\":{\"snippets\":{\"a\":[]}}}").is_none());
    assert!(extract_snippets("{\"contributes\":{\"snippets\":true}}").is_none());
}

#[test]
fn missing_snippets_field_is_absent() {
    assert!(extract_snippets("{\"contributes\":{}}").is_none());
    assert!(extract_snippets("{\"contributes\":{\"commands\":[]}}").is_none());
}

#[test]
fn missing_contributes_field_is_absent() {
    assert!(extract_snippets("{}").is_none());
    assert!(extract_snippets("{\"name\":\"ext\"}").is_none());
}

#[test]
fn non_object_document_is_absent() {
    assert!(extract_snippets("[1,2,3]").is_none());
    assert!(extract_snippets("\"contributes\"").is_none());
    assert!(extract_snippets("42").is_none());
    assert!(extract_snippets("null").is_none());
}

#[test]
fn contributes_not_object_is_absent() {
    assert!(extract_snippets("{\"contributes\":[{\"snippets\":[]}]}").is_none());
    assert!(extract_snippets("{\"contributes\":\"snippets\"}").is_none());
}

#[test]
fn parsed_document_lookup_borrows_the_array() {
    let doc = parse("{\"contributes\":{\"snippets\":[false]}}");
    let found = snippets_of(&doc).unwrap();
    assert_eq!(*found, parse("[false]"));

    let bare = parse("{\"snippets\":[false]}");
    assert!(snippets_of(&bare).is_none());
}
