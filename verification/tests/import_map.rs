use edge_runtime::import_map_load::load_import_map;

#[test]
fn no_document_means_no_map() {
    let r = load_import_map(None);
    assert!(matches!(r, Ok(None)));
}

#[test]
fn valid_document_parses() {
    let doc = (
        "file:///srv/functions/".to_string(),
        r#"{ "imports": { "lodash": "https://cdn.test/lodash/index.js" } }"#.to_string(),
    );
    let r = load_import_map(Some(doc));
    assert!(matches!(r, Ok(Some(_))));
}

#[test]
fn empty_object_parses() {
    let doc = ("file:///srv/functions/".to_string(), "{}".to_string());
    let r = load_import_map(Some(doc));
    assert!(matches!(r, Ok(Some(_))));
}

#[test]
fn invalid_json_is_an_error() {
    let doc = ("file:///srv/functions/".to_string(), "not json".to_string());
    let r = load_import_map(Some(doc));
    assert!(r.is_err());
}

#[test]
fn invalid_base_url_is_an_error() {
    let doc = ("not a url".to_string(), "{}".to_string());
    let r = load_import_map(Some(doc));
    assert!(r.is_err());
}

#[test]
fn non_object_document_is_an_error() {
    let doc = ("file:///srv/functions/".to_string(), "[1, 2, 3]".to_string());
    let r = load_import_map(Some(doc));
    assert!(r.is_err());
}
