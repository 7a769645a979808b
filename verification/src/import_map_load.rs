//! Optional import-map loading: a sandbox may be configured with an
//! import-map document whose text is parsed against a base URL. Reading
//! the document off disk happens outside the verified core; the parse
//! itself is delegated to the import-map crate behind a trusted wrapper.

use vstd::prelude::*;

verus! {

#[verifier::external_type_specification]
#[verifier::external_body]
pub struct ExImportMap(import_map::ImportMap);

/// Whether forming the base URL from `base_url` and parsing `json` as an
/// import-map document against it succeeds. The parse is a function of the
/// two texts alone.
pub uninterp spec fn import_map_parse_ok(base_url: Seq<char>, json: Seq<char>) -> bool;

/// Relies on `import_map::parse_from_json` to parse the document, with the
/// base URL formed by `url::Url::parse`; succeeds exactly when both accept
/// their text, which depends on the two texts alone. Parse diagnostics are
/// dropped; an error is carried as its message.
#[verifier::external_body]
fn parse_import_map(base_url: &str, json: &str) -> (r: Result<import_map::ImportMap, String>)
    ensures
        r is Ok == import_map_parse_ok(base_url@, json@),
{
    let base = match url::Url::parse(base_url) {
        Ok(u) => u,
        Err(e) => return Err(e.to_string()),
    };
    match import_map::parse_from_json(base, json) {
        Ok(parsed) => Ok(parsed.import_map),
        Err(e) => Err(e.to_string()),
    }
}

/// Loads the optional import map: no document configured means no map; a
/// configured document, given as the base URL of its directory and its
/// text, yields a map exactly when it parses.
pub fn load_import_map(maybe_document: Option<(String, String)>) -> (r: Result<
    Option<import_map::ImportMap>,
    String,
>)
    ensures
        maybe_document is None ==> (r matches Ok(m) && m is None),
        maybe_document matches Some(doc) ==> {
            &&& r is Ok == import_map_parse_ok(doc.0@, doc.1@)
            &&& (r matches Ok(m) ==> m is Some)
        },
{
    match maybe_document {
        None => Ok(None),
        Some((base_url, json)) => {
            match parse_import_map(base_url.as_str(), json.as_str()) {
                Ok(map) => Ok(Some(map)),
                Err(e) => Err(e),
            }
        },
    }
}

} // verus!
