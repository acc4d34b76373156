use rabbiteer::model::{HeaderEntry, HeaderValue, Properties};
use rabbiteer::registry::extension_for;
use rabbiteer::resolve::{header_file_name, resolve_name};

fn props(content_type: Option<&str>, headers: Vec<HeaderEntry>) -> Properties {
    Properties {
        content_type: content_type.map(|s| s.as_bytes().to_vec()),
        headers,
    }
}

fn file_name_header(value: HeaderValue) -> HeaderEntry {
    HeaderEntry {
        key: b"fileName".to_vec(),
        value,
    }
}

#[test]
fn known_type_appends_first_registry_extension() {
    let name = resolve_name(&props(Some("text/css"), vec![]));
    assert_eq!(name.len(), 16 + 1 + 3);
    assert_eq!(&name[16..], b".css");
}

#[test]
fn jpeg_appends_first_entry_never_a_later_one() {
    let first = extension_for(b"image/jpeg");
    assert_eq!(first, b"jpeg".to_vec());
    let name = resolve_name(&props(Some("image/jpeg"), vec![]));
    assert_eq!(&name[16..], b".jpeg");
    assert_ne!(&name[name.len() - 4..], b".jpg");
    assert_ne!(&name[name.len() - 4..], b".jpe");
}

#[test]
fn unknown_type_resolves_to_bin() {
    assert_eq!(extension_for(b"application/x-surely-unknown"), b"bin".to_vec());
    let name = resolve_name(&props(Some("application/x-surely-unknown"), vec![]));
    assert_eq!(&name[16..], b".bin");
}

#[test]
fn absent_content_type_defaults_to_octet_stream() {
    assert_eq!(extension_for(b"application/octet-stream"), b"bin".to_vec());
    let name = resolve_name(&props(None, vec![]));
    assert_eq!(&name[16..], b".bin");
}

#[test]
fn string_file_name_header_is_returned_verbatim() {
    let p = props(
        Some("image/jpeg"),
        vec![file_name_header(HeaderValue::Str(b"report.pdf".to_vec()))],
    );
    assert_eq!(resolve_name(&p), b"report.pdf".to_vec());

    let q = props(
        None,
        vec![file_name_header(HeaderValue::Str(b"report.pdf".to_vec()))],
    );
    assert_eq!(resolve_name(&q), b"report.pdf".to_vec());
}

#[test]
fn non_string_file_name_header_falls_back_to_random() {
    let p = props(
        Some("text/css"),
        vec![file_name_header(HeaderValue::Int(7))],
    );
    let name = resolve_name(&p);
    assert_eq!(name.len(), 16 + 1 + 3);
    assert_eq!(&name[16..], b".css");
}

#[test]
fn header_lookup_sees_only_string_values() {
    let present = props(
        None,
        vec![
            HeaderEntry {
                key: b"other".to_vec(),
                value: HeaderValue::Bool(true),
            },
            file_name_header(HeaderValue::Str(b"a.txt".to_vec())),
        ],
    );
    assert_eq!(header_file_name(&present), Some(b"a.txt".to_vec()));

    let wrong_kind = props(None, vec![file_name_header(HeaderValue::Other)]);
    assert_eq!(header_file_name(&wrong_kind), None);

    let absent = props(None, vec![]);
    assert_eq!(header_file_name(&absent), None);
}
