use rabbiteer::model::{Delivery, Destination, HeaderEntry, HeaderValue, Properties};
use rabbiteer::registry::extension_for;
use rabbiteer::render::build_output;
use rabbiteer::sink::{plan_message, WritePlan};

fn delivery() -> Delivery {
    Delivery {
        exchange: b"ex".to_vec(),
        routing_key: b"rk".to_vec(),
        delivery_tag: 1,
    }
}

fn props(content_type: Option<&str>, headers: Vec<HeaderEntry>) -> Properties {
    Properties {
        content_type: content_type.map(|s| s.as_bytes().to_vec()),
        headers,
    }
}

#[test]
fn dash_selects_stdout_and_paths_select_directories() {
    assert!(matches!(Destination::parse(b"-".to_vec()), Destination::Stdout));
    match Destination::parse(b"/tmp/out".to_vec()) {
        Destination::Directory(d) => assert_eq!(d, b"/tmp/out".to_vec()),
        Destination::Stdout => panic!("a path must select a directory"),
    }
}

#[test]
fn jpeg_message_plans_one_file_inside_the_directory() {
    let dest = Destination::parse(b"/tmp/outdir".to_vec());
    let p = props(Some("image/jpeg"), vec![]);
    let plan = plan_message(&dest, false, &delivery(), &p, vec![0xFF, 0xD8]).unwrap();
    match plan {
        WritePlan::File { path, contents } => {
            assert_eq!(contents, vec![0xFF, 0xD8]);
            let prefix = b"/tmp/outdir/";
            assert_eq!(&path[..prefix.len()], prefix);
            let name = &path[prefix.len()..];
            assert!(!name.contains(&b'/'), "the name must stay in the directory");
            assert_eq!(name[16], b'.');
            assert_eq!(&name[17..], extension_for(b"image/jpeg").as_slice());
        }
        WritePlan::Stdout { .. } => panic!("a directory destination must plan a file"),
    }
}

#[test]
fn header_named_file_plans_that_exact_path() {
    let dest = Destination::parse(b"/tmp/outdir".to_vec());
    let p = props(
        Some("image/jpeg"),
        vec![HeaderEntry {
            key: b"fileName".to_vec(),
            value: HeaderValue::Str(b"report.pdf".to_vec()),
        }],
    );
    let plan = plan_message(&dest, false, &delivery(), &p, b"%PDF".to_vec()).unwrap();
    match plan {
        WritePlan::File { path, contents } => {
            assert_eq!(path, b"/tmp/outdir/report.pdf".to_vec());
            assert_eq!(contents, b"%PDF".to_vec());
        }
        WritePlan::Stdout { .. } => panic!("a directory destination must plan a file"),
    }
}

#[test]
fn escaping_header_name_surfaces_a_rejection() {
    let dest = Destination::parse(b"/tmp/outdir".to_vec());
    let p = props(
        None,
        vec![HeaderEntry {
            key: b"fileName".to_vec(),
            value: HeaderValue::Str(b"../secret".to_vec()),
        }],
    );
    let e = plan_message(&dest, false, &delivery(), &p, b"x".to_vec()).unwrap_err();
    assert_eq!(e.name, b"../secret".to_vec());
}

#[test]
fn stdout_frames_are_complete_and_newline_terminated() {
    let dest = Destination::parse(b"-".to_vec());
    let p = props(None, vec![]);
    let frame_a = match plan_message(&dest, false, &delivery(), &p, b"A".to_vec()).unwrap() {
        WritePlan::Stdout { frame } => frame,
        WritePlan::File { .. } => panic!("stdout destination must plan a frame"),
    };
    let frame_b = match plan_message(&dest, false, &delivery(), &p, b"B".to_vec()).unwrap() {
        WritePlan::Stdout { frame } => frame,
        WritePlan::File { .. } => panic!("stdout destination must plan a frame"),
    };
    assert_eq!(frame_a, b"A\n".to_vec());
    assert_eq!(frame_b, b"B\n".to_vec());
}

#[test]
fn rendering_the_same_message_twice_is_byte_identical() {
    let d = delivery();
    let p = props(Some("text/plain"), vec![]);
    let r1 = build_output(false, &d, &p, b"payload".to_vec());
    let r2 = build_output(false, &d, &p, b"payload".to_vec());
    assert_eq!(r1, r2);
    assert_eq!(r1, b"payload".to_vec());

    let i1 = build_output(true, &d, &p, b"payload".to_vec());
    let i2 = build_output(true, &d, &p, b"payload".to_vec());
    assert_eq!(i1, i2);
}

#[test]
fn info_mode_prefixes_metadata_in_fixed_order() {
    let d = delivery();
    let with_type = props(Some("text/plain"), vec![]);
    let out = build_output(true, &d, &with_type, b"BODY".to_vec());
    assert_eq!(
        out,
        b"exchange: ex\nrouting_key: rk\ncontent_type: text/plain\n--------\nBODY".to_vec()
    );

    let without_type = props(None, vec![]);
    let out = build_output(true, &d, &without_type, b"BODY".to_vec());
    assert_eq!(out, b"exchange: ex\nrouting_key: rk\n--------\nBODY".to_vec());
}
