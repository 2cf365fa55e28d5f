use fpm_serve::content_type::{asset_content_type, ends_with, mime_from_sniff};
use fpm_serve::dispatch::{classify, same_text, shape_descriptor, static_miss, Target};
use fpm_serve::mode::{serves_files, ServeMode, SYNC_BODY_LIMIT};
use fpm_serve::port::{next_candidate, SCAN_END, SCAN_START};
use fpm_serve::resource::{after_lookup, resolve, shape, shape_rendered, FileKind, Next, RegistryFile, Resource};
use fpm_serve::response::{path_encoding_error, text, Response};

const PNG: [u8; 8] = [0x89, 0x50, 0x4E, 0x47, 0x0D, 0x0A, 0x1A, 0x0A];

fn file(kind: FileKind, id: &str, content: &[u8]) -> RegistryFile {
    RegistryFile { kind, id: id.to_string(), content: content.to_vec() }
}

fn respond(n: Next) -> Response {
    match n {
        Next::Respond(r) => r,
        Next::Render { id } => panic!("expected a response, got a render of {}", id),
    }
}

/// Runs the port scan against a set of ports that fail to bind.
fn acquire(preferred: Option<u16>, busy: &[u16]) -> (Option<u16>, usize) {
    let mut tries = 0;
    let mut cand = next_candidate(preferred, None);
    while let Some(p) = cand {
        tries += 1;
        if !busy.contains(&p) {
            return (Some(p), tries);
        }
        cand = next_candidate(preferred, Some(p));
    }
    (None, tries)
}

#[test]
fn suffix_match() {
    assert!(ends_with("logo.svg", ".svg"));
    assert!(!ends_with("logo.svgz", ".svg"));
    assert!(!ends_with("svg", ".svg"));
    assert!(ends_with("", ""));
    assert!(same_text("FPM.ftd", "FPM.ftd"));
    assert!(!same_text("FPM.ftd", "fpm.ftd"));
}

#[test]
fn sniffed_type_wins_over_suffix() {
    assert_eq!(asset_content_type("logo.svg", &PNG.to_vec()), "image/png");
    assert_eq!(asset_content_type("photo.jpg", &b"GIF89a....".to_vec()), "image/gif");
}

#[test]
fn unsniffable_svg_is_vector_type() {
    let svg = b"<svg xmlns=\"http://www.w3.org/2000/svg\"></svg>".to_vec();
    assert_eq!(asset_content_type("static/logo.svg", &svg), "image/svg+xml");
}

#[test]
fn unsniffable_other_is_raster_default() {
    assert_eq!(asset_content_type("static/logo.bin", &vec![1, 2, 3]), "image/jpeg");
    assert_eq!(asset_content_type("empty", &vec![]), "image/jpeg");
}

#[test]
fn fallback_after_sniffing() {
    assert_eq!(mime_from_sniff(Some("image/webp".to_string()), "a.svg"), "image/webp");
    assert_eq!(mime_from_sniff(None, "a.svg"), "image/svg+xml");
    assert_eq!(mime_from_sniff(None, "a.png"), "image/jpeg");
}

#[test]
fn resolve_by_kind() {
    match resolve(Ok(file(FileKind::Document, "index.ftd", b""))) {
        Ok(Resource::Document { id }) => assert_eq!(id, "index.ftd"),
        _ => panic!("expected a document"),
    }
    match resolve(Ok(file(FileKind::Image, "a.png", &PNG))) {
        Ok(Resource::Asset { id, content }) => {
            assert_eq!(id, "a.png");
            assert_eq!(content, PNG.to_vec());
        }
        _ => panic!("expected an asset"),
    }
    let other = resolve(Ok(file(FileKind::Other, "x.md", b"x")));
    match &other {
        Ok(r @ Resource::Unsupported { .. }) => assert_eq!(r.id(), "x.md"),
        _ => panic!("expected unsupported"),
    }
    match resolve(Err("no such file".to_string())) {
        Err(e) => assert_eq!(e.message, "no such file"),
        Ok(_) => panic!("expected an error"),
    }
}

#[test]
fn document_goes_to_renderer() {
    match after_lookup(Ok(file(FileKind::Document, "index.ftd", b"-- ftd.text: hi"))) {
        Next::Render { id } => assert_eq!(id, "index.ftd"),
        Next::Respond(_) => panic!("expected a render"),
    }
}

#[test]
fn rendered_document_success() {
    let r = shape_rendered(Ok(b"<html></html>".to_vec()));
    assert_eq!(r.status, 200);
    assert_eq!(r.content_type, None);
    assert_eq!(r.body, b"<html></html>".to_vec());
    assert!(!r.body.is_empty());
}

#[test]
fn rendered_document_failure() {
    let r = shape_rendered(Err("render failed: bad section".to_string()));
    assert_eq!(r.status, 500);
    assert_eq!(r.body, b"render failed: bad section".to_vec());
}

#[test]
fn image_asset_response() {
    let r = respond(after_lookup(Ok(file(FileKind::Image, "pic.svg", &PNG))));
    assert_eq!(r.status, 200);
    assert_eq!(r.content_type, Some("image/png".to_string()));
    assert_eq!(r.body, PNG.to_vec());
    let r = respond(shape(Resource::Asset { id: "pic.svg".to_string(), content: b"<svg/>".to_vec() }));
    assert_eq!(r.content_type, Some("image/svg+xml".to_string()));
}

#[test]
fn unsupported_is_internal_error() {
    let r = respond(after_lookup(Ok(file(FileKind::Other, "x.md", b"x"))));
    assert_eq!(r.status, 500);
    assert!(r.body.is_empty());
}

#[test]
fn unresolvable_path_is_internal_error_not_not_found() {
    let r = respond(after_lookup(Err("path not found: blog/".to_string())));
    assert_eq!(r.status, 500);
    assert_ne!(r.status, 404);
    assert_eq!(r.body, b"path not found: blog/".to_vec());
}

#[test]
fn well_known_paths_first() {
    assert!(matches!(classify("favicon.ico"), Target::Favicon));
    assert!(matches!(classify("FPM.ftd"), Target::PackageDescriptor));
    match classify("blog/post/") {
        Target::Resolve(p) => assert_eq!(p, "blog/post/"),
        _ => panic!("expected resolution"),
    }
    match classify("static/favicon.ico") {
        Target::Resolve(p) => assert_eq!(p, "static/favicon.ico"),
        _ => panic!("expected resolution"),
    }
}

#[test]
fn empty_path_is_root() {
    let empty = match classify("") {
        Target::Resolve(p) => p,
        _ => panic!("expected resolution"),
    };
    let root = match classify("/") {
        Target::Resolve(p) => p,
        _ => panic!("expected resolution"),
    };
    assert_eq!(empty, "/");
    assert_eq!(empty, root);
}

#[test]
fn favicon_absent_is_empty_not_found() {
    let r = static_miss();
    assert_eq!(r.status, 404);
    assert!(r.body.is_empty());
}

#[test]
fn descriptor_unreadable_is_not_found_with_error() {
    let r = shape_descriptor(Err("No such file or directory (os error 2)".to_string()));
    assert_eq!(r.status, 404);
    assert_eq!(r.body, b"No such file or directory (os error 2)".to_vec());
}

#[test]
fn descriptor_readable_is_octet_stream() {
    let bytes = b"-- fpm.package: hello\n".to_vec();
    let r = shape_descriptor(Ok(bytes.clone()));
    assert_eq!(r.status, 200);
    assert_eq!(r.content_type, Some("application/octet-stream".to_string()));
    assert_eq!(r.body, bytes);
}

#[test]
fn path_encoding_failure() {
    let r = path_encoding_error();
    assert_eq!(r.status, 500);
    assert!(r.body.is_empty());
    let t = text(500, "é");
    assert_eq!(t.body, vec![0xC3, 0xA9]);
}

#[test]
fn requested_port_in_use_scans_nothing() {
    assert_eq!(acquire(Some(8080), &[8080]), (None, 1));
    assert_eq!(acquire(Some(3000), &[]), (Some(3000), 1));
    assert_eq!(next_candidate(Some(8080), Some(8080)), None);
}

#[test]
fn scan_exhausted() {
    let busy: Vec<u16> = (8000..9000).collect();
    assert_eq!(acquire(None, &busy), (None, 1000));
    assert_eq!(next_candidate(None, Some(8999)), None);
}

#[test]
fn scan_picks_first_free() {
    assert_eq!(acquire(None, &[8000, 8001, 8002, 8003, 8004]), (Some(8005), 6));
    assert_eq!(acquire(None, &[]), (Some(8000), 1));
    assert_eq!(next_candidate(None, None), Some(SCAN_START));
    assert_eq!(SCAN_END, 9000);
}

#[test]
fn serving_modes() {
    assert!(serves_files(ServeMode::Interactive));
    assert!(!serves_files(ServeMode::RemoteSync));
    assert_eq!(SYNC_BODY_LIMIT, 9_862_416_400);
}
