use comichost::resize_op::ResizeAction;
use comichost::resize_op::ResizeEvent;
use comichost::resize_op::ResizeStatus;
use comichost::resizer::ResizeMode;
use comichost::resizer::Resizer;
use comichost::resizer::Size;
use comichost::resizer::SizeHint;

fn fit_width(w: u32) -> ResizeMode {
    ResizeMode::Fit(SizeHint { w: Some(w), h: None })
}

fn tiny_png(w: u32, h: u32) -> Vec<u8> {
    let img = image::DynamicImage::ImageRgb8(image::RgbImage::new(w, h));
    let mut cur = std::io::Cursor::new(Vec::new());
    img.write_to(&mut cur, image::ImageFormat::Png).unwrap();
    cur.into_inner()
}

fn expect_continue(st: ResizeStatus) -> ResizeAction {
    match st {
        ResizeStatus::Continue(a) => a,
        ResizeStatus::Done(_) => panic!("expected another action, got Done"),
        ResizeStatus::Failed => panic!("expected another action, got Failed"),
    }
}

fn expect_done(st: ResizeStatus) -> comichost::resize_op::ResizeResult {
    match st {
        ResizeStatus::Done(r) => r,
        _ => panic!("expected Done"),
    }
}

/// Drive one cold-cache resize to completion and hand back the artifact
/// bytes.
fn run_cold_resize(rz: &mut Resizer, source_png: &[u8]) -> Vec<u8> {
    let (op, st) = rz.start_resize("img.png", fit_width(2));
    match expect_continue(st) {
        ResizeAction::ReadSidecar { path } => assert_eq!(path, "cache/img.size.json"),
        _ => panic!("expected ReadSidecar"),
    }
    let (op, st) = rz.resize_step(op, ResizeEvent::SidecarLoaded(None));
    match expect_continue(st) {
        ResizeAction::ReadSource { path } => assert_eq!(path, "root/img.png"),
        _ => panic!("expected ReadSource"),
    }
    let (op, st) = rz.resize_step(op, ResizeEvent::SourceLoaded(Some(source_png.to_vec())));
    match expect_continue(st) {
        ResizeAction::WriteSidecar { path, contents } => {
            assert_eq!(path, "cache/img.size.json");
            assert_eq!(contents, "{\"w\":4,\"h\":3}");
        },
        _ => panic!("expected WriteSidecar"),
    }
    let (op, st) = rz.resize_step(op, ResizeEvent::SidecarWritten);
    match expect_continue(st) {
        ResizeAction::CheckArtifact { path } => assert_eq!(path, "cache/img.2x1.png"),
        _ => panic!("expected CheckArtifact"),
    }
    let (op, st) = rz.resize_step(op, ResizeEvent::ArtifactChecked(false));
    let artifact: Vec<u8> = match expect_continue(st) {
        ResizeAction::WriteArtifact { path, bytes } => {
            assert_eq!(path, "cache/img.2x1.png");
            bytes
        },
        _ => panic!("expected WriteArtifact"),
    };
    let (_op, st) = rz.resize_step(op, ResizeEvent::ArtifactWritten(true));
    let res = expect_done(st);
    assert_eq!(res.path, "cache/img.2x1.png");
    assert_eq!(res.relative_url, "img.2x1.png");
    assert_eq!(res.size, Size { w: 2, h: 1 });
    artifact
}

#[test]
fn cold_resize_produces_a_resampled_png() {
    let png = tiny_png(4, 3);
    let mut rz = Resizer::new("root", "cache");
    let artifact = run_cold_resize(&mut rz, &png);
    let decoded = image::load_from_memory(&artifact).unwrap();
    assert_eq!(decoded.width(), 2);
    assert_eq!(decoded.height(), 1);
}

#[test]
fn second_request_reuses_the_artifact_without_rereading_the_source() {
    let png = tiny_png(4, 3);
    let mut rz = Resizer::new("root", "cache");
    let _ = run_cold_resize(&mut rz, &png);
    // Same request again: the size is in memory, so the machine goes
    // straight to the existence check, and the existing artifact ends
    // the operation. No source read, no decode.
    let (op, st) = rz.start_resize("img.png", fit_width(2));
    match expect_continue(st) {
        ResizeAction::CheckArtifact { path } => assert_eq!(path, "cache/img.2x1.png"),
        _ => panic!("expected CheckArtifact directly"),
    }
    let (_op, st) = rz.resize_step(op, ResizeEvent::ArtifactChecked(true));
    let res = expect_done(st);
    assert_eq!(res.relative_url, "img.2x1.png");
    assert_eq!(res.size, Size { w: 2, h: 1 });
}

#[test]
fn identical_requests_write_byte_identical_artifacts() {
    let png = tiny_png(4, 3);
    let mut rz1 = Resizer::new("root", "cache");
    let mut rz2 = Resizer::new("root", "cache");
    let a1 = run_cold_resize(&mut rz1, &png);
    let a2 = run_cold_resize(&mut rz2, &png);
    assert_eq!(a1, a2);
}

#[test]
fn sidecar_hit_skips_the_source_read() {
    let rz0 = Resizer::new("root", "cache");
    let mut rz = rz0;
    let (op, st) = rz.start_resize("img.png", fit_width(2));
    let _ = expect_continue(st);
    let (op, st) = rz.resize_step(
        op,
        ResizeEvent::SidecarLoaded(Some("{\"w\":4,\"h\":3}".to_string())),
    );
    match expect_continue(st) {
        ResizeAction::CheckArtifact { path } => assert_eq!(path, "cache/img.2x1.png"),
        _ => panic!("expected CheckArtifact after a sidecar hit"),
    }
}

#[test]
fn corrupt_sidecar_falls_back_to_the_source() {
    let mut rz = Resizer::new("root", "cache");
    let (op, st) = rz.start_resize("img.png", fit_width(2));
    let _ = expect_continue(st);
    let (_op, st) = rz.resize_step(op, ResizeEvent::SidecarLoaded(Some("garbage".to_string())));
    match expect_continue(st) {
        ResizeAction::ReadSource { path } => assert_eq!(path, "root/img.png"),
        _ => panic!("expected ReadSource after a corrupt sidecar"),
    }
}

#[test]
fn unresized_request_copies_the_source() {
    let mut rz = Resizer::new("root", "cache");
    let (op, st) = rz.start_resize("img.png", ResizeMode::Fit(SizeHint { w: None, h: None }));
    let _ = expect_continue(st);
    let (op, st) = rz.resize_step(
        op,
        ResizeEvent::SidecarLoaded(Some("{\"w\":4,\"h\":3}".to_string())),
    );
    match expect_continue(st) {
        ResizeAction::CheckArtifact { path } => assert_eq!(path, "cache/img.png"),
        _ => panic!("expected CheckArtifact"),
    }
    let (op, st) = rz.resize_step(op, ResizeEvent::ArtifactChecked(false));
    match expect_continue(st) {
        ResizeAction::CopyArtifact { from, to } => {
            assert_eq!(from, "root/img.png");
            assert_eq!(to, "cache/img.png");
        },
        _ => panic!("expected CopyArtifact"),
    }
    let (_op, st) = rz.resize_step(op, ResizeEvent::ArtifactWritten(true));
    let res = expect_done(st);
    assert_eq!(res.relative_url, "img.png");
    assert_eq!(res.size, Size { w: 4, h: 3 });
}

#[test]
fn upscale_request_keeps_the_original_and_copies() {
    let mut rz = Resizer::new("root", "cache");
    let (op, st) = rz.start_resize("img.png", fit_width(100));
    let _ = expect_continue(st);
    let (op, st) = rz.resize_step(
        op,
        ResizeEvent::SidecarLoaded(Some("{\"w\":4,\"h\":3}".to_string())),
    );
    let _ = expect_continue(st);
    let (_op, st) = rz.resize_step(op, ResizeEvent::ArtifactChecked(false));
    match expect_continue(st) {
        ResizeAction::CopyArtifact { to, .. } => assert_eq!(to, "cache/img.png"),
        _ => panic!("expected CopyArtifact for an upscale request"),
    }
}

#[test]
fn fill_mode_fails_the_request() {
    let mut rz = Resizer::new("root", "cache");
    let (op, st) = rz.start_resize("img.png", ResizeMode::Fill(Size { w: 2, h: 2 }));
    let _ = expect_continue(st);
    let (_op, st) = rz.resize_step(
        op,
        ResizeEvent::SidecarLoaded(Some("{\"w\":4,\"h\":3}".to_string())),
    );
    assert!(matches!(st, ResizeStatus::Failed));
}

#[test]
fn missing_source_fails_the_request() {
    let mut rz = Resizer::new("root", "cache");
    let (op, st) = rz.start_resize("img.png", fit_width(2));
    let _ = expect_continue(st);
    let (op, st) = rz.resize_step(op, ResizeEvent::SidecarLoaded(None));
    let _ = expect_continue(st);
    let (_op, st) = rz.resize_step(op, ResizeEvent::SourceLoaded(None));
    assert!(matches!(st, ResizeStatus::Failed));
}

#[test]
fn undecodable_source_fails_the_request() {
    let mut rz = Resizer::new("root", "cache");
    let (op, st) = rz.start_resize("img.png", fit_width(2));
    let _ = expect_continue(st);
    let (op, st) = rz.resize_step(op, ResizeEvent::SidecarLoaded(None));
    let _ = expect_continue(st);
    let (_op, st) = rz.resize_step(op, ResizeEvent::SourceLoaded(Some(vec![1, 2, 3])));
    assert!(matches!(st, ResizeStatus::Failed));
}

#[test]
fn failed_artifact_write_fails_the_request() {
    let png = tiny_png(4, 3);
    let mut rz = Resizer::new("root", "cache");
    let (op, st) = rz.start_resize("img.png", fit_width(2));
    let _ = expect_continue(st);
    let (op, st) = rz.resize_step(op, ResizeEvent::SidecarLoaded(None));
    let _ = expect_continue(st);
    let (op, st) = rz.resize_step(op, ResizeEvent::SourceLoaded(Some(png)));
    let _ = expect_continue(st);
    let (op, st) = rz.resize_step(op, ResizeEvent::SidecarWritten);
    let _ = expect_continue(st);
    let (op, st) = rz.resize_step(op, ResizeEvent::ArtifactChecked(false));
    let _ = expect_continue(st);
    let (_op, st) = rz.resize_step(op, ResizeEvent::ArtifactWritten(false));
    assert!(matches!(st, ResizeStatus::Failed));
}

#[test]
fn extensionless_source_cannot_be_served_unresized() {
    let mut rz = Resizer::new("root", "cache");
    let (op, st) = rz.start_resize("img", ResizeMode::Fit(SizeHint { w: None, h: None }));
    let _ = expect_continue(st);
    let (_op, st) = rz.resize_step(
        op,
        ResizeEvent::SidecarLoaded(Some("{\"w\":4,\"h\":3}".to_string())),
    );
    assert!(matches!(st, ResizeStatus::Failed));
}

#[test]
fn mismatched_event_fails_the_request() {
    let mut rz = Resizer::new("root", "cache");
    let (op, st) = rz.start_resize("img.png", fit_width(2));
    let _ = expect_continue(st);
    let (_op, st) = rz.resize_step(op, ResizeEvent::ArtifactWritten(true));
    assert!(matches!(st, ResizeStatus::Failed));
}

#[test]
fn sidecar_path_follows_the_naming_scheme() {
    let rz = Resizer::new("data/images", "cache/images");
    let p = rz.get_filecache_path("data/images/photo.png");
    assert_eq!(p, "cache/images/photo.size.json");
    let q = rz.get_filecache_path("data/images/archive.tar.gz");
    assert_eq!(q, "cache/images/archive.tar.size.json");
}

#[test]
fn memcached_size_can_be_set_replaced_and_invalidated() {
    let mut rz = Resizer::new("root", "cache");
    assert_eq!(rz.get_memcached_size("root/a.png"), None);
    rz.set_memcached_size("root/a.png", Some(Size { w: 4, h: 3 }));
    assert_eq!(rz.get_memcached_size("root/a.png"), Some(Size { w: 4, h: 3 }));
    rz.set_memcached_size("root/a.png", Some(Size { w: 8, h: 6 }));
    assert_eq!(rz.get_memcached_size("root/a.png"), Some(Size { w: 8, h: 6 }));
    assert_eq!(rz.get_memcached_size("root/b.png"), None);
    rz.set_memcached_size("root/a.png", None);
    assert_eq!(rz.get_memcached_size("root/a.png"), None);
}

#[test]
fn path_helpers_follow_the_naming_scheme() {
    assert_eq!(comichost::paths::file_name("data/images/photo.png"), "photo.png");
    assert_eq!(comichost::paths::file_name("photo.png"), "photo.png");
    assert_eq!(comichost::paths::replace_extension("photo.png", "size.json"), "photo.size.json");
    assert_eq!(comichost::paths::replace_extension("photo", "size.json"), "photo.size.json");
    assert_eq!(
        comichost::paths::replace_extension(".hidden", "size.json"),
        ".hidden.size.json"
    );
    assert_eq!(comichost::paths::join("cache", "photo.png"), "cache/photo.png");
}
