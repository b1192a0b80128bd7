use respicta::utils::{effective_target, fit};

#[test]
fn fit_identity_bounds_change_nothing() {
    assert_eq!(fit(400, 300, 400, 300), (400, 300));
    assert_eq!(fit(1, 1, 1, 1), (1, 1));
    assert_eq!(fit(1920, 1080, 1920, 1080), (1920, 1080));
}

#[test]
fn fit_stays_inside_the_box_and_touches_it() {
    let cases = [
        (400u32, 300u32, 200u32, 100u32),
        (400, 300, 100, 300),
        (300, 400, 300, 100),
        (17, 4000, 200, 100),
        (4000, 17, 200, 100),
        (1, 1, 1000, 1000),
    ];
    for (w, h, mw, mh) in cases {
        let (rw, rh) = fit(w, h, mw, mh);
        assert!(rw <= mw && rh <= mh);
        assert!(rw == mw || rh == mh);
    }
}

#[test]
fn fit_scales_a_landscape_to_its_width() {
    assert_eq!(fit(400, 300, 100, 300), (100, 75));
    assert_eq!(fit(400, 300, 200, 100), (133, 100));
    assert_eq!(fit(640, 480, 320, 240), (320, 240));
}

#[test]
fn absent_dimensions_fall_back_to_the_source() {
    assert_eq!(effective_target(400, 300, Some(100), None), (100, 75));
    assert_eq!(effective_target(400, 300, None, Some(150)), (200, 150));
    assert_eq!(effective_target(640, 480, None, None), (640, 480));
    assert_eq!(effective_target(1, 999, None, None), (1, 999));
}

#[test]
fn extension_resolution_follows_path_rules() {
    assert_eq!(respicta::paths::resolve_extension("a.jpg").as_deref(), Some("jpg"));
    assert_eq!(respicta::paths::resolve_extension("a.JPG").as_deref(), Some("JPG"));
    assert_eq!(respicta::paths::resolve_extension("dir/a.step1.png").as_deref(), Some("png"));
    assert_eq!(respicta::paths::resolve_extension("file"), None);
    assert_eq!(respicta::paths::resolve_extension("dir.d/file"), None);
    assert_eq!(respicta::paths::resolve_extension("dir/.hidden"), None);
    assert_eq!(respicta::paths::resolve_extension("dir/a.").as_deref(), Some(""));
}

#[test]
fn extension_replacement_matches_path_semantics() {
    assert_eq!(respicta::paths::replace_extension("target/x.webp", "step1"), "target/x.step1");
    assert_eq!(
        respicta::paths::replace_extension("target/x.png", "step1.png"),
        "target/x.step1.png"
    );
    assert_eq!(respicta::paths::replace_extension("noext", "gif"), "noext.gif");
}
