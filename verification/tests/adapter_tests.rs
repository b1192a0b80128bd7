use respicta::plan::Step;
use respicta::utils::gifsicle;
use respicta::utils::webp;
use respicta::{Config, ConfigBuilder};

#[test]
fn gifsicle() {
    gifsicle::optimize(
        &ConfigBuilder::default()
            .input_path("tests/files/gifsicle_test1.gif")
            .output_path("target/gifsicle_test1.gif")
            .width(Some(100))
            .build()
            .unwrap(),
    )
    .unwrap();
}

#[test]
fn gifsicle_without_width() {
    gifsicle::optimize(&Config::new(
        "tests/files/gifsicle_test1.gif",
        "target/gifsicle_without_width_test2.gif",
        None,
        Some(100),
    ))
    .unwrap();
}

#[test]
fn gifsicle_without_width_and_height() {
    gifsicle::optimize(&Config::new(
        "tests/files/gifsicle_test1.gif",
        "target/gifsicle_without_width_and_height_test2.gif",
        None,
        None,
    ))
    .unwrap();
}

#[test]
fn gifsicle_args_spell_the_whole_command_line() {
    let config = ConfigBuilder::default()
        .input_path("in.gif")
        .output_path("out.gif")
        .width(Some(120))
        .quality(Some(10))
        .build()
        .unwrap();
    assert_eq!(
        gifsicle::to_args(&config).as_str(),
        "-O3 --resize-width 120 --lossy=90 --dither in.gif --output out.gif"
    );

    let plain = Config::new("a.gif", "b.gif", None, None);
    assert_eq!(gifsicle::to_args(&plain).as_str(), "-O3 a.gif --output b.gif");

    let both = Config::new("a.gif", "b.gif", Some(7), Some(1000));
    assert_eq!(
        gifsicle::to_args(&both).as_str(),
        "-O3 --resize-width 7 --resize-height 1000 a.gif --output b.gif"
    );
}

#[test]
fn gifsicle_exit_codes_name_the_failure() {
    assert_eq!(gifsicle::process_exit_code(Some(0)), Ok(()));
    assert_eq!(gifsicle::process_exit_code(Some(1)), Err(gifsicle::Error::Exit(1)));
    assert_eq!(gifsicle::process_exit_code(Some(78)), Err(gifsicle::Error::Exit(78)));
    assert_eq!(gifsicle::process_exit_code(None), Err(gifsicle::Error::Signal));
}

#[test]
fn gif2webp_exit_codes_name_the_failure() {
    assert!(matches!(webp::process_exit_code(Some(0)), Ok(())));
    assert!(matches!(webp::process_exit_code(Some(1)), Err(webp::Error::Exit(1))));
    assert!(matches!(webp::process_exit_code(Some(3)), Err(webp::Error::Exit(3))));
    assert!(matches!(webp::process_exit_code(None), Err(webp::Error::Signal)));
}

#[test]
fn gif2webp_args_spell_the_whole_command_line() {
    assert_eq!(
        webp::transcode_args("in.step1", "out.webp").as_str(),
        "-o out.webp -q 75 -m 6 -mt -v in.step1"
    );
}

#[test]
fn magic_resize_and_auto_orient_gif() {
    respicta::utils::magick::optimize(
        &Config::new("tests/files/test1.gif", "target/magick_out.gif", Some(100), Some(100)),
        None,
    )
    .unwrap();
}

#[test]
fn oxipng_optimize() {
    respicta::utils::oxipng::optimize(&Config {
        input_path: "tests/files/issue-159.png".into(),
        output_path: "target/issue-159.png".into(),
        width: None,
        height: None,
        quality: None,
    })
    .unwrap();
}

#[test]
fn webp_optimize_png_to_webp() {
    webp::optimize(&Config::new(
        "tests/files/issue-159.png",
        "target/issue-159.webp",
        Some(100),
        Some(100),
    ))
    .unwrap();
}

#[test]
fn webp_webp_optimize_png_to_webp() {
    webp::optimize(&Config::new(
        "tests/files/issue-159.png",
        "target/issue-159.webp",
        Some(100),
        None,
    ))
    .unwrap();
}

#[test]
fn webp_optimize_gif_to_webp_static() {
    webp::optimize(&Config::new(
        "tests/files/test1.gif",
        "target/gif_test1_static.webp",
        Some(100),
        Some(100),
    ))
    .unwrap();
}

#[test]
fn webp_webp_optimize_gif_to_webp_static() {
    webp::optimize(&Config::new(
        "tests/files/test1.gif",
        "target/gif_test1_static.webp",
        None,
        None,
    ))
    .unwrap();
}

#[test]
fn low_quality() {
    webp::optimize(
        &ConfigBuilder::default()
            .input_path("tests/files/issue-159.png")
            .output_path("target/webp_low_quality.webp")
            .width(Some(100))
            .quality(Some(10))
            .build()
            .unwrap(),
    )
    .unwrap();
}

#[test]
fn webp_plan_carries_quality() {
    let steps = webp::optimize(&ConfigBuilder::default()
        .input_path("a.png")
        .output_path("b.webp")
        .width(Some(100))
        .quality(Some(10))
        .build()
        .unwrap())
    .unwrap();
    assert_eq!(
        steps,
        Step::WebpEncode {
            input: "a.png".into(),
            output: "b.webp".into(),
            width: Some(100),
            height: None,
            quality: Some(10),
        }
    );
}

#[test]
fn webp_settings_pick_lossless_without_quality() {
    assert_eq!(webp::encode_settings(Some(10)), (false, 10));
    assert_eq!(webp::encode_settings(Some(0)), (false, 0));
    assert_eq!(webp::encode_settings(None), (true, 100));
}
