use respicta::plan::Step;
use respicta::{Config, ConfigBuilder};

#[test]
fn gif2gif() {
    respicta::pipelines::gif2gif::convert(&Config::new(
        "tests/files/gif2gif_test1.gif",
        "target/gif2gif_test1.gif",
        Some(100),
        None,
    ))
    .unwrap();
}

#[test]
fn gif2webp() {
    respicta::pipelines::gif2webp::convert(&Config::new(
        "tests/files/gif2webp_test1.gif",
        "target/gif2webp_test1.webp",
        Some(100),
        Some(100),
    ))
    .unwrap();
}

#[test]
fn jpeg2jpeg() {
    respicta::pipelines::jpeg2jpeg::convert(&Config::new(
        "tests/files/jpeg2jpeg_test1.jpg",
        "target/jpeg2jpeg_test1.jfif",
        Some(100),
        None,
    ))
    .unwrap();
}

#[test]
fn jpeg2webp() {
    respicta::pipelines::jpeg2webp::convert(&Config::new(
        "tests/files/jpeg2webp_test1.jpeg",
        "target/jpeg2webp_test1.webp",
        Some(100),
        None,
    ))
    .unwrap();
}

#[test]
fn png2avif() {
    respicta::pipelines::png2avif::convert(
        &ConfigBuilder::default()
            .input_path("tests/files/png2avif_test1.png")
            .output_path("target/png2avif_test1.avif")
            .width(Some(100))
            .quality(Some(90))
            .build()
            .unwrap(),
    )
    .unwrap();
}

#[test]
fn png2avif_2() {
    respicta::pipelines::png2avif::convert(
        &ConfigBuilder::default()
            .input_path("tests/files/png2avif_test2.png")
            .output_path("target/png2avif_test2.avif")
            .width(Some(100))
            .quality(Some(90))
            .build()
            .unwrap(),
    )
    .unwrap();
}

#[test]
fn png2jpeg() {
    respicta::pipelines::png2jpeg::convert(&Config::new(
        "tests/files/png2jpeg_test1.png",
        "target/png2jpeg_test1.jpeg",
        Some(100),
        None,
    ))
    .unwrap();
}

#[test]
fn png2png_test1() {
    respicta::pipelines::png2png::convert(&Config::new(
        "tests/files/png2png_test1.png",
        "target/png2png_test1.png",
        Some(100),
        None,
    ))
    .unwrap();
}

#[test]
fn png2png_test2() {
    respicta::pipelines::png2png::convert(
        &ConfigBuilder::default()
            .input_path("tests/files/png2png_test2.png")
            .output_path("target/png2png_test2.png")
            .width(Some(100))
            .height(Some(100))
            .build()
            .unwrap(),
    )
    .unwrap();
}

#[test]
fn png2webp() {
    respicta::pipelines::png2webp::convert(&Config::new(
        "tests/files/png2webp_test1.png",
        "target/png2webp_test1.webp",
        Some(100),
        None,
    ))
    .unwrap();
}

#[test]
fn webp2webp() {
    respicta::pipelines::webp2webp::convert(&Config::new(
        "tests/files/webp2webp_test1.webp",
        "target/webp2webp_test1.webp",
        Some(100),
        None,
    ))
    .unwrap();
}

#[test]
fn gif2gif_plan_carries_the_whole_request() {
    let steps = respicta::pipelines::gif2gif::convert(
        &ConfigBuilder::default()
            .input_path("a.gif")
            .output_path("b.gif")
            .width(Some(9))
            .quality(Some(40))
            .build()
            .unwrap(),
    )
    .unwrap();
    assert_eq!(
        steps,
        vec![Step::GifOptimize {
            input: "a.gif".into(),
            output: "b.gif".into(),
            width: Some(9),
            height: None,
            quality: Some(40),
        }]
    );
}

#[test]
fn png2avif_plan_is_one_encode() {
    let steps = respicta::pipelines::png2avif::convert(&Config::new(
        "a.png",
        "b.avif",
        None,
        Some(44),
    ))
    .unwrap();
    assert_eq!(
        steps,
        vec![Step::AvifEncode {
            input: "a.png".into(),
            output: "b.avif".into(),
            width: None,
            height: Some(44),
            quality: None,
        }]
    );
}
