use respicta::plan::Step;
use respicta::{Config, ConfigBuilder, ConfigBuilderError, Dimensions, Error, PathAccessor};

#[test]
fn config() {
    let config = Config::new("tests/files/test1.jpg", "target/test1.jpg", Some(100), None);

    assert_eq!(config.input_path().as_str(), "tests/files/test1.jpg");
    assert_eq!(config.output_path().as_str(), "target/test1.jpg");
    assert_eq!(config.width(), Some(100));
    assert_eq!(config.height(), None);
}

#[test]
fn convert() -> Result<(), Error> {
    respicta::convert(&Config::new(
        "tests/files/orientation_test.jpg",
        "target/convert_test1.webp",
        Some(100),
        None,
    ))?;

    respicta::convert(&Config::new(
        "tests/files/orientation_test.jpeg",
        "target/convert_test2.webp",
        Some(100),
        None,
    ))?;

    respicta::convert(&Config::new(
        "tests/files/convert_test1.png",
        "target/convert_test3.webp",
        None,
        None,
    ))?;

    respicta::convert(&Config::new(
        "tests/files/convert_test1.png",
        "target/convert_test4.webp",
        Some(10),
        None,
    ))?;

    respicta::convert(&Config::new(
        "tests/files/convert_test1.png",
        "target/convert_test5.webp",
        None,
        Some(10),
    ))?;

    respicta::convert(&Config::new(
        "tests/files/convert_test1.gif",
        "target/convert_test6.gif",
        Some(10),
        Some(10),
    ))?;

    Ok(())
}

#[test]
fn convert_jfif_to_webp() -> Result<(), Error> {
    respicta::convert(&Config::new(
        "tests/files/convert_test_jfif.jfif",
        "target/convert_test7.webp",
        Some(500),
        None,
    ))?;

    Ok(())
}

#[test]
fn survive_extension_wrong_format_jpg_to_webp() {
    respicta::convert(&Config::new(
        "tests/files/convert_test2.jpg",
        "target/convert_test8.webp",
        Some(500),
        None,
    ))
    .unwrap();
}

#[test]
fn extension_in_uppercase() {
    respicta::convert(&Config::new(
        "tests/files/convert_test1.JPG",
        "target/convert_test1.webp",
        Some(100),
        None,
    ))
    .unwrap();
}

#[test]
fn missing_input_extension_rejected_first() {
    let r = respicta::convert(&Config::new("file", "target/test1.webp", None, None));
    assert!(matches!(r, Err(Error::InputFileHasNoExtension)));

    let r = respicta::convert(&Config::new("file", "target/also-no-extension", None, None));
    assert!(matches!(r, Err(Error::InputFileHasNoExtension)));
}

#[test]
fn missing_output_extension_rejected() {
    let r = respicta::convert(&Config::new("tests/files/a.jpg", "target/test1", None, None));
    assert!(matches!(r, Err(Error::OutputFileHasNoExtension)));
}

#[test]
fn unsupported_pair_rejected() {
    let r = respicta::convert(&Config::new("a.jpg", "b.tiff", Some(100), None));
    match r {
        Err(Error::UnsupportedConversion(from, to)) => {
            assert_eq!(from.as_str(), "jpg");
            assert_eq!(to.as_str(), "tiff");
        }
        other => panic!("expected an unsupported-conversion error, got {:?}", other.is_ok()),
    }
}

#[test]
fn unsupported_pair_reports_lowercased_extensions() {
    let r = respicta::convert(&Config::new("a.JPG", "b.TIFF", None, None));
    match r {
        Err(Error::UnsupportedConversion(from, to)) => {
            assert_eq!(from.as_str(), "jpg");
            assert_eq!(to.as_str(), "tiff");
        }
        _ => panic!("expected an unsupported-conversion error"),
    }
}

#[test]
fn uppercase_resolves_like_lowercase() {
    let upper = respicta::convert(&Config::new("a.JPG", "b.webp", Some(40), None)).unwrap();
    let lower = respicta::convert(&Config::new("a.jpg", "b.webp", Some(40), None)).unwrap();
    assert_eq!(upper.len(), 1);
    assert_eq!(lower.len(), 1);
    assert!(matches!(
        upper[0],
        Step::WebpEncode { width: Some(40), height: None, quality: None, .. }
    ));
    assert!(matches!(
        lower[0],
        Step::WebpEncode { width: Some(40), height: None, quality: None, .. }
    ));
}

#[test]
fn jfif_resolves_like_jpg() {
    let jfif = respicta::convert(&Config::new("a.jpg", "b.jfif", Some(64), None)).unwrap();
    let jpg = respicta::convert(&Config::new("a.jpg", "b.jpg", Some(64), None)).unwrap();
    assert_eq!(jfif.len(), 1);
    assert_eq!(jpg.len(), 1);
    assert!(matches!(jfif[0], Step::RasterResize { filter: Some(_), .. }));
    assert!(matches!(jpg[0], Step::RasterResize { filter: Some(_), .. }));
}

#[test]
fn png2png_plan_removes_intermediate_last() {
    let steps = respicta::convert(&Config::new("in.png", "out/img.png", Some(100), None)).unwrap();
    assert_eq!(
        steps,
        vec![
            Step::RasterResize {
                input: "in.png".into(),
                output: "out/img.step1.png".into(),
                width: Some(100),
                height: None,
                filter: None,
            },
            Step::PngOptimize { input: "out/img.step1.png".into(), output: "out/img.png".into() },
            Step::RemoveFile { path: "out/img.step1.png".into() },
        ]
    );
}

#[test]
fn gif2webp_plan_removes_intermediate_last() {
    let steps =
        respicta::convert(&Config::new("in.gif", "out/img.webp", Some(20), Some(30))).unwrap();
    assert_eq!(
        steps,
        vec![
            Step::GifOptimize {
                input: "in.gif".into(),
                output: "out/img.step1".into(),
                width: Some(20),
                height: Some(30),
                quality: None,
            },
            Step::GifToWebp { input: "out/img.step1".into(), output: "out/img.webp".into() },
            Step::RemoveFile { path: "out/img.step1".into() },
        ]
    );
}

#[test]
fn png_to_avif_resolves_to_one_encode() {
    let steps =
        respicta::convert(&Config::new("a.png", "b.avif", Some(50), None)).unwrap();
    assert_eq!(
        steps,
        vec![Step::AvifEncode {
            input: "a.png".into(),
            output: "b.avif".into(),
            width: Some(50),
            height: None,
            quality: None,
        }]
    );

    let upper = respicta::convert(&Config::new("a.PNG", "b.AVIF", None, None)).unwrap();
    assert_eq!(upper.len(), 1);
    assert!(matches!(upper[0], Step::AvifEncode { .. }));
}

#[test]
fn builder_requires_both_paths() {
    let r = ConfigBuilder::default().build();
    assert!(matches!(r, Err(ConfigBuilderError::UninitializedField(ref f)) if f == "input_path"));

    let r = ConfigBuilder::default().input_path("a.png").build();
    assert!(matches!(r, Err(ConfigBuilderError::UninitializedField(ref f)) if f == "output_path"));

    let c = ConfigBuilder::default()
        .input_path("a.png")
        .output_path("b.png")
        .quality(Some(80))
        .build()
        .unwrap();
    assert_eq!(c.input_path, "a.png");
    assert_eq!(c.output_path, "b.png");
    assert_eq!(c.width, None);
    assert_eq!(c.height, None);
    assert_eq!(c.quality, Some(80));
}

#[test]
fn command_config_builds_convert_requests() {
    let cmd = respicta::frontend::Commands::Convert {
        input_path: "a.gif".into(),
        output_path: "b.gif".into(),
        width: Some(12),
        height: None,
        help: None,
    };
    let config = respicta::frontend::command_config(&cmd).unwrap();
    assert_eq!(config.input_path, "a.gif");
    assert_eq!(config.output_path, "b.gif");
    assert_eq!(config.width, Some(12));
    assert_eq!(config.height, None);
    assert_eq!(config.quality, None);

    let cmd = respicta::frontend::Commands::Server { address: None, limit: None };
    assert!(respicta::frontend::command_config(&cmd).is_none());
}
