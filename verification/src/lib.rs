//! A planning and computation core for an image-conversion engine.
//!
//! The library resolves a pair of file extensions to a conversion pipeline,
//! computes aspect-ratio-preserving target dimensions, builds the exact
//! sequence of codec steps each pipeline runs, and carries out the byte-level
//! pixel work (colour-layout normalization, resampling, lossless PNG
//! optimization) that needs no file or process access.  A thin unverified
//! front end executes the planned steps against the file system, the external
//! GIF tools and the native encoders.

use vstd::prelude::*;

pub mod frontend;
pub mod paths;
pub mod text;
pub mod pipelines;
pub mod plan;
pub mod utils;

verus! {

/// Read access to the two file paths of one conversion.
pub trait PathAccessor {
    spec fn spec_input_path(&self) -> Seq<char>;

    spec fn spec_output_path(&self) -> Seq<char>;

    fn input_path(&self) -> (r: &String)
        ensures
            r@ == self.spec_input_path(),
    ;

    fn output_path(&self) -> (r: &String)
        ensures
            r@ == self.spec_output_path(),
    ;
}

/// Read access to the optional target dimensions of one conversion.
pub trait Dimensions {
    spec fn spec_width(&self) -> Option<u32>;

    spec fn spec_height(&self) -> Option<u32>;

    fn width(&self) -> (r: Option<u32>)
        ensures
            r == self.spec_width(),
    ;

    fn height(&self) -> (r: Option<u32>)
        ensures
            r == self.spec_height(),
    ;
}

/// Read access to the optional quality setting of one conversion.
pub trait Quality {
    spec fn spec_quality(&self) -> Option<u32>;

    fn quality(&self) -> (r: Option<u32>)
        ensures
            r == self.spec_quality(),
    ;
}

/// One conversion request: where to read, where to write, and the optional
/// target dimensions and quality.  Absent width or height means "take it
/// from the source image"; absent quality means "use the format's default".
pub struct Config {
    pub input_path: String,
    pub output_path: String,
    pub width: Option<u32>,
    pub height: Option<u32>,
    pub quality: Option<u32>,
}

impl Config {
    pub fn new(input_path: &str, output_path: &str, width: Option<u32>, height: Option<u32>) -> (c:
        Config)
        ensures
            c.input_path@ == input_path@,
            c.output_path@ == output_path@,
            c.width == width,
            c.height == height,
            c.quality is None,
    {
        Config {
            input_path: input_path.to_owned(),
            output_path: output_path.to_owned(),
            width,
            height,
            quality: None,
        }
    }
}

impl PathAccessor for Config {
    open spec fn spec_input_path(&self) -> Seq<char> {
        self.input_path@
    }

    open spec fn spec_output_path(&self) -> Seq<char> {
        self.output_path@
    }

    fn input_path(&self) -> (r: &String) {
        &self.input_path
    }

    fn output_path(&self) -> (r: &String) {
        &self.output_path
    }
}

impl Dimensions for Config {
    open spec fn spec_width(&self) -> Option<u32> {
        self.width
    }

    open spec fn spec_height(&self) -> Option<u32> {
        self.height
    }

    fn width(&self) -> (r: Option<u32>) {
        self.width
    }

    fn height(&self) -> (r: Option<u32>) {
        self.height
    }
}

impl Quality for Config {
    open spec fn spec_quality(&self) -> Option<u32> {
        self.quality
    }

    fn quality(&self) -> (r: Option<u32>) {
        self.quality
    }
}

/// A step-by-step constructor for `Config`.  Both paths must be given;
/// dimensions and quality stay absent unless set.
pub struct ConfigBuilder {
    pub input_path: Option<String>,
    pub output_path: Option<String>,
    pub width: Option<u32>,
    pub height: Option<u32>,
    pub quality: Option<u32>,
}

/// Why a configuration could not be built.
#[derive(Debug, PartialEq)]
pub enum ConfigBuilderError {
    /// A required field was never set; its name is carried along.
    UninitializedField(String),
}

impl Default for ConfigBuilder {
    /// An empty builder: nothing set yet.
    fn default() -> (r: ConfigBuilder)
        ensures
            r.input_path is None,
            r.output_path is None,
            r.width is None,
            r.height is None,
            r.quality is None,
    {
        ConfigBuilder {
            input_path: None,
            output_path: None,
            width: None,
            height: None,
            quality: None,
        }
    }
}

impl ConfigBuilder {
    pub fn input_path(self, value: &str) -> (r: Self)
        ensures
            r.input_path matches Some(s) && s@ == value@,
            r.output_path == self.output_path,
            r.width == self.width,
            r.height == self.height,
            r.quality == self.quality,
    {
        Self { input_path: Some(value.to_owned()), ..self }
    }

    pub fn output_path(self, value: &str) -> (r: Self)
        ensures
            r.output_path matches Some(s) && s@ == value@,
            r.input_path == self.input_path,
            r.width == self.width,
            r.height == self.height,
            r.quality == self.quality,
    {
        Self { output_path: Some(value.to_owned()), ..self }
    }

    pub fn width(self, value: Option<u32>) -> (r: Self)
        ensures
            r == (Self { width: value, ..self }),
    {
        Self { width: value, ..self }
    }

    pub fn height(self, value: Option<u32>) -> (r: Self)
        ensures
            r == (Self { height: value, ..self }),
    {
        Self { height: value, ..self }
    }

    pub fn quality(self, value: Option<u32>) -> (r: Self)
        ensures
            r == (Self { quality: value, ..self }),
    {
        Self { quality: value, ..self }
    }

    /// Builds the configuration; each missing path is reported by name,
    /// the input path first.
    pub fn build(self) -> (r: Result<Config, ConfigBuilderError>)
        ensures
            match (self.input_path, self.output_path) {
                (Some(i), Some(o)) => r matches Ok(c) && c == (Config {
                    input_path: i,
                    output_path: o,
                    width: self.width,
                    height: self.height,
                    quality: self.quality,
                }),
                (None, _) => r matches Err(e) && e matches ConfigBuilderError::UninitializedField(
                    m,
                ) && m@ == "input_path"@,
                (_, None) => r matches Err(e) && e matches ConfigBuilderError::UninitializedField(
                    m,
                ) && m@ == "output_path"@,
            },
    {
        let input_path = match self.input_path {
            Some(i) => i,
            None => {
                return Err(
                    ConfigBuilderError::UninitializedField(String::from_str("input_path")),
                );
            },
        };
        let output_path = match self.output_path {
            Some(o) => o,
            None => {
                return Err(
                    ConfigBuilderError::UninitializedField(String::from_str("output_path")),
                );
            },
        };
        Ok(
            Config {
                input_path,
                output_path,
                width: self.width,
                height: self.height,
                quality: self.quality,
            },
        )
    }
}

/// One supported conversion pair, after alias normalization.
#[derive(Debug, Clone, Copy, PartialEq, Eq, Structural)]
pub enum Pipeline {
    Gif2Gif,
    Gif2Webp,
    Png2Webp,
    Webp2Webp,
    Jpeg2Webp,
    Jpeg2Jpeg,
    Png2Png,
    Png2Jpeg,
    Png2Avif,
}

/// What one conversion can come to.
#[derive(Debug)]
pub enum Error {
    /// The input path has no extension.
    InputFileHasNoExtension,
    /// The output path has no extension.
    OutputFileHasNoExtension,
    /// The extension pair names no supported pipeline; the two
    /// lower-cased extensions are carried as given.
    UnsupportedConversion(String, String),
    /// The PNG-to-PNG pipeline failed.
    Png2Png(pipelines::png2png::Error),
    /// The PNG-to-JPEG pipeline failed.
    Png2Jpeg(utils::magick::Error),
    /// The PNG-to-WEBP pipeline failed.
    Png2Webp(utils::webp::Error),
    /// The JPEG-to-JPEG pipeline failed.
    Jpeg2Jpeg(utils::magick::Error),
    /// The JPEG-to-WEBP pipeline failed.
    Jpeg2Webp(utils::webp::Error),
    /// The GIF-to-GIF pipeline failed.
    Gif2Gif(utils::gifsicle::Error),
    /// The GIF-to-WEBP pipeline failed.
    Gif2Webp(pipelines::gif2webp::Error),
    /// The WEBP-to-WEBP pipeline failed.
    Webp2Webp(utils::webp::Error),
    /// The PNG-to-AVIF pipeline failed.
    Png2Avif(pipelines::png2avif::Error),
}

/// Whether `e` is one of the three spellings of the JPEG extension;
/// they are interchangeable on both sides of a pair.
pub open spec fn is_jpeg_ext(e: Seq<char>) -> bool {
    e == "jpg"@ || e == "jpeg"@ || e == "jfif"@
}

/// The canonical spelling of an extension: the JPEG aliases collapse to
/// one, everything else stands for itself.
pub open spec fn norm_ext(e: Seq<char>) -> Seq<char> {
    if is_jpeg_ext(e) {
        "jpg"@
    } else {
        e
    }
}

/// The dispatch table: which pipeline, if any, a pair of lower-cased
/// extensions names.
pub open spec fn pipeline_for(a: Seq<char>, b: Seq<char>) -> Option<Pipeline> {
    if a == "gif"@ && b == "gif"@ {
        Some(Pipeline::Gif2Gif)
    } else if a == "gif"@ && b == "webp"@ {
        Some(Pipeline::Gif2Webp)
    } else if a == "png"@ && b == "webp"@ {
        Some(Pipeline::Png2Webp)
    } else if a == "webp"@ && b == "webp"@ {
        Some(Pipeline::Webp2Webp)
    } else if is_jpeg_ext(a) && b == "webp"@ {
        Some(Pipeline::Jpeg2Webp)
    } else if is_jpeg_ext(a) && is_jpeg_ext(b) {
        Some(Pipeline::Jpeg2Jpeg)
    } else if a == "png"@ && b == "png"@ {
        Some(Pipeline::Png2Png)
    } else if a == "png"@ && is_jpeg_ext(b) {
        Some(Pipeline::Png2Jpeg)
    } else if a == "png"@ && b == "avif"@ {
        Some(Pipeline::Png2Avif)
    } else {
        None
    }
}

/// How the dispatcher answers one pair of paths.
pub enum Decision {
    /// The input path has no extension; checked first.
    MissingInput,
    /// The output path has no extension.
    MissingOutput,
    /// The pair names no pipeline; the two lower-cased extensions.
    Unsupported(Seq<char>, Seq<char>),
    /// The pair resolves to this pipeline.
    Run(Pipeline),
}

/// The dispatcher's decision for a pair of paths: extract both
/// extensions, lower-case them, and look the pair up.
pub open spec fn decision(inp: Seq<char>, outp: Seq<char>) -> Decision {
    match (crate::paths::ext_of(inp), crate::paths::ext_of(outp)) {
        (Some(ei), Some(eo)) => {
            let li = crate::text::lower(ei);
            let lo = crate::text::lower(eo);
            match pipeline_for(li, lo) {
                Some(p) => Decision::Run(p),
                None => Decision::Unsupported(li, lo),
            }
        },
        (None, _) => Decision::MissingInput,
        (_, None) => Decision::MissingOutput,
    }
}

/// The plan a resolved pipeline runs, in terms of each pipeline's own
/// plan description.
pub open spec fn plan_for(
    p: Pipeline,
    inp: Seq<char>,
    outp: Seq<char>,
    w: Option<u32>,
    h: Option<u32>,
    q: Option<u32>,
    steps: Seq<plan::Step>,
) -> bool {
    match p {
        Pipeline::Gif2Gif => pipelines::gif2gif::plan_spec(inp, outp, w, h, q, steps),
        Pipeline::Gif2Webp => pipelines::gif2webp::plan_spec(inp, outp, w, h, steps),
        Pipeline::Png2Webp => pipelines::png2webp::plan_spec(inp, outp, w, h, q, steps),
        Pipeline::Webp2Webp => pipelines::webp2webp::plan_spec(inp, outp, w, h, q, steps),
        Pipeline::Jpeg2Webp => pipelines::jpeg2webp::plan_spec(inp, outp, w, h, q, steps),
        Pipeline::Jpeg2Jpeg => pipelines::jpeg2jpeg::plan_spec(inp, outp, w, h, steps),
        Pipeline::Png2Png => pipelines::png2png::plan_spec(inp, outp, w, h, steps),
        Pipeline::Png2Jpeg => pipelines::png2jpeg::plan_spec(inp, outp, w, h, steps),
        Pipeline::Png2Avif => pipelines::png2avif::plan_spec(inp, outp, w, h, q, steps),
    }
}

/// What `convert` returns for one configuration: the error the decision
/// demands, or the resolved pipeline's plan.
pub open spec fn convert_post(c: Config, r: Result<Vec<plan::Step>, Error>) -> bool {
    match decision(c.input_path@, c.output_path@) {
        Decision::MissingInput => r matches Err(e) && e is InputFileHasNoExtension,
        Decision::MissingOutput => r matches Err(e) && e is OutputFileHasNoExtension,
        Decision::Unsupported(a, b) => r matches Err(e) && e matches Error::UnsupportedConversion(
            x,
            y,
        ) && x@ == a && y@ == b,
        Decision::Run(p) => r matches Ok(steps) && plan_for(
            p,
            c.input_path@,
            c.output_path@,
            c.width,
            c.height,
            c.quality,
            steps@,
        ),
    }
}

/// Whether `e` spells the JPEG extension in one of its three forms.
fn is_jpeg(e: &str) -> (b: bool)
    ensures
        b == is_jpeg_ext(e@),
{
    crate::text::str_eq(e, "jpg") || crate::text::str_eq(e, "jpeg") || crate::text::str_eq(
        e,
        "jfif",
    )
}

/// Resolves the extension pair of the configuration's paths,
/// case-insensitively and with the JPEG aliases interchangeable, to one
/// supported pipeline, and returns that pipeline's plan; a path without
/// an extension or a pair outside the table is rejected before any file
/// or codec is named.
pub fn convert(config: &Config) -> (r: Result<Vec<plan::Step>, Error>)
    ensures
        convert_post(*config, r),
{
    let input_extension = match crate::paths::resolve_extension(config.input_path.as_str()) {
        Some(e) => crate::text::to_lowercase(e.as_str()),
        None => {
            return Err(Error::InputFileHasNoExtension);
        },
    };
    let output_extension = match crate::paths::resolve_extension(config.output_path.as_str()) {
        Some(e) => crate::text::to_lowercase(e.as_str()),
        None => {
            return Err(Error::OutputFileHasNoExtension);
        },
    };
    let ie = input_extension.as_str();
    let oe = output_extension.as_str();
    if crate::text::str_eq(ie, "gif") && crate::text::str_eq(oe, "gif") {
        match pipelines::gif2gif::convert(config) {
            Ok(steps) => Ok(steps),
            Err(e) => Err(Error::Gif2Gif(e)),
        }
    } else if crate::text::str_eq(ie, "gif") && crate::text::str_eq(oe, "webp") {
        match pipelines::gif2webp::convert(config) {
            Ok(steps) => Ok(steps),
            Err(e) => Err(Error::Gif2Webp(e)),
        }
    } else if crate::text::str_eq(ie, "png") && crate::text::str_eq(oe, "webp") {
        match pipelines::png2webp::convert(config) {
            Ok(steps) => Ok(steps),
            Err(e) => Err(Error::Png2Webp(e)),
        }
    } else if crate::text::str_eq(ie, "webp") && crate::text::str_eq(oe, "webp") {
        match pipelines::webp2webp::convert(config) {
            Ok(steps) => Ok(steps),
            Err(e) => Err(Error::Webp2Webp(e)),
        }
    } else if is_jpeg(ie) && crate::text::str_eq(oe, "webp") {
        match pipelines::jpeg2webp::convert(config) {
            Ok(steps) => Ok(steps),
            Err(e) => Err(Error::Jpeg2Webp(e)),
        }
    } else if is_jpeg(ie) && is_jpeg(oe) {
        match pipelines::jpeg2jpeg::convert(config) {
            Ok(steps) => Ok(steps),
            Err(e) => Err(Error::Jpeg2Jpeg(e)),
        }
    } else if crate::text::str_eq(ie, "png") && crate::text::str_eq(oe, "png") {
        match pipelines::png2png::convert(config) {
            Ok(steps) => Ok(steps),
            Err(e) => Err(Error::Png2Png(e)),
        }
    } else if crate::text::str_eq(ie, "png") && is_jpeg(oe) {
        match pipelines::png2jpeg::convert(config) {
            Ok(steps) => Ok(steps),
            Err(e) => Err(Error::Png2Jpeg(e)),
        }
    } else if crate::text::str_eq(ie, "png") && crate::text::str_eq(oe, "avif") {
        match pipelines::png2avif::convert(config) {
            Ok(steps) => Ok(steps),
            Err(e) => Err(Error::Png2Avif(e)),
        }
    } else {
        Err(Error::UnsupportedConversion(input_extension, output_extension))
    }
}

/// Case does not matter: two path pairs equal up to ASCII case get the
/// same decision, pipeline and rejection alike.
pub proof fn lemma_convert_case_insensitive(
    in1: Seq<char>,
    in2: Seq<char>,
    out1: Seq<char>,
    out2: Seq<char>,
)
    requires
        crate::text::lower(in1) == crate::text::lower(in2),
        crate::text::lower(out1) == crate::text::lower(out2),
    ensures
        decision(in1, out1) == decision(in2, out2),
{
    crate::paths::lemma_lower_ext(in1, in2);
    crate::paths::lemma_lower_ext(out1, out2);
}

/// The JPEG aliases are interchangeable: extensions equal after alias
/// normalization resolve to the same pipeline, on either side.
pub proof fn lemma_jpeg_alias(a1: Seq<char>, a2: Seq<char>, b1: Seq<char>, b2: Seq<char>)
    requires
        norm_ext(a1) == norm_ext(a2),
        norm_ext(b1) == norm_ext(b2),
    ensures
        pipeline_for(a1, b1) == pipeline_for(a2, b2),
{
    reveal_strlit("jpg");
    reveal_strlit("jpeg");
    reveal_strlit("jfif");
    reveal_strlit("gif");
    reveal_strlit("webp");
    reveal_strlit("png");
    reveal_strlit("avif");
    assert(is_jpeg_ext("jpg"@));
    assert("jpg"@ != "gif"@) by {
        assert("jpg"@[0] == 'j' && "gif"@[0] == 'g');
    }
    assert("jpg"@ != "png"@) by {
        assert("jpg"@[0] == 'j' && "png"@[0] == 'p');
    }
    assert("jpg"@ != "webp"@);
    assert("jpeg"@ != "webp"@) by {
        assert("jpeg"@[0] == 'j' && "webp"@[0] == 'w');
    }
    assert("jpeg"@ != "gif"@ && "jpeg"@ != "png"@);
    assert("jfif"@ != "webp"@) by {
        assert("jfif"@[0] == 'j' && "webp"@[0] == 'w');
    }
    assert("jfif"@ != "gif"@ && "jfif"@ != "png"@);
    assert("jpeg"@ != "avif"@) by {
        assert("jpeg"@[0] == 'j' && "avif"@[0] == 'a');
    }
    assert("jfif"@ != "avif"@) by {
        assert("jfif"@[0] == 'j' && "avif"@[0] == 'a');
    }
    assert("jpg"@ != "avif"@);
}

} // verus!
