//! The data the thin front ends hand to the engine: the command-line
//! model and the upload endpoint's query parameters.  The front ends
//! parse their own input formats and build these values.

use vstd::prelude::*;

verus! {

use crate::Config;

/// One parsed command-line invocation.
pub struct Cli {
    pub command: Option<Commands>,
}

/// The commands the command line offers.
pub enum Commands {
    /// Convert one image; absent dimensions are taken from the source.
    Convert {
        input_path: String,
        output_path: String,
        width: Option<u32>,
        height: Option<u32>,
        help: Option<bool>,
    },
    /// Serve the upload endpoint.
    Server { address: Option<String>, limit: Option<usize> },
    /// Serve the command endpoint.
    CommandServer { address: Option<String> },
}

/// The query parameters of one upload request.
pub struct Params {
    pub extension: Option<String>,
    pub width: Option<u32>,
    pub height: Option<u32>,
}

/// The conversion a command asks for: a convert command becomes a
/// configuration with its paths and dimensions and no quality; the
/// server commands ask for none.
pub fn command_config(command: &Commands) -> (r: Option<Config>)
    ensures
        match command {
            Commands::Convert { input_path, output_path, width, height, .. } => r matches Some(c)
                && c.input_path@ == input_path@ && c.output_path@ == output_path@ && c.width
                == *width && c.height == *height && c.quality is None,
            _ => r is None,
        },
{
    match command {
        Commands::Convert { input_path, output_path, width, height, .. } => Some(
            Config::new(input_path.as_str(), output_path.as_str(), *width, *height),
        ),
        _ => None,
    }
}

} // verus!
