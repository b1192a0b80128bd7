//! One module per supported conversion pair.  Each `convert` builds the
//! exact sequence of steps its pipeline runs: a resize or normalize
//! stage, an optional intermediate write, the final-format encode, and
//! the removal of the intermediate.

use vstd::prelude::*;

pub mod gif2gif;
pub mod gif2webp;
pub mod jpeg2jpeg;
pub mod jpeg2webp;
pub mod png2avif;
pub mod png2jpeg;
pub mod png2png;
pub mod png2webp;
pub mod webp2webp;

verus! {

use crate::PathAccessor;

/// A borrowed pair of paths, for stages that need nothing but where to
/// read and where to write.
pub struct PathIO<'a> {
    input_path: &'a String,
    output_path: &'a String,
}

impl<'a> PathIO<'a> {
    pub fn new(input_path: &'a String, output_path: &'a String) -> (r: Self)
        ensures
            r.spec_input_path() == input_path@,
            r.spec_output_path() == output_path@,
    {
        Self { input_path, output_path }
    }
}

impl<'a> PathAccessor for PathIO<'a> {
    closed spec fn spec_input_path(&self) -> Seq<char> {
        self.input_path@
    }

    closed spec fn spec_output_path(&self) -> Seq<char> {
        self.output_path@
    }

    fn input_path(&self) -> (r: &String) {
        self.input_path
    }

    fn output_path(&self) -> (r: &String) {
        self.output_path
    }
}

} // verus!
