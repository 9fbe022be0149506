//! The settings of one run.

use vstd::prelude::*;
use vstd::string::StringExecFns;

verus! {

/// What one run was asked to do. Built once, read-only afterwards.
#[derive(Debug, PartialEq, Eq)]
pub struct Config {
    /// The path of the PNG file to read.
    pub infile: String,
    /// The path to write to; `output.png` where none is given.
    pub outfile: Option<String>,
    /// Whether the result takes the place of the input file.
    pub inplace: bool,
    /// How talkative the caller's log is. The transform does not read it.
    pub verbose: u8,
    /// A hint for processing in pieces. The transform makes a single pass
    /// over the buffer and does not read it.
    pub chunk_size: usize,
}

impl Config {
    /// Builds the settings from the values matched on the command line.
    pub fn from_matches(
        input: String,
        output: Option<String>,
        inplace: bool,
        verbose: u8,
        chunk_size: usize,
    ) -> (config: Config)
        ensures
            config == (Config { infile: input, outfile: output, inplace, verbose, chunk_size }),
    {
        Config { infile: input, outfile: output, inplace, verbose, chunk_size }
    }

    /// The path that the result is written to: the one given, or
    /// `output.png`. In in-place mode the result is written there first and
    /// moved to the input path afterwards.
    pub open spec fn output_target(&self) -> Seq<char> {
        match self.outfile {
            Some(path) => path@,
            None => "output.png"@,
        }
    }

    /// The path that the result is written to.
    pub fn output_path(&self) -> (path: String)
        ensures
            path@ == self.output_target(),
    {
        match &self.outfile {
            Some(path) => path.clone(),
            None => String::from_str("output.png"),
        }
    }
}

} // verus!
