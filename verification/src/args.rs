use vstd::prelude::*;

use crate::mode::RequestMode;

verus! {

/// The parsed command-line input: the natural-language request and the
/// verbose flag.  The surrounding program parses the real command line
/// and hands the plain values over.
#[derive(Clone, Debug)]
pub struct Args {
    pub input: String,
    pub verbose: bool,
}

impl Args {
    /// The request mode these arguments select.
    pub fn mode(&self) -> (r: RequestMode)
        ensures
            r == (if self.verbose {
                RequestMode::Verbose
            } else {
                RequestMode::Standard
            }),
    {
        if self.verbose {
            RequestMode::Verbose
        } else {
            RequestMode::Standard
        }
    }
}

} // verus!
