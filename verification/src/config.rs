use vstd::prelude::*;

verus! {

/// Names the configuration source that the program loads at startup. The
/// reading and parsing of the file are done by the surrounding program
/// before the bot core is constructed; the core only carries the source
/// path.
#[derive(Debug)]
pub struct ConfigBuilder {
    pub source: String,
}

impl ConfigBuilder {
    pub fn new(source: String) -> (r: Self)
        ensures
            r.source == source,
    {
        ConfigBuilder { source }
    }

    /// The configuration source this builder was given.
    pub fn source(&self) -> (r: &String)
        ensures
            r == &self.source,
    {
        &self.source
    }
}

} // verus!
