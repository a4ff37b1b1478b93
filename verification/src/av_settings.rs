//! Scan options, and the copy of them that each scan gets for itself.

use vstd::prelude::*;

verus! {

/// The options that a scan runs under: the five option words that the native
/// scan call reads and may write.
#[derive(Clone, Copy, Debug, PartialEq, Eq, Structural)]
pub struct AvSettings {
    pub general: u32,
    pub parse: u32,
    pub heuristic: u32,
    pub mail: u32,
    pub dev: u32,
}

impl AvSettings {
    /// Settings with the given option words.
    pub fn new(general: u32, parse: u32, heuristic: u32, mail: u32, dev: u32) -> (settings: Self)
        ensures
            settings == (AvSettings { general, parse, heuristic, mail, dev }),
    {
        AvSettings { general, parse, heuristic, mail, dev }
    }

    /// A copy for one scan. It is a value of its own: whatever the scan does
    /// to it, `self` stays as it is.
    pub fn snapshot(&self) -> (copy: Self)
        ensures
            copy == *self,
    {
        AvSettings {
            general: self.general,
            parse: self.parse,
            heuristic: self.heuristic,
            mail: self.mail,
            dev: self.dev,
        }
    }
}

} // verus!
