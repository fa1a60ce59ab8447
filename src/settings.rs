use vstd::prelude::*;

verus! {

/// The two target heights, in centimetres from the sensor, kept across restarts.
#[derive(Debug, PartialEq, Eq, Structural, Clone, Copy)]
pub struct PersistentData {
    upper_height: u32,
    lower_height: u32,
}

impl PersistentData {
    /// Height of the resting position.
    pub closed spec fn lower_spec(&self) -> u32 {
        self.lower_height
    }

    /// Height of the standing position.
    pub closed spec fn upper_spec(&self) -> u32 {
        self.upper_height
    }

    pub fn lower_height(&self) -> (r: u32)
        ensures
            r == self.lower_spec(),
    {
        self.lower_height
    }

    pub fn upper_height(&self) -> (r: u32)
        ensures
            r == self.upper_spec(),
    {
        self.upper_height
    }

    /// The default configuration: both heights zero.
    pub fn new() -> (r: PersistentData)
        ensures
            r.upper_spec() == 0,
            r.lower_spec() == 0,
    {
        PersistentData { upper_height: 0, lower_height: 0 }
    }

    /// A configuration with the given standing and resting heights.
    pub fn with_heights(upper_height: u32, lower_height: u32) -> (r: PersistentData)
        ensures
            r.upper_spec() == upper_height,
            r.lower_spec() == lower_height,
    {
        PersistentData { upper_height, lower_height }
    }

    /// Settles what startup uses from what could be read back: a parsed configuration
    /// is kept as it is; a missing or unparseable one is replaced by the defaults,
    /// which must then be written back (the second component).
    pub fn from_stored(parsed: Option<PersistentData>) -> (r: (PersistentData, bool))
        ensures
            parsed is Some ==> r == (parsed->Some_0, false),
            parsed is None ==> r.0.upper_spec() == 0 && r.0.lower_spec() == 0 && r.1,
    {
        match parsed {
            Some(data) => (data, false),
            None => (PersistentData::new(), true),
        }
    }
}

} // verus!
