//! The status record shared between the listener and the render scheduler:
//! a synchronization flag plus free-form weather and temperature labels.
use vstd::prelude::*;

verus! {

/// Ghost model of the status record: the three fields as mathematical values.
pub ghost struct InputModel {
    pub sync: bool,
    pub weather: Seq<char>,
    pub temperature: Seq<char>,
}

/// The status record. All three fields are replaced only as wholes; a
/// consistent snapshot is a copy of all three taken under one lock.
pub struct Input {
    pub sync: bool,
    pub weather: String,
    pub temperature: String,
}

impl View for Input {
    type V = InputModel;

    open spec fn view(&self) -> InputModel {
        InputModel { sync: self.sync, weather: self.weather@, temperature: self.temperature@ }
    }
}

impl Input {
    /// The startup state: not synchronized, with placeholder labels.
    pub fn new() -> (r: Input)
        ensures
            r@.sync == false,
            r@.weather == "----"@,
            r@.temperature == "----"@,
    {
        Input {
            sync: false,
            weather: String::from_str("----"),
            temperature: String::from_str("----"),
        }
    }
}

} // verus!
