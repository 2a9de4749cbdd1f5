//! Interpreting the native file picker.
//!
//! The picker itself is presented by the process around the library; it
//! blocks until the user chooses a file or dismisses the dialog, restricted
//! to the single filter group declared here. The functions below fix that
//! filter group and turn the picker's outcome into the caller's answer.

use vstd::prelude::*;

verus! {

/// Label of the single filter group the picker offers.
pub fn filter_label() -> (r: String)
    ensures
        r@ == "GDS Files"@,
{
    "GDS Files".to_owned()
}

/// The file extensions the picker is restricted to.
pub fn filter_extensions() -> (r: Vec<String>)
    ensures
        r@.len() == 3,
        r@[0]@ == "gds"@,
        r@[1]@ == "gdsii"@,
        r@[2]@ == "dxf"@,
{
    let mut exts: Vec<String> = Vec::new();
    exts.push("gds".to_owned());
    exts.push("gdsii".to_owned());
    exts.push("dxf".to_owned());
    exts
}

/// How the picker ended.
#[derive(Debug, PartialEq, Eq, Clone)]
pub enum PickOutcome {
    /// The user dismissed the dialog without choosing.
    Cancelled,
    /// The user chose a file and its path converted to this text.
    Picked(String),
    /// The user chose a file whose path could not be converted to text;
    /// this is the description of that failure.
    NotText(String),
}

/// Turns the picker's outcome into the caller's answer: a cancelled dialog
/// is "no value", not an error; a chosen file is handed back as its path
/// text; only a path that cannot be converted to text is an error.
pub fn interpret_pick(outcome: PickOutcome) -> (r: Result<Option<String>, String>)
    ensures
        match outcome {
            PickOutcome::Cancelled => r == Ok::<Option<String>, String>(None),
            PickOutcome::Picked(p) => r == Ok::<Option<String>, String>(Some(p)),
            PickOutcome::NotText(e) => r == Err::<Option<String>, String>(e),
        },
{
    match outcome {
        PickOutcome::Cancelled => Ok(None),
        PickOutcome::Picked(p) => Ok(Some(p)),
        PickOutcome::NotText(e) => Err(e),
    }
}

} // verus!
