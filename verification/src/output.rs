//! The output mode: text for people or JSON for programs. It is a value
//! that the caller holds and hands on, not a switch of the process.

use vstd::prelude::*;

verus! {

/// How results are printed.
#[derive(Clone, Copy, Debug, PartialEq, Eq, Structural)]
pub struct OutputMode {
    pub json: bool,
}

impl OutputMode {
    /// Text output, the mode of a fresh process.
    pub fn new() -> (r: OutputMode)
        ensures
            r.json == false,
    {
        OutputMode { json: false }
    }
}

/// Switches JSON output on or off.
pub fn set_json_mode(mode: &mut OutputMode, enabled: bool)
    ensures
        final(mode).json == enabled,
{
    mode.json = enabled;
}

/// Whether JSON output is on.
pub fn is_json_mode(mode: &OutputMode) -> (r: bool)
    ensures
        r == mode.json,
{
    mode.json
}

} // verus!
