//! The selection mode of a list or tree widget.
//!
//! GTK's `GtkSelectionMode` is a C enum: `0` selects nothing, `1` allows at
//! most one selected row, `2` ("browse") keeps exactly one row selected once
//! one is, and `3` allows any set of rows. A binding carries the mode across
//! the boundary as that integer; these conversions pin the encoding.

use vstd::prelude::*;

verus! {

/// Which rows of a list or tree widget may be marked selected at once.
#[derive(Clone, Copy, Debug, PartialEq, Eq, Structural)]
pub enum SelectionMode {
    /// No row can be selected.
    NoSelection,
    /// At most one row is selected.
    Single,
    /// Exactly one row stays selected once any row has been.
    Browse,
    /// Any set of rows can be selected.
    Multiple,
}

/// The C encoding of a selection mode.
pub open spec fn raw_of_mode(m: SelectionMode) -> i32 {
    match m {
        SelectionMode::NoSelection => 0,
        SelectionMode::Single => 1,
        SelectionMode::Browse => 2,
        SelectionMode::Multiple => 3,
    }
}

/// The selection mode a C value denotes, if it denotes one at all.
pub open spec fn mode_of_raw(raw: i32) -> Option<SelectionMode> {
    if raw == 0 {
        Some(SelectionMode::NoSelection)
    } else if raw == 1 {
        Some(SelectionMode::Single)
    } else if raw == 2 {
        Some(SelectionMode::Browse)
    } else if raw == 3 {
        Some(SelectionMode::Multiple)
    } else {
        None
    }
}

impl SelectionMode {
    /// Encode the mode for a native call.
    pub fn to_raw(self) -> (raw: i32)
        ensures
            raw == raw_of_mode(self),
    {
        match self {
            SelectionMode::NoSelection => 0,
            SelectionMode::Single => 1,
            SelectionMode::Browse => 2,
            SelectionMode::Multiple => 3,
        }
    }

    /// Decode a mode returned by a native call; an integer outside the
    /// enum's range denotes no mode.
    pub fn from_raw(raw: i32) -> (m: Option<SelectionMode>)
        ensures
            m == mode_of_raw(raw),
    {
        if raw == 0 {
            Some(SelectionMode::NoSelection)
        } else if raw == 1 {
            Some(SelectionMode::Single)
        } else if raw == 2 {
            Some(SelectionMode::Browse)
        } else if raw == 3 {
            Some(SelectionMode::Multiple)
        } else {
            None
        }
    }
}

/// Decoding an encoded mode gives the original back: the encoding loses
/// nothing.
pub proof fn lemma_mode_round_trip(m: SelectionMode)
    ensures
        mode_of_raw(raw_of_mode(m)) == Some(m),
{
}

} // verus!
