//! What the user fills in to create a record.

pub mod create_input;
pub mod create_series;

use vstd::prelude::*;

verus! {

/// The kind of value that a form field holds.
#[derive(Clone, Copy, Debug, PartialEq, Eq, Structural)]
pub enum InputType {
    Number,
    String,
    Boolean,
}

} // verus!
