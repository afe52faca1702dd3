//! The failure cases of a pipeline run.

use vstd::prelude::*;

verus! {

/// Why a run aborted.  There is no local recovery: any failure aborts the
/// whole pipeline.
#[derive(Debug)]
pub enum FlexError {
    /// The layout solver rejected a node construction or a layout query.
    Taffy(taffy::Error),
    /// A failure with no more precise description.
    Unknown,
}

impl FlexError {
    /// A short description of the failure case.
    pub fn message(&self) -> (r: &'static str)
        ensures
            r@ == spec_message(*self),
    {
        match self {
            FlexError::Taffy(_) => "Taffy error",
            FlexError::Unknown => "unknown error",
        }
    }
}

pub open spec fn spec_message(e: FlexError) -> Seq<char> {
    match e {
        FlexError::Taffy(_) => "Taffy error"@,
        FlexError::Unknown => "unknown error"@,
    }
}

} // verus!
