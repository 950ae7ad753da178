//! The one way in which a call into the engine can be refused.

use vstd::prelude::*;

verus! {

/// Why a request was refused.
#[derive(Debug, Clone, Copy, PartialEq, Eq, Structural)]
pub enum MenuError {
    /// The menu has no buttons, so the turn cannot be cut into wedges.
    InvalidConfiguration,
}

impl MenuError {
    /// A short description for logs and messages.
    pub fn message(&self) -> (r: &'static str)
        ensures
            r@ == "invalid configuration: the menu has no buttons"@,
    {
        match self {
            MenuError::InvalidConfiguration => "invalid configuration: the menu has no buttons",
        }
    }
}

} // verus!
