//! Why a pass over a syntax tree is abandoned.

use vstd::prelude::*;

verus! {

/// The reasons for which instrumentation stops. None of them is recovered
/// from: the tree is instrumented as a whole or not at all.
#[derive(Clone, Copy, Debug, PartialEq, Eq, Structural)]
pub enum CheckError {
    /// An inline directive names a parameter that does not exist, or gives
    /// one a value of the wrong shape.
    MalformedDirective,
    /// An item that is no module lies in another file than its parent scope.
    FileBoundary,
    /// An argument or a local binding that needs a name is bound by a
    /// pattern that is no simple identifier.
    UnsupportedPattern,
    /// A check was asked to use the reserved named-hash directive.
    ReservedDirective,
}

} // verus!
