use vstd::prelude::*;

verus! {

/// The opaque token that binds every network submission of one gesture to the
/// same undoable unit.
///
/// `tag` is unique to the dispatcher that minted the id, `serial` counts the
/// gestures that dispatcher has started, so two live ids never coincide. The
/// embedding renders the pair to whatever wire form its network layer keys
/// undo units by.
#[derive(Clone, Copy, Debug, PartialEq, Eq, Structural)]
pub struct CorrelationId {
    pub tag: u64,
    pub serial: u64,
}

} // verus!
