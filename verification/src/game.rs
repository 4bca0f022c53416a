use vstd::prelude::*;

verus! {

/// Identity of a player. The engine only ever compares identities for
/// equality; how the hosting application derives them is its own business.
#[derive(Clone, Copy, PartialEq, Eq, Structural, Debug)]
pub struct PlayerId {
    pub id: u64,
}

/// The two participants of a game. Immutable for the engine's purposes.
#[derive(Clone, Copy, PartialEq, Eq, Structural, Debug)]
pub struct Game {
    pub player_1: PlayerId,
    pub player_2: PlayerId,
}

} // verus!
