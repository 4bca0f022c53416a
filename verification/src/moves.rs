use vstd::prelude::*;
use crate::game::PlayerId;

verus! {

/// The kinds of move a player may submit, together with the data each
/// kind carries.
///
/// - `MoveToken` advances an existing token currently at `(x, y)` by
///   `distance` steps.
/// - `CreateToken` introduces a new token at the mover's entry point and
///   advances it `distance` steps.
#[derive(Clone, Copy, PartialEq, Eq, Structural, Debug)]
pub enum MoveType {
    MoveToken { x: usize, y: usize, distance: usize },
    CreateToken { distance: usize },
}

/// An immutable record of a submitted move: who made it and what it does.
#[derive(Clone, Copy, PartialEq, Eq, Structural, Debug)]
pub struct Move {
    pub author: PlayerId,
    pub move_type: MoveType,
}

impl MoveType {
    /// One example of each move kind, for clients that list what a move
    /// can look like.
    pub fn describe() -> (r: Vec<MoveType>)
        ensures
            r@ == seq![
                MoveType::MoveToken { x: 3, y: 0, distance: 2 },
                MoveType::CreateToken { distance: 2 },
            ],
    {
        let mut examples: Vec<MoveType> = Vec::new();
        examples.push(MoveType::MoveToken { x: 3, y: 0, distance: 2 });
        examples.push(MoveType::CreateToken { distance: 2 });
        proof {
            assert(examples@ =~= seq![
                MoveType::MoveToken { x: 3, y: 0, distance: 2 },
                MoveType::CreateToken { distance: 2 },
            ]);
        }
        examples
    }
}

} // verus!
