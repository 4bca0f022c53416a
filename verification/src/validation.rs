use vstd::prelude::*;
use crate::game::Game;
use crate::game::PlayerId;
use crate::moves::Move;
use crate::moves::MoveType;
use crate::state::GameState;
use crate::state::Token;
use crate::state::contains_token;
use crate::state::has_token_at;
use crate::state::increment_location;
use crate::state::move_logged_wf;
use crate::state::on_grid;
use crate::state::lemma_advance_mover_mirror;
use crate::state::lemma_advance_player_other;
use crate::state::spec_advance;
use crate::state::spec_move_distance;

verus! {

// ---------------------------------------------------------------------------
// Spec model of legality
// ---------------------------------------------------------------------------

/// The number the topology uses for a mover when resolving the split
/// cell: 1 for player 1, 2 for anyone else.
pub open spec fn spec_mover_num(author: PlayerId, game: Game) -> int {
    if author == game.player_1 {
        1
    } else {
        2
    }
}

/// The bonus cells: landing on one grants the mover another turn.
pub open spec fn spec_is_rosette(x: int, y: int) -> bool {
    ||| x == 0 && y == 0
    ||| x == 0 && y == 2
    ||| x == 3 && y == 1
    ||| x == 6 && y == 0
    ||| x == 6 && y == 2
}

/// The fixed entry coordinate a newly created token starts from: offset 4
/// on the mover's private lane.
pub open spec fn spec_entry(author: PlayerId, game: Game) -> (int, int) {
    if spec_mover_num(author, game) == 1 {
        (4, 0)
    } else {
        (4, 2)
    }
}

/// The cell a logged move's token landed on, used for rosette checking.
/// The split cell is resolved as player 1; rosette membership is
/// mirror-symmetric between the private lanes, so the answer does not
/// depend on that choice.
pub open spec fn spec_landing(m: Move, game: Game) -> (int, int) {
    match m.move_type {
        MoveType::MoveToken { x, y, distance } => spec_advance(
            x as int,
            y as int,
            distance as nat,
            1,
        ),
        MoveType::CreateToken { distance } => {
            let e = spec_entry(m.author, game);
            spec_advance(e.0, e.1, distance as nat, 1)
        },
    }
}

/// Landing a move as player 1 and as any other mover agree on rosette
/// membership: the two walks differ at most by swapping the private
/// lanes, and the rosette set is mirror-symmetric between them. This
/// justifies resolving the split as player 1 in `spec_landing`.
pub proof fn lemma_rosette_mover_independent(x: int, y: int, d: nat, player: int)
    ensures
        spec_is_rosette(spec_advance(x, y, d, 1).0, spec_advance(x, y, d, 1).1)
            == spec_is_rosette(
            spec_advance(x, y, d, player).0,
            spec_advance(x, y, d, player).1,
        ),
{
    if player != 1 {
        lemma_advance_player_other(x, y, d, player);
        lemma_advance_mover_mirror(x, y, d);
    }
}

/// Whether `author` may move next: anyone on an empty log; after a move
/// that landed on a rosette, only that move's author; otherwise anyone
/// but that author.
pub open spec fn spec_turn_ok(author: PlayerId, game: Game, state: GameState) -> bool {
    if state.moves@.len() == 0 {
        true
    } else {
        let last = state.moves@.last();
        let land = spec_landing(last, game);
        if spec_is_rosette(land.0, land.1) {
            last.author == author
        } else {
            last.author != author
        }
    }
}

/// The message a turn-order rejection carries, which distinguishes a
/// rosette-retained turn from plain alternation. Meaningful only when
/// the log is not empty.
pub open spec fn spec_turn_rejection(game: Game, state: GameState) -> Seq<char> {
    let last = state.moves@.last();
    let land = spec_landing(last, game);
    if spec_is_rosette(land.0, land.1) {
        "It is not your turn! ROSETTE"@
    } else {
        "It is not your turn! NON-ROSETTE"@
    }
}

/// The mover's own token set.
pub open spec fn mover_tokens(author: PlayerId, game: Game, state: GameState) -> Seq<Token> {
    if author == game.player_1 {
        state.p1_tokens@
    } else {
        state.p2_tokens@
    }
}

/// The mover's count of tokens already home.
pub open spec fn mover_home(author: PlayerId, game: Game, state: GameState) -> int {
    if author == game.player_1 {
        state.p1_home as int
    } else {
        state.p2_home as int
    }
}

/// The global distance bound: every move advances between 1 and 4 cells.
pub open spec fn spec_distance_ok(d: int) -> bool {
    1 <= d <= 4
}

/// The cell the proposed move's token would land on: from the declared
/// origin for a token move, from the mover's entry coordinate for a
/// token creation.
pub open spec fn spec_destination(m: Move, game: Game) -> (int, int) {
    let p = spec_mover_num(m.author, game);
    match m.move_type {
        MoveType::CreateToken { distance } => {
            let e = spec_entry(m.author, game);
            spec_advance(e.0, e.1, distance as nat, p)
        },
        MoveType::MoveToken { x, y, distance } => spec_advance(
            x as int,
            y as int,
            distance as nat,
            p,
        ),
    }
}

/// The landing cell as a token value.
pub open spec fn spec_dest_token(m: Move, game: Game) -> Token {
    let d = spec_destination(m, game);
    Token { x: d.0 as usize, y: d.1 as usize }
}

/// The landing cell holds none of the mover's own tokens. A cell held by
/// the opponent is always a legal destination: this engine has no
/// capture rule.
pub open spec fn spec_dest_free(m: Move, game: Game, state: GameState) -> bool {
    let d = spec_destination(m, game);
    !has_token_at(mover_tokens(m.author, game, state), d.0, d.1)
}

/// The mover still has a token to bring on: fewer than 7 of their tokens
/// are on the board or home.
pub open spec fn spec_capacity_ok(author: PlayerId, game: Game, state: GameState) -> bool {
    mover_tokens(author, game, state).len() + mover_home(author, game, state) < 7
}

/// Origin-specific distance caps near the end of the track: a token must
/// leave the board exactly, so the split cell caps the distance at 3, the
/// first exit-lane cell at 2, and the second at 1.
pub open spec fn spec_overshoot_ok(x: int, y: int, d: int) -> bool {
    if x == 7 && y == 1 {
        d <= 3
    } else if x == 7 && (y == 0 || y == 2) {
        d <= 2
    } else if x == 6 && (y == 0 || y == 2) {
        d <= 1
    } else {
        true
    }
}

/// The message an overshoot rejection carries, by origin. Meaningful
/// only for origins that cap the distance.
pub open spec fn spec_overshoot_rejection(x: int, y: int) -> Seq<char> {
    if x == 7 && y == 1 {
        "You must move off the board exactly! V3"@
    } else if x == 7 && (y == 0 || y == 2) {
        "You must move off the board exactly! V2"@
    } else {
        "You must move off the board exactly! V1"@
    }
}

/// All five legality predicates together: turn order, the global
/// distance bound, a destination free of the mover's own tokens, and —
/// per move kind — remaining capacity, or an existing token at the
/// origin that does not overshoot the board.
pub open spec fn spec_is_valid(m: Move, game: Game, state: GameState) -> bool {
    &&& spec_turn_ok(m.author, game, state)
    &&& spec_distance_ok(spec_move_distance(m.move_type))
    &&& spec_dest_free(m, game, state)
    &&& match m.move_type {
        MoveType::CreateToken { distance } => spec_capacity_ok(m.author, game, state),
        MoveType::MoveToken { x, y, distance } => has_token_at(
            mover_tokens(m.author, game, state),
            x as int,
            y as int,
        ) && spec_overshoot_ok(x as int, y as int, distance as int),
    }
}

/// The rejection message `is_valid` returns for an invalid move: that of
/// the first failing predicate, in checking order. Meaningful only when
/// `spec_is_valid` fails.
pub open spec fn spec_rejection(m: Move, game: Game, state: GameState) -> Seq<char> {
    let d = spec_move_distance(m.move_type);
    if !spec_turn_ok(m.author, game, state) {
        spec_turn_rejection(game, state)
    } else if !spec_distance_ok(d) {
        if d > 4 {
            "You can't move more than 4 tiles!"@
        } else {
            "You must move at least 1 tile!"@
        }
    } else if !spec_dest_free(m, game, state) {
        if m.author == game.player_1 {
            "You can't move a token onto another of your tokens! P1"@
        } else {
            "You can't move a token onto another of your tokens! P2"@
        }
    } else {
        match m.move_type {
            MoveType::CreateToken { distance } => {
                if m.author == game.player_1 {
                    "You are out of tokens! P1"@
                } else {
                    "You are out of tokens! P2"@
                }
            },
            MoveType::MoveToken { x, y, distance } => {
                if !has_token_at(mover_tokens(m.author, game, state), x as int, y as int) {
                    if m.author == game.player_1 {
                        "There is not one of your tokens to move on the selected tile P1"@
                    } else {
                        "There is not one of your tokens to move on the selected tile P2"@
                    }
                } else {
                    spec_overshoot_rejection(x as int, y as int)
                }
            },
        }
    }
}

/// What a candidate move must look like before it can be checked at all:
/// a declared origin is a cell of the bounded grid.
pub open spec fn move_submittable(m: Move) -> bool {
    match m.move_type {
        MoveType::MoveToken { x, y, distance } => on_grid(x as int, y as int),
        MoveType::CreateToken { distance } => true,
    }
}

// ---------------------------------------------------------------------------
// Executable checks
// ---------------------------------------------------------------------------

/// The number the engine moves a token with: 1 for player 1, 2 for
/// player 2, and a sentinel for an author that is neither (such an
/// author still moves as player 2 does; the split is the only place the
/// number matters).
fn which_player(author: PlayerId, game: &Game) -> (r: usize)
    ensures
        author == game.player_1 ==> r == 1,
        author != game.player_1 && author == game.player_2 ==> r == 2,
        author != game.player_1 && author != game.player_2 ==> r == 100000000,
        (r == 1) == (spec_mover_num(author, *game) == 1),
{
    if author == game.player_1 {
        1
    } else if author == game.player_2 {
        2
    } else {
        100000000
    }
}

/// Whether `(x, y)` is a bonus cell that grants an extra turn.
pub fn is_rosette(x: usize, y: usize) -> (r: bool)
    ensures
        r == spec_is_rosette(x as int, y as int),
{
    match (x, y) {
        (0, 0) | (0, 2) | (3, 1) | (6, 0) | (6, 2) => true,
        (_, _) => false,
    }
}

/// The global distance bound. A distance of zero is rejected by design:
/// every accepted move must advance its token.
pub fn is_valid_distance(d: usize) -> (r: Result<(), String>)
    ensures
        r is Ok <==> spec_distance_ok(d as int),
        r is Err ==> r->Err_0@ == (if d > 4 {
            "You can't move more than 4 tiles!"@
        } else {
            "You must move at least 1 tile!"@
        }),
{
    if d > 4 {
        Err("You can't move more than 4 tiles!".to_string())
    } else if d == 0 {
        Err("You must move at least 1 tile!".to_string())
    } else {
        Ok(())
    }
}

/// The origin-specific caps near the end of the track: a token must move
/// off the board exactly, never past it.
pub fn isnt_overmoving(origin: (usize, usize), distance: usize) -> (r: Result<(), String>)
    ensures
        r is Ok <==> spec_overshoot_ok(origin.0 as int, origin.1 as int, distance as int),
        r is Err ==> r->Err_0@ == spec_overshoot_rejection(origin.0 as int, origin.1 as int),
{
    match (origin.0, origin.1) {
        (7, 1) => {
            if distance > 3 {
                Err("You must move off the board exactly! V3".to_string())
            } else {
                Ok(())
            }
        },
        (7, 0) | (7, 2) => {
            if distance > 2 {
                Err("You must move off the board exactly! V2".to_string())
            } else {
                Ok(())
            }
        },
        (6, 0) | (6, 2) => {
            if distance > 1 {
                Err("You must move off the board exactly! V1".to_string())
            } else {
                Ok(())
            }
        },
        (_, _) => Ok(()),
    }
}

/// The cell the given logged move's token landed on.
fn landing_of(last: &Move, game: &Game) -> (r: (usize, usize))
    requires
        move_logged_wf(*last),
    ensures
        (r.0 as int, r.1 as int) == spec_landing(*last, *game),
{
    match last.move_type {
        MoveType::MoveToken { x, y, distance } => increment_location(x, y, distance, 1),
        MoveType::CreateToken { distance } => {
            let p = which_player(last.author, game);
            if p == 1 {
                increment_location(4, 0, distance, 1)
            } else {
                increment_location(4, 2, distance, 1)
            }
        },
    }
}

/// Who may submit the next move: anyone while the log is empty, else one
/// named player.
#[derive(Clone, Copy, PartialEq, Eq, Structural, Debug)]
pub enum TurnVerdict {
    Either,
    Only(PlayerId),
}

/// The participant other than `author` (the opponent of a participant;
/// player 1 for an author who is no participant at all).
pub open spec fn spec_other_player(author: PlayerId, game: Game) -> PlayerId {
    if author == game.player_1 {
        game.player_2
    } else {
        game.player_1
    }
}

/// The verdict derived by replaying the last logged move: open on an
/// empty log; the same author again after a rosette landing; otherwise
/// the opponent.
pub open spec fn spec_whose_turn(game: Game, state: GameState) -> TurnVerdict {
    if state.moves@.len() == 0 {
        TurnVerdict::Either
    } else {
        let last = state.moves@.last();
        let land = spec_landing(last, game);
        if spec_is_rosette(land.0, land.1) {
            TurnVerdict::Only(last.author)
        } else {
            TurnVerdict::Only(spec_other_player(last.author, game))
        }
    }
}

/// Which player may move next, recomputed from the log rather than
/// stored, so it can never drift out of sync with it.
pub fn whose_turn(game: &Game, state: &GameState) -> (r: TurnVerdict)
    requires
        state.wf(),
    ensures
        r == spec_whose_turn(*game, *state),
{
    let n = state.moves.len();
    if n == 0 {
        TurnVerdict::Either
    } else {
        let last: Move = state.moves[n - 1];
        let location = landing_of(&last, game);
        if is_rosette(location.0, location.1) {
            TurnVerdict::Only(last.author)
        } else {
            if last.author == game.player_1 {
                TurnVerdict::Only(game.player_2)
            } else {
                TurnVerdict::Only(game.player_1)
            }
        }
    }
}

/// The verdict names exactly the participants whose move `spec_turn_ok`
/// accepts, whenever the previous move (if any) was made by one of the
/// two distinct participants.
pub proof fn lemma_whose_turn_sound(author: PlayerId, game: Game, state: GameState)
    requires
        game.player_1 != game.player_2,
        author == game.player_1 || author == game.player_2,
        state.moves@.len() > 0 ==> (state.moves@.last().author == game.player_1
            || state.moves@.last().author == game.player_2),
    ensures
        spec_turn_ok(author, game, state) <==> (spec_whose_turn(game, state) == TurnVerdict::Either
            || spec_whose_turn(game, state) == TurnVerdict::Only(author)),
{
}

/// Turn alternation: when the last accepted move did not land on a
/// rosette, no valid next move has the same author. Since `evolve`
/// only appends, this makes consecutive authors of a rosette-free log
/// differ.
pub proof fn lemma_turn_alternation(m: Move, game: Game, state: GameState)
    requires
        spec_is_valid(m, game, state),
        state.moves@.len() > 0,
        !spec_is_rosette(
            spec_landing(state.moves@.last(), game).0,
            spec_landing(state.moves@.last(), game).1,
        ),
    ensures
        m.author != state.moves@.last().author,
{
}

/// Rosette retention: when the last accepted move landed on a rosette,
/// every valid next move keeps the same author.
pub proof fn lemma_rosette_retention(m: Move, game: Game, state: GameState)
    requires
        spec_is_valid(m, game, state),
        state.moves@.len() > 0,
        spec_is_rosette(
            spec_landing(state.moves@.last(), game).0,
            spec_landing(state.moves@.last(), game).1,
        ),
    ensures
        m.author == state.moves@.last().author,
{
}

/// Turn order: replay the last logged move and check rosette membership
/// of its landing cell.
fn is_players_turn(player: PlayerId, game: &Game, game_state: &GameState) -> (r: Result<(), String>)
    requires
        game_state.wf(),
    ensures
        r is Ok <==> spec_turn_ok(player, *game, *game_state),
        r is Err ==> r->Err_0@ == spec_turn_rejection(*game, *game_state),
{
    let n = game_state.moves.len();
    if n == 0 {
        // no player has moved yet: either player may open the game
        Ok(())
    } else {
        let last: Move = game_state.moves[n - 1];
        let location = landing_of(&last, game);
        if is_rosette(location.0, location.1) {
            if last.author == player {
                // the player landed on a rosette and plays again
                Ok(())
            } else {
                // the opponent landed on a rosette and plays again
                Err("It is not your turn! ROSETTE".to_string())
            }
        } else {
            if last.author == player {
                // the player just moved: the opponent's turn
                Err("It is not your turn! NON-ROSETTE".to_string())
            } else {
                Ok(())
            }
        }
    }
}

/// Destination collision: the mover may not land on one of their own
/// tokens.
fn player_can_move_to_tile(
    player: PlayerId,
    game: &Game,
    game_state: &GameState,
    destination: (usize, usize),
) -> (r: Result<(), String>)
    ensures
        r is Ok <==> !has_token_at(
            mover_tokens(player, *game, *game_state),
            destination.0 as int,
            destination.1 as int,
        ),
        r is Err ==> r->Err_0@ == (if player == game.player_1 {
            "You can't move a token onto another of your tokens! P1"@
        } else {
            "You can't move a token onto another of your tokens! P2"@
        }),
{
    if player == game.player_1 {
        if contains_token(&game_state.p1_tokens, destination.0, destination.1) {
            Err("You can't move a token onto another of your tokens! P1".to_string())
        } else {
            Ok(())
        }
    } else {
        if contains_token(&game_state.p2_tokens, destination.0, destination.1) {
            Err("You can't move a token onto another of your tokens! P2".to_string())
        } else {
            Ok(())
        }
    }
}

/// Capacity: the mover's tokens on the board plus tokens home must stay
/// under 7 before another token may be created.
fn player_has_token(player: PlayerId, game: &Game, game_state: &GameState) -> (r: Result<(), String>)
    requires
        game_state.wf(),
    ensures
        r is Ok <==> spec_capacity_ok(player, *game, *game_state),
        r is Err ==> r->Err_0@ == (if player == game.player_1 {
            "You are out of tokens! P1"@
        } else {
            "You are out of tokens! P2"@
        }),
{
    if player == game.player_1 {
        if game_state.p1_tokens.len() + game_state.p1_home < 7 {
            Ok(())
        } else {
            Err("You are out of tokens! P1".to_string())
        }
    } else {
        if game_state.p2_tokens.len() + game_state.p2_home < 7 {
            Ok(())
        } else {
            Err("You are out of tokens! P2".to_string())
        }
    }
}

/// Origin validity: a token of the mover must stand at the declared
/// origin.
fn token_exists(
    player: PlayerId,
    game: &Game,
    game_state: &GameState,
    origin: (usize, usize),
) -> (r: Result<(), String>)
    ensures
        r is Ok <==> has_token_at(
            mover_tokens(player, *game, *game_state),
            origin.0 as int,
            origin.1 as int,
        ),
        r is Err ==> r->Err_0@ == (if player == game.player_1 {
            "There is not one of your tokens to move on the selected tile P1"@
        } else {
            "There is not one of your tokens to move on the selected tile P2"@
        }),
{
    if player == game.player_1 {
        if contains_token(&game_state.p1_tokens, origin.0, origin.1) {
            Ok(())
        } else {
            Err("There is not one of your tokens to move on the selected tile P1".to_string())
        }
    } else {
        if contains_token(&game_state.p2_tokens, origin.0, origin.1) {
            Ok(())
        } else {
            Err("There is not one of your tokens to move on the selected tile P2".to_string())
        }
    }
}

impl Move {
    /// Whether this candidate move is legal against the given game and
    /// state: `Ok(())` exactly when all five legality predicates hold,
    /// and otherwise the rejection message of the first failing check.
    pub fn is_valid(&self, game: Game, game_state: GameState) -> (r: Result<(), String>)
        requires
            game_state.wf(),
            move_submittable(*self),
        ensures
            r is Ok <==> spec_is_valid(*self, game, game_state),
            r is Err ==> r->Err_0@ == spec_rejection(*self, game, game_state),
    {
        match is_players_turn(self.author, &game, &game_state) {
            Err(e) => {
                return Err(e);
            },
            Ok(()) => {},
        }

        let move_distance = match self.move_type {
            MoveType::CreateToken { distance } => distance,
            MoveType::MoveToken { x: _, y: _, distance } => distance,
        };

        match is_valid_distance(move_distance) {
            Err(e) => {
                return Err(e);
            },
            Ok(()) => {},
        }

        let p = which_player(self.author, &game);

        let destination = match self.move_type {
            MoveType::CreateToken { distance } => {
                if p == 1 {
                    increment_location(4, 0, distance, p)
                } else {
                    increment_location(4, 2, distance, p)
                }
            },
            MoveType::MoveToken { x, y, distance } => increment_location(x, y, distance, p),
        };

        proof {
            if p != 1 {
                match self.move_type {
                    MoveType::CreateToken { distance } => {
                        lemma_advance_player_other(4, 2, distance as nat, p as int);
                    },
                    MoveType::MoveToken { x, y, distance } => {
                        lemma_advance_player_other(x as int, y as int, distance as nat, p as int);
                    },
                }
            }
            assert((destination.0 as int, destination.1 as int) == spec_destination(*self, game));
        }

        match player_can_move_to_tile(self.author, &game, &game_state, destination) {
            Err(e) => {
                return Err(e);
            },
            Ok(()) => {},
        }

        match self.move_type {
            MoveType::CreateToken { distance: _ } => {
                match player_has_token(self.author, &game, &game_state) {
                    Err(e) => {
                        return Err(e);
                    },
                    Ok(()) => {},
                }
            },
            MoveType::MoveToken { x, y, distance } => {
                match token_exists(self.author, &game, &game_state, (x, y)) {
                    Err(e) => {
                        return Err(e);
                    },
                    Ok(()) => {},
                }
                match isnt_overmoving((x, y), distance) {
                    Err(e) => {
                        return Err(e);
                    },
                    Ok(()) => {},
                }
            },
        }

        Ok(())
    }
}

} // verus!
