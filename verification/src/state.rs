use vstd::prelude::*;
use crate::game::Game;
use crate::moves::Move;
use crate::moves::MoveType;
use crate::validation::mover_tokens;
use crate::validation::spec_dest_token;
use crate::validation::spec_is_valid;

verus! {

// ---------------------------------------------------------------------------
// Board topology
//
// The board is three parallel lanes. Lane `y = 0` is player 1's private
// lane, `y = 2` is player 2's private lane, and `y = 1` is the lane the
// players share. A token walks down its private entry lane (offset
// decreasing), merges into the shared lane at offset 0, walks up the
// shared lane (offset increasing), and at the shared-lane terminus
// (offset 7) splits back into the mover's private exit lane, which it
// walks down to the home-arrival cell at offset 5.
// ---------------------------------------------------------------------------

/// Where a token standing at `(x, y)` lands after a single step, when the
/// mover is `player` (1 for player 1; any other value moves as player 2,
/// which only matters at the split cell).
pub open spec fn spec_step(x: int, y: int, player: int) -> (int, int) {
    if x == 0 && (y == 0 || y == 2) {
        // merge: a private lane's terminus coincides with the shared
        // lane's start at the same offset
        (0, 1)
    } else if x == 7 && y == 1 {
        // split: the shared lane's terminus leads into the mover's own
        // exit lane
        if player == 1 {
            (7, 0)
        } else {
            (7, 2)
        }
    } else if y == 1 {
        // shared lane: offset increases
        (x + 1, 1)
    } else {
        // private lanes: offset decreases
        (x - 1, y)
    }
}

/// Where a token standing at `(x, y)` lands after exactly `d` steps.
/// Distance 0 is the identity.
pub open spec fn spec_advance(x: int, y: int, d: nat, player: int) -> (int, int)
    decreases d,
{
    if d == 0 {
        (x, y)
    } else {
        let p = spec_advance(x, y, (d - 1) as nat, player);
        spec_step(p.0, p.1, player)
    }
}

/// The bounded grid of board cells: lane offsets 0 through 7 on the three
/// lanes. Every cell a token can stand on, and every landing cell reached
/// from one, lies on this grid.
pub open spec fn on_grid(x: int, y: int) -> bool {
    0 <= x <= 7 && 0 <= y <= 2
}

/// Advancing is a pure function of its arguments: equal positions,
/// distances and movers always land on equal cells.
pub proof fn lemma_advance_deterministic(
    x1: int, y1: int, d1: nat, p1: int,
    x2: int, y2: int, d2: nat, p2: int,
)
    requires
        x1 == x2,
        y1 == y2,
        d1 == d2,
        p1 == p2,
    ensures
        spec_advance(x1, y1, d1, p1) == spec_advance(x2, y2, d2, p2),
{
}

/// Advancing a distance of zero leaves every position unchanged.
pub proof fn lemma_advance_zero(x: int, y: int, player: int)
    ensures
        spec_advance(x, y, 0, player) == (x, y),
{
}

/// Advancing `d1 + d2` steps is the same as advancing `d1` steps and then
/// advancing `d2` more from the landing cell.
pub proof fn lemma_advance_composition(x: int, y: int, d1: nat, d2: nat, player: int)
    ensures
        spec_advance(x, y, d1 + d2, player) == ({
            let mid = spec_advance(x, y, d1, player);
            spec_advance(mid.0, mid.1, d2, player)
        }),
    decreases d2,
{
    if d2 > 0 {
        lemma_advance_composition(x, y, d1, (d2 - 1) as nat, player);
    }
}

/// No sequence of steps leaves the grid.
pub proof fn lemma_advance_on_grid(x: int, y: int, d: nat, player: int)
    requires
        on_grid(x, y),
    ensures
        on_grid(spec_advance(x, y, d, player).0, spec_advance(x, y, d, player).1),
    decreases d,
{
    if d > 0 {
        lemma_advance_on_grid(x, y, (d - 1) as nat, player);
    }
}

/// The mover's number only matters at the split cell: every value other
/// than 1 resolves the split exactly as player 2 does.
pub proof fn lemma_advance_player_other(x: int, y: int, d: nat, player: int)
    requires
        player != 1,
    ensures
        spec_advance(x, y, d, player) == spec_advance(x, y, d, 2),
    decreases d,
{
    if d > 0 {
        lemma_advance_player_other(x, y, (d - 1) as nat, player);
    }
}

/// One step of the topology, executable form.
fn step(x: usize, y: usize, player: usize) -> (r: (usize, usize))
    requires
        y <= 2,
        x < usize::MAX,
    ensures
        (r.0 as int, r.1 as int) == spec_step(x as int, y as int, player as int),
        r.1 <= 2,
        r.0 <= x + 1,
{
    if x == 0 && (y == 0 || y == 2) {
        (0, 1)
    } else if x == 7 && y == 1 {
        if player == 1 {
            (7, 0)
        } else {
            (7, 2)
        }
    } else if y == 1 {
        (x + 1, 1)
    } else {
        (x - 1, y)
    }
}

/// Where a token at `(x, y)` lands when moved `distance` steps by
/// `player`: `step` applied exactly `distance` times.
pub fn increment_location(x: usize, y: usize, distance: usize, player: usize) -> (r: (usize, usize))
    requires
        y <= 2,
        x + distance <= usize::MAX,
    ensures
        (r.0 as int, r.1 as int) == spec_advance(x as int, y as int, distance as nat, player as int),
        r.1 <= 2,
        r.0 <= x + distance,
{
    let mut location: (usize, usize) = (x, y);
    let mut i: usize = 0;
    while i < distance
        invariant
            i <= distance,
            y <= 2,
            x + distance <= usize::MAX,
            (location.0 as int, location.1 as int)
                == spec_advance(x as int, y as int, i as nat, player as int),
            location.1 <= 2,
            location.0 <= x + i,
        decreases distance - i,
    {
        location = step(location.0, location.1, player);
        i = i + 1;
    }
    location
}

// ---------------------------------------------------------------------------
// Home arrival
// ---------------------------------------------------------------------------

/// A token that lands exactly on one of the two home-arrival cells —
/// `(5, 0)` on player 1's exit lane or `(5, 2)` on player 2's — leaves the
/// board and counts as home.
pub open spec fn is_home_cell(x: int, y: int) -> bool {
    x == 5 && (y == 0 || y == 2)
}

/// Whether a token at `(x, y)` moved `distance` steps arrives home.
/// Advancing as player 1 is enough: `lemma_homing_mover_independent`
/// shows the mover cannot change the answer.
pub open spec fn spec_homing(x: int, y: int, d: nat) -> bool {
    let land = spec_advance(x, y, d, 1);
    is_home_cell(land.0, land.1)
}

/// The two movers' walks from a common start are always either on the
/// same cell or on mirror cells (same offset, private lanes swapped):
/// they only part ways at the split cell, and private-lane mirror cells
/// step in lock-step until they re-merge into the shared lane.
pub proof fn lemma_advance_mover_mirror(x: int, y: int, d: nat)
    ensures
        ({
            let a1 = spec_advance(x, y, d, 1);
            let a2 = spec_advance(x, y, d, 2);
            a2 == a1 || (a2.0 == a1.0 && (a1.1 == 0 && a2.1 == 2 || a1.1 == 2 && a2.1 == 0))
        }),
    decreases d,
{
    if d > 0 {
        lemma_advance_mover_mirror(x, y, (d - 1) as nat);
    }
}

/// Whether a token arrives home does not depend on which player moves
/// it: the two exit lanes are mirror images and both home-arrival cells
/// count. This justifies resolving the split as player 1 in
/// `spec_homing` and `is_homing`.
pub proof fn lemma_homing_mover_independent(x: int, y: int, d: nat, player: int)
    ensures
        spec_homing(x, y, d) == ({
            let land = spec_advance(x, y, d, player);
            is_home_cell(land.0, land.1)
        }),
{
    if player != 1 {
        lemma_advance_player_other(x, y, d, player);
        lemma_advance_mover_mirror(x, y, d);
    }
}

/// Whether a token at `(x, y)` moved `distance` steps arrives home.
pub fn is_homing(x: usize, y: usize, distance: usize) -> (r: bool)
    requires
        y <= 2,
        x + distance <= usize::MAX,
    ensures
        r == spec_homing(x as int, y as int, distance as nat),
{
    let new_location = increment_location(x, y, distance, 1);
    new_location.0 == 5 && (new_location.1 == 0 || new_location.1 == 2)
}

// ---------------------------------------------------------------------------
// Game state
// ---------------------------------------------------------------------------

/// A token on the board, identified solely by its position within its
/// owner's token set.
#[derive(Clone, Copy, PartialEq, Eq, Structural, Debug)]
pub struct Token {
    pub x: usize,
    pub y: usize,
}

/// The full state of a game: the append-only move log and, derived from
/// it, each player's set of on-board tokens and count of tokens home.
#[derive(Clone, Debug)]
pub struct GameState {
    pub moves: Vec<Move>,
    pub p1_tokens: Vec<Token>,
    pub p1_home: usize,
    pub p2_tokens: Vec<Token>,
    pub p2_home: usize,
}

/// No two tokens of one player occupy the same position.
pub open spec fn tokens_distinct(ts: Seq<Token>) -> bool {
    forall|i: int, j: int| 0 <= i < j < ts.len() ==> ts[i] != ts[j]
}

/// Every token stands on a cell of the bounded grid.
pub open spec fn tokens_on_grid(ts: Seq<Token>) -> bool {
    forall|i: int| 0 <= i < ts.len() ==> on_grid((#[trigger] ts[i]).x as int, ts[i].y as int)
}

/// Whether some token in `ts` stands at `(x, y)`.
pub open spec fn has_token_at(ts: Seq<Token>, x: int, y: int) -> bool {
    exists|i: int| 0 <= i < ts.len() && (#[trigger] ts[i]).x as int == x && ts[i].y as int == y
}

/// The index of the token at `(x, y)`; under `tokens_distinct` it is the
/// only one.
pub open spec fn spec_token_index(ts: Seq<Token>, x: int, y: int) -> int {
    choose|i: int| 0 <= i < ts.len() && (#[trigger] ts[i]).x as int == x && ts[i].y as int == y
}

/// The token set with the token at `(x, y)` taken off the board.
pub open spec fn spec_remove_token(ts: Seq<Token>, x: int, y: int) -> Seq<Token> {
    ts.remove(spec_token_index(ts, x, y))
}

/// The distance a move asks for, whichever kind it is.
pub open spec fn spec_move_distance(mt: MoveType) -> int {
    match mt {
        MoveType::MoveToken { x, y, distance } => distance as int,
        MoveType::CreateToken { distance } => distance as int,
    }
}

/// What any move admitted to the log satisfies: its distance is within
/// the global bound and, for a token move, its origin is a grid cell.
/// Accepted moves always satisfy this, so it is an invariant of the log.
pub open spec fn move_logged_wf(m: Move) -> bool {
    &&& spec_move_distance(m.move_type) <= 4
    &&& match m.move_type {
        MoveType::MoveToken { x, y, distance } => on_grid(x as int, y as int),
        MoveType::CreateToken { distance } => true,
    }
}

impl GameState {
    /// Well-formedness: the per-player capacity bound, pairwise-distinct
    /// token positions, tokens on the grid, and a log of well-formed
    /// moves. `initial` establishes it and `evolve` preserves it.
    pub open spec fn wf(self) -> bool {
        &&& tokens_distinct(self.p1_tokens@)
        &&& tokens_distinct(self.p2_tokens@)
        &&& tokens_on_grid(self.p1_tokens@)
        &&& tokens_on_grid(self.p2_tokens@)
        &&& self.p1_tokens@.len() + self.p1_home <= 7
        &&& self.p2_tokens@.len() + self.p2_home <= 7
        &&& forall|i: int| 0 <= i < self.moves@.len() ==> move_logged_wf(#[trigger] self.moves@[i])
    }

    /// The zero state: no moves yet, no tokens on the board, none home.
    pub fn initial() -> (r: GameState)
        ensures
            r.moves@.len() == 0,
            r.p1_tokens@.len() == 0,
            r.p1_home == 0,
            r.p2_tokens@.len() == 0,
            r.p2_home == 0,
            r.wf(),
    {
        GameState {
            moves: Vec::new(),
            p1_tokens: Vec::new(),
            p1_home: 0,
            p2_tokens: Vec::new(),
            p2_home: 0,
        }
    }

    /// A printable rendering of the state; this engine draws nothing.
    pub fn render(&self) -> (r: String)
        ensures
            r@.len() == 0,
    {
        String::new()
    }
}

/// The index of the token standing at `(x, y)`, if any.
pub(crate) fn find_token(tokens: &Vec<Token>, x: usize, y: usize) -> (r: Option<usize>)
    ensures
        match r {
            Some(i) => i < tokens@.len() && tokens@[i as int].x == x && tokens@[i as int].y == y,
            None => !has_token_at(tokens@, x as int, y as int),
        },
{
    let n = tokens.len();
    let mut i: usize = 0;
    while i < n
        invariant
            n == tokens@.len(),
            i <= n,
            forall|j: int|
                0 <= j < i ==> !((#[trigger] tokens@[j]).x == x && tokens@[j].y == y),
        decreases n - i,
    {
        let t = tokens[i];
        if t.x == x && t.y == y {
            return Some(i);
        }
        i = i + 1;
    }
    None
}

/// Whether some token stands at `(x, y)`.
pub(crate) fn contains_token(tokens: &Vec<Token>, x: usize, y: usize) -> (r: bool)
    ensures
        r == has_token_at(tokens@, x as int, y as int),
{
    match find_token(tokens, x, y) {
        Some(i) => {
            proof {
                assert(has_token_at(tokens@, x as int, y as int)) by {
                    assert((tokens@[i as int]).x as int == x as int && tokens@[i as int].y as int
                        == y as int);
                }
            }
            true
        },
        None => false,
    }
}

/// A position witnessed by a token of a well-placed token set lies on
/// the grid.
pub proof fn lemma_token_at_on_grid(ts: Seq<Token>, x: int, y: int)
    requires
        tokens_on_grid(ts),
        has_token_at(ts, x, y),
    ensures
        on_grid(x, y),
{
    let i = spec_token_index(ts, x, y);
    assert(0 <= i < ts.len() && ts[i].x as int == x && ts[i].y as int == y);
}

/// Taking the (unique) token at `(x, y)` off a well-formed token set
/// shortens it by one, keeps the others in order, keeps them distinct
/// and on the grid, and frees the cell `(x, y)`.
pub proof fn lemma_remove_token_properties(ts: Seq<Token>, x: int, y: int)
    requires
        tokens_distinct(ts),
        has_token_at(ts, x, y),
    ensures
        spec_remove_token(ts, x, y).len() == ts.len() - 1,
        tokens_distinct(spec_remove_token(ts, x, y)),
        tokens_on_grid(ts) ==> tokens_on_grid(spec_remove_token(ts, x, y)),
        !has_token_at(spec_remove_token(ts, x, y), x, y),
        forall|k: int|
            0 <= k < spec_remove_token(ts, x, y).len() ==> ts.contains(
                #[trigger] spec_remove_token(ts, x, y)[k],
            ),
{
    let idx = spec_token_index(ts, x, y);
    assert(0 <= idx < ts.len() && ts[idx].x as int == x && ts[idx].y as int == y);
    let r = spec_remove_token(ts, x, y);
    assert forall|k: int| 0 <= k < r.len() implies ts.contains(#[trigger] r[k]) by {
        if k < idx {
            assert(r[k] == ts[k]);
        } else {
            assert(r[k] == ts[k + 1]);
        }
    }
    assert(tokens_distinct(r)) by {
        assert forall|i: int, j: int| 0 <= i < j < r.len() implies r[i] != r[j] by {
            let i0 = if i < idx { i } else { i + 1 };
            let j0 = if j < idx { j } else { j + 1 };
            assert(r[i] == ts[i0] && r[j] == ts[j0]);
        }
    }
    if tokens_on_grid(ts) {
        assert forall|k: int| 0 <= k < r.len() implies on_grid(
            (#[trigger] r[k]).x as int,
            r[k].y as int,
        ) by {
            let k0 = if k < idx { k } else { k + 1 };
            assert(r[k] == ts[k0]);
        }
    }
    assert(!has_token_at(r, x, y)) by {
        if has_token_at(r, x, y) {
            let k = spec_token_index(r, x, y);
            assert(0 <= k < r.len() && r[k].x as int == x && r[k].y as int == y);
            let k0 = if k < idx { k } else { k + 1 };
            assert(r[k] == ts[k0]);
            assert(ts[k0] == ts[idx]);
            assert(false);
        }
    }
}

/// A copy of a vector of plain values.
fn copied_vec<T: Copy>(v: &Vec<T>) -> (r: Vec<T>)
    ensures
        r@ == v@,
{
    let mut out: Vec<T> = Vec::new();
    let mut i: usize = 0;
    while i < v.len()
        invariant
            i <= v@.len(),
            out@ == v@.subrange(0, i as int),
        decreases v@.len() - i,
    {
        out.push(v[i]);
        i = i + 1;
        proof {
            assert(out@ =~= v@.subrange(0, i as int));
        }
    }
    proof {
        assert(out@ =~= v@);
    }
    out
}

/// Take the token standing at `(x, y)` off the board.
fn remove_token_at(tokens: &mut Vec<Token>, x: usize, y: usize)
    requires
        tokens_distinct(old(tokens)@),
        has_token_at(old(tokens)@, x as int, y as int),
    ensures
        final(tokens)@ == spec_remove_token(old(tokens)@, x as int, y as int),
{
    let found = find_token(tokens, x, y);
    match found {
        Some(i) => {
            let _removed = tokens.remove(i);
            proof {
                let idx = spec_token_index(old(tokens)@, x as int, y as int);
                assert(0 <= idx < old(tokens)@.len() && old(tokens)@[idx].x as int == x as int
                    && old(tokens)@[idx].y as int == y as int);
                if i as int != idx {
                    assert(old(tokens)@[i as int] == old(tokens)@[idx]);
                    assert(false);
                }
            }
        },
        None => {
            proof {
                assert(false);
            }
        },
    }
}

impl GameState {
    /// Fold an already-validated move into the next state: append it to
    /// the log, then move, create or retire the token it names. The
    /// previous state is untouched; the caller receives a new value.
    ///
    /// A homing token leaves the board: its origin is removed and the
    /// mover's home counter grows by one. Any other token move replaces
    /// the origin token with one at the landing cell, and a creation
    /// adds a token at the cell reached from the mover's entry point.
    pub fn evolve(&self, game: Game, next_move: &Move) -> (r: GameState)
        requires
            self.wf(),
            spec_is_valid(*next_move, game, *self),
        ensures
            r.wf(),
            r.moves@ == self.moves@.push(*next_move),
            ({
                let author_is_p1 = next_move.author == game.player_1;
                match next_move.move_type {
                    MoveType::CreateToken { distance } => {
                        &&& r.p1_home == self.p1_home
                        &&& r.p2_home == self.p2_home
                        &&& if author_is_p1 {
                            r.p1_tokens@ == self.p1_tokens@.push(spec_dest_token(*next_move, game))
                                && r.p2_tokens@ == self.p2_tokens@
                        } else {
                            r.p2_tokens@ == self.p2_tokens@.push(spec_dest_token(*next_move, game))
                                && r.p1_tokens@ == self.p1_tokens@
                        }
                    },
                    MoveType::MoveToken { x, y, distance } => {
                        if spec_homing(x as int, y as int, distance as nat) {
                            if author_is_p1 {
                                &&& r.p1_tokens@ == spec_remove_token(
                                    self.p1_tokens@,
                                    x as int,
                                    y as int,
                                )
                                &&& r.p1_home == self.p1_home + 1
                                &&& r.p2_tokens@ == self.p2_tokens@
                                &&& r.p2_home == self.p2_home
                            } else {
                                &&& r.p2_tokens@ == spec_remove_token(
                                    self.p2_tokens@,
                                    x as int,
                                    y as int,
                                )
                                &&& r.p2_home == self.p2_home + 1
                                &&& r.p1_tokens@ == self.p1_tokens@
                                &&& r.p1_home == self.p1_home
                            }
                        } else {
                            if author_is_p1 {
                                &&& r.p1_tokens@ == spec_remove_token(
                                    self.p1_tokens@,
                                    x as int,
                                    y as int,
                                ).push(spec_dest_token(*next_move, game))
                                &&& r.p1_home == self.p1_home
                                &&& r.p2_tokens@ == self.p2_tokens@
                                &&& r.p2_home == self.p2_home
                            } else {
                                &&& r.p2_tokens@ == spec_remove_token(
                                    self.p2_tokens@,
                                    x as int,
                                    y as int,
                                ).push(spec_dest_token(*next_move, game))
                                &&& r.p2_home == self.p2_home
                                &&& r.p1_tokens@ == self.p1_tokens@
                                &&& r.p1_home == self.p1_home
                            }
                        }
                    },
                }
            }),
    {
        let mut moves = copied_vec(&self.moves);
        let mut p1_tokens = copied_vec(&self.p1_tokens);
        let mut p1_home = self.p1_home;
        let mut p2_tokens = copied_vec(&self.p2_tokens);
        let mut p2_home = self.p2_home;

        moves.push(*next_move);

        match next_move.move_type {
            MoveType::MoveToken { x, y, distance } => {
                proof {
                    lemma_token_at_on_grid(
                        mover_tokens(next_move.author, game, *self),
                        x as int,
                        y as int,
                    );
                }
                if is_homing(x, y, distance) {
                    if game.player_1 == next_move.author {
                        p1_home = p1_home + 1;
                        remove_token_at(&mut p1_tokens, x, y);
                        proof {
                            lemma_remove_token_properties(self.p1_tokens@, x as int, y as int);
                        }
                    } else {
                        p2_home = p2_home + 1;
                        remove_token_at(&mut p2_tokens, x, y);
                        proof {
                            lemma_remove_token_properties(self.p2_tokens@, x as int, y as int);
                        }
                    }
                } else {
                    if game.player_1 == next_move.author {
                        remove_token_at(&mut p1_tokens, x, y);
                        let new_location = increment_location(x, y, distance, 1);
                        p1_tokens.push(Token { x: new_location.0, y: new_location.1 });
                        proof {
                            lemma_remove_token_properties(self.p1_tokens@, x as int, y as int);
                            lemma_advance_on_grid(x as int, y as int, distance as nat, 1);
                        }
                    } else {
                        remove_token_at(&mut p2_tokens, x, y);
                        let new_location = increment_location(x, y, distance, 2);
                        p2_tokens.push(Token { x: new_location.0, y: new_location.1 });
                        proof {
                            lemma_remove_token_properties(self.p2_tokens@, x as int, y as int);
                            lemma_advance_on_grid(x as int, y as int, distance as nat, 2);
                        }
                    }
                }
            },
            MoveType::CreateToken { distance } => {
                if game.player_1 == next_move.author {
                    let dest = increment_location(4, 0, distance, 1);
                    p1_tokens.push(Token { x: dest.0, y: dest.1 });
                    proof {
                        lemma_advance_on_grid(4, 0, distance as nat, 1);
                    }
                } else {
                    let dest = increment_location(4, 2, distance, 2);
                    p2_tokens.push(Token { x: dest.0, y: dest.1 });
                    proof {
                        lemma_advance_on_grid(4, 2, distance as nat, 2);
                    }
                }
            },
        }

        GameState { moves, p1_tokens, p1_home, p2_tokens, p2_home }
    }
}

} // verus!
