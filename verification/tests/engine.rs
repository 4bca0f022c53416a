use ur_engine::game::Game;
use ur_engine::game::PlayerId;
use ur_engine::moves::Move;
use ur_engine::moves::MoveType;
use ur_engine::state::GameState;
use ur_engine::state::Token;
use ur_engine::state::increment_location;
use ur_engine::state::is_homing;
use ur_engine::validation::TurnVerdict;
use ur_engine::validation::is_rosette;
use ur_engine::validation::is_valid_distance;
use ur_engine::validation::isnt_overmoving;
use ur_engine::validation::whose_turn;

fn player(id: u64) -> PlayerId {
    PlayerId { id }
}

fn game() -> Game {
    Game { player_1: player(1), player_2: player(2) }
}

fn token(x: usize, y: usize) -> Token {
    Token { x, y }
}

fn state_with(p1_tokens: Vec<Token>, p1_home: usize, p2_tokens: Vec<Token>, p2_home: usize) -> GameState {
    GameState { moves: Vec::new(), p1_tokens, p1_home, p2_tokens, p2_home }
}

// --- topology ---

#[test]
fn advance_zero_is_identity() {
    assert_eq!(increment_location(3, 1, 0, 1), (3, 1));
    assert_eq!(increment_location(0, 0, 0, 2), (0, 0));
    assert_eq!(increment_location(7, 1, 0, 1), (7, 1));
}

#[test]
fn advance_is_deterministic() {
    let a = increment_location(4, 0, 3, 1);
    let b = increment_location(4, 0, 3, 1);
    assert_eq!(a, b);
}

#[test]
fn advance_composes() {
    let mid = increment_location(4, 0, 1, 1);
    assert_eq!(increment_location(mid.0, mid.1, 2, 1), increment_location(4, 0, 3, 1));
    let mid2 = increment_location(5, 1, 2, 2);
    assert_eq!(increment_location(mid2.0, mid2.1, 2, 2), increment_location(5, 1, 4, 2));
}

#[test]
fn advance_private_lane_descends() {
    assert_eq!(increment_location(4, 0, 1, 1), (3, 0));
    assert_eq!(increment_location(4, 2, 2, 2), (2, 2));
}

#[test]
fn advance_merges_into_shared_lane() {
    assert_eq!(increment_location(0, 0, 1, 1), (0, 1));
    assert_eq!(increment_location(0, 2, 1, 2), (0, 1));
    assert_eq!(increment_location(1, 0, 2, 1), (0, 1));
}

#[test]
fn advance_shared_lane_ascends() {
    assert_eq!(increment_location(0, 1, 3, 1), (3, 1));
    assert_eq!(increment_location(0, 1, 3, 2), (3, 1));
}

#[test]
fn advance_split_follows_the_mover() {
    assert_eq!(increment_location(7, 1, 1, 1), (7, 0));
    assert_eq!(increment_location(7, 1, 1, 2), (7, 2));
    assert_eq!(increment_location(6, 1, 2, 1), (7, 0));
    assert_eq!(increment_location(6, 1, 2, 2), (7, 2));
}

#[test]
fn advance_walks_the_whole_track() {
    // entry lane (4 steps), merge, shared lane (7 steps), split, exit lane
    assert_eq!(increment_location(4, 0, 4, 1), (0, 0));
    assert_eq!(increment_location(4, 0, 5, 1), (0, 1));
    assert_eq!(increment_location(4, 0, 12, 1), (7, 1));
    assert_eq!(increment_location(4, 0, 13, 1), (7, 0));
    assert_eq!(increment_location(4, 0, 15, 1), (5, 0));
    assert_eq!(increment_location(4, 2, 15, 2), (5, 2));
}

#[test]
fn homing_lands_exactly_on_the_home_cell() {
    assert!(is_homing(7, 0, 2));
    assert!(is_homing(6, 0, 1));
    assert!(is_homing(7, 1, 3));
    assert!(is_homing(7, 2, 2));
    assert!(is_homing(6, 2, 1));
    assert!(!is_homing(7, 0, 1));
    assert!(!is_homing(3, 1, 2));
    assert!(!is_homing(4, 0, 1));
}

#[test]
fn rosette_cells() {
    assert!(is_rosette(0, 0));
    assert!(is_rosette(0, 2));
    assert!(is_rosette(3, 1));
    assert!(is_rosette(6, 0));
    assert!(is_rosette(6, 2));
    assert!(!is_rosette(3, 0));
    assert!(!is_rosette(0, 1));
    assert!(!is_rosette(6, 1));
    assert!(!is_rosette(5, 0));
}

// --- moves and state ---

#[test]
fn describe_lists_one_example_of_each_kind() {
    let examples = MoveType::describe();
    assert_eq!(
        examples,
        vec![
            MoveType::MoveToken { x: 3, y: 0, distance: 2 },
            MoveType::CreateToken { distance: 2 },
        ]
    );
}

#[test]
fn initial_state_is_empty() {
    let s = GameState::initial();
    assert!(s.moves.is_empty());
    assert!(s.p1_tokens.is_empty());
    assert!(s.p2_tokens.is_empty());
    assert_eq!(s.p1_home, 0);
    assert_eq!(s.p2_home, 0);
}

#[test]
fn render_is_blank() {
    let s = GameState::initial();
    assert_eq!(s.render(), String::new());
}

// --- validation scenarios ---

#[test]
fn first_create_is_accepted() {
    let g = game();
    let s = GameState::initial();
    let m = Move { author: player(1), move_type: MoveType::CreateToken { distance: 1 } };
    assert_eq!(m.is_valid(g, s.clone()), Ok(()));
    let s2 = s.evolve(g, &m);
    assert_eq!(s2.p1_tokens, vec![token(3, 0)]);
    assert_eq!(s2.p1_home, 0);
    assert_eq!(s2.p2_tokens, Vec::new());
    assert_eq!(s2.moves.len(), 1);
}

#[test]
fn split_cell_caps_the_distance_at_three() {
    let g = game();
    let s = state_with(vec![token(7, 1)], 0, Vec::new(), 0);
    let m = Move { author: player(1), move_type: MoveType::MoveToken { x: 7, y: 1, distance: 4 } };
    assert_eq!(
        m.is_valid(g, s),
        Err("You must move off the board exactly! V3".to_string())
    );
}

#[test]
fn split_cell_allows_distance_three() {
    let g = game();
    let s = state_with(vec![token(7, 1)], 0, Vec::new(), 0);
    let m = Move { author: player(1), move_type: MoveType::MoveToken { x: 7, y: 1, distance: 3 } };
    assert_eq!(m.is_valid(g, s.clone()), Ok(()));
    // distance three from the split cell is a home arrival
    let s2 = s.evolve(g, &m);
    assert_eq!(s2.p1_tokens, Vec::new());
    assert_eq!(s2.p1_home, 1);
}

#[test]
fn exit_lane_first_cell_caps_the_distance_at_two() {
    let g = game();
    let s = state_with(vec![token(7, 0)], 0, Vec::new(), 0);
    let m = Move { author: player(1), move_type: MoveType::MoveToken { x: 7, y: 0, distance: 3 } };
    assert_eq!(
        m.is_valid(g, s),
        Err("You must move off the board exactly! V2".to_string())
    );
}

#[test]
fn exit_lane_second_cell_caps_the_distance_at_one() {
    let g = game();
    let s = state_with(Vec::new(), 0, vec![token(6, 2)], 0);
    let m = Move { author: player(2), move_type: MoveType::MoveToken { x: 6, y: 2, distance: 2 } };
    assert_eq!(
        m.is_valid(g, s),
        Err("You must move off the board exactly! V1".to_string())
    );
}

#[test]
fn seventh_token_exhausts_capacity() {
    let g = game();
    let s = state_with(vec![token(2, 0), token(1, 0), token(1, 1)], 4, Vec::new(), 0);
    let m = Move { author: player(1), move_type: MoveType::CreateToken { distance: 1 } };
    assert_eq!(m.is_valid(g, s), Err("You are out of tokens! P1".to_string()));
}

#[test]
fn seven_tokens_on_the_board_exhaust_capacity() {
    let g = game();
    let board = vec![
        token(0, 1),
        token(1, 1),
        token(2, 1),
        token(4, 1),
        token(5, 1),
        token(6, 1),
        token(7, 1),
    ];
    let s = state_with(board, 0, Vec::new(), 0);
    let m = Move { author: player(1), move_type: MoveType::CreateToken { distance: 1 } };
    assert_eq!(m.is_valid(g, s), Err("You are out of tokens! P1".to_string()));
}

#[test]
fn capacity_counts_home_tokens_for_player_2() {
    let g = game();
    let s = state_with(Vec::new(), 0, Vec::new(), 7);
    let m = Move { author: player(2), move_type: MoveType::CreateToken { distance: 1 } };
    assert_eq!(m.is_valid(g, s), Err("You are out of tokens! P2".to_string()));
}

#[test]
fn sixth_token_still_fits() {
    let g = game();
    let s = state_with(vec![token(3, 0)], 5, Vec::new(), 0);
    let m = Move { author: player(1), move_type: MoveType::CreateToken { distance: 2 } };
    assert_eq!(m.is_valid(g, s), Ok(()));
}

#[test]
fn own_token_blocks_the_destination() {
    let g = game();
    let s = state_with(vec![token(1, 1), token(3, 1)], 0, Vec::new(), 0);
    let m = Move { author: player(1), move_type: MoveType::MoveToken { x: 1, y: 1, distance: 2 } };
    assert_eq!(
        m.is_valid(g, s),
        Err("You can't move a token onto another of your tokens! P1".to_string())
    );
}

#[test]
fn own_token_blocks_the_destination_for_player_2() {
    let g = game();
    let s = state_with(Vec::new(), 0, vec![token(1, 1), token(3, 1)], 0);
    let m = Move { author: player(2), move_type: MoveType::MoveToken { x: 1, y: 1, distance: 2 } };
    assert_eq!(
        m.is_valid(g, s),
        Err("You can't move a token onto another of your tokens! P2".to_string())
    );
}

#[test]
fn opponent_token_does_not_block_the_destination() {
    let g = game();
    let s = state_with(vec![token(1, 1)], 0, vec![token(3, 1)], 0);
    let m = Move { author: player(1), move_type: MoveType::MoveToken { x: 1, y: 1, distance: 2 } };
    assert_eq!(m.is_valid(g, s.clone()), Ok(()));
    // no capture: the opponent's token stays where it is
    let s2 = s.evolve(g, &m);
    assert_eq!(s2.p1_tokens, vec![token(3, 1)]);
    assert_eq!(s2.p2_tokens, vec![token(3, 1)]);
}

#[test]
fn distance_above_four_is_rejected() {
    let g = game();
    let s = GameState::initial();
    let m = Move { author: player(1), move_type: MoveType::CreateToken { distance: 5 } };
    assert_eq!(m.is_valid(g, s), Err("You can't move more than 4 tiles!".to_string()));
}

#[test]
fn distance_zero_is_rejected() {
    let g = game();
    let s = GameState::initial();
    let m = Move { author: player(1), move_type: MoveType::CreateToken { distance: 0 } };
    assert_eq!(m.is_valid(g, s), Err("You must move at least 1 tile!".to_string()));
}

#[test]
fn distance_bound_checks() {
    assert_eq!(is_valid_distance(1), Ok(()));
    assert_eq!(is_valid_distance(4), Ok(()));
    assert_eq!(is_valid_distance(5), Err("You can't move more than 4 tiles!".to_string()));
    assert_eq!(is_valid_distance(0), Err("You must move at least 1 tile!".to_string()));
}

#[test]
fn overshoot_checks_by_origin() {
    assert_eq!(isnt_overmoving((7, 1), 3), Ok(()));
    assert_eq!(isnt_overmoving((7, 1), 4), Err("You must move off the board exactly! V3".to_string()));
    assert_eq!(isnt_overmoving((7, 2), 3), Err("You must move off the board exactly! V2".to_string()));
    assert_eq!(isnt_overmoving((6, 0), 2), Err("You must move off the board exactly! V1".to_string()));
    assert_eq!(isnt_overmoving((3, 1), 4), Ok(()));
}

#[test]
fn missing_origin_token_is_rejected() {
    let g = game();
    let s = GameState::initial();
    let m = Move { author: player(1), move_type: MoveType::MoveToken { x: 3, y: 1, distance: 1 } };
    assert_eq!(
        m.is_valid(g, s),
        Err("There is not one of your tokens to move on the selected tile P1".to_string())
    );
}

#[test]
fn missing_origin_token_is_rejected_for_player_2() {
    let g = game();
    let s = GameState::initial();
    let m = Move { author: player(2), move_type: MoveType::MoveToken { x: 3, y: 1, distance: 1 } };
    assert_eq!(
        m.is_valid(g, s),
        Err("There is not one of your tokens to move on the selected tile P2".to_string())
    );
}

// --- turn order ---

#[test]
fn plain_move_passes_the_turn() {
    let g = game();
    let s = GameState::initial();
    let m1 = Move { author: player(1), move_type: MoveType::CreateToken { distance: 1 } };
    assert_eq!(m1.is_valid(g, s.clone()), Ok(()));
    let s2 = s.evolve(g, &m1);
    // (3, 0) is no rosette: player 1 may not move again
    let again = Move { author: player(1), move_type: MoveType::CreateToken { distance: 2 } };
    assert_eq!(again.is_valid(g, s2.clone()), Err("It is not your turn! NON-ROSETTE".to_string()));
    let reply = Move { author: player(2), move_type: MoveType::CreateToken { distance: 2 } };
    assert_eq!(reply.is_valid(g, s2), Ok(()));
}

#[test]
fn rosette_landing_keeps_the_turn() {
    let g = game();
    let s = GameState::initial();
    // four steps from the entry point land on the rosette at the lane's end
    let m1 = Move { author: player(1), move_type: MoveType::CreateToken { distance: 4 } };
    assert_eq!(m1.is_valid(g, s.clone()), Ok(()));
    let s2 = s.evolve(g, &m1);
    let reply = Move { author: player(2), move_type: MoveType::CreateToken { distance: 2 } };
    assert_eq!(reply.is_valid(g, s2.clone()), Err("It is not your turn! ROSETTE".to_string()));
    let again = Move { author: player(1), move_type: MoveType::CreateToken { distance: 2 } };
    assert_eq!(again.is_valid(g, s2), Ok(()));
}

#[test]
fn whose_turn_is_open_before_the_first_move() {
    let g = game();
    let s = GameState::initial();
    assert_eq!(whose_turn(&g, &s), TurnVerdict::Either);
}

#[test]
fn whose_turn_alternates_and_retains() {
    let g = game();
    let s = GameState::initial();
    let plain = Move { author: player(1), move_type: MoveType::CreateToken { distance: 1 } };
    let s2 = s.evolve(g, &plain);
    assert_eq!(whose_turn(&g, &s2), TurnVerdict::Only(player(2)));
    let rosette = Move { author: player(2), move_type: MoveType::CreateToken { distance: 4 } };
    assert_eq!(rosette.is_valid(g, s2.clone()), Ok(()));
    let s3 = s2.evolve(g, &rosette);
    assert_eq!(whose_turn(&g, &s3), TurnVerdict::Only(player(2)));
}

// --- state evolution ---

#[test]
fn evolve_moves_a_token_across_the_merge() {
    let g = game();
    let s = state_with(vec![token(1, 0), token(5, 1)], 0, Vec::new(), 0);
    let m = Move { author: player(1), move_type: MoveType::MoveToken { x: 1, y: 0, distance: 3 } };
    assert_eq!(m.is_valid(g, s.clone()), Ok(()));
    let s2 = s.evolve(g, &m);
    // (1,0) -> (0,0) -> (0,1) -> (1,1); the untouched token keeps its place
    assert_eq!(s2.p1_tokens, vec![token(5, 1), token(1, 1)]);
    assert_eq!(s2.p1_home, 0);
    assert_eq!(s2.moves.len(), 1);
}

#[test]
fn evolve_takes_a_homing_token_off_the_board() {
    let g = game();
    let s = state_with(Vec::new(), 0, vec![token(6, 2), token(2, 1)], 3);
    let m = Move { author: player(2), move_type: MoveType::MoveToken { x: 6, y: 2, distance: 1 } };
    assert_eq!(m.is_valid(g, s.clone()), Ok(()));
    let s2 = s.evolve(g, &m);
    assert_eq!(s2.p2_tokens, vec![token(2, 1)]);
    assert_eq!(s2.p2_home, 4);
    assert_eq!(s2.p1_tokens, Vec::new());
}

#[test]
fn evolve_creates_for_player_2_from_their_entry() {
    let g = game();
    let s = GameState::initial();
    let m = Move { author: player(2), move_type: MoveType::CreateToken { distance: 3 } };
    assert_eq!(m.is_valid(g, s.clone()), Ok(()));
    let s2 = s.evolve(g, &m);
    assert_eq!(s2.p2_tokens, vec![token(1, 2)]);
    assert_eq!(s2.p1_tokens, Vec::new());
    assert_eq!(s2.p2_home, 0);
}

#[test]
fn evolve_appends_to_the_log() {
    let g = game();
    let s = GameState::initial();
    let m1 = Move { author: player(1), move_type: MoveType::CreateToken { distance: 1 } };
    let s2 = s.evolve(g, &m1);
    let m2 = Move { author: player(2), move_type: MoveType::CreateToken { distance: 1 } };
    assert_eq!(m2.is_valid(g, s2.clone()), Ok(()));
    let s3 = s2.evolve(g, &m2);
    assert_eq!(s3.moves, vec![m1, m2]);
    // the older snapshot is untouched
    assert_eq!(s2.moves, vec![m1]);
}

#[test]
fn capacity_and_distinctness_hold_along_a_game() {
    let g = game();
    let mut s = GameState::initial();
    let scripted = [
        Move { author: player(1), move_type: MoveType::CreateToken { distance: 4 } },
        Move { author: player(1), move_type: MoveType::CreateToken { distance: 2 } },
        Move { author: player(2), move_type: MoveType::CreateToken { distance: 1 } },
        Move { author: player(1), move_type: MoveType::MoveToken { x: 2, y: 0, distance: 1 } },
        Move { author: player(2), move_type: MoveType::CreateToken { distance: 4 } },
        Move { author: player(2), move_type: MoveType::CreateToken { distance: 2 } },
    ];
    for m in scripted.iter() {
        assert_eq!(m.is_valid(g, s.clone()), Ok(()));
        s = s.evolve(g, m);
        for (who_on_board, who_home) in
            [(&s.p1_tokens, s.p1_home), (&s.p2_tokens, s.p2_home)]
        {
            assert!(who_on_board.len() + who_home <= 7);
            for i in 0..who_on_board.len() {
                for j in 0..i {
                    assert_ne!(who_on_board[i], who_on_board[j]);
                }
            }
        }
    }
}
