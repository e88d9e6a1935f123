use eterra_card_ai_adapter::{
    Action, Adapter, ApplyError, Card, GameAdapter, Hand, HandEntry, Possession, State,
};

fn he(north: u8, east: u8, south: u8, west: u8) -> HandEntry {
    HandEntry { north, east, south, west, used: false }
}

fn card(top: u8, right: u8, bottom: u8, left: u8, possession: Option<Possession>) -> Card {
    Card { top, right, bottom, left, possession }
}

fn start(max_rounds: u8) -> State {
    let mut s = State::default();
    s.max_rounds = max_rounds;
    s
}

fn act(hand_index: u8, x: u8, y: u8) -> Action {
    Action { hand_index, x, y }
}

fn occupied(s: &State) -> usize {
    s.board.iter().flatten().filter(|c| c.is_some()).count()
}

fn all_actions(s: &State) -> Vec<Action> {
    let mut out = [None; 128];
    let n = Adapter::list_actions_pure::<128>(s, &mut out);
    out[..n].iter().map(|a| a.clone().unwrap()).collect()
}

#[test]
fn default_state_is_empty() {
    let s = State::default();
    assert_eq!(occupied(&s), 0);
    assert_eq!(s.scores, (0, 0));
    assert_eq!(s.player_turn, 0);
    assert_eq!(s.round, 0);
    assert_eq!(s.max_rounds, 0);
    assert!(s.hands.iter().all(|h| h.entries.iter().all(|e| !e.used)));
    assert!(Adapter::is_terminal(&s));
}

#[test]
fn simple_capture_scenario() {
    let mut s = start(5);
    s.hands[0].entries[0] = he(3, 5, 2, 1);
    s.hands[0].entries[1] = he(6, 6, 3, 3);
    s.hands[1].entries[0] = he(2, 4, 5, 3);
    let s1 = Adapter::apply_pure(&s, &act(0, 0, 0));
    let s2 = Adapter::apply_pure(&s1, &act(0, 0, 1));
    // a tie (2 against 2) between (0,1) and (0,0): no capture
    assert_eq!(s2.board[0][0].clone().unwrap().possession, Some(Possession::PlayerOne));
    assert_eq!(s2.scores, (0, 0));
    assert_eq!(s2.round, 1);
    let s3 = Adapter::apply_pure(&s2, &act(1, 0, 2));
    assert_eq!(s3.board[0][1], Some(card(2, 4, 5, 3, Some(Possession::PlayerOne))));
    assert_eq!(s3.board[0][2], Some(card(6, 6, 3, 3, Some(Possession::PlayerOne))));
    // the capture gives player 0 one point; player 1's counter was already 0
    assert_eq!(s3.scores, (1, 0));
    assert_eq!(s3.player_turn, 1);
    assert_eq!(s3.round, 1);
    assert_eq!(Adapter::score(&s3, 0), 1);
    assert_eq!(Adapter::score(&s3, 1), -1);
}

#[test]
fn capacity_scenario_single_action() {
    let mut s = start(10);
    for x in 0..4 {
        for y in 0..4 {
            if (x, y) != (2, 3) {
                s.board[x][y] = Some(card(1, 1, 1, 1, Some(Possession::PlayerTwo)));
            }
        }
    }
    for i in 0..5 {
        s.hands[0].entries[i].used = i != 4;
    }
    let acts = all_actions(&s);
    assert_eq!(acts, vec![act(4, 2, 3)]);
    for seed in [0u64, 1, 7, 12345, u64::MAX] {
        assert_eq!(Adapter::random_action(&s, seed), Some(act(4, 2, 3)));
    }
}

#[test]
fn enumeration_order_and_count() {
    let s = start(3);
    let acts = all_actions(&s);
    assert_eq!(acts.len(), 80);
    assert_eq!(acts[0], act(0, 0, 0));
    assert_eq!(acts[1], act(1, 0, 0));
    assert_eq!(acts[5], act(0, 0, 1));
    assert_eq!(acts[20], act(0, 1, 0));
    assert_eq!(acts[79], act(4, 3, 3));
}

#[test]
fn enumeration_skips_used_entries_and_taken_cells() {
    let mut s = start(3);
    s.player_turn = 1;
    s.hands[1].entries[0].used = true;
    s.hands[1].entries[2].used = true;
    s.board[0][0] = Some(card(1, 1, 1, 1, None));
    let acts = all_actions(&s);
    assert_eq!(acts.len(), 15 * 3);
    assert_eq!(acts[0], act(1, 0, 1));
    assert_eq!(acts[1], act(3, 0, 1));
    assert_eq!(acts[2], act(4, 0, 1));
}

#[test]
fn enumeration_truncates_at_capacity() {
    let s = start(3);
    let mut out = [None; 3];
    assert_eq!(Adapter::list_actions_pure::<3>(&s, &mut out), 3);
    assert_eq!(out, [Some(act(0, 0, 0)), Some(act(1, 0, 0)), Some(act(2, 0, 0))]);
    let mut none: [Option<Action>; 0] = [];
    assert_eq!(Adapter::list_actions_pure::<0>(&s, &mut none), 0);
}

#[test]
fn enumeration_leaves_rest_of_buffer() {
    let mut s = start(3);
    for i in 0..5 {
        s.hands[0].entries[i].used = i != 1;
    }
    for x in 0..4 {
        for y in 0..4 {
            if x != 3 {
                s.board[x][y] = Some(card(0, 0, 0, 0, None));
            }
        }
    }
    let mark = Some(act(9, 9, 9));
    let mut out = [mark; 8];
    assert_eq!(Adapter::list_actions(&s, &mut out), 4);
    assert_eq!(&out[..4], &[Some(act(1, 3, 0)), Some(act(1, 3, 1)), Some(act(1, 3, 2)), Some(act(1, 3, 3))]);
    assert!(out[4..].iter().all(|a| *a == mark));
}

#[test]
fn terminal_state_has_no_actions() {
    let mut s = start(2);
    s.round = 2;
    assert!(Adapter::is_terminal(&s));
    let mut out = [None; 128];
    assert_eq!(Adapter::list_actions_pure::<128>(&s, &mut out), 0);
    assert!(out.iter().all(|a| a.is_none()));
    assert_eq!(Adapter::random_action(&s, 3), None);
}

#[test]
fn exhausted_hand_before_round_limit_has_no_actions() {
    let mut s = start(20);
    for e in s.hands[0].entries.iter_mut() {
        e.used = true;
    }
    assert!(!Adapter::is_terminal(&s));
    assert!(all_actions(&s).is_empty());
    assert_eq!(Adapter::random_action(&s, 42), None);
}

#[test]
fn tie_never_captures() {
    let mut s = start(5);
    s.board[1][0] = Some(card(4, 4, 4, 7, Some(Possession::PlayerTwo)));
    s.scores = (0, 3);
    s.hands[0].entries[0] = he(9, 7, 9, 9);
    let r = Adapter::apply_pure(&s, &act(0, 0, 0));
    assert_eq!(r.board[1][0], s.board[1][0]);
    assert_eq!(r.scores, (0, 3));
}

#[test]
fn self_capture_keeps_owner_and_score() {
    let mut s = start(5);
    s.board[1][1] = Some(card(1, 1, 1, 1, Some(Possession::PlayerOne)));
    s.scores = (2, 1);
    s.hands[0].entries[3] = he(5, 5, 5, 5);
    let r = Adapter::apply_pure(&s, &act(3, 1, 2));
    assert_eq!(r.board[1][1], s.board[1][1]);
    assert_eq!(r.scores, (2, 1));
}

#[test]
fn self_capture_from_zero_counter_gains_a_point() {
    let mut s = start(5);
    s.board[1][1] = Some(card(1, 1, 1, 1, Some(Possession::PlayerOne)));
    s.hands[0].entries[3] = he(5, 5, 5, 5);
    let r = Adapter::apply_pure(&s, &act(3, 1, 2));
    assert_eq!(r.board[1][1], s.board[1][1]);
    assert_eq!(r.scores, (1, 0));
}

#[test]
fn capture_in_all_four_directions() {
    let mut s = start(5);
    s.player_turn = 1;
    s.board[1][0] = Some(card(1, 1, 2, 1, Some(Possession::PlayerOne)));
    s.board[2][1] = Some(card(1, 1, 1, 3, Some(Possession::PlayerOne)));
    s.board[1][2] = Some(card(4, 1, 1, 1, None));
    s.board[0][1] = Some(card(1, 6, 1, 1, Some(Possession::PlayerOne)));
    s.scores = (3, 0);
    s.hands[1].entries[2] = he(3, 4, 5, 6);
    let r = Adapter::apply_pure(&s, &act(2, 1, 1));
    // north 3 > 2, east 4 > 3, south 5 > 4; west 6 ties 6
    assert_eq!(r.board[1][0].clone().unwrap().possession, Some(Possession::PlayerTwo));
    assert_eq!(r.board[2][1].clone().unwrap().possession, Some(Possession::PlayerTwo));
    assert_eq!(r.board[1][2].clone().unwrap().possession, Some(Possession::PlayerTwo));
    assert_eq!(r.board[0][1], s.board[0][1]);
    assert_eq!(r.board[1][1], Some(card(3, 4, 5, 6, Some(Possession::PlayerTwo))));
    assert_eq!(r.scores, (1, 3));
    assert_eq!(r.player_turn, 0);
    assert_eq!(r.round, 1);
    assert!(r.hands[1].entries[2].used);
    assert_eq!(occupied(&r), occupied(&s) + 1);
}

#[test]
fn captures_only_against_the_board_before_the_move() {
    let mut s = start(5);
    // (2,0) lies two cells away from the target and is never touched
    s.board[1][0] = Some(card(1, 1, 1, 1, Some(Possession::PlayerTwo)));
    s.board[2][0] = Some(card(1, 1, 1, 0, Some(Possession::PlayerTwo)));
    s.hands[0].entries[0] = he(1, 9, 1, 1);
    let r = Adapter::apply_pure(&s, &act(0, 0, 0));
    assert_eq!(r.board[1][0].clone().unwrap().possession, Some(Possession::PlayerOne));
    assert_eq!(r.board[2][0], s.board[2][0]);
}

#[test]
fn scores_saturate() {
    let mut s = start(5);
    s.board[1][0] = Some(card(1, 1, 1, 1, Some(Possession::PlayerTwo)));
    s.scores = (255, 0);
    s.hands[0].entries[0] = he(1, 9, 1, 1);
    let r = Adapter::apply_pure(&s, &act(0, 0, 0));
    assert_eq!(r.scores, (255, 0));
    assert_eq!(Adapter::score(&r, 0), 255);
    assert_eq!(Adapter::score(&r, 1), -255);
}

#[test]
fn turn_and_round_advance() {
    let mut s = start(200);
    s.round = 7;
    let r = Adapter::apply(&s, &act(0, 0, 0));
    assert_eq!((r.player_turn, r.round), (1, 7));
    let r2 = Adapter::apply(&r, &act(0, 1, 0));
    assert_eq!((r2.player_turn, r2.round), (0, 8));
    assert_eq!(Adapter::current_player(&r), 1);
    assert_eq!(Adapter::current_player(&r2), 0);
}

#[test]
fn round_counter_saturates() {
    let mut s = start(255);
    s.round = 255;
    s.player_turn = 1;
    let r = Adapter::apply_pure(&s, &act(0, 0, 0));
    assert_eq!((r.player_turn, r.round), (0, 255));
}

#[test]
fn apply_leaves_parent_untouched() {
    let s = start(5);
    let copy = s.clone();
    let r = Adapter::apply_pure(&s, &act(1, 2, 2));
    assert_eq!(s, copy);
    assert_ne!(r, s);
    assert!(r.board[2][2].is_some());
    assert!(r.hands[0].entries[1].used);
}

#[test]
fn sampler_is_deterministic_and_indexes_by_seed() {
    let s = start(5);
    let acts = all_actions(&s);
    for seed in [0u64, 1, 79, 80, 81, 1000, u64::MAX] {
        let a = Adapter::random_action(&s, seed);
        assert_eq!(a, Adapter::random_action(&s, seed));
        assert_eq!(a, Some(acts[(seed % 80) as usize].clone()));
    }
    assert_eq!(Adapter::random_action(&s, 81), Some(act(1, 0, 0)));
}

#[test]
fn checked_apply_accepts_legal_moves() {
    let s = start(5);
    let a = act(2, 1, 3);
    assert_eq!(Adapter::apply_checked(&s, &a), Ok(Adapter::apply_pure(&s, &a)));
}

#[test]
fn checked_apply_rejects_illegal_moves() {
    let mut s = start(5);
    s.board[0][0] = Some(card(1, 1, 1, 1, None));
    s.hands[0].entries[1].used = true;
    assert_eq!(Adapter::apply_checked(&s, &act(0, 0, 0)), Err(ApplyError::IllegalAction));
    assert_eq!(Adapter::apply_checked(&s, &act(1, 1, 1)), Err(ApplyError::IllegalAction));
    assert_eq!(Adapter::apply_checked(&s, &act(5, 1, 1)), Err(ApplyError::IllegalAction));
    assert_eq!(Adapter::apply_checked(&s, &act(0, 4, 1)), Err(ApplyError::IllegalAction));
    assert_eq!(Adapter::apply_checked(&s, &act(0, 1, 4)), Err(ApplyError::IllegalAction));
    let mut t = start(1);
    t.round = 1;
    assert_eq!(Adapter::apply_checked(&t, &act(0, 1, 1)), Err(ApplyError::IllegalAction));
}

#[test]
fn full_game_fills_the_board() {
    let mut s = start(8);
    for p in 0..2 {
        for i in 0..5 {
            s.hands[p].entries[i] = he(i as u8, 2, 3 + p as u8, 1);
        }
    }
    let mut moves = 0;
    let mut seed = 17u64;
    while let Some(a) = Adapter::random_action(&s, seed) {
        let before = occupied(&s);
        s = Adapter::apply_pure(&s, &a);
        assert_eq!(occupied(&s), before + 1);
        moves += 1;
        seed = seed.wrapping_mul(6364136223846793005).wrapping_add(1);
    }
    assert_eq!(moves, 10);
    assert!(!Adapter::is_terminal(&s));
    assert_eq!(s.round, 5);
    let _ = Hand::default();
    let _ = Adapter::default();
}
