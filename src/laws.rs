//! Properties of the rules that hold for every position, proved over the
//! definitions that the operations' contracts use.
use vstd::prelude::*;

use crate::model::{cell, Action, Board, Card, State};
use crate::rules::{
    candidate, captures, cell_after, dir_dx, dir_dy, dir_to, in_range, is_successor, legal,
    legal_actions, legal_prefix, lemma_candidate, lemma_no_legal_prefix, lemma_prefix_extends,
    lemma_prefix_len, neighbor, on_board, opposite, owner_of, owner_tag, placed_card, rank_toward,
    sampled_action, scores_through,
};

verus! {

/// Number of occupied cells among the first `n` cells of `b`, counted row
/// by row (`k` stands for cell `(k / 4, k % 4)`).
pub open spec fn occupied_upto(b: Board, n: int) -> nat
    decreases n,
{
    if n <= 0 {
        0
    } else {
        occupied_upto(b, n - 1) + if cell(b, (n - 1) / 4, (n - 1) % 4).is_some() {
            1nat
        } else {
            0nat
        }
    }
}

/// Number of occupied cells of `b`.
pub open spec fn occupied_count(b: Board) -> nat {
    occupied_upto(b, 16)
}

/// The same card, possibly under another owner.
pub open spec fn same_ranks(c: Card, d: Card) -> bool {
    c.top == d.top && c.right == d.right && c.bottom == d.bottom && c.left == d.left
}

/// The score counter of player `p`.
pub open spec fn points(sc: (u8, u8), p: u8) -> u8 {
    if p == 0 {
        sc.0
    } else {
        sc.1
    }
}

/// Every listed action is legal.
pub proof fn lemma_listed_is_legal(s: State, n: int, i: int)
    requires
        0 <= i < legal_prefix(s, n).len(),
    ensures
        legal(s, legal_prefix(s, n)[i]),
    decreases n,
{
    if n > 0 {
        let p = legal_prefix(s, n - 1);
        if i < p.len() {
            lemma_listed_is_legal(s, n - 1, i);
        }
    }
}

/// Counting cells of two boards that differ in occupancy only at cell
/// `(x, y)`, empty in `b` and taken in `c`.
proof fn lemma_count_one_more(b: Board, c: Board, x: int, y: int, n: int)
    requires
        on_board(x, y),
        0 <= n <= 16,
        cell(b, x, y).is_none(),
        cell(c, x, y).is_some(),
        forall|i: int, j: int|
            on_board(i, j) && !(i == x && j == y) ==> (#[trigger] cell(c, i, j)).is_some()
                == cell(b, i, j).is_some(),
    ensures
        occupied_upto(c, n) == occupied_upto(b, n) + if 4 * x + y < n {
            1int
        } else {
            0int
        },
    decreases n,
{
    if n > 0 {
        lemma_count_one_more(b, c, x, y, n - 1);
        let k = n - 1;
        let i = k / 4;
        let j = k % 4;
        assert(on_board(i, j));
        assert(i == x && j == y <==> k == 4 * x + y);
    }
}

/// Playing an enumerated action fills exactly one more cell: the target,
/// which was empty. Every cell that held a card still holds one with the
/// same ranks; only its owner may have changed.
pub proof fn lemma_fills_one_cell(s: State, a: Action, r: State)
    requires
        s.wf(),
        legal_actions(s).contains(a),
        is_successor(s, a, r),
    ensures
        occupied_count(r.board) == occupied_count(s.board) + 1,
        forall|x: int, y: int|
            on_board(x, y) && (#[trigger] cell(s.board, x, y)).is_some() ==> cell(
                r.board,
                x,
                y,
            ).is_some() && same_ranks(cell(s.board, x, y)->Some_0, cell(r.board, x, y)->Some_0),
{
    let i = choose|i: int| 0 <= i < legal_actions(s).len() && legal_actions(s)[i] == a;
    lemma_listed_is_legal(s, 80, i);
    assert forall|x: int, y: int| on_board(x, y) && !(x == a.x && y == a.y) implies (#[trigger] cell(
        r.board,
        x,
        y,
    )).is_some() == cell(s.board, x, y).is_some() by {
        assert(cell(r.board, x, y) == cell_after(s, a, x, y));
    }
    assert(cell(r.board, a.x as int, a.y as int) == cell_after(s, a, a.x as int, a.y as int));
    lemma_count_one_more(s.board, r.board, a.x as int, a.y as int, 16);
    assert forall|x: int, y: int|
        on_board(x, y) && (#[trigger] cell(s.board, x, y)).is_some() implies cell(
        r.board,
        x,
        y,
    ).is_some() && same_ranks(cell(s.board, x, y)->Some_0, cell(r.board, x, y)->Some_0) by {
        assert(cell(r.board, x, y) == cell_after(s, a, x, y));
    }
}

/// A tie never captures: when the placed card's rank toward a neighbour
/// equals that neighbour's rank facing back, the neighbour's cell, and so
/// its owner, stays as it was.
pub proof fn lemma_tie_keeps_owner(s: State, a: Action, r: State, d: int)
    requires
        s.wf(),
        in_range(a),
        is_successor(s, a, r),
        0 <= d < 4,
        neighbor(s, a, d) is Some,
        rank_toward(placed_card(s, a), d) == rank_toward(neighbor(s, a, d)->Some_0, opposite(d)),
    ensures
        cell(r.board, a.x + dir_dx(d), a.y + dir_dy(d)) == cell(s.board, a.x + dir_dx(d), a.y + dir_dy(d)),
{
    let x = a.x + dir_dx(d);
    let y = a.y + dir_dy(d);
    assert(on_board(x, y));
    assert(cell(r.board, x, y) == cell_after(s, a, x, y));
    assert(dir_to(a, x, y) == d);
}

/// The mover's counter never drops while the captures of one move are
/// counted.
proof fn lemma_mover_points_grow(s: State, a: Action, n: int)
    requires
        s.wf(),
        0 <= n <= 4,
    ensures
        points(scores_through(s, a, n), s.player_turn) >= points(s.scores, s.player_turn),
    decreases n,
{
    if n > 0 {
        lemma_mover_points_grow(s, a, n - 1);
    }
}

/// Capturing one's own card changes nothing: the neighbour keeps its cell
/// and owner, and the score counters are the same before and after that
/// direction is counted. This needs the mover's counter to be at least 1
/// when the move starts: from 0 the saturating decrement would be lost and
/// the mover would gain a point.
pub proof fn lemma_self_capture_no_op(s: State, a: Action, r: State, d: int)
    requires
        s.wf(),
        in_range(a),
        is_successor(s, a, r),
        0 <= d < 4,
        captures(s, a, d),
        owner_tag(neighbor(s, a, d)) == Some(owner_of(s.player_turn)),
        points(s.scores, s.player_turn) >= 1,
    ensures
        cell(r.board, a.x + dir_dx(d), a.y + dir_dy(d)) == cell(s.board, a.x + dir_dx(d), a.y + dir_dy(d)),
        scores_through(s, a, d + 1) == scores_through(s, a, d),
{
    let x = a.x + dir_dx(d);
    let y = a.y + dir_dy(d);
    assert(on_board(x, y));
    assert(cell(r.board, x, y) == cell_after(s, a, x, y));
    assert(dir_to(a, x, y) == d);
    lemma_mover_points_grow(s, a, d);
}

/// After a move the other player is to move, and the round counter goes up
/// by exactly one when player 1 moved and stays otherwise. The counter
/// saturates at 255, so this is stated below that value.
pub proof fn lemma_turn_and_round(s: State, a: Action, r: State)
    requires
        s.wf(),
        is_successor(s, a, r),
        s.round < 255,
    ensures
        r.player_turn == 1 - s.player_turn,
        r.round == s.round + if s.player_turn == 1 {
            1int
        } else {
            0int
        },
{
}

/// A finished game has no legal action.
pub proof fn lemma_terminal_has_no_actions(s: State)
    requires
        s.terminal(),
    ensures
        legal_actions(s).len() == 0,
{
    lemma_no_legal_prefix(s, 80);
}

/// The rollout sampler picks a legal action, and picks none only when
/// there is none.
pub proof fn lemma_sampled_is_legal(s: State, seed: u64)
    ensures
        sampled_action(s, seed) is None <==> legal_actions(s).len() == 0,
        sampled_action(s, seed) matches Some(a) ==> legal(s, a) && legal_actions(s).contains(a),
{
    let acts = legal_actions(s);
    if acts.len() > 0 {
        let i = seed as int % acts.len() as int;
        lemma_listed_is_legal(s, 80, i);
        assert(acts[i] == sampled_action(s, seed)->Some_0);
    }
}

/// A legal candidate among the first `n` is in their list.
proof fn lemma_legal_is_listed(s: State, k: int, n: int)
    requires
        0 <= k < n,
        legal(s, candidate(k)),
    ensures
        legal_prefix(s, n).contains(candidate(k)),
    decreases n,
{
    if k < n - 1 {
        lemma_legal_is_listed(s, k, n - 1);
        let p = legal_prefix(s, n - 1);
        let i = choose|i: int| 0 <= i < p.len() && p[i] == candidate(k);
        lemma_prefix_extends(s, n - 1, n);
        assert(legal_prefix(s, n)[i] == candidate(k));
    } else {
        let q = legal_prefix(s, n);
        assert(q[q.len() - 1] == candidate(k));
    }
}

/// The enumeration lists exactly the legal actions, and there are never
/// more than 80 of them (16 cells times 5 hand slots), so a buffer of 80
/// always holds them all.
pub proof fn lemma_actions_are_the_legal_ones(s: State, a: Action)
    ensures
        legal_actions(s).contains(a) <==> legal(s, a),
        legal_actions(s).len() <= 80,
{
    lemma_prefix_len(s, 80);
    if legal_actions(s).contains(a) {
        let i = choose|i: int| 0 <= i < legal_actions(s).len() && legal_actions(s)[i] == a;
        lemma_listed_is_legal(s, 80, i);
    }
    if legal(s, a) {
        let k = 20 * a.x + 5 * a.y + a.hand_index;
        lemma_candidate(a.x as int, a.y as int, a.hand_index as int);
        lemma_legal_is_listed(s, k, 80);
    }
}

} // verus!
