//! The game's rules as mathematical definitions: legality, capture, score
//! bookkeeping, the successor relation and the ordered list of legal moves.
use vstd::prelude::*;

use crate::model::{cell, entry, Action, Board, Card, HandEntry, Possession, State};

verus! {

/// Ownership tag of player `p` (0 or 1).
pub open spec fn owner_of(p: u8) -> Possession {
    if p == 0 {
        Possession::PlayerOne
    } else {
        Possession::PlayerTwo
    }
}

pub open spec fn on_board(x: int, y: int) -> bool {
    0 <= x < 4 && 0 <= y < 4
}

/// Horizontal offset of direction `d`: 0 north, 1 east, 2 south, 3 west.
pub open spec fn dir_dx(d: int) -> int {
    if d == 1 {
        1
    } else if d == 3 {
        -1
    } else {
        0
    }
}

/// Vertical offset of direction `d`: north is `y - 1`, south is `y + 1`.
pub open spec fn dir_dy(d: int) -> int {
    if d == 0 {
        -1
    } else if d == 2 {
        1
    } else {
        0
    }
}

/// The direction pointing back the other way.
pub open spec fn opposite(d: int) -> int {
    if d < 2 {
        d + 2
    } else {
        d - 2
    }
}

/// The rank that card `c` shows in direction `d`.
pub open spec fn rank_toward(c: Card, d: int) -> u8 {
    if d == 0 {
        c.top
    } else if d == 1 {
        c.right
    } else if d == 2 {
        c.bottom
    } else {
        c.left
    }
}

/// `c` with its owner replaced by `p`; its ranks are kept.
pub open spec fn owned_by(c: Card, p: Possession) -> Card {
    Card { top: c.top, right: c.right, bottom: c.bottom, left: c.left, possession: Some(p) }
}

/// Subtract one, stopping at 0.
pub open spec fn sat_dec(v: u8) -> u8 {
    if v == 0 {
        0
    } else {
        (v - 1) as u8
    }
}

/// Add one, stopping at 255.
pub open spec fn sat_inc(v: u8) -> u8 {
    if v == 255 {
        255
    } else {
        (v + 1) as u8
    }
}

/// The card that action `a` puts on the board: the ranks of the chosen hand
/// entry, owned by the player to move.
pub open spec fn placed_card(s: State, a: Action) -> Card {
    let he = entry(s, s.player_turn as int, a.hand_index as int);
    Card {
        top: he.north,
        right: he.east,
        bottom: he.south,
        left: he.west,
        possession: Some(owner_of(s.player_turn)),
    }
}

/// Cell `(x, y)` of `b`, or `None` when it lies off the board.
pub open spec fn cell_or_none(b: Board, x: int, y: int) -> Option<Card> {
    if on_board(x, y) {
        cell(b, x, y)
    } else {
        None
    }
}

/// What stands next to the target cell of `a` in direction `d`, before the move.
pub open spec fn neighbor(s: State, a: Action, d: int) -> Option<Card> {
    cell_or_none(s.board, a.x + dir_dx(d), a.y + dir_dy(d))
}

/// A card `mine` facing direction `d` beats what stands there: the cell holds
/// a card whose rank facing back is strictly lower. Ties never capture.
pub open spec fn beats(mine: Card, d: int, other: Option<Card>) -> bool {
    match other {
        Some(c) => rank_toward(mine, d) > rank_toward(c, opposite(d)),
        None => false,
    }
}

/// Action `a` captures the neighbour in direction `d`.
pub open spec fn captures(s: State, a: Action, d: int) -> bool {
    beats(placed_card(s, a), d, neighbor(s, a, d))
}

/// The owner of an optional card.
pub open spec fn owner_tag(c: Option<Card>) -> Option<Possession> {
    match c {
        Some(card) => card.possession,
        None => None,
    }
}

/// Score counters after `mover` captures a card owned by `prev`: the former
/// owner loses one point (not below 0), then the mover gains one (not above 255).
pub open spec fn capture_scores(sc: (u8, u8), prev: Option<Possession>, mover: Possession) -> (u8, u8) {
    let lost = match prev {
        Some(Possession::PlayerOne) => (sat_dec(sc.0), sc.1),
        Some(Possession::PlayerTwo) => (sc.0, sat_dec(sc.1)),
        None => sc,
    };
    match mover {
        Possession::PlayerOne => (sat_inc(lost.0), lost.1),
        Possession::PlayerTwo => (lost.0, sat_inc(lost.1)),
    }
}

/// Score counters once the captures of directions `0..n` are counted, in
/// the order north, east, south, west.
pub open spec fn scores_through(s: State, a: Action, n: int) -> (u8, u8)
    decreases n,
{
    if n <= 0 {
        s.scores
    } else {
        let sc = scores_through(s, a, n - 1);
        if captures(s, a, n - 1) {
            capture_scores(sc, owner_tag(neighbor(s, a, n - 1)), owner_of(s.player_turn))
        } else {
            sc
        }
    }
}

/// The direction in which `(x, y)` lies next to the target cell of `a`, or 4
/// when it is not adjacent to it.
pub open spec fn dir_to(a: Action, x: int, y: int) -> int {
    if x == a.x && y == a.y - 1 {
        0
    } else if x == a.x + 1 && y == a.y {
        1
    } else if x == a.x && y == a.y + 1 {
        2
    } else if x == a.x - 1 && y == a.y {
        3
    } else {
        4
    }
}

/// Cell `(x, y)` after `a`: the placed card on the target, a captured
/// neighbour now owned by the mover, every other cell as it was.
pub open spec fn cell_after(s: State, a: Action, x: int, y: int) -> Option<Card> {
    if x == a.x && y == a.y {
        Some(placed_card(s, a))
    } else if dir_to(a, x, y) < 4 && captures(s, a, dir_to(a, x, y)) {
        match cell(s.board, x, y) {
            Some(c) => Some(owned_by(c, owner_of(s.player_turn))),
            None => None,
        }
    } else {
        cell(s.board, x, y)
    }
}

/// Hand entry `i` of player `p` after `a`: the played entry is marked used.
pub open spec fn entry_after(s: State, a: Action, p: int, i: int) -> HandEntry {
    let he = entry(s, p, i);
    if p == s.player_turn && i == a.hand_index {
        HandEntry { north: he.north, east: he.east, south: he.south, west: he.west, used: true }
    } else {
        he
    }
}

/// `r` is the position that follows `s` when action `a` is played.
pub open spec fn is_successor(s: State, a: Action, r: State) -> bool {
    &&& forall|x: int, y: int|
        on_board(x, y) ==> #[trigger] cell(r.board, x, y) == cell_after(s, a, x, y)
    &&& r.scores == scores_through(s, a, 4)
    &&& r.player_turn == if s.player_turn == 0 {
        1u8
    } else {
        0u8
    }
    &&& r.round == if s.player_turn == 0 {
        s.round
    } else {
        sat_inc(s.round)
    }
    &&& r.max_rounds == s.max_rounds
    &&& forall|p: int, i: int|
        0 <= p < 2 && 0 <= i < 5 ==> #[trigger] entry(r, p, i) == entry_after(s, a, p, i)
}

/// `a` names a hand slot and a cell that exist.
pub open spec fn in_range(a: Action) -> bool {
    a.hand_index < 5 && a.x < 4 && a.y < 4
}

/// `a` is legal in `s`: the game is not over, the target cell is empty and
/// the chosen hand entry of the player to move is unused.
pub open spec fn legal(s: State, a: Action) -> bool {
    &&& in_range(a)
    &&& !s.terminal()
    &&& cell(s.board, a.x as int, a.y as int).is_none()
    &&& !entry(s, s.player_turn as int, a.hand_index as int).used
}

/// Candidate `k` (0..80) of the enumeration order: cells with `x` outer and
/// `y` inner, both ascending, then the hand slots 0..5 of each cell.
pub open spec fn candidate(k: int) -> Action {
    Action { hand_index: (k % 5) as u8, x: (k / 20) as u8, y: ((k / 5) % 4) as u8 }
}

/// The legal actions among the first `n` candidates, in enumeration order.
pub open spec fn legal_prefix(s: State, n: int) -> Seq<Action>
    decreases n,
{
    if n <= 0 {
        Seq::empty()
    } else {
        let p = legal_prefix(s, n - 1);
        if legal(s, candidate(n - 1)) {
            p.push(candidate(n - 1))
        } else {
            p
        }
    }
}

/// Every legal action of `s`, in enumeration order.
pub open spec fn legal_actions(s: State) -> Seq<Action> {
    legal_prefix(s, 80)
}

/// The action that the rollout sampler picks with `seed`: the legal action
/// at index `seed mod n` of the `n` legal actions, or none when `n` is 0.
pub open spec fn sampled_action(s: State, seed: u64) -> Option<Action> {
    let acts = legal_actions(s);
    if acts.len() == 0 {
        None
    } else {
        Some(acts[seed as int % acts.len() as int])
    }
}

/// Score differential of `s` seen by `player`: its own counter minus the
/// other player's. Player 0 is seen by 0, every other value by player 1.
pub open spec fn score_of(s: State, player: u8) -> int {
    if player == 0 {
        s.scores.0 - s.scores.1
    } else {
        s.scores.1 - s.scores.0
    }
}

/// The first `n` candidates' legal actions open the list of the first `m`.
pub proof fn lemma_prefix_extends(s: State, n: int, m: int)
    requires
        0 <= n <= m,
    ensures
        legal_prefix(s, n).len() <= legal_prefix(s, m).len(),
        forall|i: int|
            0 <= i < legal_prefix(s, n).len() ==> legal_prefix(s, m)[i] == legal_prefix(s, n)[i],
    decreases m - n,
{
    if n < m {
        lemma_prefix_extends(s, n, m - 1);
    }
}

/// There are at most `n` legal actions among the first `n` candidates.
pub proof fn lemma_prefix_len(s: State, n: int)
    requires
        0 <= n,
    ensures
        legal_prefix(s, n).len() <= n,
    decreases n,
{
    if n > 0 {
        lemma_prefix_len(s, n - 1);
    }
}

/// A finished game has no legal action among any candidates.
pub proof fn lemma_no_legal_prefix(s: State, n: int)
    requires
        s.terminal(),
    ensures
        legal_prefix(s, n).len() == 0,
    decreases n,
{
    if n > 0 {
        lemma_no_legal_prefix(s, n - 1);
    }
}

/// Candidate `20 x + 5 y + i` is the action (`i`, `x`, `y`).
pub proof fn lemma_candidate(x: int, y: int, i: int)
    requires
        0 <= x < 4,
        0 <= y < 4,
        0 <= i < 5,
    ensures
        candidate(20 * x + 5 * y + i) == (Action { hand_index: i as u8, x: x as u8, y: y as u8 }),
{
    let k = 20 * x + 5 * y + i;
    assert(k / 5 == 4 * x + y);
    assert(k / 20 == x);
}

} // verus!
