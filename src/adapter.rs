//! The operations that a search engine calls on positions.
use vstd::prelude::*;

use crate::model::{cell, Action, Card, Possession, State};
use crate::rules::{
    beats, capture_scores, cell_after, cell_or_none, dir_dx, dir_dy, dir_to, in_range, is_successor,
    legal, legal_actions, legal_prefix, lemma_candidate, lemma_no_legal_prefix, lemma_prefix_extends,
    neighbor, on_board, owned_by, owner_of, owner_tag, placed_card, scores_through,
};

verus! {

/// The game's capability object for a search engine. It carries no state:
/// every operation is a pure function of its arguments.
pub struct Adapter;

impl Default for Adapter {
    fn default() -> (r: Adapter) {
        Adapter
    }
}

/// Why a checked move was refused.
#[derive(Clone, Copy, PartialEq, Eq, Debug)]
pub enum ApplyError {
    /// The action is not legal in the position: the game is over, the cell
    /// or hand slot does not exist, the cell is taken or the card was played.
    IllegalAction,
}

/// Resolves one direction of a placement: if the card `placed` at `(x, y)`
/// beats the card next to it in direction `d`, that card turns to `mover`
/// and the score counters are updated.
fn resolve_direction(g: &mut State, x: u8, y: u8, d: u8, placed: Card, mover: Possession)
    requires
        x < 4,
        y < 4,
        d < 4,
    ensures
        ({
            let nx = x + dir_dx(d as int);
            let ny = y + dir_dy(d as int);
            let nb = cell_or_none(old(g).board, nx, ny);
            &&& forall|i: int, j: int|
                on_board(i, j) ==> #[trigger] cell(final(g).board, i, j) == if i == nx && j == ny
                    && beats(placed, d as int, nb) {
                    Some(owned_by(nb->Some_0, mover))
                } else {
                    cell(old(g).board, i, j)
                }
            &&& final(g).scores == if beats(placed, d as int, nb) {
                capture_scores(old(g).scores, owner_tag(nb), mover)
            } else {
                old(g).scores
            }
        }),
        final(g).player_turn == old(g).player_turn,
        final(g).round == old(g).round,
        final(g).max_rounds == old(g).max_rounds,
        final(g).hands == old(g).hands,
{
    let nx: u8;
    let ny: u8;
    if d == 0 {
        if y == 0 {
            return;
        }
        nx = x;
        ny = y - 1;
    } else if d == 1 {
        if x == 3 {
            return;
        }
        nx = x + 1;
        ny = y;
    } else if d == 2 {
        if y == 3 {
            return;
        }
        nx = x;
        ny = y + 1;
    } else {
        if x == 0 {
            return;
        }
        nx = x - 1;
        ny = y;
    }
    if let Some(opp) = g.board[nx as usize][ny as usize] {
        let (mine, theirs) = if d == 0 {
            (placed.top, opp.bottom)
        } else if d == 1 {
            (placed.right, opp.left)
        } else if d == 2 {
            (placed.bottom, opp.top)
        } else {
            (placed.left, opp.right)
        };
        if mine > theirs {
            match opp.possession {
                Some(Possession::PlayerOne) => {
                    g.scores.0 = g.scores.0.saturating_sub(1);
                },
                Some(Possession::PlayerTwo) => {
                    g.scores.1 = g.scores.1.saturating_sub(1);
                },
                None => {},
            }
            match mover {
                Possession::PlayerOne => {
                    g.scores.0 = g.scores.0.saturating_add(1);
                },
                Possession::PlayerTwo => {
                    g.scores.1 = g.scores.1.saturating_add(1);
                },
            }
            let captured = Card {
                top: opp.top,
                right: opp.right,
                bottom: opp.bottom,
                left: opp.left,
                possession: Some(mover),
            };
            g.board[nx as usize][ny as usize] = Some(captured);
        }
    }
}

impl Adapter {
    /// Writes the legal actions of `s` for the player to move into `out`, in
    /// enumeration order and at most `MAX` of them, and returns how many it
    /// wrote. The rest of `out` is left as it was. A finished game has none.
    pub fn list_actions_pure<const MAX: usize>(s: &State, out: &mut [Option<Action>; MAX]) -> (r:
        usize)
        requires
            s.wf(),
        ensures
            r == if legal_actions(*s).len() <= MAX {
                legal_actions(*s).len() as int
            } else {
                MAX as int
            },
            forall|i: int| 0 <= i < r ==> #[trigger] final(out)[i] == Some(legal_actions(*s)[i]),
            forall|i: int| r <= i < MAX ==> #[trigger] final(out)[i] == old(out)[i],
    {
        if s.round >= s.max_rounds || MAX == 0 {
            proof {
                lemma_prefix_extends(*s, 0, 80);
                if s.terminal() {
                    lemma_no_legal_prefix(*s, 80);
                }
            }
            return 0;
        }
        let hand = s.hands[s.player_turn as usize];
        let mut k: usize = 0;
        for x in 0..4u8
            invariant
                s.wf(),
                !s.terminal(),
                hand == s.hands[s.player_turn as int],
                k < MAX,
                k == legal_prefix(*s, 20 * x).len(),
                forall|i: int| 0 <= i < k ==> #[trigger] out[i] == Some(legal_prefix(*s, 20 * x)[i]),
                forall|i: int| k <= i < MAX ==> #[trigger] out[i] == old(out)[i],
        {
            for y in 0..4u8
                invariant
                    s.wf(),
                    !s.terminal(),
                    x < 4,
                    hand == s.hands[s.player_turn as int],
                    k < MAX,
                    k == legal_prefix(*s, 20 * x + 5 * y).len(),
                    forall|i: int|
                        0 <= i < k ==> #[trigger] out[i] == Some(
                            legal_prefix(*s, 20 * x + 5 * y)[i],
                        ),
                    forall|i: int| k <= i < MAX ==> #[trigger] out[i] == old(out)[i],
            {
                let empty = s.board[x as usize][y as usize].is_none();
                for idx in 0..5u8
                    invariant
                        s.wf(),
                        !s.terminal(),
                        x < 4,
                        y < 4,
                        hand == s.hands[s.player_turn as int],
                        empty == cell(s.board, x as int, y as int).is_none(),
                        k < MAX,
                        k == legal_prefix(*s, 20 * x + 5 * y + idx).len(),
                        forall|i: int|
                            0 <= i < k ==> #[trigger] out[i] == Some(
                                legal_prefix(*s, 20 * x + 5 * y + idx)[i],
                            ),
                        forall|i: int| k <= i < MAX ==> #[trigger] out[i] == old(out)[i],
                {
                    let ghost n = 20 * x + 5 * y + idx;
                    proof {
                        lemma_candidate(x as int, y as int, idx as int);
                    }
                    if empty && !hand.entries[idx as usize].used {
                        out[k] = Some(Action { hand_index: idx, x, y });
                        k += 1;
                        if k == MAX {
                            proof {
                                lemma_prefix_extends(*s, n + 1, 80);
                            }
                            return k;
                        }
                    }
                }
            }
        }
        k
    }

    /// Plays `a` in `s` and returns the successor position; `s` itself is
    /// left as it was. Legality is not re-checked: the action only has to
    /// name a hand slot and a cell that exist (see `apply_checked`).
    pub fn apply_pure(s: &State, a: &Action) -> (r: State)
        requires
            s.wf(),
            in_range(*a),
        ensures
            is_successor(*s, *a, r),
    {
        let mut g = *s;
        let pt = g.player_turn;
        let he = g.hands[pt as usize].entries[a.hand_index as usize];
        let mover = if pt == 0 {
            Possession::PlayerOne
        } else {
            Possession::PlayerTwo
        };
        let placed = Card {
            top: he.north,
            right: he.east,
            bottom: he.south,
            left: he.west,
            possession: Some(mover),
        };
        g.board[a.x as usize][a.y as usize] = Some(placed);
        assert(placed == placed_card(*s, *a));
        assert(mover == owner_of(s.player_turn));
        let ghost g0 = g;
        assert(g0.scores == scores_through(*s, *a, 0));
        assert(forall|d: int|
            0 <= d < 4 ==> #[trigger] cell_or_none(g0.board, a.x + dir_dx(d), a.y + dir_dy(d))
                == neighbor(*s, *a, d));
        resolve_direction(&mut g, a.x, a.y, 0, placed, mover);
        let ghost g1 = g;
        assert(g1.scores == scores_through(*s, *a, 1));
        assert(forall|d: int|
            1 <= d < 4 ==> #[trigger] cell_or_none(g1.board, a.x + dir_dx(d), a.y + dir_dy(d))
                == neighbor(*s, *a, d));
        resolve_direction(&mut g, a.x, a.y, 1, placed, mover);
        let ghost g2 = g;
        assert(g2.scores == scores_through(*s, *a, 2));
        assert(forall|d: int|
            2 <= d < 4 ==> #[trigger] cell_or_none(g2.board, a.x + dir_dx(d), a.y + dir_dy(d))
                == neighbor(*s, *a, d));
        resolve_direction(&mut g, a.x, a.y, 2, placed, mover);
        let ghost g3 = g;
        assert(g3.scores == scores_through(*s, *a, 3));
        assert(cell_or_none(g3.board, a.x + dir_dx(3), a.y + dir_dy(3)) == neighbor(*s, *a, 3));
        resolve_direction(&mut g, a.x, a.y, 3, placed, mover);
        assert(g.scores == scores_through(*s, *a, 4));
        assert forall|i: int, j: int| on_board(i, j) implies #[trigger] cell(g.board, i, j)
            == cell_after(*s, *a, i, j) by {
            if i == a.x && j == a.y {
            } else {
                let d = dir_to(*a, i, j);
                if d < 4 {
                    assert(neighbor(*s, *a, d) == cell(s.board, i, j));
                }
            }
        }
        g.hands[pt as usize].entries[a.hand_index as usize].used = true;
        if pt == 0 {
            g.player_turn = 1;
        } else {
            g.player_turn = 0;
            g.round = g.round.saturating_add(1);
        }
        g
    }

    /// Plays `a` after checking that it is legal in `s`.
    pub fn apply_checked(s: &State, a: &Action) -> (r: Result<State, ApplyError>)
        requires
            s.wf(),
        ensures
            r is Ok <==> legal(*s, *a),
            r matches Ok(n) ==> is_successor(*s, *a, n),
            r matches Err(e) ==> e == ApplyError::IllegalAction,
    {
        if a.hand_index >= 5 || a.x >= 4 || a.y >= 4 || s.round >= s.max_rounds {
            return Err(ApplyError::IllegalAction);
        }
        if s.board[a.x as usize][a.y as usize].is_some()
            || s.hands[s.player_turn as usize].entries[a.hand_index as usize].used {
            return Err(ApplyError::IllegalAction);
        }
        Ok(Adapter::apply_pure(s, a))
    }
}

} // verus!
