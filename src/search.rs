//! The capability set that a generic search engine needs from a game.
use vstd::prelude::*;

use crate::adapter::Adapter;
use crate::model::{Action, State};
use crate::rules::{
    in_range, is_successor, legal_actions, lemma_prefix_len, sampled_action, score_of,
};

verus! {

/// The operations a tree search or rollout engine needs from a game. Every
/// operation is a pure function of its arguments, so branches can be
/// explored from shared positions, also in parallel.
pub trait GameAdapter {
    type State;
    type Action;
    type Player;

    /// Positions the operations accept.
    spec fn valid_state(s: Self::State) -> bool;

    /// Actions `apply` accepts.
    spec fn valid_action(a: Self::Action) -> bool;

    /// Writes up to `MAX` legal actions of `s` into `out`; returns how many.
    fn list_actions<const MAX: usize>(s: &Self::State, out: &mut [Option<Self::Action>; MAX]) -> (r:
        usize)
        requires
            Self::valid_state(*s),
        ensures
            r <= MAX,
    ;

    /// The position after playing `a` in `s`.
    fn apply(s: &Self::State, a: &Self::Action) -> Self::State
        requires
            Self::valid_state(*s),
            Self::valid_action(*a),
    ;

    /// Whether the game is over in `s`.
    fn is_terminal(s: &Self::State) -> bool;

    /// The player to move in `s`.
    fn current_player(s: &Self::State) -> Self::Player;

    /// Zero-sum score of `s` from `for_player`'s side.
    fn score(s: &Self::State, for_player: Self::Player) -> i32;

    /// A legal action picked from `seed`, or `None` when there is none.
    fn random_action(s: &Self::State, seed: u64) -> Option<Self::Action>
        requires
            Self::valid_state(*s),
    ;
}

impl GameAdapter for Adapter {
    type State = State;
    type Action = Action;
    type Player = u8;

    open spec fn valid_state(s: State) -> bool {
        s.wf()
    }

    open spec fn valid_action(a: Action) -> bool {
        in_range(a)
    }

    /// The legal actions of `s` in enumeration order (see `list_actions_pure`).
    fn list_actions<const MAX: usize>(s: &State, out: &mut [Option<Action>; MAX]) -> (r: usize)
        ensures
            r == if legal_actions(*s).len() <= MAX {
                legal_actions(*s).len() as int
            } else {
                MAX as int
            },
            forall|i: int| 0 <= i < r ==> #[trigger] final(out)[i] == Some(legal_actions(*s)[i]),
            forall|i: int| r <= i < MAX ==> #[trigger] final(out)[i] == old(out)[i],
    {
        Adapter::list_actions_pure::<MAX>(s, out)
    }

    /// The successor position (see `apply_pure`).
    fn apply(s: &State, a: &Action) -> (r: State)
        ensures
            is_successor(*s, *a, r),
    {
        Adapter::apply_pure(s, a)
    }

    fn is_terminal(s: &State) -> (r: bool)
        ensures
            r == s.terminal(),
    {
        s.round >= s.max_rounds
    }

    fn current_player(s: &State) -> (r: u8)
        ensures
            r == s.player_turn,
    {
        s.player_turn
    }

    fn score(s: &State, for_player: u8) -> (r: i32)
        ensures
            r == score_of(*s, for_player),
    {
        let (a, b) = s.scores;
        if for_player == 0 {
            (a as i32) - (b as i32)
        } else {
            (b as i32) - (a as i32)
        }
    }

    /// Rollout policy: the legal action at index `seed mod n` of the `n`
    /// legal actions, or `None` when there are none. The same position and
    /// seed always give the same action.
    fn random_action(s: &State, seed: u64) -> (r: Option<Action>)
        ensures
            r == sampled_action(*s, seed),
    {
        let mut buf: [Option<Action>; 128] = [None; 128];
        proof {
            lemma_prefix_len(*s, 80);
        }
        let n = <Adapter as GameAdapter>::list_actions::<128>(s, &mut buf);
        if n == 0 {
            return None;
        }
        let idx = (seed % (n as u64)) as usize;
        buf[idx]
    }
}

} // verus!
