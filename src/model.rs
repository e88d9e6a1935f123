//! Value types of a game position: cards, hands, the board and the state.
use vstd::prelude::*;

verus! {

/// Which player a card on the board belongs to.
#[derive(Clone, Copy, PartialEq, Eq, Debug)]
pub enum Possession {
    PlayerOne,
    PlayerTwo,
}

/// A card on the board: four directional ranks and its current owner.
#[derive(Clone, Copy, PartialEq, Eq, Debug, Default)]
pub struct Card {
    pub top: u8,
    pub right: u8,
    pub bottom: u8,
    pub left: u8,
    pub possession: Option<Possession>,
}

/// The 4x4 board, indexed `board[x][y]`.
pub type Board = [[Option<Card>; 4]; 4];

/// One card of a hand, with a flag telling whether it was already played.
#[derive(Clone, Copy, PartialEq, Eq, Debug, Default)]
pub struct HandEntry {
    pub north: u8,
    pub east: u8,
    pub south: u8,
    pub west: u8,
    pub used: bool,
}

/// A player's hand of five cards.
#[derive(Clone, Copy, PartialEq, Eq, Debug, Default)]
pub struct Hand {
    pub entries: [HandEntry; 5],
}

/// A complete game position.
#[derive(Clone, Copy, PartialEq, Eq, Debug)]
pub struct State {
    pub board: Board,
    /// Score counters of player 0 and player 1.
    pub scores: (u8, u8),
    /// 0 or 1: the player to move.
    pub player_turn: u8,
    pub round: u8,
    pub max_rounds: u8,
    pub hands: [Hand; 2],
}

/// Play hand card `hand_index` (0..5) of the player to move at cell (`x`, `y`).
#[derive(Clone, Copy, PartialEq, Eq, Debug, Default)]
pub struct Action {
    pub hand_index: u8,
    pub x: u8,
    pub y: u8,
}

/// The cell at (`x`, `y`) of a board.
pub open spec fn cell(b: Board, x: int, y: int) -> Option<Card> {
    b[x][y]
}

/// Hand entry `i` of player `p`.
pub open spec fn entry(s: State, p: int, i: int) -> HandEntry {
    s.hands[p].entries[i]
}

impl State {
    /// The position is well formed: the player to move is 0 or 1.
    pub open spec fn wf(self) -> bool {
        self.player_turn < 2
    }

    /// The game is over once the round limit is reached.
    pub open spec fn terminal(self) -> bool {
        self.round >= self.max_rounds
    }
}

impl Default for State {
    /// An empty board, zero scores, round and round limit 0, player 0 to
    /// move, and two hands of unused zero-ranked cards.
    fn default() -> (r: State)
        ensures
            r.player_turn == 0,
            r.round == 0,
            r.max_rounds == 0,
            r.scores == (0u8, 0u8),
            forall|x: int, y: int| 0 <= x < 4 && 0 <= y < 4 ==> cell(r.board, x, y).is_none(),
            forall|p: int, i: int|
                0 <= p < 2 && 0 <= i < 5 ==> entry(r, p, i) == (HandEntry {
                    north: 0,
                    east: 0,
                    south: 0,
                    west: 0,
                    used: false,
                }),
    {
        let e = HandEntry { north: 0, east: 0, south: 0, west: 0, used: false };
        let h = Hand { entries: [e, e, e, e, e] };
        let col: [Option<Card>; 4] = [None, None, None, None];
        State {
            board: [col, col, col, col],
            scores: (0, 0),
            player_turn: 0,
            round: 0,
            max_rounds: 0,
            hands: [h, h],
        }
    }
}

} // verus!
