//! Players and board coordinates, with the composition of an (outer, inner)
//! coordinate pair into one total position over the 9x9 grid and its inverse.

use vstd::prelude::*;

verus! {

/// One of the two players: the owner of a mark, of a turn, or of a win.
#[derive(Clone, Copy, PartialEq, Eq, Structural, Debug)]
pub enum Player {
    First,
    Second,
}

/// The turn owner after `op`'s turn ends; a finished game (`None`) stays finished.
pub open spec fn spec_switch(op: Option<Player>) -> Option<Player> {
    match op {
        Some(Player::First) => Some(Player::Second),
        Some(Player::Second) => Some(Player::First),
        None => None,
    }
}

/// Hands the turn to the other player.
pub fn switch(op: Option<Player>) -> (r: Option<Player>)
    ensures
        r == spec_switch(op),
{
    match op {
        Some(Player::First) => Some(Player::Second),
        Some(Player::Second) => Some(Player::First),
        None => None,
    }
}

/// A coordinate pair. Sub-board and outer-board coordinates lie in
/// [0,2]x[0,2]; total positions over the whole grid lie in [0,8]x[0,8]; the
/// post-game sentinel for the active-board field lies outside both.
#[derive(Clone, Copy, PartialEq, Eq, Structural, Hash, Debug)]
pub struct Position {
    pub x: u8,
    pub y: u8,
}

impl Position {
    /// Both coordinates address a cell of one 3x3 board.
    pub open spec fn in_range(self) -> bool {
        self.x < 3 && self.y < 3
    }

    /// Both coordinates address a cell of the 9x9 grid of total positions.
    pub open spec fn in_total_range(self) -> bool {
        self.x < 9 && self.y < 9
    }

    /// The total position of cell `pos2` inside the sub-board at outer cell `pos1`.
    pub open spec fn spec_total(pos1: Position, pos2: Position) -> Position {
        Position { x: (pos1.x * 3 + pos2.x) as u8, y: (pos1.y * 3 + pos2.y) as u8 }
    }

    /// The (outer, inner) pair a total position decomposes into:
    /// component-wise quotient and remainder by 3.
    pub open spec fn spec_partial(total: Position) -> (Position, Position) {
        (
            Position { x: (total.x / 3) as u8, y: (total.y / 3) as u8 },
            Position { x: (total.x % 3) as u8, y: (total.y % 3) as u8 },
        )
    }

    /// Composes an outer and an inner position into the total position.
    pub fn total_pos(pos1: Position, pos2: Position) -> (r: Position)
        requires
            pos1.in_range(),
            pos2.in_range(),
        ensures
            r == Position::spec_total(pos1, pos2),
            r.in_total_range(),
    {
        Position { x: pos1.x * 3 + pos2.x, y: pos1.y * 3 + pos2.y }
    }

    /// Decomposes a total position into its (outer, inner) pair.
    pub fn partial_pos(total_pos: Position) -> (r: (Position, Position))
        ensures
            r == Position::spec_partial(total_pos),
    {
        (
            Position { x: total_pos.x / 3, y: total_pos.y / 3 },
            Position { x: total_pos.x % 3, y: total_pos.y % 3 },
        )
    }
}

/// Decomposing the composition of any two board positions gives them back:
/// total positions are a faithful key for (sub-board, cell) pairs.
pub proof fn lemma_partial_total(pos1: Position, pos2: Position)
    requires
        pos1.in_range(),
        pos2.in_range(),
    ensures
        Position::spec_partial(Position::spec_total(pos1, pos2)) == (pos1, pos2),
{
    assert((pos1.x * 3 + pos2.x) / 3 == pos1.x && (pos1.x * 3 + pos2.x) % 3 == pos2.x)
        by (nonlinear_arith)
        requires pos1.x < 3 && pos2.x < 3;
    assert((pos1.y * 3 + pos2.y) / 3 == pos1.y && (pos1.y * 3 + pos2.y) % 3 == pos2.y)
        by (nonlinear_arith)
        requires pos1.y < 3 && pos2.y < 3;
}

} // verus!
