//! One 3x3 tic-tac-toe board: cell storage, the line-completion check and the
//! "has an empty cell" check.

use vstd::prelude::*;

use crate::position::Player;
use crate::position::Position;

verus! {

/// The owner of the line (a, b, c): its player when all three cells hold the
/// same player's mark, and nothing otherwise.
pub open spec fn spec_line(a: Option<Player>, b: Option<Player>, c: Option<Player>) -> Option<
    Player,
> {
    match a {
        Some(p) => if b == Some(p) && c == Some(p) {
            Some(p)
        } else {
            None
        },
        None => None,
    }
}

/// Reports the player owning the whole line (a, b, c), if any.
pub fn check_line(a: Option<Player>, b: Option<Player>, c: Option<Player>) -> (r: Option<Player>)
    ensures
        r == spec_line(a, b, c),
{
    match (a, b, c) {
        (Some(p), Some(q), Some(s)) => if p == q && q == s {
            Some(p)
        } else {
            None
        },
        _ => None,
    }
}

/// One 3x3 board; each cell is empty or holds a player's mark.
#[derive(Clone, Copy, PartialEq, Debug)]
pub struct TableroTres {
    pub c00: Option<Player>,
    pub c01: Option<Player>,
    pub c02: Option<Player>,
    pub c10: Option<Player>,
    pub c11: Option<Player>,
    pub c12: Option<Player>,
    pub c20: Option<Player>,
    pub c21: Option<Player>,
    pub c22: Option<Player>,
}

impl TableroTres {
    /// The board with every cell empty.
    pub open spec fn spec_empty() -> TableroTres {
        TableroTres {
            c00: None,
            c01: None,
            c02: None,
            c10: None,
            c11: None,
            c12: None,
            c20: None,
            c21: None,
            c22: None,
        }
    }

    /// The cell at `pos` (meaningful when `pos.in_range()`).
    pub open spec fn cell(self, pos: Position) -> Option<Player> {
        if pos.x == 0 {
            if pos.y == 0 {
                self.c00
            } else if pos.y == 1 {
                self.c01
            } else {
                self.c02
            }
        } else if pos.x == 1 {
            if pos.y == 0 {
                self.c10
            } else if pos.y == 1 {
                self.c11
            } else {
                self.c12
            }
        } else {
            if pos.y == 0 {
                self.c20
            } else if pos.y == 1 {
                self.c21
            } else {
                self.c22
            }
        }
    }

    /// `self` with the cell at `pos` replaced by `v` and every other cell kept.
    pub open spec fn spec_with(self, pos: Position, v: Option<Player>) -> TableroTres {
        if pos.x == 0 {
            if pos.y == 0 {
                TableroTres { c00: v, ..self }
            } else if pos.y == 1 {
                TableroTres { c01: v, ..self }
            } else {
                TableroTres { c02: v, ..self }
            }
        } else if pos.x == 1 {
            if pos.y == 0 {
                TableroTres { c10: v, ..self }
            } else if pos.y == 1 {
                TableroTres { c11: v, ..self }
            } else {
                TableroTres { c12: v, ..self }
            }
        } else {
            if pos.y == 0 {
                TableroTres { c20: v, ..self }
            } else if pos.y == 1 {
                TableroTres { c21: v, ..self }
            } else {
                TableroTres { c22: v, ..self }
            }
        }
    }

    /// The winner the board reports: the owner of the first completed line in
    /// the order rows, columns, falling diagonal, rising diagonal.
    pub open spec fn spec_check(self) -> Option<Player> {
        if spec_line(self.c00, self.c01, self.c02) is Some {
            spec_line(self.c00, self.c01, self.c02)
        } else if spec_line(self.c10, self.c11, self.c12) is Some {
            spec_line(self.c10, self.c11, self.c12)
        } else if spec_line(self.c20, self.c21, self.c22) is Some {
            spec_line(self.c20, self.c21, self.c22)
        } else if spec_line(self.c00, self.c10, self.c20) is Some {
            spec_line(self.c00, self.c10, self.c20)
        } else if spec_line(self.c01, self.c11, self.c21) is Some {
            spec_line(self.c01, self.c11, self.c21)
        } else if spec_line(self.c02, self.c12, self.c22) is Some {
            spec_line(self.c02, self.c12, self.c22)
        } else if spec_line(self.c00, self.c11, self.c22) is Some {
            spec_line(self.c00, self.c11, self.c22)
        } else if spec_line(self.c02, self.c11, self.c20) is Some {
            spec_line(self.c02, self.c11, self.c20)
        } else {
            None
        }
    }

    /// Some row, column or diagonal is wholly marked by `p`.
    pub open spec fn has_line(self, p: Player) -> bool {
        ||| (self.c00 == Some(p) && self.c01 == Some(p) && self.c02 == Some(p))
        ||| (self.c10 == Some(p) && self.c11 == Some(p) && self.c12 == Some(p))
        ||| (self.c20 == Some(p) && self.c21 == Some(p) && self.c22 == Some(p))
        ||| (self.c00 == Some(p) && self.c10 == Some(p) && self.c20 == Some(p))
        ||| (self.c01 == Some(p) && self.c11 == Some(p) && self.c21 == Some(p))
        ||| (self.c02 == Some(p) && self.c12 == Some(p) && self.c22 == Some(p))
        ||| (self.c00 == Some(p) && self.c11 == Some(p) && self.c22 == Some(p))
        ||| (self.c02 == Some(p) && self.c11 == Some(p) && self.c20 == Some(p))
    }

    /// Every cell holds a mark.
    pub open spec fn spec_full(self) -> bool {
        &&& self.c00 is Some
        &&& self.c01 is Some
        &&& self.c02 is Some
        &&& self.c10 is Some
        &&& self.c11 is Some
        &&& self.c12 is Some
        &&& self.c20 is Some
        &&& self.c21 is Some
        &&& self.c22 is Some
    }

    /// An empty board.
    pub fn new() -> (r: Self)
        ensures
            r == TableroTres::spec_empty(),
    {
        TableroTres {
            c00: None,
            c01: None,
            c02: None,
            c10: None,
            c11: None,
            c12: None,
            c20: None,
            c21: None,
            c22: None,
        }
    }

    /// Overwrites the cell at `pos` with `v`.
    fn set_cell(&mut self, pos: Position, v: Option<Player>)
        requires
            pos.in_range(),
        ensures
            *final(self) == old(self).spec_with(pos, v),
    {
        if pos.x == 0 {
            if pos.y == 0 {
                self.c00 = v;
            } else if pos.y == 1 {
                self.c01 = v;
            } else {
                self.c02 = v;
            }
        } else if pos.x == 1 {
            if pos.y == 0 {
                self.c10 = v;
            } else if pos.y == 1 {
                self.c11 = v;
            } else {
                self.c12 = v;
            }
        } else {
            if pos.y == 0 {
                self.c20 = v;
            } else if pos.y == 1 {
                self.c21 = v;
            } else {
                self.c22 = v;
            }
        }
    }

    /// Marks the cell at `pos` for `value`, overwriting whatever was there.
    pub fn put(&mut self, pos: Position, value: Player)
        requires
            pos.in_range(),
        ensures
            *final(self) == old(self).spec_with(pos, Some(value)),
    {
        self.set_cell(pos, Some(value));
    }

    /// Empties the cell at `pos`.
    pub fn reset(&mut self, pos: Position)
        requires
            pos.in_range(),
        ensures
            *final(self) == old(self).spec_with(pos, None),
    {
        self.set_cell(pos, None);
    }

    /// Reads the cell at `pos`.
    pub fn get(&self, pos: Position) -> (r: Option<Player>)
        requires
            pos.in_range(),
        ensures
            r == self.cell(pos),
    {
        if pos.x == 0 {
            if pos.y == 0 {
                self.c00
            } else if pos.y == 1 {
                self.c01
            } else {
                self.c02
            }
        } else if pos.x == 1 {
            if pos.y == 0 {
                self.c10
            } else if pos.y == 1 {
                self.c11
            } else {
                self.c12
            }
        } else {
            if pos.y == 0 {
                self.c20
            } else if pos.y == 1 {
                self.c21
            } else {
                self.c22
            }
        }
    }

    /// Reports a player owning a full row, column or diagonal, if any;
    /// lines are tried in the order rows, columns, the two diagonals.
    pub fn check(&self) -> (r: Option<Player>)
        ensures
            r == self.spec_check(),
    {
        if let Some(w) = check_line(self.c00, self.c01, self.c02) {
            return Some(w);
        }
        if let Some(w) = check_line(self.c10, self.c11, self.c12) {
            return Some(w);
        }
        if let Some(w) = check_line(self.c20, self.c21, self.c22) {
            return Some(w);
        }
        if let Some(w) = check_line(self.c00, self.c10, self.c20) {
            return Some(w);
        }
        if let Some(w) = check_line(self.c01, self.c11, self.c21) {
            return Some(w);
        }
        if let Some(w) = check_line(self.c02, self.c12, self.c22) {
            return Some(w);
        }
        if let Some(w) = check_line(self.c00, self.c11, self.c22) {
            return Some(w);
        }
        if let Some(w) = check_line(self.c02, self.c11, self.c20) {
            return Some(w);
        }
        None
    }

    /// True iff at least one cell is still empty.
    pub fn playable(&self) -> (r: bool)
        ensures
            r == !self.spec_full(),
            r <==> exists|p: Position| p.in_range() && self.cell(p) is None,
    {
        proof {
            lemma_playable_iff_not_full(*self);
        }
        self.c00.is_none() || self.c01.is_none() || self.c02.is_none() || self.c10.is_none()
            || self.c11.is_none() || self.c12.is_none() || self.c20.is_none()
            || self.c21.is_none() || self.c22.is_none()
    }
}

/// A board is full exactly when no in-range position holds an empty cell.
pub proof fn lemma_playable_iff_not_full(t: TableroTres)
    ensures
        !t.spec_full() <==> exists|p: Position| p.in_range() && t.cell(p) is None,
{
    if !t.spec_full() {
        if t.c00 is None {
            assert(Position { x: 0, y: 0 }.in_range() && t.cell(Position { x: 0, y: 0 }) is None);
        } else if t.c01 is None {
            assert(Position { x: 0, y: 1 }.in_range() && t.cell(Position { x: 0, y: 1 }) is None);
        } else if t.c02 is None {
            assert(Position { x: 0, y: 2 }.in_range() && t.cell(Position { x: 0, y: 2 }) is None);
        } else if t.c10 is None {
            assert(Position { x: 1, y: 0 }.in_range() && t.cell(Position { x: 1, y: 0 }) is None);
        } else if t.c11 is None {
            assert(Position { x: 1, y: 1 }.in_range() && t.cell(Position { x: 1, y: 1 }) is None);
        } else if t.c12 is None {
            assert(Position { x: 1, y: 2 }.in_range() && t.cell(Position { x: 1, y: 2 }) is None);
        } else if t.c20 is None {
            assert(Position { x: 2, y: 0 }.in_range() && t.cell(Position { x: 2, y: 0 }) is None);
        } else if t.c21 is None {
            assert(Position { x: 2, y: 1 }.in_range() && t.cell(Position { x: 2, y: 1 }) is None);
        } else {
            assert(Position { x: 2, y: 2 }.in_range() && t.cell(Position { x: 2, y: 2 }) is None);
        }
    }
}

/// A board with a full line of one player and no full line of the other
/// reports that player as the winner.
pub proof fn lemma_check_reports_line(t: TableroTres, p: Player, q: Player)
    requires
        p != q,
        t.has_line(p),
        !t.has_line(q),
    ensures
        t.spec_check() == Some(p),
{
}

/// A board with no completed line reports no winner.
pub proof fn lemma_check_none(t: TableroTres)
    requires
        forall|p: Player| !t.has_line(p),
    ensures
        t.spec_check() is None,
{
    assert(!t.has_line(Player::First));
    assert(!t.has_line(Player::Second));
}

} // verus!
