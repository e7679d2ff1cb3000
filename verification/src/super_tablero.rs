//! The 3x3 grid of sub-boards. Each outer cell is either a still-live
//! sub-board or is finalized with the player that won it; evaluation first
//! finalizes every freshly won sub-board, then applies the same line check to
//! the grid of finalized cells.

use vstd::prelude::*;

use crate::position::Player;
use crate::position::Position;
use crate::tablero::TableroTres;
use crate::tablero::check_line;
use crate::tablero::spec_line;

verus! {

/// One outer cell: a live sub-board still in play, or a cell finalized with
/// its winner.
#[derive(Clone, Copy, PartialEq, Debug)]
pub enum OuterCell {
    Live(TableroTres),
    Won(Player),
}

/// The player a finalized cell counts for on the outer board; a live cell
/// counts as empty.
pub open spec fn won_value(c: OuterCell) -> Option<Player> {
    match c {
        OuterCell::Won(p) => Some(p),
        OuterCell::Live(_) => None,
    }
}

/// What evaluation does to one outer cell: a live sub-board whose own line
/// check finds a winner is finalized with that winner; any other cell is kept.
pub open spec fn spec_finalize_cell(c: OuterCell) -> OuterCell {
    match c {
        OuterCell::Live(t) => match t.spec_check() {
            Some(w) => OuterCell::Won(w),
            None => OuterCell::Live(t),
        },
        OuterCell::Won(w) => OuterCell::Won(w),
    }
}

/// Reads `c` and, when it is a live sub-board with a completed line,
/// finalizes it with the winner.
fn finalize_cell(c: OuterCell) -> (r: OuterCell)
    ensures
        r == spec_finalize_cell(c),
{
    match c {
        OuterCell::Live(t) => match t.check() {
            Some(w) => OuterCell::Won(w),
            None => OuterCell::Live(t),
        },
        OuterCell::Won(w) => OuterCell::Won(w),
    }
}

/// The mark an outer cell contributes to the meta line check.
fn won_of(c: OuterCell) -> (r: Option<Player>)
    ensures
        r == won_value(c),
{
    match c {
        OuterCell::Won(p) => Some(p),
        OuterCell::Live(_) => None,
    }
}

/// The super-board: a 3x3 grid of outer cells.
#[derive(Clone, Copy, PartialEq, Debug)]
pub struct TableroSuperTres {
    pub s00: OuterCell,
    pub s01: OuterCell,
    pub s02: OuterCell,
    pub s10: OuterCell,
    pub s11: OuterCell,
    pub s12: OuterCell,
    pub s20: OuterCell,
    pub s21: OuterCell,
    pub s22: OuterCell,
}

impl TableroSuperTres {
    /// The super-board whose nine sub-boards are all live and empty.
    pub open spec fn spec_empty() -> TableroSuperTres {
        TableroSuperTres {
            s00: OuterCell::Live(TableroTres::spec_empty()),
            s01: OuterCell::Live(TableroTres::spec_empty()),
            s02: OuterCell::Live(TableroTres::spec_empty()),
            s10: OuterCell::Live(TableroTres::spec_empty()),
            s11: OuterCell::Live(TableroTres::spec_empty()),
            s12: OuterCell::Live(TableroTres::spec_empty()),
            s20: OuterCell::Live(TableroTres::spec_empty()),
            s21: OuterCell::Live(TableroTres::spec_empty()),
            s22: OuterCell::Live(TableroTres::spec_empty()),
        }
    }

    /// The outer cell at `pos` (meaningful when `pos.in_range()`).
    pub open spec fn sub(self, pos: Position) -> OuterCell {
        if pos.x == 0 {
            if pos.y == 0 {
                self.s00
            } else if pos.y == 1 {
                self.s01
            } else {
                self.s02
            }
        } else if pos.x == 1 {
            if pos.y == 0 {
                self.s10
            } else if pos.y == 1 {
                self.s11
            } else {
                self.s12
            }
        } else {
            if pos.y == 0 {
                self.s20
            } else if pos.y == 1 {
                self.s21
            } else {
                self.s22
            }
        }
    }

    /// `self` with the outer cell at `pos` replaced by `c`.
    pub open spec fn spec_set(self, pos: Position, c: OuterCell) -> TableroSuperTres {
        if pos.x == 0 {
            if pos.y == 0 {
                TableroSuperTres { s00: c, ..self }
            } else if pos.y == 1 {
                TableroSuperTres { s01: c, ..self }
            } else {
                TableroSuperTres { s02: c, ..self }
            }
        } else if pos.x == 1 {
            if pos.y == 0 {
                TableroSuperTres { s10: c, ..self }
            } else if pos.y == 1 {
                TableroSuperTres { s11: c, ..self }
            } else {
                TableroSuperTres { s12: c, ..self }
            }
        } else {
            if pos.y == 0 {
                TableroSuperTres { s20: c, ..self }
            } else if pos.y == 1 {
                TableroSuperTres { s21: c, ..self }
            } else {
                TableroSuperTres { s22: c, ..self }
            }
        }
    }

    /// What marking cell `pos2` of the sub-board at `pos1` for `value` yields:
    /// the mark lands in a live sub-board; a finalized outer cell is immutable
    /// and the board is unchanged.
    pub open spec fn spec_put(self, pos1: Position, pos2: Position, value: Player) -> TableroSuperTres {
        match self.sub(pos1) {
            OuterCell::Live(t) => self.spec_set(
                pos1,
                OuterCell::Live(t.spec_with(pos2, Some(value))),
            ),
            OuterCell::Won(_) => self,
        }
    }

    /// What emptying cell `pos2` of the sub-board at `pos1` yields; as with
    /// marking, a finalized outer cell is left untouched.
    pub open spec fn spec_reset(self, pos1: Position, pos2: Position) -> TableroSuperTres {
        match self.sub(pos1) {
            OuterCell::Live(t) => self.spec_set(pos1, OuterCell::Live(t.spec_with(pos2, None))),
            OuterCell::Won(_) => self,
        }
    }

    /// The board after the finalization phase of evaluation: every outer cell
    /// finalized on its own, by `spec_finalize_cell`.
    pub open spec fn spec_finalize(self) -> TableroSuperTres {
        TableroSuperTres {
            s00: spec_finalize_cell(self.s00),
            s01: spec_finalize_cell(self.s01),
            s02: spec_finalize_cell(self.s02),
            s10: spec_finalize_cell(self.s10),
            s11: spec_finalize_cell(self.s11),
            s12: spec_finalize_cell(self.s12),
            s20: spec_finalize_cell(self.s20),
            s21: spec_finalize_cell(self.s21),
            s22: spec_finalize_cell(self.s22),
        }
    }

    /// The overall winner the outer board reports: the same line check as a
    /// sub-board's, over the grid where finalized cells count for their winner
    /// and live cells count as empty.
    pub open spec fn spec_meta(self) -> Option<Player> {
        let m00 = won_value(self.s00);
        let m01 = won_value(self.s01);
        let m02 = won_value(self.s02);
        let m10 = won_value(self.s10);
        let m11 = won_value(self.s11);
        let m12 = won_value(self.s12);
        let m20 = won_value(self.s20);
        let m21 = won_value(self.s21);
        let m22 = won_value(self.s22);
        if spec_line(m00, m01, m02) is Some {
            spec_line(m00, m01, m02)
        } else if spec_line(m10, m11, m12) is Some {
            spec_line(m10, m11, m12)
        } else if spec_line(m20, m21, m22) is Some {
            spec_line(m20, m21, m22)
        } else if spec_line(m00, m10, m20) is Some {
            spec_line(m00, m10, m20)
        } else if spec_line(m01, m11, m21) is Some {
            spec_line(m01, m11, m21)
        } else if spec_line(m02, m12, m22) is Some {
            spec_line(m02, m12, m22)
        } else if spec_line(m00, m11, m22) is Some {
            spec_line(m00, m11, m22)
        } else if spec_line(m02, m11, m20) is Some {
            spec_line(m02, m11, m20)
        } else {
            None
        }
    }

    /// A super-board of nine empty live sub-boards.
    pub fn new() -> (r: Self)
        ensures
            r == TableroSuperTres::spec_empty(),
    {
        TableroSuperTres {
            s00: OuterCell::Live(TableroTres::new()),
            s01: OuterCell::Live(TableroTres::new()),
            s02: OuterCell::Live(TableroTres::new()),
            s10: OuterCell::Live(TableroTres::new()),
            s11: OuterCell::Live(TableroTres::new()),
            s12: OuterCell::Live(TableroTres::new()),
            s20: OuterCell::Live(TableroTres::new()),
            s21: OuterCell::Live(TableroTres::new()),
            s22: OuterCell::Live(TableroTres::new()),
        }
    }

    /// Reads the outer cell at `pos1`.
    pub fn get(&self, pos1: Position) -> (r: OuterCell)
        requires
            pos1.in_range(),
        ensures
            r == self.sub(pos1),
    {
        if pos1.x == 0 {
            if pos1.y == 0 {
                self.s00
            } else if pos1.y == 1 {
                self.s01
            } else {
                self.s02
            }
        } else if pos1.x == 1 {
            if pos1.y == 0 {
                self.s10
            } else if pos1.y == 1 {
                self.s11
            } else {
                self.s12
            }
        } else {
            if pos1.y == 0 {
                self.s20
            } else if pos1.y == 1 {
                self.s21
            } else {
                self.s22
            }
        }
    }

    /// Replaces the outer cell at `pos1` with `c`.
    fn set(&mut self, pos1: Position, c: OuterCell)
        requires
            pos1.in_range(),
        ensures
            *final(self) == old(self).spec_set(pos1, c),
    {
        if pos1.x == 0 {
            if pos1.y == 0 {
                self.s00 = c;
            } else if pos1.y == 1 {
                self.s01 = c;
            } else {
                self.s02 = c;
            }
        } else if pos1.x == 1 {
            if pos1.y == 0 {
                self.s10 = c;
            } else if pos1.y == 1 {
                self.s11 = c;
            } else {
                self.s12 = c;
            }
        } else {
            if pos1.y == 0 {
                self.s20 = c;
            } else if pos1.y == 1 {
                self.s21 = c;
            } else {
                self.s22 = c;
            }
        }
    }

    /// Marks cell `pos2` of the sub-board at `pos1` for `value`; a no-op when
    /// that outer cell is already finalized.
    pub fn put(&mut self, pos1: Position, pos2: Position, value: Player)
        requires
            pos1.in_range(),
            pos2.in_range(),
        ensures
            *final(self) == old(self).spec_put(pos1, pos2, value),
    {
        match self.get(pos1) {
            OuterCell::Live(t) => {
                let mut t2 = t;
                t2.put(pos2, value);
                self.set(pos1, OuterCell::Live(t2));
            },
            OuterCell::Won(_) => {},
        }
    }

    /// Empties cell `pos2` of the sub-board at `pos1`; a no-op when that outer
    /// cell is already finalized.
    pub fn reset(&mut self, pos1: Position, pos2: Position)
        requires
            pos1.in_range(),
            pos2.in_range(),
        ensures
            *final(self) == old(self).spec_reset(pos1, pos2),
    {
        match self.get(pos1) {
            OuterCell::Live(t) => {
                let mut t2 = t;
                t2.reset(pos2);
                self.set(pos1, OuterCell::Live(t2));
            },
            OuterCell::Won(_) => {},
        }
    }

    /// Evaluates the whole board in two phases: finalizes every live sub-board
    /// whose own check finds a winner, then reports the overall winner of the
    /// grid of finalized cells, if any.
    pub fn check(&mut self) -> (r: Option<Player>)
        ensures
            *final(self) == old(self).spec_finalize(),
            r == old(self).spec_finalize().spec_meta(),
    {
        self.s00 = finalize_cell(self.s00);
        self.s01 = finalize_cell(self.s01);
        self.s02 = finalize_cell(self.s02);
        self.s10 = finalize_cell(self.s10);
        self.s11 = finalize_cell(self.s11);
        self.s12 = finalize_cell(self.s12);
        self.s20 = finalize_cell(self.s20);
        self.s21 = finalize_cell(self.s21);
        self.s22 = finalize_cell(self.s22);

        let m00 = won_of(self.s00);
        let m01 = won_of(self.s01);
        let m02 = won_of(self.s02);
        let m10 = won_of(self.s10);
        let m11 = won_of(self.s11);
        let m12 = won_of(self.s12);
        let m20 = won_of(self.s20);
        let m21 = won_of(self.s21);
        let m22 = won_of(self.s22);

        if let Some(w) = check_line(m00, m01, m02) {
            return Some(w);
        }
        if let Some(w) = check_line(m10, m11, m12) {
            return Some(w);
        }
        if let Some(w) = check_line(m20, m21, m22) {
            return Some(w);
        }
        if let Some(w) = check_line(m00, m10, m20) {
            return Some(w);
        }
        if let Some(w) = check_line(m01, m11, m21) {
            return Some(w);
        }
        if let Some(w) = check_line(m02, m12, m22) {
            return Some(w);
        }
        if let Some(w) = check_line(m00, m11, m22) {
            return Some(w);
        }
        if let Some(w) = check_line(m02, m11, m20) {
            return Some(w);
        }
        None
    }
}

/// Evaluation treats each outer cell on its own: the cell at `pos1` after the
/// finalization phase is exactly its own finalization, so a live sub-board is
/// finalized exactly when its own line check finds a winner.
pub proof fn lemma_finalize_pointwise(s: TableroSuperTres, pos1: Position)
    requires
        pos1.in_range(),
    ensures
        s.spec_finalize().sub(pos1) == spec_finalize_cell(s.sub(pos1)),
        s.sub(pos1) matches OuterCell::Live(t) ==> (s.spec_finalize().sub(pos1) is Won <==> t.spec_check() is Some),
        s.sub(pos1) matches OuterCell::Live(t) ==> (t.spec_check() matches Some(w)
            ==> s.spec_finalize().sub(pos1) == OuterCell::Won(w)),
        s.sub(pos1) matches OuterCell::Live(t) ==> (t.spec_check() is None
            ==> s.spec_finalize().sub(pos1) == s.sub(pos1)),
{
}

/// A finalized outer cell is permanent: marking or emptying a cell inside it
/// changes nothing, and evaluation keeps it as it is.
pub proof fn lemma_won_cell_permanent(s: TableroSuperTres, pos1: Position, pos2: Position, value: Player)
    requires
        pos1.in_range(),
        s.sub(pos1) is Won,
    ensures
        s.spec_put(pos1, pos2, value) == s,
        s.spec_reset(pos1, pos2) == s,
        s.spec_finalize().sub(pos1) == s.sub(pos1),
{
}

} // verus!
