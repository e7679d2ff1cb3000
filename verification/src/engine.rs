//! The stateful game engine: turn owner, active-sub-board restriction, the
//! single tentative mark a player may still move or take back, the ledger of
//! committed total positions, and the two actions that drive every transition:
//! marking a cell and confirming the turn.

use vstd::prelude::*;

use crate::position::Player;
use crate::position::Position;
use crate::position::lemma_partial_total;
use crate::position::spec_switch;
use crate::position::switch;
use crate::super_tablero::OuterCell;
use crate::super_tablero::TableroSuperTres;

verus! {

/// The sentinel the active-board field is set to once the game has ended: no
/// outer cell ever has this position, so every board is disabled.
pub open spec fn spec_unreachable() -> Position {
    Position { x: 9, y: 9 }
}

/// The two external actions: tentatively mark cell `pos2` of the sub-board at
/// `pos1`, or confirm the pending turn.
#[derive(Clone, Copy, Debug)]
pub enum SuperTresMsg {
    Mark(Position, Position),
    Check,
}

/// The engine's whole state. A fresh game starts with an empty board, the
/// first player to move, and the centre sub-board active.
#[derive(Debug)]
pub struct SuperTresComponent {
    /// The composite board.
    pub tablero: TableroSuperTres,
    /// The player to move; `None` once the game has ended.
    pub turn: Option<Player>,
    /// True iff a tentative mark exists that a confirm would commit.
    pub turn_played: bool,
    /// After a placement, the inner position of the tentative mark (which is
    /// also the outer cell the opponent will be sent to); after a take-back,
    /// the outer position last touched.
    pub last_played: Option<Position>,
    /// Total positions of all committed marks; none of them can ever be
    /// marked or taken back again.
    pub played_total_positions: Vec<Position>,
    /// The total position of the tentative mark; `None` when none is pending.
    pub last_total_played: Option<Position>,
    /// The outer cell the next mark must target; `None` lets every live
    /// sub-board be chosen; the sentinel (post-game) disables them all.
    pub active_table: Option<Position>,
    /// The overall winner, once the game has ended with one.
    pub winner: Option<Player>,
}

/// Whether the sub-board at `actual_table` is disabled for the next mark:
/// some board is designated active and it is a different one.
pub fn disabled_table(active_table: Option<Position>, actual_table: Position) -> (r: bool)
    ensures
        r == (active_table is Some && active_table.unwrap() != actual_table),
{
    match active_table {
        Some(p) => p != actual_table,
        None => false,
    }
}

/// Whether `v` holds `p`.
fn contains_pos(v: &Vec<Position>, p: Position) -> (r: bool)
    ensures
        r == v@.contains(p),
{
    let mut i: usize = 0;
    while i < v.len()
        invariant
            i <= v@.len(),
            forall|j: int| 0 <= j < i ==> v@[j] != p,
        decreases v@.len() - i,
    {
        if v[i] == p {
            assert(v@[i as int] == p);
            return true;
        }
        i = i + 1;
    }
    false
}

impl SuperTresComponent {
    /// The outer cell holding the tentative mark (meaningful while
    /// `turn_played`): the quotient part of its total position.
    pub open spec fn pending_outer(self) -> Position {
        Position {
            x: (self.last_total_played.unwrap().x / 3) as u8,
            y: (self.last_total_played.unwrap().y / 3) as u8,
        }
    }

    /// The three correlated pending-move fields stay consistent whenever a
    /// tentative mark exists: the inner position and the total position
    /// describe one cell, and that cell's sub-board is still live.
    pub open spec fn wf(self) -> bool {
        self.turn_played ==> {
            &&& self.last_played is Some
            &&& self.last_total_played is Some
            &&& self.last_played.unwrap().in_range()
            &&& self.last_total_played.unwrap().in_total_range()
            &&& self.last_total_played.unwrap().x % 3 == self.last_played.unwrap().x
            &&& self.last_total_played.unwrap().y % 3 == self.last_played.unwrap().y
            &&& self.tablero.sub(self.pending_outer()) is Live
        }
    }

    /// The state a placement on the empty cell (`pos1`, `pos2`) yields: a
    /// tentative mark from this same turn, if any, is reverted first, so that
    /// exactly one tentative mark exists per turn; then the cell is marked and
    /// recorded as pending.
    pub open spec fn spec_place(self, pos1: Position, pos2: Position, player: Player) -> SuperTresComponent {
        let reverted = if self.turn_played {
            self.tablero.spec_reset(self.pending_outer(), self.last_played.unwrap())
        } else {
            self.tablero
        };
        SuperTresComponent {
            tablero: reverted.spec_put(pos1, pos2, player),
            last_played: Some(pos2),
            last_total_played: Some(Position::spec_total(pos1, pos2)),
            turn_played: true,
            ..self
        }
    }

    /// The state taking back one's own still-tentative mark at (`pos1`,
    /// `pos2`) yields: the cell is emptied, nothing is pending any more, and
    /// the outer position is kept as the last touched pointer.
    pub open spec fn spec_toggle_off(self, pos1: Position, pos2: Position) -> SuperTresComponent {
        SuperTresComponent {
            tablero: self.tablero.spec_reset(pos1, pos2),
            last_played: Some(pos1),
            turn_played: false,
            last_total_played: None,
            ..self
        }
    }

    /// The state the mark action on (`pos1`, `pos2`) yields. A finished game,
    /// a finalized outer cell, an opponent's mark, and a committed cell of
    /// one's own are all left as they are; an empty cell takes a placement;
    /// one's own uncommitted mark is taken back.
    pub open spec fn spec_mark(self, pos1: Position, pos2: Position) -> SuperTresComponent {
        match self.tablero.sub(pos1) {
            OuterCell::Won(_) => self,
            OuterCell::Live(tab) => match self.turn {
                None => self,
                Some(player) => match tab.cell(pos2) {
                    None => self.spec_place(pos1, pos2, player),
                    Some(mark) => if mark == player {
                        if self.played_total_positions@.contains(
                            Position::spec_total(pos1, pos2),
                        ) {
                            self
                        } else {
                            self.spec_toggle_off(pos1, pos2)
                        }
                    } else {
                        self
                    },
                },
            },
        }
    }

    /// Whether the mark action on (`pos1`, `pos2`) changes anything (the
    /// value the action reports back).
    pub open spec fn spec_mark_changed(self, pos1: Position, pos2: Position) -> bool {
        match self.tablero.sub(pos1) {
            OuterCell::Won(_) => false,
            OuterCell::Live(tab) => match self.turn {
                None => false,
                Some(player) => match tab.cell(pos2) {
                    None => true,
                    Some(mark) => mark == player && !self.played_total_positions@.contains(
                        Position::spec_total(pos1, pos2),
                    ),
                },
            },
        }
    }

    /// A fresh game: empty board, first player to move, nothing pending or
    /// committed, the centre sub-board active, no winner.
    pub fn new() -> (r: SuperTresComponent)
        ensures
            r.wf(),
            r.tablero == TableroSuperTres::spec_empty(),
            r.turn == Some(Player::First),
            r.turn_played == false,
            r.last_played is None,
            r.played_total_positions@ == Seq::<Position>::empty(),
            r.last_total_played is None,
            r.active_table == Some((Position { x: 1, y: 1 })),
            r.winner is None,
    {
        SuperTresComponent {
            tablero: TableroSuperTres::new(),
            turn: Some(Player::First),
            turn_played: false,
            last_played: None,
            played_total_positions: Vec::new(),
            last_total_played: None,
            active_table: Some(Position { x: 1, y: 1 }),
            winner: None,
        }
    }

    /// The mark shown at a total position of the 9x9 grid: the owner of the
    /// cell inside a live sub-board, or the winner of a finalized sub-board
    /// for each of its nine cells.
    pub fn mark_at(&self, total: Position) -> (r: Option<Player>)
        requires
            total.in_total_range(),
        ensures
            ({
                let decomposed = Position::spec_partial(total);
                r == (match self.tablero.sub(decomposed.0) {
                    OuterCell::Live(t) => t.cell(decomposed.1),
                    OuterCell::Won(w) => Some(w),
                })
            }),
    {
        let (outer, inner) = Position::partial_pos(total);
        match self.tablero.get(outer) {
            OuterCell::Live(t) => t.get(inner),
            OuterCell::Won(w) => Some(w),
        }
    }

    /// Runs one external action.
    ///
    /// A mark action yields exactly `spec_mark`, and reports
    /// `spec_mark_changed`. A confirm action always evaluates the board,
    /// finalizing freshly won sub-boards. If the outer board then has a
    /// winner, the game ends: the winner is recorded, the turn cleared, and
    /// the active board set to the unreachable sentinel. Otherwise, with
    /// nothing pending the state is left alone; with a pending mark the turn
    /// passes to the other player, the opponent is sent to the sub-board the
    /// pending mark's inner position names (or freed when that board is full
    /// or finalized), and the pending total position is committed for good.
    pub fn update(&mut self, msg: SuperTresMsg) -> (r: bool)
        requires
            old(self).wf(),
            msg matches SuperTresMsg::Mark(pos1, pos2) ==> pos1.in_range() && pos2.in_range(),
        ensures
            final(self).wf(),
            msg matches SuperTresMsg::Mark(pos1, pos2) ==> *final(self) == old(self).spec_mark(
                pos1,
                pos2,
            ) && r == old(self).spec_mark_changed(pos1, pos2),
            msg is Check ==> ({
                let finalized = old(self).tablero.spec_finalize();
                let outcome = finalized.spec_meta();
                &&& r == true
                &&& final(self).tablero == finalized
                &&& (outcome matches Some(value) ==> {
                    &&& final(self).active_table == Some(spec_unreachable())
                    &&& final(self).turn is None
                    &&& final(self).winner == Some(value)
                    &&& final(self).turn_played == false
                    &&& final(self).last_played == old(self).last_played
                    &&& final(self).last_total_played == old(self).last_total_played
                    &&& final(self).played_total_positions == old(self).played_total_positions
                })
                &&& (outcome is None && !old(self).turn_played ==> {
                    &&& final(self).active_table == old(self).active_table
                    &&& final(self).turn == old(self).turn
                    &&& final(self).winner == old(self).winner
                    &&& final(self).turn_played == false
                    &&& final(self).last_played == old(self).last_played
                    &&& final(self).last_total_played == old(self).last_total_played
                    &&& final(self).played_total_positions == old(self).played_total_positions
                })
                &&& (outcome is None && old(self).turn_played ==> {
                    let sent_to = old(self).last_played.unwrap();
                    let committed = old(self).last_total_played.unwrap();
                    &&& final(self).active_table == (match finalized.sub(sent_to) {
                        OuterCell::Live(future) => if !future.spec_full() {
                            Some(sent_to)
                        } else {
                            None
                        },
                        OuterCell::Won(_) => None,
                    })
                    &&& final(self).turn == spec_switch(old(self).turn)
                    &&& final(self).winner == old(self).winner
                    &&& final(self).turn_played == false
                    &&& final(self).last_played == old(self).last_played
                    &&& final(self).last_total_played is None
                    &&& final(self).played_total_positions@ == (
                    if old(self).played_total_positions@.contains(committed) {
                        old(self).played_total_positions@
                    } else {
                        old(self).played_total_positions@.push(committed)
                    })
                })
            }),
    {
        match msg {
            SuperTresMsg::Mark(position1, position2) => {
                match self.tablero.get(position1) {
                    OuterCell::Won(_) => false,
                    OuterCell::Live(tab) => match self.turn {
                        None => false,
                        Some(player) => match tab.get(position2) {
                            None => marcar_casilla_libre(self, position1, position2, player),
                            Some(mark) => if mark == player {
                                marcar_casilla_ocupada(self, position1, position2)
                            } else {
                                false
                            },
                        },
                    },
                }
            },
            SuperTresMsg::Check => {
                let final_result = self.tablero.check();
                match final_result {
                    None => {
                        if self.turn_played {
                            let sent_to = self.last_played.unwrap();
                            match self.tablero.get(sent_to) {
                                OuterCell::Live(future_table) => if future_table.playable() {
                                    self.active_table = self.last_played;
                                } else {
                                    self.active_table = None;
                                },
                                OuterCell::Won(_) => {
                                    self.active_table = None;
                                },
                            }
                            self.turn = switch(self.turn);
                            self.turn_played = false;
                            let committed = self.last_total_played.unwrap();
                            if !contains_pos(&self.played_total_positions, committed) {
                                self.played_total_positions.push(committed);
                            }
                            self.last_total_played = None;
                        }
                    },
                    Some(value) => {
                        self.active_table = Some(Position { x: 9, y: 9 });
                        self.turn = None;
                        self.winner = Some(value);
                        self.turn_played = false;
                    },
                }
                true
            },
        }
    }
}

/// Places a tentative mark on the empty cell (`pos1`, `pos2`): any earlier
/// tentative mark of this turn is reverted first, the cell is marked for
/// `player`, and the pending-move fields record it.
fn marcar_casilla_libre(
    super_tres: &mut SuperTresComponent,
    pos1: Position,
    pos2: Position,
    player: Player,
) -> (r: bool)
    requires
        old(super_tres).wf(),
        pos1.in_range(),
        pos2.in_range(),
        old(super_tres).tablero.sub(pos1) is Live,
    ensures
        final(super_tres).wf(),
        *final(super_tres) == old(super_tres).spec_place(pos1, pos2, player),
        r == true,
{
    if super_tres.turn_played {
        let (last_table, _) = Position::partial_pos(super_tres.last_total_played.unwrap());
        let last_inner = super_tres.last_played.unwrap();
        super_tres.tablero.reset(last_table, last_inner);
    }
    super_tres.tablero.put(pos1, pos2, player);
    super_tres.last_played = Some(pos2);
    super_tres.last_total_played = Some(Position::total_pos(pos1, pos2));
    super_tres.turn_played = true;
    proof {
        lemma_partial_total(pos1, pos2);
    }
    true
}

/// Takes back one's own mark at (`pos1`, `pos2`) unless its total position
/// was already committed in an earlier turn: the cell is emptied, nothing is
/// pending any more, and the outer position is kept as the last touched
/// pointer. A committed cell is left untouched.
fn marcar_casilla_ocupada(
    super_tres: &mut SuperTresComponent,
    pos1: Position,
    pos2: Position,
) -> (r: bool)
    requires
        old(super_tres).wf(),
        pos1.in_range(),
        pos2.in_range(),
    ensures
        final(super_tres).wf(),
        ({
            let total = Position::spec_total(pos1, pos2);
            if old(super_tres).played_total_positions@.contains(total) {
                *final(super_tres) == *old(super_tres) && r == false
            } else {
                *final(super_tres) == old(super_tres).spec_toggle_off(pos1, pos2) && r == true
            }
        }),
{
    let total = Position::total_pos(pos1, pos2);
    if !contains_pos(&super_tres.played_total_positions, total) {
        super_tres.tablero.reset(pos1, pos2);
        super_tres.last_played = Some(pos1);
        super_tres.turn_played = false;
        super_tres.last_total_played = None;
        true
    } else {
        false
    }
}

} // verus!
