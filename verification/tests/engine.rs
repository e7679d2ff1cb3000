use super_tres_en_raya::engine::disabled_table;
use super_tres_en_raya::OuterCell;
use super_tres_en_raya::Player;
use super_tres_en_raya::Position;
use super_tres_en_raya::SuperTresComponent;
use super_tres_en_raya::SuperTresMsg;

fn pos(x: u8, y: u8) -> Position {
    Position { x, y }
}

fn mark(e: &mut SuperTresComponent, outer: Position, inner: Position) -> bool {
    e.update(SuperTresMsg::Mark(outer, inner))
}

fn confirm(e: &mut SuperTresComponent) -> bool {
    e.update(SuperTresMsg::Check)
}

#[test]
fn fresh_engine_initial_state() {
    let e = SuperTresComponent::new();
    assert_eq!(e.turn, Some(Player::First));
    assert!(!e.turn_played);
    assert_eq!(e.last_played, None);
    assert_eq!(e.last_total_played, None);
    assert!(e.played_total_positions.is_empty());
    assert_eq!(e.active_table, Some(pos(1, 1)));
    assert_eq!(e.winner, None);
}

#[test]
fn scenario_place_and_confirm_first_move() {
    let mut e = SuperTresComponent::new();
    assert!(mark(&mut e, pos(1, 1), pos(0, 0)));
    assert!(e.turn_played);
    assert_eq!(e.mark_at(pos(3, 3)), Some(Player::First));
    assert_eq!(e.last_total_played, Some(pos(3, 3)));
    assert!(confirm(&mut e));
    assert_eq!(e.turn, Some(Player::Second));
    assert_eq!(e.active_table, Some(pos(0, 0)));
    assert!(e.played_total_positions.contains(&pos(3, 3)));
    assert_eq!(e.last_total_played, None);
    assert!(!e.turn_played);
    assert_eq!(e.winner, None);
}

#[test]
fn scenario_toggle_off_then_confirm_is_noop() {
    let mut e = SuperTresComponent::new();
    assert!(mark(&mut e, pos(1, 1), pos(0, 0)));
    // Re-clicking one's own tentative mark clears it.
    assert!(mark(&mut e, pos(1, 1), pos(0, 0)));
    assert_eq!(e.mark_at(pos(3, 3)), None);
    assert!(!e.turn_played);
    assert_eq!(e.last_total_played, None);
    // The confirm finds nothing pending and changes nothing.
    assert!(confirm(&mut e));
    assert_eq!(e.turn, Some(Player::First));
    assert_eq!(e.active_table, Some(pos(1, 1)));
    assert!(e.played_total_positions.is_empty());
}

#[test]
fn scenario_reassigning_pending_mark_reverts_the_first() {
    let mut e = SuperTresComponent::new();
    assert!(mark(&mut e, pos(1, 1), pos(0, 0)));
    assert!(mark(&mut e, pos(1, 1), pos(1, 1)));
    assert_eq!(e.mark_at(pos(3, 3)), None);
    assert_eq!(e.mark_at(pos(4, 4)), Some(Player::First));
    assert!(e.turn_played);
    assert_eq!(e.last_total_played, Some(pos(4, 4)));
}

#[test]
fn reassigning_across_sub_boards_reverts_the_first() {
    let mut e = SuperTresComponent::new();
    assert!(mark(&mut e, pos(1, 1), pos(0, 0)));
    // The engine itself does not gate on the active board; a second tentative
    // mark in another sub-board reverts the first one.
    assert!(mark(&mut e, pos(0, 2), pos(2, 1)));
    assert_eq!(e.mark_at(pos(3, 3)), None);
    assert_eq!(e.mark_at(pos(2, 7)), Some(Player::First));
    assert_eq!(e.last_total_played, Some(pos(2, 7)));
}

#[test]
fn scenario_outer_row_of_won_cells_ends_the_game() {
    let mut e = SuperTresComponent::new();
    e.tablero.s10 = OuterCell::Won(Player::Second);
    e.tablero.s11 = OuterCell::Won(Player::Second);
    e.tablero.s12 = OuterCell::Won(Player::Second);
    assert!(confirm(&mut e));
    assert_eq!(e.winner, Some(Player::Second));
    assert_eq!(e.turn, None);
    assert_eq!(e.active_table, Some(pos(9, 9)));
    assert!(!e.turn_played);
}

#[test]
fn scenario_marking_a_won_outer_cell_is_always_a_noop() {
    let mut e = SuperTresComponent::new();
    e.tablero.s02 = OuterCell::Won(Player::Second);
    for ix in 0..3u8 {
        for iy in 0..3u8 {
            assert!(!mark(&mut e, pos(0, 2), pos(ix, iy)));
            assert_eq!(e.tablero.get(pos(0, 2)), OuterCell::Won(Player::Second));
            assert!(!e.turn_played);
        }
    }
    // The same holds for the other player.
    e.turn = Some(Player::Second);
    assert!(!mark(&mut e, pos(0, 2), pos(1, 1)));
    assert!(!e.turn_played);
}

#[test]
fn marking_after_game_over_is_a_noop() {
    let mut e = SuperTresComponent::new();
    e.turn = None;
    assert!(!mark(&mut e, pos(1, 1), pos(0, 0)));
    assert_eq!(e.mark_at(pos(3, 3)), None);
    assert!(!e.turn_played);
}

#[test]
fn marking_an_opponent_cell_is_a_noop() {
    let mut e = SuperTresComponent::new();
    assert!(mark(&mut e, pos(1, 1), pos(0, 0)));
    assert!(confirm(&mut e));
    // Second's turn now; the cell at total (3, 3) holds First's mark.
    assert!(!mark(&mut e, pos(1, 1), pos(0, 0)));
    assert_eq!(e.mark_at(pos(3, 3)), Some(Player::First));
    assert!(!e.turn_played);
}

#[test]
fn committed_cell_cannot_be_taken_back() {
    let mut e = SuperTresComponent::new();
    assert!(mark(&mut e, pos(1, 1), pos(0, 0)));
    assert!(confirm(&mut e));
    assert!(mark(&mut e, pos(0, 0), pos(1, 1)));
    assert!(confirm(&mut e));
    // First's turn again; the mark at total (3, 3) survived a confirm.
    assert_eq!(e.turn, Some(Player::First));
    assert!(!mark(&mut e, pos(1, 1), pos(0, 0)));
    assert_eq!(e.mark_at(pos(3, 3)), Some(Player::First));
    assert!(!e.turn_played);
    assert!(e.played_total_positions.contains(&pos(3, 3)));
}

#[test]
fn confirm_frees_opponent_when_destination_board_is_full() {
    let mut e = SuperTresComponent::new();
    // Fill the sub-board at (0, 0) with a mixed, line-free pattern; the cell
    // at (0, 0)/(0, 0) is First's tentative mark whose inner position sends
    // the opponent back to that same full board.
    let marks = [
        (pos(0, 0), Player::First),
        (pos(0, 1), Player::Second),
        (pos(0, 2), Player::First),
        (pos(1, 0), Player::Second),
        (pos(1, 1), Player::Second),
        (pos(1, 2), Player::First),
        (pos(2, 0), Player::First),
        (pos(2, 1), Player::First),
        (pos(2, 2), Player::Second),
    ];
    for (p, who) in marks {
        e.tablero.put(pos(0, 0), p, who);
    }
    e.turn_played = true;
    e.last_played = Some(pos(0, 0));
    e.last_total_played = Some(pos(0, 0));
    assert!(confirm(&mut e));
    assert_eq!(e.active_table, None);
    assert_eq!(e.turn, Some(Player::Second));
    assert!(e.played_total_positions.contains(&pos(0, 0)));
}

#[test]
fn confirm_frees_opponent_when_destination_board_is_won() {
    let mut e = SuperTresComponent::new();
    e.tablero.s11 = OuterCell::Won(Player::First);
    e.turn = Some(Player::Second);
    // Second's tentative mark at (0, 0)/(1, 1) points the opponent at the
    // finalized board (1, 1).
    assert!(mark(&mut e, pos(0, 0), pos(1, 1)));
    assert!(confirm(&mut e));
    assert_eq!(e.active_table, None);
    assert_eq!(e.turn, Some(Player::First));
    assert!(e.played_total_positions.contains(&pos(1, 1)));
}

#[test]
fn confirm_finalizes_pending_sub_board_win() {
    let mut e = SuperTresComponent::new();
    // First builds a row inside the sub-board at (2, 2) across three turns,
    // with Second answering elsewhere.
    assert!(mark(&mut e, pos(2, 2), pos(0, 0)));
    assert!(confirm(&mut e));
    assert!(mark(&mut e, pos(0, 0), pos(1, 0)));
    assert!(confirm(&mut e));
    assert!(mark(&mut e, pos(2, 2), pos(0, 1)));
    assert!(confirm(&mut e));
    assert!(mark(&mut e, pos(0, 1), pos(1, 0)));
    assert!(confirm(&mut e));
    assert!(mark(&mut e, pos(2, 2), pos(0, 2)));
    assert!(confirm(&mut e));
    // The completed row finalized the sub-board; no outer line exists yet.
    assert_eq!(e.tablero.get(pos(2, 2)), OuterCell::Won(Player::First));
    assert_eq!(e.winner, None);
    assert_eq!(e.turn, Some(Player::Second));
    // Every cell of the finalized board now shows its winner.
    assert_eq!(e.mark_at(pos(8, 8)), Some(Player::First));
}

#[test]
fn disabled_table_matches_active_designation() {
    assert!(disabled_table(Some(pos(1, 1)), pos(0, 0)));
    assert!(!disabled_table(Some(pos(1, 1)), pos(1, 1)));
    assert!(!disabled_table(None, pos(2, 2)));
    // The post-game sentinel disables every real board.
    for x in 0..3u8 {
        for y in 0..3u8 {
            assert!(disabled_table(Some(pos(9, 9)), pos(x, y)));
        }
    }
}
