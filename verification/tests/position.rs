use super_tres_en_raya::position::switch;
use super_tres_en_raya::Player;
use super_tres_en_raya::Position;

fn pos(x: u8, y: u8) -> Position {
    Position { x, y }
}

#[test]
fn switch_alternates_players() {
    assert_eq!(switch(Some(Player::First)), Some(Player::Second));
    assert_eq!(switch(Some(Player::Second)), Some(Player::First));
    assert_eq!(switch(None), None);
}

#[test]
fn total_pos_exact_values() {
    assert_eq!(Position::total_pos(pos(0, 0), pos(0, 0)), pos(0, 0));
    assert_eq!(Position::total_pos(pos(1, 1), pos(0, 0)), pos(3, 3));
    assert_eq!(Position::total_pos(pos(2, 1), pos(1, 2)), pos(7, 5));
    assert_eq!(Position::total_pos(pos(2, 2), pos(2, 2)), pos(8, 8));
}

#[test]
fn partial_pos_exact_values() {
    assert_eq!(Position::partial_pos(pos(0, 0)), (pos(0, 0), pos(0, 0)));
    assert_eq!(Position::partial_pos(pos(3, 3)), (pos(1, 1), pos(0, 0)));
    assert_eq!(Position::partial_pos(pos(7, 5)), (pos(2, 1), pos(1, 2)));
    assert_eq!(Position::partial_pos(pos(8, 8)), (pos(2, 2), pos(2, 2)));
}

#[test]
fn partial_inverts_total_for_all_81_pairs() {
    for ox in 0..3u8 {
        for oy in 0..3u8 {
            for ix in 0..3u8 {
                for iy in 0..3u8 {
                    let outer = pos(ox, oy);
                    let inner = pos(ix, iy);
                    let total = Position::total_pos(outer, inner);
                    assert!(total.x < 9 && total.y < 9);
                    assert_eq!(Position::partial_pos(total), (outer, inner));
                }
            }
        }
    }
}
