use audio_tetris::logic::ItemType;
use audio_tetris::screens::in_game_screen::{item_symbol, visible};

#[test]
fn item_cells_are_marked_by_letter() {
    assert_eq!(item_symbol(ItemType::Magnet), "M");
    assert_eq!(item_symbol(ItemType::Nuke), "N");
    assert_eq!(item_symbol(ItemType::Laser), "L");
}

#[test]
fn only_board_cells_are_visible() {
    assert!(visible(0, 0));
    assert!(visible(9, 19));
    assert!(!visible(10, 0));
    assert!(!visible(0, 20));
    assert!(!visible(-1, 5));
    assert!(!visible(3, -2));
}
