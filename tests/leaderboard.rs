use solrace::address::Address;
use solrace::leaderboard::{precedes_in_board, rank_player};
use solrace::types::RankEntry;

fn entry(b: u8, earnings: i128, wins: u32, games: u64) -> RankEntry {
    RankEntry { address: Address { bytes: [b; 32] }, earnings, wins, games }
}

fn addresses(board: &[RankEntry]) -> Vec<u8> {
    board.iter().map(|e| e.address.bytes[0]).collect()
}

#[test]
fn ineligible_players_are_not_ranked() {
    let board = rank_player(&Vec::new(), entry(1, 500, 20, 41), false);
    assert!(board.is_empty());
    let board = rank_player(&Vec::new(), entry(1, 500, 20, 42), false);
    assert_eq!(addresses(&board), vec![1]);
}

#[test]
fn earnings_board_is_descending_with_lower_address_first_on_ties() {
    let mut board = Vec::new();
    for (b, e) in [(5u8, 100i128), (3, 300), (9, 100), (2, 100), (7, -50)] {
        board = rank_player(&board, entry(b, e, 21, 42), false);
    }
    assert_eq!(addresses(&board), vec![3, 2, 5, 9, 7]);
    let mut again = Vec::new();
    for (b, e) in [(7u8, -50i128), (2, 100), (9, 100), (3, 300), (5, 100)] {
        again = rank_player(&again, entry(b, e, 21, 42), false);
    }
    assert_eq!(addresses(&again), addresses(&board));
}

#[test]
fn board_keeps_ten_entries_and_moves_updated_players() {
    let mut board = Vec::new();
    for b in 0..15u8 {
        board = rank_player(&board, entry(b, b as i128 * 10, 1, 50), false);
    }
    assert_eq!(board.len(), 10);
    assert_eq!(addresses(&board), vec![14, 13, 12, 11, 10, 9, 8, 7, 6, 5]);
    board = rank_player(&board, entry(6, 1_000, 2, 51), false);
    assert_eq!(addresses(&board), vec![6, 14, 13, 12, 11, 10, 9, 8, 7, 5]);
    board = rank_player(&board, entry(14, -1, 2, 52), false);
    assert_eq!(addresses(&board), vec![6, 13, 12, 11, 10, 9, 8, 7, 5, 14]);
}

#[test]
fn winrate_board_compares_exact_ratios() {
    let mut board = Vec::new();
    board = rank_player(&board, entry(1, 0, 21, 42), true);
    board = rank_player(&board, entry(2, 0, 22, 44), true);
    board = rank_player(&board, entry(3, 0, 30, 45), true);
    board = rank_player(&board, entry(4, 0, 10, 50), true);
    assert_eq!(addresses(&board), vec![3, 1, 2, 4]);
    assert!(precedes_in_board(&entry(1, 0, 21, 42), &entry(2, 0, 22, 44), true));
    assert!(!precedes_in_board(&entry(2, 0, 22, 44), &entry(1, 0, 21, 42), true));
    assert!(precedes_in_board(&entry(2, 5, 0, 44), &entry(1, 4, 0, 42), false));
}
