use solrace::address::Address;
use solrace::config::init_config;
use solrace::game::{cancel_game, create_game, join_game, start_game};
use solrace::payout::{claim_payout, finish_game};
use solrace::profile::{new_player, set_name, set_picture, set_title};
use solrace::session::{record_disconnect, record_reconnect};
use solrace::settlement::split_pot;
use solrace::transfer::transfer_instruction;
use solrace::types::{GParams, GStatus, Game, GameError, Metrics, Movement, Params, Player};

fn addr(b: u8) -> Address {
    Address { bytes: [b; 32] }
}

fn config() -> Params {
    init_config(Params {
        admin: addr(200),
        paused: false,
        fee_collector: addr(201),
        fee: 250,
        next_game_id: 7,
        min_pot: 100,
        max_pot: 10_000,
        min_grid: 10,
        max_grid: 100,
        min_speed: 1,
        max_speed: 10,
        min_trail: 1,
        max_trail: 50,
        min_trail_cooldown: 1,
        max_trail_cooldown: 30,
        max_disconnects: 2,
        disconnect_max_sec: 30,
    })
    .unwrap()
}

fn gparams(max_players: u8, ticket_price: u64) -> GParams {
    GParams {
        max_players,
        min_players: 2,
        split_between: 2,
        speed: 5,
        base_trail_length: 3,
        trail_cooldown: 5,
        grid_size: 50,
        ticket_price,
    }
}

fn metrics() -> Metrics {
    Metrics {
        total_pot: 0,
        open_pot: 0,
        earnings_leaderboard: Vec::new(),
        winrate_leaderboard: Vec::new(),
        earnings: 0,
    }
}

fn blank() -> Player {
    new_player(&addr(0))
}

fn pending_game(max_players: u8, ticket: u64) -> (Params, Player, Game) {
    let mut c = config();
    let mut creator = blank();
    let g = create_game(&mut c, addr(1), &mut creator, None, gparams(max_players, ticket)).unwrap();
    (c, creator, g)
}

#[test]
fn init_config_resets_counter_and_rejects_bad_fee() {
    assert_eq!(config().next_game_id, 0);
    let mut bad = config();
    bad.fee = 10_001;
    assert_eq!(init_config(bad).unwrap_err(), GameError::InvalidConfig);
    let mut inverted = config();
    inverted.min_grid = 200;
    assert_eq!(init_config(inverted).unwrap_err(), GameError::InvalidConfig);
}

#[test]
fn update_config_is_admin_only_and_validated() {
    let mut c = config();
    let mut proposal = c;
    proposal.fee = 500;
    proposal.next_game_id = 99;
    assert_eq!(c.update(&addr(5), proposal).unwrap_err(), GameError::Unauthorized);
    assert_eq!(c.fee, 250);
    let mut bad = proposal;
    bad.min_pot = 20_000;
    assert_eq!(c.update(&addr(200), bad).unwrap_err(), GameError::InvalidConfig);
    assert_eq!(c.min_pot, 100);
    c.update(&addr(200), proposal).unwrap();
    assert_eq!(c.fee, 500);
    assert_eq!(c.next_game_id, 0);
}

#[test]
fn pause_blocks_creation() {
    let mut c = config();
    assert_eq!(c.set_paused(&addr(9), true).unwrap_err(), GameError::Unauthorized);
    c.set_paused(&addr(200), true).unwrap();
    let mut creator = blank();
    let r = create_game(&mut c, addr(1), &mut creator, None, gparams(4, 100));
    assert_eq!(r.unwrap_err(), GameError::Paused);
    assert_eq!(creator.creator_of, None);
}

#[test]
fn create_assigns_ids_and_wraps_the_counter() {
    let mut c = config();
    c.next_game_id = u32::MAX;
    let mut creator = blank();
    let g = create_game(&mut c, addr(1), &mut creator, None, gparams(4, 100)).unwrap();
    assert_eq!(g.id, u32::MAX);
    assert_eq!(g.status, GStatus::Pending);
    assert_eq!(g.pot, 0);
    assert!(g.players.is_empty());
    assert_eq!(c.next_game_id, 0);
    assert_eq!(creator.creator_of, Some(u32::MAX));
}

#[test]
fn create_outside_pot_bounds_fails_and_creates_nothing() {
    for (max_players, ticket) in [(4u8, 20u64), (4, 2_501), (255, 1_000), (2, 49)] {
        let mut c = config();
        let mut creator = blank();
        let r = create_game(&mut c, addr(1), &mut creator, None, gparams(max_players, ticket));
        assert_eq!(r.unwrap_err(), GameError::PotOutOfBounds);
        assert_eq!(c.next_game_id, 0);
        assert_eq!(creator.creator_of, None);
    }
    let mut c = config();
    let mut creator = blank();
    assert!(create_game(&mut c, addr(1), &mut creator, None, gparams(4, 2_500)).is_ok());
}

#[test]
fn create_with_params_out_of_bounds_fails() {
    let mut c = config();
    let mut creator = blank();
    let mut p = gparams(4, 100);
    p.grid_size = 5;
    assert_eq!(create_game(&mut c, addr(1), &mut creator, None, p).unwrap_err(), GameError::InvalidParams);
    let mut p = gparams(4, 100);
    p.min_players = 5;
    assert_eq!(create_game(&mut c, addr(1), &mut creator, None, p).unwrap_err(), GameError::InvalidParams);
}

#[test]
fn one_pending_game_per_creator() {
    let (mut c, mut creator, mut g) = pending_game(4, 100);
    let r = create_game(&mut c, addr(1), &mut creator, Some(&g), gparams(4, 100));
    assert_eq!(r.unwrap_err(), GameError::PendingGameExists);
    let r = create_game(&mut c, addr(1), &mut creator, None, gparams(4, 100));
    assert_eq!(r.unwrap_err(), GameError::MissingAccount);
    cancel_game(&mut g, &addr(1), &mut creator).unwrap();
    assert_eq!(creator.creator_of, None);
    let g2 = create_game(&mut c, addr(1), &mut creator, Some(&g), gparams(4, 100)).unwrap();
    assert_eq!(g2.id, 1);
    let mut stale = creator.clone();
    stale.creator_of = Some(g.id);
    let g3 = create_game(&mut c, addr(1), &mut stale, Some(&g), gparams(4, 100)).unwrap();
    assert_eq!(g3.id, 2);
    let mut finished = g3.clone();
    assert_eq!(
        create_game(&mut c, addr(1), &mut stale, Some(&finished), gparams(4, 100)).unwrap_err(),
        GameError::PendingGameExists
    );
    finished.status = GStatus::Finished;
    let g4 = create_game(&mut c, addr(1), &mut stale, Some(&finished), gparams(4, 100)).unwrap();
    assert_eq!(g4.id, 3);
}

#[test]
fn join_fills_to_max_players_then_refuses() {
    let (_, _, mut g) = pending_game(4, 100);
    for k in 0..4u8 {
        let mut p = blank();
        let m = join_game(&mut g, addr(10 + k), &mut p, None).unwrap();
        assert!(matches!(m, Movement::Escrow { amount: 100, .. }));
        assert_eq!(p.game_id, Some(g.id));
        assert_eq!(g.pot, 100 * (k as u64 + 1));
    }
    let mut late = blank();
    assert_eq!(join_game(&mut g, addr(20), &mut late, None).unwrap_err(), GameError::GameFull);
    assert_eq!(g.pot, 400);
    assert_eq!(g.players.len(), 4);
    assert_eq!(late.game_id, None);
}

#[test]
fn join_refuses_players_already_in_an_active_game() {
    let (_, _, mut g) = pending_game(4, 100);
    let (_, _, mut other) = pending_game(4, 100);
    other.id = 55;
    let mut p = blank();
    join_game(&mut other, addr(10), &mut p, None).unwrap();
    assert_eq!(join_game(&mut g, addr(10), &mut p, Some(&other)).unwrap_err(), GameError::AlreadyInGame);
    assert_eq!(join_game(&mut g, addr(10), &mut p, None).unwrap_err(), GameError::MissingAccount);
    assert_eq!(join_game(&mut other, addr(10), &mut p, None).unwrap_err(), GameError::AlreadyInGame);
    other.status = GStatus::Cancelled;
    join_game(&mut g, addr(10), &mut p, Some(&other)).unwrap();
    assert_eq!(g.players.len(), 1);
}

#[test]
fn cancel_before_any_join_refunds_nothing() {
    let (_, mut creator, mut g) = pending_game(4, 100);
    let refunds = cancel_game(&mut g, &addr(1), &mut creator).unwrap();
    assert!(refunds.is_empty());
    assert_eq!(g.status, GStatus::Cancelled);
    assert_eq!(g.pot, 0);
}

#[test]
fn cancel_after_three_joins_refunds_each_ticket() {
    let (_, mut creator, mut g) = pending_game(4, 100);
    for k in 0..3u8 {
        let mut p = blank();
        join_game(&mut g, addr(10 + k), &mut p, None).unwrap();
    }
    assert_eq!(g.pot, 300);
    assert_eq!(cancel_game(&mut g, &addr(2), &mut creator).unwrap_err(), GameError::NotCreator);
    let refunds = cancel_game(&mut g, &addr(1), &mut creator).unwrap();
    assert_eq!(refunds.len(), 3);
    for (k, m) in refunds.iter().enumerate() {
        match m {
            Movement::Release { to, amount } => {
                assert_eq!(to.bytes, [10 + k as u8; 32]);
                assert_eq!(*amount, 100);
            }
            _ => panic!("refund must release"),
        }
    }
    assert_eq!(g.pot, 0);
    assert_eq!(g.status, GStatus::Cancelled);
    assert_eq!(cancel_game(&mut g, &addr(1), &mut creator).unwrap_err(), GameError::NotPending);
}

fn ongoing_game(n: u8, ticket: u64) -> (Params, Game, Metrics) {
    let (c, _, mut g) = pending_game(4, ticket);
    for k in 0..n {
        let mut p = blank();
        join_game(&mut g, addr(10 + k), &mut p, None).unwrap();
    }
    let mut m = metrics();
    start_game(&mut g, &mut m).unwrap();
    (c, g, m)
}

#[test]
fn start_needs_min_players_and_sets_initial_state() {
    let (_, _, mut g) = pending_game(4, 100);
    let mut m = metrics();
    let mut p = blank();
    join_game(&mut g, addr(10), &mut p, None).unwrap();
    assert_eq!(start_game(&mut g, &mut m).unwrap_err(), GameError::NotEnoughPlayers);
    join_game(&mut g, addr(11), &mut blank(), None).unwrap();
    start_game(&mut g, &mut m).unwrap();
    assert_eq!(g.status, GStatus::Ongoing);
    assert_eq!(m.open_pot, 200);
    assert!(g.players.iter().all(|e| e.alive && e.trail_length == 3 && e.disconnects == 0));
    assert_eq!(start_game(&mut g, &mut m).unwrap_err(), GameError::NotPending);
    let mut q = blank();
    assert_eq!(join_game(&mut g, addr(12), &mut q, None).unwrap_err(), GameError::NotPending);
}

#[test]
fn disconnects_beyond_the_limit_eliminate() {
    let (c, mut g, _) = ongoing_game(2, 100);
    assert_eq!(record_disconnect(&mut g, &c, &addr(10), 1_000), Ok(false));
    assert_eq!(record_reconnect(&mut g, &c, &addr(10), 1_010), Ok(false));
    assert_eq!(g.players[0].disconnects, 1);
    assert_eq!(g.players[0].disconnected_at, None);
    assert_eq!(record_reconnect(&mut g, &c, &addr(10), 1_020).unwrap_err(), GameError::NotDisconnected);
    assert_eq!(record_disconnect(&mut g, &c, &addr(10), 1_100), Ok(false));
    assert_eq!(record_disconnect(&mut g, &c, &addr(10), 1_200), Ok(true));
    assert!(!g.players[0].alive);
    assert_eq!(g.pot, 200);
    assert_eq!(record_disconnect(&mut g, &c, &addr(10), 1_300).unwrap_err(), GameError::PlayerEliminated);
    assert_eq!(record_disconnect(&mut g, &c, &addr(99), 1_300).unwrap_err(), GameError::NotInGame);
}

#[test]
fn long_disconnection_eliminates() {
    let (c, mut g, _) = ongoing_game(2, 100);
    assert_eq!(record_disconnect(&mut g, &c, &addr(11), 500), Ok(false));
    assert_eq!(record_reconnect(&mut g, &c, &addr(11), 531), Ok(true));
    assert!(!g.players[1].alive);
    let (_, _, mut pending) = pending_game(4, 100);
    assert_eq!(record_disconnect(&mut pending, &c, &addr(11), 1).unwrap_err(), GameError::NotOngoing);
}

#[test]
fn split_of_a_thousand_at_250_bps_between_two() {
    let s = split_pot(1000, 250, 2);
    assert_eq!(s.fee, 25);
    assert_eq!(s.first_share, 488);
    assert_eq!(s.share, 487);
    let s = split_pot(1000, 0, 3);
    assert_eq!((s.fee, s.first_share, s.share), (0, 334, 333));
    let s = split_pot(999, 10_000, 1);
    assert_eq!((s.fee, s.first_share, s.share), (999, 0, 0));
}

#[test]
fn finish_settles_fee_and_shares_then_claims_once() {
    let (c, mut g, mut m) = ongoing_game(4, 250);
    assert_eq!(g.pot, 1000);
    let mut records: Vec<Player> = (0..4).map(|_| blank()).collect();
    let bad = finish_game(&mut g, &c, &mut m, &vec![2, 0], &mut records);
    assert_eq!(bad.unwrap_err(), GameError::InvalidWinners);
    let bad = finish_game(&mut g, &c, &mut m, &vec![0, 1, 2], &mut records);
    assert_eq!(bad.unwrap_err(), GameError::InvalidWinners);
    let bad = finish_game(&mut g, &c, &mut m, &vec![0], &mut records[..3].to_vec());
    assert_eq!(bad.unwrap_err(), GameError::MissingAccount);
    let fee = finish_game(&mut g, &c, &mut m, &vec![1, 3], &mut records).unwrap();
    match fee {
        Movement::Release { to, amount } => {
            assert_eq!(to.bytes, [201; 32]);
            assert_eq!(amount, 25);
        }
        _ => panic!("fee must be released"),
    }
    assert_eq!(g.status, GStatus::Finished);
    assert_eq!(g.pot, 975);
    assert_eq!(g.players[1].payout, 488);
    assert_eq!(g.players[3].payout, 487);
    assert_eq!(records[1].wins, 1);
    assert_eq!(records[1].earnings, 238);
    assert_eq!(records[3].earnings, 237);
    assert_eq!(records[0].losses, 1);
    assert_eq!(records[0].earnings, -250);
    assert!(records.iter().all(|r| r.game_id.is_none()));
    assert_eq!(m.total_pot, 1000);
    assert_eq!(m.open_pot, 0);
    assert_eq!(m.earnings, 975);
    assert!(m.earnings_leaderboard.is_empty());
    let first = claim_payout(&mut g, &addr(11)).unwrap();
    assert!(matches!(first, Movement::Release { amount: 488, .. }));
    let second = claim_payout(&mut g, &addr(13)).unwrap();
    assert!(matches!(second, Movement::Release { amount: 487, .. }));
    assert_eq!(g.pot, 0);
    assert_eq!(claim_payout(&mut g, &addr(11)).unwrap_err(), GameError::AlreadyPaid);
    assert_eq!(claim_payout(&mut g, &addr(10)).unwrap_err(), GameError::AlreadyPaid);
    assert_eq!(claim_payout(&mut g, &addr(99)).unwrap_err(), GameError::NotInGame);
    assert_eq!(finish_game(&mut g, &c, &mut m, &vec![1], &mut records).unwrap_err(), GameError::NotOngoing);
}

#[test]
fn claim_before_finish_fails() {
    let (_, mut g, _) = ongoing_game(2, 100);
    assert_eq!(claim_payout(&mut g, &addr(10)).unwrap_err(), GameError::NotFinished);
}

#[test]
fn finish_overflowing_record_changes_nothing() {
    let (c, mut g, mut m) = ongoing_game(2, 100);
    let mut records: Vec<Player> = (0..2).map(|_| blank()).collect();
    records[1].losses = u32::MAX;
    let before = g.clone();
    let r = finish_game(&mut g, &c, &mut m, &vec![0], &mut records);
    assert_eq!(r.unwrap_err(), GameError::ArithmeticOverflow);
    assert_eq!(g.status, before.status);
    assert_eq!(g.pot, before.pot);
    assert_eq!(records[0].wins, 0);
    assert_eq!(m.total_pot, 0);
}

#[test]
fn title_unlocks_after_forty_two_games_only() {
    let mut p = blank();
    for game in 1..=42u32 {
        p.wins = game / 2;
        p.losses = game - game / 2;
        let r = set_title(&mut p, "Champion");
        if game < 42 {
            assert_eq!(r.unwrap_err(), GameError::TitleLocked);
        } else {
            assert!(r.is_ok());
            assert_eq!(p.title, "Champion");
        }
    }
    assert_eq!(set_title(&mut p, &"x".repeat(33)).unwrap_err(), GameError::TooLong);
}

#[test]
fn title_unlocks_through_finished_games() {
    let mut record = blank();
    for game in 1..=42u32 {
        let (c, mut g, mut m) = ongoing_game(2, 100);
        let mut records = vec![record.clone(), blank()];
        finish_game(&mut g, &c, &mut m, &vec![1], &mut records).unwrap();
        record = records[0].clone();
        let r = set_title(&mut record, "Veteran");
        assert_eq!(r.is_ok(), game == 42, "game {}", game);
    }
    assert_eq!(record.losses, 42);
}

#[test]
fn profile_texts_are_length_bounded() {
    let mut p = blank();
    set_name(&mut p, "rider").unwrap();
    assert_eq!(p.name, "rider");
    assert_eq!(set_name(&mut p, &"n".repeat(33)).unwrap_err(), GameError::TooLong);
    assert_eq!(p.name, "rider");
    set_picture(&mut p, "ipfs://abc").unwrap();
    assert_eq!(p.picture, "ipfs://abc");
    assert_eq!(set_picture(&mut p, &"p".repeat(201)).unwrap_err(), GameError::TooLong);
}

#[test]
fn default_name_is_address_text_prefix() {
    assert_eq!(new_player(&addr(0)).name, "11111111");
    let token = Address {
        bytes: [
            6, 221, 246, 225, 215, 101, 161, 147, 217, 203, 225, 70, 206, 235, 121, 172, 28, 180, 133,
            237, 95, 91, 55, 145, 58, 140, 245, 133, 126, 255, 0, 169,
        ],
    };
    assert_eq!(new_player(&token).name, "Tokenkeg");
}

#[test]
fn transfer_instruction_checks_accounts() {
    let token = Address {
        bytes: [
            6, 221, 246, 225, 215, 101, 161, 147, 217, 203, 225, 70, 206, 235, 121, 172, 28, 180, 133,
            237, 95, 91, 55, 145, 58, 140, 245, 133, 126, 255, 0, 169,
        ],
    };
    let short = vec![addr(1), addr(2), addr(3)];
    assert_eq!(transfer_instruction(&short, 5).unwrap_err(), GameError::NotEnoughAccounts);
    let wrong = vec![addr(1), addr(2), addr(3), addr(4)];
    assert_eq!(transfer_instruction(&wrong, 5).unwrap_err(), GameError::InvalidTokenProgram);
    let ok = vec![addr(1), addr(2), addr(3), token];
    let ix = transfer_instruction(&ok, 5).unwrap();
    assert_eq!(ix.program_id.to_bytes(), token.bytes);
    assert_eq!(ix.data, vec![3, 5, 0, 0, 0, 0, 0, 0, 0]);
    assert_eq!(ix.accounts.len(), 4);
    assert_eq!(ix.accounts[0].pubkey.to_bytes(), [1; 32]);
    assert!(ix.accounts[3].is_signer);
}
