use sol_casino::payout::{compute_win_payout, roll_dice};
use sol_casino::{
    consume_randomness, init_game, place_bet, request_randomness, AccountId, Bet, BetStatus,
    BetType, CasinoError, GameConfig, Vault,
};

fn test_config() -> GameConfig {
    let (config, _) = init_game(AccountId(1), 200, 10, 1_000_000, 10000, 7)
        .expect("valid parameters must be accepted");
    config
}

fn requested_bet(config: &GameConfig, vault: &mut Vault, bet_type: BetType, amount: u64) -> Bet {
    let mut bet = place_bet(config, vault, AccountId(9), bet_type, amount, 0, 44)
        .expect("bet within all bounds must be accepted");
    request_randomness(config, &mut bet, AccountId(5)).expect("pending bet must be accepted");
    bet
}

#[test]
fn request_randomness_checkpoints_the_bet() {
    let config = test_config();
    let mut vault = Vault { balance: 0, total_bets: 0, total_volume: 0 };
    let mut bet = place_bet(&config, &mut vault, AccountId(9), BetType::Under, 1000, 0, 44)
        .expect("accepted");
    let r = request_randomness(&config, &mut bet, AccountId(5));
    assert_eq!(r, Ok(()));
    assert_eq!(bet.status, BetStatus::RandomnessRequested);
    assert_eq!(bet.randomness_request_ref, Some(AccountId(5)));
    assert_eq!(bet.amount, 1000);
}

#[test]
fn request_randomness_rejects_non_pending_bet() {
    let config = test_config();
    let mut vault = Vault { balance: 0, total_bets: 0, total_volume: 0 };
    let mut bet = requested_bet(&config, &mut vault, BetType::Under, 1000);
    let before = bet;
    let r = request_randomness(&config, &mut bet, AccountId(6));
    assert_eq!(r, Err(CasinoError::BetNotReady));
    assert_eq!(bet, before);
}

#[test]
fn request_randomness_rejects_when_paused() {
    let config = test_config();
    let mut vault = Vault { balance: 0, total_bets: 0, total_volume: 0 };
    let mut bet = place_bet(&config, &mut vault, AccountId(9), BetType::Under, 1000, 0, 44)
        .expect("accepted");
    let mut paused_config = config;
    paused_config.paused = true;
    let before = bet;
    let r = request_randomness(&paused_config, &mut bet, AccountId(5));
    assert_eq!(r, Err(CasinoError::GamePaused));
    assert_eq!(bet, before);
}

#[test]
fn exactly_seven_pays_the_long_odds() {
    // amount 1000 at 200 bps edge: base 5880, deduction 117, payout 5763
    let config = test_config();
    let mut vault = Vault { balance: 9000, total_bets: 0, total_volume: 0 };
    let mut bet = requested_bet(&config, &mut vault, BetType::Exactly, 1000);
    let r = consume_randomness(&config, &mut vault, &mut bet, 5, 100_000);
    assert_eq!(r, Ok(()));
    assert_eq!(bet.dice_result, Some(7));
    assert_eq!(bet.won, Some(true));
    assert_eq!(bet.payout, Some(5763));
    assert_eq!(bet.status, BetStatus::Settled);
    assert_eq!(vault.balance, 9000 + 1000 - 5763);
    assert_eq!(vault.total_bets, 1);
    assert_eq!(vault.total_volume, 1000);
}

#[test]
fn under_seven_pays_the_short_odds() {
    // amount 1000 at 200 bps edge: base 2350, deduction 47, payout 2303
    let config = test_config();
    let mut vault = Vault { balance: 9000, total_bets: 0, total_volume: 0 };
    let mut bet = requested_bet(&config, &mut vault, BetType::Under, 1000);
    let r = consume_randomness(&config, &mut vault, &mut bet, 2, 100_000);
    assert_eq!(r, Ok(()));
    assert_eq!(bet.dice_result, Some(4));
    assert_eq!(bet.won, Some(true));
    assert_eq!(bet.payout, Some(2303));
    assert_eq!(vault.balance, 9000 + 1000 - 2303);
}

#[test]
fn losing_bet_pays_nothing_and_leaves_the_balance() {
    let config = test_config();
    let mut vault = Vault { balance: 0, total_bets: 0, total_volume: 0 };
    let mut bet = requested_bet(&config, &mut vault, BetType::Over, 1000);
    let balance_after_placement: u64 = vault.balance;
    let r = consume_randomness(&config, &mut vault, &mut bet, 1, 100_000);
    assert_eq!(r, Ok(()));
    assert_eq!(bet.dice_result, Some(3));
    assert_eq!(bet.won, Some(false));
    assert_eq!(bet.payout, Some(0));
    assert_eq!(bet.status, BetStatus::Settled);
    assert_eq!(vault.balance, balance_after_placement);
}

#[test]
fn settlement_happens_at_most_once() {
    let config = test_config();
    let mut vault = Vault { balance: 9000, total_bets: 0, total_volume: 0 };
    let mut bet = requested_bet(&config, &mut vault, BetType::Under, 1000);
    consume_randomness(&config, &mut vault, &mut bet, 2, 100_000).expect("first settlement");
    let settled = bet;
    let vault_after = vault;
    let r = consume_randomness(&config, &mut vault, &mut bet, 9, 100_000);
    assert_eq!(r, Err(CasinoError::BetNotReady));
    assert_eq!(bet, settled);
    assert_eq!(vault, vault_after);
}

#[test]
fn settlement_rejects_a_pending_bet() {
    let config = test_config();
    let mut vault = Vault { balance: 0, total_bets: 0, total_volume: 0 };
    let mut bet = place_bet(&config, &mut vault, AccountId(9), BetType::Under, 1000, 0, 44)
        .expect("accepted");
    let before = bet;
    let r = consume_randomness(&config, &mut vault, &mut bet, 2, 100_000);
    assert_eq!(r, Err(CasinoError::BetNotReady));
    assert_eq!(bet, before);
}

#[test]
fn settlement_rejects_a_replayed_outcome() {
    // even with the status forced back, a recorded outcome blocks settlement
    let config = test_config();
    let mut vault = Vault { balance: 9000, total_bets: 0, total_volume: 0 };
    let mut bet = requested_bet(&config, &mut vault, BetType::Under, 1000);
    consume_randomness(&config, &mut vault, &mut bet, 2, 100_000).expect("first settlement");
    bet.status = BetStatus::RandomnessRequested;
    let before = bet;
    let vault_before = vault;
    let r = consume_randomness(&config, &mut vault, &mut bet, 9, 100_000);
    assert_eq!(r, Err(CasinoError::BetAlreadySettled));
    assert_eq!(bet, before);
    assert_eq!(vault, vault_before);
}

#[test]
fn settlement_rejects_a_payout_the_pool_cannot_cover() {
    let config = test_config();
    let mut vault = Vault { balance: 9000, total_bets: 0, total_volume: 0 };
    let mut bet = requested_bet(&config, &mut vault, BetType::Exactly, 1000);
    let before = bet;
    let vault_before = vault;
    // payout would be 5763 but the custodial pool holds only 5000
    let r = consume_randomness(&config, &mut vault, &mut bet, 5, 5000);
    assert_eq!(r, Err(CasinoError::InsufficientVaultBalance));
    assert_eq!(bet, before);
    assert_eq!(vault, vault_before);
}

#[test]
fn dice_mapping_covers_exactly_two_through_twelve() {
    for rv in 0u64..33u64 {
        let roll: u8 = roll_dice(rv);
        assert!((2..=12).contains(&roll));
        assert_eq!(roll as u64, rv % 11 + 2);
    }
    assert_eq!(roll_dice(u64::MAX), 6);
}

#[test]
fn every_roll_resolves_by_the_bet_type_rule() {
    let config = test_config();
    for rv in 0u64..11u64 {
        let roll: u8 = roll_dice(rv);
        for bet_type in [BetType::Under, BetType::Exactly, BetType::Over] {
            let mut vault = Vault { balance: 9000, total_bets: 0, total_volume: 0 };
            let mut bet = requested_bet(&config, &mut vault, bet_type, 1000);
            consume_randomness(&config, &mut vault, &mut bet, rv, 1_000_000).expect("settles");
            assert_eq!(bet.dice_result, Some(roll));
            assert!((2..=12).contains(&roll));
            let expected_won: bool = match bet_type {
                BetType::Under => roll < 7,
                BetType::Exactly => roll == 7,
                BetType::Over => roll > 7,
            };
            assert_eq!(bet.won, Some(expected_won));
            if !expected_won {
                assert_eq!(bet.payout, Some(0));
            }
        }
    }
}

#[test]
fn payout_formula_matches_hand_computed_values() {
    assert_eq!(compute_win_payout(1000, BetType::Exactly, 200), 5763);
    assert_eq!(compute_win_payout(1000, BetType::Under, 200), 2303);
    assert_eq!(compute_win_payout(1000, BetType::Over, 200), 2303);
    // zero edge pays the bare multiplier
    assert_eq!(compute_win_payout(1000, BetType::Under, 0), 2350);
    // full 10000 bps edge takes the whole payout back
    assert_eq!(compute_win_payout(1000, BetType::Under, 10000), 0);
    // rounding: 1 at 2.35x floors to 2, edge floors to 0
    assert_eq!(compute_win_payout(1, BetType::Under, 200), 2);
}
