use proof_of_meme::back_meme::back_meme;
use proof_of_meme::backing::Backing;
use proof_of_meme::curve::CurveStatus;
use proof_of_meme::errors::ProofOfMemeError;
use proof_of_meme::finalize_proving::{finalize_proving, mark_meme_failed};
use proof_of_meme::initialize_platform::initialize_platform;
use proof_of_meme::meme::{Meme, MemeStatus};
use proof_of_meme::platform::PlatformConfig;
use proof_of_meme::submit_meme::submit_meme;
use proof_of_meme::withdraw_backing::withdraw_backing;

const DAY: i64 = 86_400;
const START: i64 = 1_700_000_000;

fn fresh_campaign() -> (PlatformConfig, Meme) {
    let mut platform = initialize_platform(99, 0, 2000, 7000, 1000).unwrap();
    let mut creator_sol: u64 = 0;
    let mut authority_sol: u64 = 0;
    let meme = submit_meme(
        &mut platform,
        1,
        b"meme",
        b"M",
        b"",
        b"",
        20_000_000_000,
        30,
        DAY,
        START,
        &mut creator_sol,
        &mut authority_sol,
    )
    .unwrap();
    (platform, meme)
}

#[test]
fn successful_campaign_round_trip_launches() {
    // goal 20 SOL, quorum 30, duration one day; 30 distinct backers pledge
    // 20 SOL in total (29 x 0.667 SOL + 1 x 0.657 SOL, all above the
    // 0.5 SOL minimum), and finalizing at the deadline launches.
    let (mut platform, mut meme) = fresh_campaign();
    let mut vault: u64 = 0;
    let mut backings: Vec<Backing> = Vec::new();
    for i in 0..30u64 {
        let amount: u64 = if i < 29 { 667_000_000 } else { 657_000_000 };
        let mut backing = Backing::default();
        let mut backer_sol: u64 = 1_000_000_000;
        back_meme(
            &mut meme,
            &mut backing,
            100 + i,
            amount,
            START + 100,
            &mut backer_sol,
            &mut vault,
        )
        .unwrap();
        backings.push(backing);
    }
    assert_eq!(meme.sol_backed, 20_000_000_000);
    assert_eq!(meme.backer_count, 30);
    assert_eq!(vault, 20_000_000_000);
    assert!(meme.goal_reached());

    // finalizing before the deadline is refused
    assert_eq!(
        finalize_proving(&mut platform, &mut meme, 55, START + DAY - 1).unwrap_err(),
        ProofOfMemeError::ProvingStillActive
    );

    let (curve, pool) = finalize_proving(&mut platform, &mut meme, 55, START + DAY).unwrap();
    assert_eq!(meme.status, MemeStatus::Launched);
    assert!(meme.is_launched());
    assert_eq!(meme.mint, 55);
    assert_eq!(meme.launched_at, START + DAY);
    assert_eq!(platform.total_memes_launched, 1);

    // 80% of the billion-token supply goes to the curve
    assert_eq!(curve.status, CurveStatus::Active);
    assert_eq!(curve.virtual_sol_reserves, 30_000_000_000);
    assert_eq!(curve.virtual_token_reserves, 800_000_000_000_000);
    assert_eq!(curve.real_sol_reserves, 0);
    assert_eq!(curve.real_token_reserves, 800_000_000_000_000);
    assert_eq!(curve.tokens_sold, 0);
    assert_eq!(curve.completion_threshold, 85_000_000_000);
    assert_eq!(curve.meme, meme.index);

    assert_eq!(pool.total_qualified_backing, 20_000_000_000);
    assert_eq!(pool.qualified_backer_count, 30);
    assert_eq!(pool.total_fees, 0);
    assert_eq!(pool.total_claimed, 0);

    // a second finalize is refused: launching is exactly-once
    assert_eq!(
        finalize_proving(&mut platform, &mut meme, 56, START + DAY).unwrap_err(),
        ProofOfMemeError::AlreadyLaunched
    );
}

#[test]
fn failed_campaign_refunds_each_backer_exactly_once() {
    // goal 20 SOL but only 10 SOL from 5 backers: must finalize to Failed,
    // and every backer gets exactly their pledge back, once.
    let (mut platform, mut meme) = fresh_campaign();
    let mut vault: u64 = 0;
    let mut backings: Vec<Backing> = Vec::new();
    for i in 0..5u64 {
        let mut backing = Backing::default();
        let mut backer_sol: u64 = 2_000_000_000;
        back_meme(
            &mut meme,
            &mut backing,
            200 + i,
            2_000_000_000,
            START + 100,
            &mut backer_sol,
            &mut vault,
        )
        .unwrap();
        backings.push(backing);
    }
    assert_eq!(meme.sol_backed, 10_000_000_000);
    assert!(!meme.goal_reached());

    // the success path refuses the campaign
    assert_eq!(
        finalize_proving(&mut platform, &mut meme, 55, START + DAY).unwrap_err(),
        ProofOfMemeError::GoalNotReached
    );
    // and marking it failed before the deadline is refused
    assert_eq!(
        mark_meme_failed(&mut meme, START + DAY - 1).unwrap_err(),
        ProofOfMemeError::ProvingStillActive
    );
    mark_meme_failed(&mut meme, START + DAY).unwrap();
    assert_eq!(meme.status, MemeStatus::Failed);

    for (i, backing) in backings.iter_mut().enumerate() {
        let backer = 200 + i as u64;
        let mut backer_sol: u64 = 0;
        let paid = withdraw_backing(&meme, backing, backer, &mut vault, &mut backer_sol).unwrap();
        assert_eq!(paid, 2_000_000_000);
        assert_eq!(backer_sol, 2_000_000_000);
        assert!(backing.withdrawn);
        assert_eq!(backing.amount, 0);
        // a repeat refund fails and pays nothing
        let again = withdraw_backing(&meme, backing, backer, &mut vault, &mut backer_sol);
        assert_eq!(again.unwrap_err(), ProofOfMemeError::BackingAlreadyWithdrawn);
        assert_eq!(backer_sol, 2_000_000_000);
    }
    assert_eq!(vault, 0);
}

#[test]
fn refund_requires_failed_campaign_and_matching_record() {
    let (_platform, mut meme) = fresh_campaign();
    let mut vault: u64 = 10_000_000_000;
    let mut backing = Backing::default();
    let mut backer_sol: u64 = 2_000_000_000;
    back_meme(
        &mut meme,
        &mut backing,
        7,
        2_000_000_000,
        START + 1,
        &mut backer_sol,
        &mut vault,
    )
    .unwrap();
    // refunds only exist for failed campaigns
    assert_eq!(
        withdraw_backing(&meme, &mut backing, 7, &mut vault, &mut backer_sol).unwrap_err(),
        ProofOfMemeError::ProvingStillActive
    );
    meme.status = MemeStatus::Failed;
    // a different wallet cannot take the refund
    assert_eq!(
        withdraw_backing(&meme, &mut backing, 8, &mut vault, &mut backer_sol).unwrap_err(),
        ProofOfMemeError::NoBackingFound
    );
    // an empty vault cannot pay
    let mut empty_vault: u64 = 0;
    assert_eq!(
        withdraw_backing(&meme, &mut backing, 7, &mut empty_vault, &mut backer_sol).unwrap_err(),
        ProofOfMemeError::InsufficientVaultBalance
    );
    withdraw_backing(&meme, &mut backing, 7, &mut vault, &mut backer_sol).unwrap();
}

#[test]
fn mark_failed_refuses_a_reached_goal() {
    let (_platform, mut meme) = fresh_campaign();
    meme.sol_backed = 20_000_000_000;
    meme.backer_count = 30;
    assert_eq!(
        mark_meme_failed(&mut meme, START + DAY).unwrap_err(),
        ProofOfMemeError::GoalNotReached
    );
    // quorum missing means the goal is not reached, despite the amount
    meme.backer_count = 29;
    mark_meme_failed(&mut meme, START + DAY).unwrap();
    assert_eq!(meme.status, MemeStatus::Failed);
}
