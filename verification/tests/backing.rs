use proof_of_meme::back_meme::back_meme;
use proof_of_meme::backing::Backing;
use proof_of_meme::errors::ProofOfMemeError;
use proof_of_meme::initialize_platform::initialize_platform;
use proof_of_meme::meme::Meme;
use proof_of_meme::submit_meme::submit_meme;

const DAY: i64 = 86_400;
const START: i64 = 1_700_000_000;

fn fresh_meme(goal: u64) -> Meme {
    let mut platform = initialize_platform(99, 0, 2000, 7000, 1000).unwrap();
    let mut creator_sol: u64 = 0;
    let mut authority_sol: u64 = 0;
    submit_meme(
        &mut platform,
        1,
        b"meme",
        b"M",
        b"",
        b"",
        goal,
        30,
        DAY,
        START,
        &mut creator_sol,
        &mut authority_sol,
    )
    .unwrap()
}

fn back(
    meme: &mut Meme,
    backing: &mut Backing,
    backer: u64,
    amount: u64,
    vault: &mut u64,
) -> Result<(), ProofOfMemeError> {
    let mut backer_sol: u64 = u64::MAX / 2;
    back_meme(meme, backing, backer, amount, START + 1, &mut backer_sol, vault)
}

#[test]
fn first_backing_initializes_record_and_counts_backer() {
    let mut meme = fresh_meme(20_000_000_000);
    let mut backing = Backing::default();
    let mut backer_sol: u64 = 3_000_000_000;
    let mut vault: u64 = 0;
    back_meme(
        &mut meme,
        &mut backing,
        5,
        600_000_000,
        START + 10,
        &mut backer_sol,
        &mut vault,
    )
    .unwrap();
    assert_eq!(backing.backer, 5);
    assert_eq!(backing.meme, meme.index);
    assert_eq!(backing.amount, 600_000_000);
    assert!(backing.qualifies_for_fees);
    assert_eq!(backing.backed_at, START + 10);
    assert!(!backing.withdrawn);
    assert_eq!(backing.fees_claimed, 0);
    assert_eq!(backer_sol, 2_400_000_000);
    assert_eq!(vault, 600_000_000);
    assert_eq!(meme.sol_backed, 600_000_000);
    assert_eq!(meme.backer_count, 1);
    // a top-up does not count the backer again
    back_meme(
        &mut meme,
        &mut backing,
        5,
        100_000_000,
        START + 11,
        &mut backer_sol,
        &mut vault,
    )
    .unwrap();
    assert_eq!(backing.amount, 700_000_000);
    assert_eq!(meme.backer_count, 1);
    assert_eq!(meme.sol_backed, 700_000_000);
}

#[test]
fn first_backing_below_minimum_is_rejected_but_topups_are_exempt() {
    let mut meme = fresh_meme(20_000_000_000);
    let mut backing = Backing::default();
    let mut vault: u64 = 0;
    assert_eq!(
        back(&mut meme, &mut backing, 5, 499_999_999, &mut vault).unwrap_err(),
        ProofOfMemeError::BackingTooLow
    );
    back(&mut meme, &mut backing, 5, 500_000_000, &mut vault).unwrap();
    // a tiny top-up is fine: only the initial commitment is gated
    back(&mut meme, &mut backing, 5, 1, &mut vault).unwrap();
    assert_eq!(backing.amount, 500_000_001);
    assert!(backing.qualifies_for_fees);
}

#[test]
fn cumulative_backing_never_exceeds_ten_percent_of_goal() {
    // goal 20 SOL: the per-wallet cap is 2 SOL
    let mut meme = fresh_meme(20_000_000_000);
    let mut backing = Backing::default();
    let mut vault: u64 = 0;
    back(&mut meme, &mut backing, 5, 1_500_000_000, &mut vault).unwrap();
    // this top-up would bring the total to 2.2 SOL, over the cap
    assert_eq!(
        back(&mut meme, &mut backing, 5, 700_000_000, &mut vault).unwrap_err(),
        ProofOfMemeError::BackingExceedsMaximum
    );
    assert_eq!(backing.amount, 1_500_000_000);
    // topping up exactly to the cap is allowed
    back(&mut meme, &mut backing, 5, 500_000_000, &mut vault).unwrap();
    assert_eq!(backing.amount, 2_000_000_000);
    // any further pledge, however small, is rejected
    assert_eq!(
        back(&mut meme, &mut backing, 5, 1, &mut vault).unwrap_err(),
        ProofOfMemeError::BackingExceedsMaximum
    );
    assert_eq!(backing.amount, 2_000_000_000);
    assert_eq!(meme.sol_backed, 2_000_000_000);
    assert_eq!(vault, 2_000_000_000);
}

#[test]
fn backing_rejects_zero_deadline_and_wrong_state() {
    let mut meme = fresh_meme(20_000_000_000);
    let mut backing = Backing::default();
    let mut backer_sol: u64 = 10_000_000_000;
    let mut vault: u64 = 0;
    assert_eq!(
        back_meme(&mut meme, &mut backing, 5, 0, START + 1, &mut backer_sol, &mut vault)
            .unwrap_err(),
        ProofOfMemeError::ZeroAmount
    );
    // at the deadline itself the proving period is over
    assert_eq!(
        back_meme(
            &mut meme,
            &mut backing,
            5,
            600_000_000,
            START + DAY,
            &mut backer_sol,
            &mut vault,
        )
        .unwrap_err(),
        ProofOfMemeError::ProvingEnded
    );
    meme.status = proof_of_meme::meme::MemeStatus::Launched;
    assert_eq!(
        back_meme(
            &mut meme,
            &mut backing,
            5,
            600_000_000,
            START + 1,
            &mut backer_sol,
            &mut vault,
        )
        .unwrap_err(),
        ProofOfMemeError::AlreadyLaunched
    );
}

#[test]
fn backing_rejects_backer_short_of_amount() {
    let mut meme = fresh_meme(20_000_000_000);
    let mut backing = Backing::default();
    let mut backer_sol: u64 = 599_999_999;
    let mut vault: u64 = 7;
    assert_eq!(
        back_meme(
            &mut meme,
            &mut backing,
            5,
            600_000_000,
            START + 1,
            &mut backer_sol,
            &mut vault,
        )
        .unwrap_err(),
        ProofOfMemeError::InsufficientSol
    );
    assert_eq!(backer_sol, 599_999_999);
    assert_eq!(vault, 7);
    assert_eq!(meme.sol_backed, 0);
}

#[test]
fn backing_by_another_wallets_record_is_rejected() {
    let mut meme = fresh_meme(20_000_000_000);
    let mut backing = Backing::default();
    let mut vault: u64 = 0;
    back(&mut meme, &mut backing, 5, 600_000_000, &mut vault).unwrap();
    assert_eq!(
        back(&mut meme, &mut backing, 6, 600_000_000, &mut vault).unwrap_err(),
        ProofOfMemeError::AccountMismatch
    );
}

#[test]
fn creator_self_backing_is_tracked() {
    let mut meme = fresh_meme(20_000_000_000);
    let creator = meme.creator;
    let mut backing = Backing::default();
    let mut vault: u64 = 0;
    back(&mut meme, &mut backing, creator, 600_000_000, &mut vault).unwrap();
    assert_eq!(meme.creator_backing, 600_000_000);
    let mut other = Backing::default();
    back(&mut meme, &mut other, 77, 600_000_000, &mut vault).unwrap();
    // someone else's pledge leaves the creator's own total alone
    assert_eq!(meme.creator_backing, 600_000_000);
}
