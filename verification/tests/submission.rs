use proof_of_meme::errors::ProofOfMemeError;
use proof_of_meme::initialize_platform::initialize_platform;
use proof_of_meme::meme::MemeStatus;
use proof_of_meme::platform::PlatformConfig;
use proof_of_meme::submit_meme::submit_meme;

const DAY: i64 = 86_400;

fn platform_with_fee(fee: u64) -> PlatformConfig {
    initialize_platform(99, fee, 2000, 7000, 1000).unwrap()
}

fn submit_simple(
    platform: &mut PlatformConfig,
    name: &[u8],
    symbol: &[u8],
    uri: &[u8],
    description: &[u8],
    goal: u64,
    min_backers: u32,
    duration: i64,
) -> Result<proof_of_meme::meme::Meme, ProofOfMemeError> {
    let mut creator_sol: u64 = 10_000_000_000;
    let mut authority_sol: u64 = 0;
    submit_meme(
        platform,
        1,
        name,
        symbol,
        uri,
        description,
        goal,
        min_backers,
        duration,
        1_700_000_000,
        &mut creator_sol,
        &mut authority_sol,
    )
}

#[test]
fn submit_creates_campaign_with_next_index() {
    let mut platform = platform_with_fee(1_000_000);
    let mut creator_sol: u64 = 5_000_000;
    let mut authority_sol: u64 = 10;
    let meme = submit_meme(
        &mut platform,
        42,
        b"my meme",
        b"MEME",
        b"https://example.invalid/meta.json",
        b"a description",
        20_000_000_000,
        30,
        DAY,
        1_700_000_000,
        &mut creator_sol,
        &mut authority_sol,
    )
    .unwrap();
    assert_eq!(meme.creator, 42);
    assert_eq!(meme.mint, 0);
    assert_eq!(meme.get_name(), b"my meme".to_vec());
    assert_eq!(meme.get_symbol(), b"MEME".to_vec());
    assert_eq!(meme.get_uri(), b"https://example.invalid/meta.json".to_vec());
    assert_eq!(meme.sol_goal, 20_000_000_000);
    assert_eq!(meme.sol_backed, 0);
    assert_eq!(meme.min_backers, 30);
    assert_eq!(meme.backer_count, 0);
    assert_eq!(meme.proving_ends_at, 1_700_000_000 + DAY);
    assert_eq!(meme.status, MemeStatus::Proving);
    assert_eq!(meme.created_at, 1_700_000_000);
    assert_eq!(meme.launched_at, 0);
    assert_eq!(meme.creator_backing, 0);
    assert_eq!(meme.index, 0);
    assert!(meme.is_proving());
    assert!(!meme.is_launched());
    // the submission fee moved from creator to the platform authority
    assert_eq!(creator_sol, 4_000_000);
    assert_eq!(authority_sol, 1_000_010);
    assert_eq!(platform.total_memes_submitted, 1);

    // the next submission takes the next index
    let meme2 = submit_simple(
        &mut platform,
        b"second",
        b"TWO",
        b"",
        b"",
        20_000_000_000,
        30,
        DAY,
    )
    .unwrap();
    assert_eq!(meme2.index, 1);
    assert_eq!(platform.total_memes_submitted, 2);
}

#[test]
fn submit_validates_metadata_bounds() {
    let mut p = platform_with_fee(0);
    let goal = 20_000_000_000;
    let long_name = [b'x'; 33];
    let long_symbol = [b'x'; 11];
    let long_uri = [b'x'; 201];
    let long_desc = [b'x'; 501];
    assert_eq!(
        submit_simple(&mut p, b"", b"S", b"", b"", goal, 30, DAY).unwrap_err(),
        ProofOfMemeError::EmptyName
    );
    assert_eq!(
        submit_simple(&mut p, &long_name, b"S", b"", b"", goal, 30, DAY).unwrap_err(),
        ProofOfMemeError::NameTooLong
    );
    assert_eq!(
        submit_simple(&mut p, b"n", b"", b"", b"", goal, 30, DAY).unwrap_err(),
        ProofOfMemeError::EmptySymbol
    );
    assert_eq!(
        submit_simple(&mut p, b"n", &long_symbol, b"", b"", goal, 30, DAY).unwrap_err(),
        ProofOfMemeError::SymbolTooLong
    );
    assert_eq!(
        submit_simple(&mut p, b"n", b"S", &long_uri, b"", goal, 30, DAY).unwrap_err(),
        ProofOfMemeError::UriTooLong
    );
    assert_eq!(
        submit_simple(&mut p, b"n", b"S", b"", &long_desc, goal, 30, DAY).unwrap_err(),
        ProofOfMemeError::DescriptionTooLong
    );
    // nothing was recorded by the failed attempts
    assert_eq!(p.total_memes_submitted, 0);
}

#[test]
fn submit_validates_goal_quorum_and_duration() {
    let mut p = platform_with_fee(0);
    assert_eq!(
        submit_simple(&mut p, b"n", b"S", b"", b"", 19_999_999_999, 30, DAY).unwrap_err(),
        ProofOfMemeError::GoalTooLow
    );
    assert_eq!(
        submit_simple(&mut p, b"n", b"S", b"", b"", 500_000_000_001, 30, DAY).unwrap_err(),
        ProofOfMemeError::GoalTooHigh
    );
    assert_eq!(
        submit_simple(&mut p, b"n", b"S", b"", b"", 20_000_000_000, 29, DAY).unwrap_err(),
        ProofOfMemeError::MinBackersTooLow
    );
    assert_eq!(
        submit_simple(&mut p, b"n", b"S", b"", b"", 20_000_000_000, 30, DAY - 1).unwrap_err(),
        ProofOfMemeError::DurationTooShort
    );
    assert_eq!(
        submit_simple(&mut p, b"n", b"S", b"", b"", 20_000_000_000, 30, 7 * DAY + 1).unwrap_err(),
        ProofOfMemeError::DurationTooLong
    );
    // the boundary values themselves are accepted
    assert!(submit_simple(&mut p, b"n", b"S", b"", b"", 20_000_000_000, 30, DAY).is_ok());
    assert!(submit_simple(&mut p, b"n", b"S", b"", b"", 500_000_000_000, 30, 7 * DAY).is_ok());
}

#[test]
fn submit_rejects_creator_short_of_fee() {
    let mut platform = platform_with_fee(1_000_000);
    let mut creator_sol: u64 = 999_999;
    let mut authority_sol: u64 = 0;
    let r = submit_meme(
        &mut platform,
        1,
        b"n",
        b"S",
        b"",
        b"",
        20_000_000_000,
        30,
        DAY,
        0,
        &mut creator_sol,
        &mut authority_sol,
    );
    assert_eq!(r.unwrap_err(), ProofOfMemeError::InsufficientSol);
    assert_eq!(creator_sol, 999_999);
    assert_eq!(authority_sol, 0);
}

#[test]
fn metadata_setters_truncate_to_bounds() {
    let mut p = platform_with_fee(0);
    let mut meme =
        submit_simple(&mut p, b"n", b"S", b"", b"", 20_000_000_000, 30, DAY).unwrap();
    let long_name = [b'a'; 40];
    meme.set_name(&long_name);
    assert_eq!(meme.get_name(), [b'a'; 32].to_vec());
    meme.set_symbol(b"ABCDEFGHIJKL");
    assert_eq!(meme.get_symbol(), b"ABCDEFGHIJ".to_vec());
    meme.set_uri(b"u");
    assert_eq!(meme.get_uri(), b"u".to_vec());
    meme.set_description(b"d");
    assert_eq!(meme.description, b"d".to_vec());
}
