use nft_minter::mint::mint_nft;
use nft_minter::mint::ExternalFaults;
use nft_minter::mint::MintFailure;
use nft_minter::mint::MintNft;
use nft_minter::mint::TokenRecord;
use nft_minter::name::extract_repo_name;
use nft_minter::validate::is_valid_github_url;
use nft_minter::validate::is_valid_image_url;
use nft_minter::validate::validate_request;
use nft_minter::validate::ErrorCode;

fn fresh_accounts(minter: u64, mint: u64) -> MintNft {
    MintNft { minter, mint, token: TokenRecord::new() }
}

const REPO: &str = "https://github.com/acme/cool-repo";
const IMAGE: &str = "https://arweave.net/abc123.png";

#[test]
fn extract_strips_git_and_trailing_slash() {
    assert_eq!(extract_repo_name("https://github.com/acme/cool-repo.git/"), "cool-repo");
}

#[test]
fn extract_plain_segment() {
    assert_eq!(extract_repo_name(REPO), "cool-repo");
}

#[test]
fn extract_git_suffix_only_once() {
    // only the trailing marker is stripped
    assert_eq!(extract_repo_name("https://github.com/a/b.git.git"), "b_git");
}

#[test]
fn extract_trailing_slash_exposes_owner_segment() {
    // one trailing separator is stripped, so the segment is the owner
    assert_eq!(extract_repo_name("https://github.com/acme/"), "acme");
}

#[test]
fn extract_empty_segment_falls_back() {
    // after stripping one trailing separator the last segment is empty
    assert_eq!(extract_repo_name("https://github.com/acme//"), "Dev Project");
}

#[test]
fn extract_long_segment_falls_back() {
    assert_eq!(
        extract_repo_name(
            "https://github.com/acme/a-very-long-repository-name-that-exceeds-the-limit"
        ),
        "Dev Project"
    );
}

#[test]
fn extract_without_separator_falls_back() {
    assert_eq!(extract_repo_name("no-separator-here"), "Dev Project");
}

#[test]
fn extract_sanitizes_special_characters() {
    assert_eq!(extract_repo_name("https://github.com/o/a.b c!"), "a_b_c_");
}

#[test]
fn extract_keeps_name_characters() {
    assert_eq!(extract_repo_name("https://github.com/o/Ab9-x_2"), "Ab9-x_2");
}

#[test]
fn github_url_requires_exact_prefix() {
    assert!(!is_valid_github_url("http://github.com/acme/repo"));
    assert!(!is_valid_github_url("https://gitlab.com/acme/repo"));
    assert!(!is_valid_github_url("HTTPS://github.com/acme/repo"));
    assert!(is_valid_github_url(REPO));
}

#[test]
fn image_url_accepts_known_extensions_case_insensitively() {
    assert!(is_valid_image_url("https://x.com/a.png"));
    assert!(is_valid_image_url("https://x.com/a.PNG"));
    assert!(is_valid_image_url("HTTPS://X.COM/A.JPG"));
    assert!(is_valid_image_url("https://x.com/a.jpeg"));
    assert!(is_valid_image_url("https://x.com/a.gif"));
    assert!(is_valid_image_url("https://x.com/a.svg"));
}

#[test]
fn image_url_accepts_content_store_markers() {
    assert!(is_valid_image_url("https://gateway.io/ipfs://QmYwAPJzv5CZsnA"));
    assert!(is_valid_image_url("https://arweave.net/abc"));
    assert!(is_valid_image_url("https://x.com/IPFS://y"));
}

#[test]
fn image_url_rejects_unknown_shape() {
    assert!(!is_valid_image_url("https://example.com/image.bmp"));
    assert!(!is_valid_image_url("http://x.com/a.png"));
    assert!(!is_valid_image_url("ipfs://bare-scheme.png"));
}

#[test]
fn validate_reports_repo_too_long_first() {
    let long_repo = "a".repeat(201);
    let long_image = "b".repeat(201);
    assert_eq!(validate_request(&long_repo, &long_image), Err(ErrorCode::RepoTooLong));
}

#[test]
fn validate_reports_image_too_long() {
    let long_image = "b".repeat(201);
    assert_eq!(validate_request(REPO, &long_image), Err(ErrorCode::ImageUrlTooLong));
}

#[test]
fn validate_reports_invalid_github_url() {
    assert_eq!(
        validate_request("http://github.com/acme/repo", IMAGE),
        Err(ErrorCode::InvalidGithubUrl)
    );
}

#[test]
fn validate_reports_invalid_image_url() {
    assert_eq!(
        validate_request(REPO, "https://example.com/image.bmp"),
        Err(ErrorCode::InvalidImageUrl)
    );
}

#[test]
fn validate_accepts_good_inputs() {
    assert_eq!(validate_request(REPO, IMAGE), Ok(()));
}

#[test]
fn mint_end_to_end_success() {
    let mut accounts = fresh_accounts(7, 42);
    let outcome = mint_nft(
        &mut accounts,
        String::from(REPO),
        String::from(IMAGE),
        ExternalFaults::none(),
    );
    let event = outcome.expect("valid inputs must mint");
    assert!(accounts.token.initialized);
    assert_eq!(accounts.token.decimals, 0);
    assert_eq!(accounts.token.balance, 1);
    assert_eq!(accounts.token.max_supply, Some(1));
    let meta = accounts.token.metadata.as_ref().expect("metadata record created");
    assert_eq!(meta.name, "cool-repo");
    assert_eq!(meta.symbol, "DEV");
    assert_eq!(meta.uri, IMAGE);
    assert!(meta.is_mutable);
    assert_eq!(meta.update_authority, 7);
    assert_eq!(event.mint, 42);
    assert_eq!(event.minter, 7);
    assert_eq!(event.github_repo, REPO);
    assert_eq!(event.image_url, IMAGE);
    assert_eq!(event.project_name, "cool-repo");
}

#[test]
fn mint_same_identity_twice_fails_without_changes() {
    let mut accounts = fresh_accounts(7, 42);
    let first = mint_nft(
        &mut accounts,
        String::from(REPO),
        String::from(IMAGE),
        ExternalFaults::none(),
    );
    assert!(first.is_ok());
    let second = mint_nft(
        &mut accounts,
        String::from(REPO),
        String::from(IMAGE),
        ExternalFaults::none(),
    );
    assert_eq!(second.unwrap_err(), MintFailure::AlreadyInitialized);
    assert_eq!(accounts.token.balance, 1);
    assert_eq!(accounts.token.max_supply, Some(1));
}

#[test]
fn mint_distinct_identities_do_not_interfere() {
    let mut first = fresh_accounts(7, 42);
    let mut second = fresh_accounts(7, 43);
    assert!(
        mint_nft(&mut first, String::from(REPO), String::from(IMAGE), ExternalFaults::none())
            .is_ok()
    );
    assert!(
        mint_nft(&mut second, String::from(REPO), String::from(IMAGE), ExternalFaults::none())
            .is_ok()
    );
    assert_eq!(first.token.balance, 1);
    assert_eq!(second.token.balance, 1);
    assert_eq!(first.mint, 42);
    assert_eq!(second.mint, 43);
}

#[test]
fn mint_metadata_failure_leaves_no_trace() {
    let mut accounts = fresh_accounts(7, 42);
    let faults = ExternalFaults {
        mint_to: None,
        create_metadata: Some(11),
        create_master_edition: None,
    };
    let outcome = mint_nft(&mut accounts, String::from(REPO), String::from(IMAGE), faults);
    assert_eq!(outcome.unwrap_err(), MintFailure::Program(11));
    assert!(!accounts.token.initialized);
    assert_eq!(accounts.token.balance, 0);
    assert!(accounts.token.metadata.is_none());
    assert!(accounts.token.max_supply.is_none());
}

#[test]
fn mint_edition_failure_surfaces_its_code() {
    let mut accounts = fresh_accounts(7, 42);
    let faults = ExternalFaults {
        mint_to: None,
        create_metadata: None,
        create_master_edition: Some(99),
    };
    let outcome = mint_nft(&mut accounts, String::from(REPO), String::from(IMAGE), faults);
    assert_eq!(outcome.unwrap_err(), MintFailure::Program(99));
    assert_eq!(accounts.token.balance, 0);
}

#[test]
fn mint_reports_first_failing_external_call() {
    let mut accounts = fresh_accounts(7, 42);
    let faults = ExternalFaults {
        mint_to: Some(3),
        create_metadata: Some(11),
        create_master_edition: Some(99),
    };
    let outcome = mint_nft(&mut accounts, String::from(REPO), String::from(IMAGE), faults);
    assert_eq!(outcome.unwrap_err(), MintFailure::Program(3));
    assert_eq!(accounts.token.balance, 0);
}

#[test]
fn mint_rejects_invalid_inputs_before_any_step() {
    let mut accounts = fresh_accounts(7, 42);
    let outcome = mint_nft(
        &mut accounts,
        String::from("http://github.com/acme/repo"),
        String::from(IMAGE),
        ExternalFaults::none(),
    );
    assert_eq!(outcome.unwrap_err(), MintFailure::Invalid(ErrorCode::InvalidGithubUrl));
    assert!(!accounts.token.initialized);
    assert_eq!(accounts.token.balance, 0);
}

#[test]
fn mint_event_name_matches_extractor() {
    let mut accounts = fresh_accounts(1, 2);
    let event = mint_nft(
        &mut accounts,
        String::from("https://github.com/acme/My Repo.git"),
        String::from(IMAGE),
        ExternalFaults::none(),
    )
    .expect("valid inputs must mint");
    assert_eq!(event.project_name, extract_repo_name("https://github.com/acme/My Repo.git"));
    assert_eq!(event.project_name, "My_Repo");
}
