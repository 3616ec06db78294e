//! The instruction handler and its model of the per-identity ledger state.
//!
//! One invocation runs five ordered stages — validate, extract the name,
//! initialize the supply, attach the metadata, emit the event — and either
//! completes all of them or fails with the first violated condition. The
//! host executes an invocation atomically: a failure at any stage discards
//! every state change of the same invocation. The model realizes that
//! contract by mutating the record only when every stage succeeds.
//!
//! Account addresses are modeled as unsigned keys; the external token and
//! metadata programs are modeled by the per-call outcomes in
//! [`ExternalFaults`], each failure surfaced unchanged with that program's
//! own error code.

use vstd::prelude::*;
use vstd::string::StringExecFns;
use crate::name::extract_name;
use crate::name::extract_repo_name;
use crate::validate::ErrorCode;
use crate::validate::spec_validate;
use crate::validate::validate_request;

verus! {

/// A metadata record attached to a token identity.
#[derive(Debug)]
pub struct MetadataRecord {
    pub name: String,
    pub symbol: String,
    pub uri: String,
    pub is_mutable: bool,
    pub update_authority: u64,
}

/// The ledger state tied to one token identity: the identity itself, the
/// recipient's holding account balance, and the two registry records.
#[derive(Debug)]
pub struct TokenRecord {
    pub initialized: bool,
    pub decimals: u8,
    pub balance: u64,
    pub metadata: Option<MetadataRecord>,
    pub max_supply: Option<u64>,
}

/// A token identity that no invocation has touched yet.
pub open spec fn fresh_record() -> TokenRecord {
    TokenRecord {
        initialized: false,
        decimals: 0,
        balance: 0,
        metadata: None,
        max_supply: None,
    }
}

impl TokenRecord {
    /// A fresh, never-initialized record.
    pub fn new() -> (r: TokenRecord)
        ensures
            r == fresh_record(),
    {
        TokenRecord { initialized: false, decimals: 0, balance: 0, metadata: None, max_supply: None }
    }
}

/// The account set of one invocation: the requester and token identity
/// keys, and the mutable record for that identity.
#[derive(Debug)]
pub struct MintNft {
    pub minter: u64,
    pub mint: u64,
    pub token: TokenRecord,
}

/// The notification emitted once, at the end of a successful invocation.
#[derive(Debug)]
pub struct NftMinted {
    pub mint: u64,
    pub minter: u64,
    pub github_repo: String,
    pub image_url: String,
    pub project_name: String,
}

/// Per-call outcomes of the external programs the handler invokes. A
/// `Some(code)` means that call fails with that program's own error code
/// (authority mismatch, derived-address mismatch, and the like), which the
/// handler surfaces unchanged.
#[derive(Clone, Copy)]
pub struct ExternalFaults {
    pub mint_to: Option<u64>,
    pub create_metadata: Option<u64>,
    pub create_master_edition: Option<u64>,
}

impl ExternalFaults {
    /// All external calls succeed.
    pub fn none() -> (r: ExternalFaults)
        ensures
            r.mint_to is None,
            r.create_metadata is None,
            r.create_master_edition is None,
    {
        ExternalFaults { mint_to: None, create_metadata: None, create_master_edition: None }
    }
}

/// A failed invocation: an input rejected by validation, a token identity
/// already initialized, or an external program failure.
#[derive(Clone, Copy, PartialEq, Eq, Structural, Debug)]
pub enum MintFailure {
    Invalid(ErrorCode),
    AlreadyInitialized,
    Program(u64),
}

/// The success condition of one invocation: valid inputs, a fresh token
/// identity, and no external failure.
pub open spec fn mint_succeeds(
    rec: TokenRecord,
    repo: Seq<char>,
    image: Seq<char>,
    faults: ExternalFaults,
) -> bool {
    &&& spec_validate(repo, image) is Ok
    &&& !rec.initialized
    &&& faults.mint_to is None
    &&& faults.create_metadata is None
    &&& faults.create_master_edition is None
}

/// The first failure in stage order: validation, then supply
/// initialization (a fresh identity and the one-unit mint), then the
/// metadata record, then the supply-lock record.
pub open spec fn first_failure(
    rec: TokenRecord,
    repo: Seq<char>,
    image: Seq<char>,
    faults: ExternalFaults,
) -> MintFailure {
    if spec_validate(repo, image) is Err {
        MintFailure::Invalid(spec_validate(repo, image)->Err_0)
    } else if rec.initialized {
        MintFailure::AlreadyInitialized
    } else if faults.mint_to is Some {
        MintFailure::Program(faults.mint_to->0)
    } else if faults.create_metadata is Some {
        MintFailure::Program(faults.create_metadata->0)
    } else {
        MintFailure::Program(faults.create_master_edition->0)
    }
}

/// The record a successful invocation leaves behind: an initialized,
/// non-divisible token identity, exactly one unit in the holding account,
/// a metadata record carrying the derived name and the image URL, and a
/// supply-lock record capping issuance at one.
pub open spec fn minted_state(
    t: TokenRecord,
    minter: u64,
    repo: Seq<char>,
    image: Seq<char>,
) -> bool {
    &&& t.initialized
    &&& t.decimals == 0
    &&& t.balance == 1
    &&& t.metadata is Some
    &&& t.metadata->0.name@ == extract_name(repo)
    &&& t.metadata->0.symbol@ == "DEV"@
    &&& t.metadata->0.uri@ == image
    &&& t.metadata->0.is_mutable
    &&& t.metadata->0.update_authority == minter
    &&& t.max_supply == Some(1u64)
}

/// The event of a successful invocation: the two keys, both input URLs
/// unchanged, and the derived project name.
pub open spec fn event_matches(
    ev: NftMinted,
    mint_key: u64,
    minter: u64,
    repo: Seq<char>,
    image: Seq<char>,
) -> bool {
    &&& ev.mint == mint_key
    &&& ev.minter == minter
    &&& ev.github_repo@ == repo
    &&& ev.image_url@ == image
    &&& ev.project_name@ == extract_name(repo)
}

/// The instruction handler. Validates the inputs, derives the project
/// name, and performs the ordered sub-steps on the identity's record:
/// one-unit mint, metadata record, supply-lock record, event. Exactly the
/// invocations satisfying [`mint_succeeds`] succeed; a failed invocation
/// reports the first violated condition and leaves the accounts unchanged.
pub fn mint_nft(
    accounts: &mut MintNft,
    github_repo: String,
    image_url: String,
    faults: ExternalFaults,
) -> (r: Result<NftMinted, MintFailure>)
    ensures
        r is Ok <==> mint_succeeds(old(accounts).token, github_repo@, image_url@, faults),
        r is Ok ==> minted_state(
            final(accounts).token,
            old(accounts).minter,
            github_repo@,
            image_url@,
        ),
        r is Ok ==> event_matches(
            r->Ok_0,
            old(accounts).mint,
            old(accounts).minter,
            github_repo@,
            image_url@,
        ),
        r is Err ==> *final(accounts) == *old(accounts),
        r is Err ==> r->Err_0 == first_failure(
            old(accounts).token,
            github_repo@,
            image_url@,
            faults,
        ),
        final(accounts).minter == old(accounts).minter,
        final(accounts).mint == old(accounts).mint,
{
    // Stage 1: validate, failing fast before any state mutation.
    match validate_request(github_repo.as_str(), image_url.as_str()) {
        Err(e) => {
            return Err(MintFailure::Invalid(e));
        },
        Ok(()) => {},
    }
    // Stage 2: derive the project name (total, never fails).
    let project_name = extract_repo_name(github_repo.as_str());
    // Stage 3: initialize the supply — the token identity must be fresh,
    // and the token program's one-unit mint must go through.
    if accounts.token.initialized {
        return Err(MintFailure::AlreadyInitialized);
    }
    if let Some(code) = faults.mint_to {
        return Err(MintFailure::Program(code));
    }
    // Stage 4: attach the metadata record, then the supply-lock record
    // that references it. Either failure aborts the whole invocation, and
    // the host discards the earlier stages' changes: no mutation below
    // precedes this point.
    if let Some(code) = faults.create_metadata {
        return Err(MintFailure::Program(code));
    }
    if let Some(code) = faults.create_master_edition {
        return Err(MintFailure::Program(code));
    }
    // All stages succeed: apply their state changes in stage order.
    accounts.token.initialized = true;
    accounts.token.decimals = 0;
    accounts.token.balance = 1;
    accounts.token.metadata = Some(
        MetadataRecord {
            name: project_name.clone(),
            symbol: String::from_str("DEV"),
            uri: image_url.clone(),
            is_mutable: true,
            update_authority: accounts.minter,
        },
    );
    accounts.token.max_supply = Some(1);
    // Stage 5: emit the notification; it never fails the invocation.
    Ok(
        NftMinted {
            mint: accounts.mint,
            minter: accounts.minter,
            github_repo,
            image_url,
            project_name,
        },
    )
}

/// Non-fungibility: a record left by a successful invocation can never
/// satisfy the success condition again, whatever the new inputs or the
/// external outcomes; once validation passes, the second invocation's
/// failure is exactly `AlreadyInitialized` rather than a second mint.
pub proof fn lemma_no_remint(
    t: TokenRecord,
    repo: Seq<char>,
    image: Seq<char>,
    faults: ExternalFaults,
)
    requires
        t.initialized,
    ensures
        !mint_succeeds(t, repo, image, faults),
        spec_validate(repo, image) is Ok ==> first_failure(t, repo, image, faults)
            == MintFailure::AlreadyInitialized,
{
}

/// Disjointness of concurrent invocations: each invocation owns the record
/// of its own token identity, so writing one identity's record leaves the
/// record of every other identity exactly as it was.
pub proof fn lemma_distinct_identities_independent(
    ledger: Map<u64, TokenRecord>,
    a: u64,
    b: u64,
    written: TokenRecord,
)
    requires
        a != b,
    ensures
        ledger.insert(a, written).contains_key(b) == ledger.contains_key(b),
        ledger.contains_key(b) ==> ledger.insert(a, written)[b] == ledger[b],
{
}

/// Failure atomicity, at the stage the host cannot reorder: when the
/// metadata attacher reports failure after supply initialization would
/// have succeeded, the invocation as a whole fails, and by `mint_nft`'s
/// contract the record — balance included — is left unchanged.
pub proof fn lemma_metadata_failure_aborts(
    t: TokenRecord,
    repo: Seq<char>,
    image: Seq<char>,
    faults: ExternalFaults,
)
    requires
        faults.create_metadata is Some || faults.create_master_edition is Some,
    ensures
        !mint_succeeds(t, repo, image, faults),
{
}

} // verus!
