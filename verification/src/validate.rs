//! Input validation: length and shape checks on the two input URLs, run in
//! a fixed order before any state mutation.

use vstd::prelude::*;
use vstd::string::StrSliceExecFns;
use crate::name::extract_name;
use crate::name::extract_repo_name;
use crate::name::lemma_extract_name_bounded;
use crate::text::chars_have_ci_prefix;
use crate::text::chars_have_ci_substring;
use crate::text::chars_have_ci_suffix;
use crate::text::chars_have_prefix;
use crate::text::ci_has_prefix;
use crate::text::ci_has_substring;
use crate::text::ci_has_suffix;
use crate::text::has_prefix;
use crate::text::str_chars;

verus! {

/// The validation failures, in declaration order of the original taxonomy.
#[derive(Clone, Copy, PartialEq, Eq, Structural, Debug)]
pub enum ErrorCode {
    RepoTooLong,
    ImageUrlTooLong,
    NameTooLong,
    InvalidGithubUrl,
    InvalidImageUrl,
}

/// The repository URL must carry the exact scheme+host prefix.
pub open spec fn spec_valid_github_url(s: Seq<char>) -> bool {
    has_prefix(s, "https://github.com/"@)
}

/// The image URL must start with `https://` and either end in a known image
/// extension or carry a known content-store marker, ASCII-case-insensitively.
pub open spec fn spec_valid_image_url(s: Seq<char>) -> bool {
    ci_has_prefix(s, "https://"@) && (ci_has_suffix(s, ".png"@) || ci_has_suffix(s, ".jpg"@)
        || ci_has_suffix(s, ".jpeg"@) || ci_has_suffix(s, ".gif"@) || ci_has_suffix(s, ".svg"@)
        || ci_has_substring(s, "ipfs://"@) || ci_has_substring(s, "arweave.net"@))
}

/// The outcome of validation: the first failed check in order, or success.
pub open spec fn spec_validate(repo: Seq<char>, image: Seq<char>) -> Result<(), ErrorCode> {
    if repo.len() > 200 {
        Err(ErrorCode::RepoTooLong)
    } else if image.len() > 200 {
        Err(ErrorCode::ImageUrlTooLong)
    } else if !spec_valid_github_url(repo) {
        Err(ErrorCode::InvalidGithubUrl)
    } else if !spec_valid_image_url(image) {
        Err(ErrorCode::InvalidImageUrl)
    } else if extract_name(repo).len() > 32 {
        Err(ErrorCode::NameTooLong)
    } else {
        Ok(())
    }
}

/// The name-length check is defensive only: the extractor already bounds
/// its result, so validation never fails with `NameTooLong`.
pub proof fn lemma_name_check_redundant(repo: Seq<char>, image: Seq<char>)
    ensures
        spec_validate(repo, image) != Err::<(), ErrorCode>(ErrorCode::NameTooLong),
{
    lemma_extract_name_bounded(repo);
}

/// A repository URL within the length bound that lacks the exact
/// `https://github.com/` prefix — a wrong scheme, a wrong host, or a
/// differently-cased one — is always rejected with `InvalidGithubUrl`.
pub proof fn lemma_rejects_foreign_repo_url(repo: Seq<char>, image: Seq<char>)
    requires
        repo.len() <= 200,
        image.len() <= 200,
        !spec_valid_github_url(repo),
    ensures
        spec_validate(repo, image) == Err::<(), ErrorCode>(ErrorCode::InvalidGithubUrl),
{
}

/// Once the repository URL passes its checks, validation succeeds exactly
/// when the image URL is acceptable: an `https://` prefix together with a
/// known image extension, or a known content-store marker, all compared
/// ASCII-case-insensitively. The name-length check never interferes.
pub proof fn lemma_image_url_decides(repo: Seq<char>, image: Seq<char>)
    requires
        repo.len() <= 200,
        image.len() <= 200,
        spec_valid_github_url(repo),
    ensures
        spec_validate(repo, image) is Ok <==> spec_valid_image_url(image),
        !spec_valid_image_url(image) ==> spec_validate(repo, image) == Err::<(
            ),
            ErrorCode,
        >(ErrorCode::InvalidImageUrl),
{
    lemma_extract_name_bounded(repo);
}

pub fn is_valid_github_url(url: &str) -> (r: bool)
    ensures
        r == spec_valid_github_url(url@),
{
    let cs = str_chars(url);
    chars_have_prefix(&cs, "https://github.com/")
}

pub fn is_valid_image_url(url: &str) -> (r: bool)
    ensures
        r == spec_valid_image_url(url@),
{
    let cs = str_chars(url);
    if !chars_have_ci_prefix(&cs, "https://") {
        return false;
    }
    chars_have_ci_suffix(&cs, ".png") || chars_have_ci_suffix(&cs, ".jpg") || chars_have_ci_suffix(
        &cs,
        ".jpeg",
    ) || chars_have_ci_suffix(&cs, ".gif") || chars_have_ci_suffix(&cs, ".svg")
        || chars_have_ci_substring(&cs, "ipfs://") || chars_have_ci_substring(&cs, "arweave.net")
}

/// Runs the five checks in order and reports the first violated one.
pub fn validate_request(github_repo: &str, image_url: &str) -> (r: Result<(), ErrorCode>)
    ensures
        r == spec_validate(github_repo@, image_url@),
{
    if github_repo.unicode_len() > 200 {
        return Err(ErrorCode::RepoTooLong);
    }
    if image_url.unicode_len() > 200 {
        return Err(ErrorCode::ImageUrlTooLong);
    }
    if !is_valid_github_url(github_repo) {
        return Err(ErrorCode::InvalidGithubUrl);
    }
    if !is_valid_image_url(image_url) {
        return Err(ErrorCode::InvalidImageUrl);
    }
    let project_name = extract_repo_name(github_repo);
    if project_name.as_str().unicode_len() > 32 {
        return Err(ErrorCode::NameTooLong);
    }
    Ok(())
}

} // verus!
