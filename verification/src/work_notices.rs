//! The notices that report on background work: catalog loads, Steam
//! discovery, and the preparation of settings images.

use vstd::prelude::*;
use vstd::string::*;
use vstd::utf8::*;

use crate::integer_text::{decimal_digits, unsigned_decimal_string};
use crate::notices::{error_detail, Notice, NoticeLevel, NoticeScope, NoticeView};
use crate::settings::store::SettingsImageError;

verus! {

/// The text `String::from_utf8_lossy` makes of `bytes`.
pub uninterp spec fn utf8_lossy(bytes: Seq<u8>) -> Seq<char>;

/// `String::from_utf8_lossy`: the bytes decoded as UTF-8, with each invalid
/// sequence replaced by U+FFFD; valid UTF-8 decodes as it is.
#[verifier::external_body]
fn lossy_text(bytes: &[u8]) -> (text: String)
    ensures
        text@ == utf8_lossy(bytes@),
        valid_utf8(bytes@) ==> text@ == decode_utf8(bytes@),
{
    String::from_utf8_lossy(bytes).into_owned()
}

/// `issue` for one, `issues` otherwise.
pub open spec fn issue_word(count: nat) -> Seq<char> {
    if count == 1 {
        "issue"@
    } else {
        "issues"@
    }
}

fn append_issue_count(text: &mut String, count: usize)
    ensures
        final(text)@ == old(text)@ + decimal_digits(count as nat) + " "@ + issue_word(count as nat),
{
    let digits = unsigned_decimal_string(count as u64);
    text.append(digits.as_str());
    text.append(" ");
    if count == 1 {
        text.append("issue");
    } else {
        text.append("issues");
    }
}

/// The summary of a catalog load that found `count` issues.
pub open spec fn catalog_issue_summary(count: nat) -> Seq<char> {
    "Loaded game catalogs with "@ + decimal_digits(count) + " "@ + issue_word(count)
}

/// The notice that ends a catalog load that found `issue_count` issues: a
/// warning naming their number, or none when there were none.
pub fn catalog_load_notice(issue_count: usize) -> (notice: Option<Notice>)
    ensures
        match notice {
            Some(n) => issue_count > 0 && n@ == (NoticeView {
                level: NoticeLevel::Warning,
                scope: NoticeScope::Workspace,
                summary: catalog_issue_summary(issue_count as nat),
                detail: Seq::empty(),
            }),
            None => issue_count == 0,
        },
{
    if issue_count == 0 {
        return None;
    }
    let mut summary = "Loaded game catalogs with ".to_owned();
    append_issue_count(&mut summary, issue_count);
    Some(Notice::plain(NoticeLevel::Warning, summary.as_str()))
}

/// The summary of a discovery that found installations with `count`
/// issues.
pub open spec fn discovery_issue_summary(count: nat) -> Seq<char> {
    "Found Steam installations with "@ + decimal_digits(count) + " "@ + issue_word(count)
}

/// The view of an optional notice.
pub open spec fn optional_notice_view(notice: Option<Notice>) -> Option<NoticeView> {
    match notice {
        Some(n) => Some(n@),
        None => None,
    }
}

/// The notice that ends a Steam discovery that found `installation_count`
/// installations with `issue_count` issues.
pub open spec fn discovery_notice_view(installation_count: nat, issue_count: nat) -> Option<
    NoticeView,
> {
    if installation_count == 0 {
        Some(
            NoticeView {
                level: NoticeLevel::Warning,
                scope: NoticeScope::Workspace,
                summary: "No Steam installations were found"@,
                detail: Seq::empty(),
            },
        )
    } else if issue_count > 0 {
        Some(
            NoticeView {
                level: NoticeLevel::Warning,
                scope: NoticeScope::Workspace,
                summary: discovery_issue_summary(issue_count),
                detail: Seq::empty(),
            },
        )
    } else {
        None
    }
}

/// The notice that ends a Steam discovery: a warning when nothing was found
/// or when issues were, and none otherwise.
pub fn discovery_notice(installation_count: usize, issue_count: usize) -> (notice: Option<Notice>)
    ensures
        optional_notice_view(notice) == discovery_notice_view(
            installation_count as nat,
            issue_count as nat,
        ),
{
    if installation_count == 0 {
        Some(Notice::plain(NoticeLevel::Warning, "No Steam installations were found"))
    } else if issue_count > 0 {
        let mut summary = "Found Steam installations with ".to_owned();
        append_issue_count(&mut summary, issue_count);
        Some(Notice::plain(NoticeLevel::Warning, summary.as_str()))
    } else {
        None
    }
}

/// The summary of the warning that a protected settings file of version
/// `found` will not be written.
pub open spec fn protected_summary(found: u64) -> Seq<char> {
    "Settings version "@ + decimal_digits(found as nat)
        + " is unsupported; changes will not be saved"@
}

/// The warning that settings changes are not saved because the settings
/// file holds version `found`.
pub fn protected_settings_notice(found: u64) -> (notice: Notice)
    ensures
        notice@ == (NoticeView {
            level: NoticeLevel::Warning,
            scope: NoticeScope::Workspace,
            summary: protected_summary(found),
            detail: Seq::empty(),
        }),
{
    let mut summary = "Settings version ".to_owned();
    let digits = unsigned_decimal_string(found);
    summary.append(digits.as_str());
    summary.append(" is unsupported; changes will not be saved");
    Notice::plain(NoticeLevel::Warning, summary.as_str())
}

/// The message of a settings image error.
pub open spec fn image_error_text(error: SettingsImageError) -> Seq<char> {
    match error {
        SettingsImageError::NonUnicodePath { field, path } => field@
            + " contains a non-Unicode path: "@ + utf8_lossy(path@),
    }
}

/// The message of `error`: the field and its path, shown lossily.
pub fn image_error_message(error: &SettingsImageError) -> (message: String)
    ensures
        message@ == image_error_text(*error),
{
    match error {
        SettingsImageError::NonUnicodePath { field, path } => {
            let mut message = (*field).to_owned();
            message.append(" contains a non-Unicode path: ");
            let shown = lossy_text(path.as_slice());
            message.append(shown.as_str());
            message
        },
    }
}

/// The error notice for a settings image that could not be prepared.
pub fn image_error_notice(error: &SettingsImageError) -> (notice: Notice)
    ensures
        notice@ == (NoticeView {
            level: NoticeLevel::Error,
            scope: NoticeScope::Workspace,
            summary: "Could not prepare application settings"@,
            detail: image_error_text(*error),
        }),
{
    let mut chain: Vec<String> = Vec::new();
    chain.push(image_error_message(error));
    proof {
        assert(chain@.len() == 1);
        assert(error_detail(chain@) == chain@[0]@) by {
            reveal_with_fuel(crate::notices::joined, 2);
        }
    }
    Notice::error("Could not prepare application settings", &chain)
}

} // verus!
