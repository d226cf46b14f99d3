//! Classification of a failed run: the tool's error output is matched,
//! without regard to case, against an ordered list of key phrases. The first
//! category with a phrase in the text wins; each category has its message
//! and its list of suggested remedies.

use crate::events::{action_views, Action, ActionKind, ActionView, ErrorCode};
use crate::text::{
    chars_within,
    contains,
    contains_str,
    count_within,
    lowercase_of,
    to_chars,
    to_lowercase,
};
use vstd::prelude::*;
use vstd::string::*;

verus! {

/// How many bytes of the raw error text an unclassified failure shows.
pub const MAX_RAW_MESSAGE_BYTES: usize = 200;

pub open spec fn mentions_login(lower: Seq<char>) -> bool {
    ||| contains(lower, "sign in"@)
    ||| contains(lower, "login"@)
    ||| contains(lower, "cookies"@)
    ||| contains(lower, "age-restricted"@)
}

pub open spec fn mentions_bot_check(lower: Seq<char>) -> bool {
    ||| contains(lower, "bot"@)
    ||| contains(lower, "captcha"@)
    ||| contains(lower, "confirm you're not"@)
}

pub open spec fn mentions_geo_block(lower: Seq<char>) -> bool {
    ||| contains(lower, "not available in your country"@)
    ||| contains(lower, "geo"@)
    ||| contains(lower, "blocked"@)
}

pub open spec fn mentions_extractor(lower: Seq<char>) -> bool {
    ||| contains(lower, "unsupported url"@)
    ||| contains(lower, "no video formats"@)
    ||| contains(lower, "extractor"@)
}

pub open spec fn mentions_format(lower: Seq<char>) -> bool {
    contains(lower, "requested format"@) || contains(lower, "format not available"@)
}

pub open spec fn mentions_network(lower: Seq<char>) -> bool {
    ||| contains(lower, "network"@)
    ||| contains(lower, "connection"@)
    ||| contains(lower, "timeout"@)
    ||| contains(lower, "timed out"@)
}

/// The category of a failure whose error text, in lower case, is `lower`.
pub open spec fn code_of(lower: Seq<char>) -> ErrorCode {
    if mentions_login(lower) {
        ErrorCode::LoginRequired
    } else if mentions_bot_check(lower) {
        ErrorCode::BotCheck
    } else if mentions_geo_block(lower) {
        ErrorCode::GeoRestricted
    } else if mentions_extractor(lower) {
        ErrorCode::ExtractorOutdated
    } else if mentions_format(lower) {
        ErrorCode::FormatUnavailable
    } else if mentions_network(lower) {
        ErrorCode::Network
    } else {
        ErrorCode::Unknown
    }
}

/// What is shown for an unclassified failure: the raw text after a fixed
/// opening, cut to the characters that fit in `MAX_RAW_MESSAGE_BYTES` bytes
/// of UTF-8 and marked with an ellipsis where it was cut.
pub open spec fn raw_message(text: Seq<char>) -> Seq<char> {
    let k = chars_within(text, MAX_RAW_MESSAGE_BYTES as nat);
    if k < text.len() {
        "Download failed: "@ + text.subrange(0, k as int) + "…"@
    } else if text.len() == 0 {
        "Download failed with unknown error."@
    } else {
        "Download failed: "@ + text
    }
}

/// The message of each category. Only the unclassified one shows the text.
pub open spec fn message_of(code: ErrorCode, text: Seq<char>) -> Seq<char> {
    match code {
        ErrorCode::LoginRequired => "This content requires sign-in. Import cookies from your browser and retry."@,
        ErrorCode::BotCheck => "The site requires verification. Import cookies from a logged-in browser session."@,
        ErrorCode::GeoRestricted => "This content is not available in your region."@,
        ErrorCode::ExtractorOutdated => "The downloader engine may be outdated for this site."@,
        ErrorCode::FormatUnavailable => "The requested format is not available for this content."@,
        ErrorCode::Network => "Network error occurred. Check your connection and retry."@,
        _ => raw_message(text),
    }
}

/// The remedies of each category, in the order in which they are offered.
pub open spec fn actions_of(code: ErrorCode) -> Seq<ActionView> {
    match code {
        ErrorCode::LoginRequired | ErrorCode::BotCheck => seq![
            ActionView { kind: ActionKind::ImportCookies, label: "Import cookies from browser"@ },
        ],
        ErrorCode::GeoRestricted => seq![
            ActionView { kind: ActionKind::OpenSettingsProxy, label: "Configure proxy"@ },
        ],
        ErrorCode::ExtractorOutdated => seq![
            ActionView { kind: ActionKind::UpdateYtDlp, label: "Update yt-dlp"@ },
            ActionView { kind: ActionKind::Retry, label: "Retry"@ },
        ],
        ErrorCode::FormatUnavailable => seq![
            ActionView { kind: ActionKind::RetryRecommended, label: "Use Recommended preset"@ },
        ],
        ErrorCode::Network => seq![ActionView { kind: ActionKind::Retry, label: "Retry"@ }],
        _ => seq![
            ActionView { kind: ActionKind::Retry, label: "Retry"@ },
            ActionView { kind: ActionKind::OpenLogs, label: "View logs"@ },
        ],
    }
}

/// The classification of a failure: category, message and remedies.
pub struct Classification {
    pub code: ErrorCode,
    pub message: Seq<char>,
    pub actions: Seq<ActionView>,
}

/// The classification of the error text `text` whose lower-case form is
/// `lower`.
pub open spec fn classification_of(text: Seq<char>, lower: Seq<char>) -> Classification {
    Classification {
        code: code_of(lower),
        message: message_of(code_of(lower), text),
        actions: actions_of(code_of(lower)),
    }
}

/// The view of a classification as the functions here return it.
pub open spec fn classified(r: (ErrorCode, String, Vec<Action>)) -> Classification {
    Classification { code: r.0, message: r.1@, actions: action_views(r.2@) }
}

fn code_for(lower: &Vec<char>) -> (code: ErrorCode)
    ensures
        code == code_of(lower@),
{
    if contains_str(lower, "sign in") || contains_str(lower, "login") || contains_str(
        lower,
        "cookies",
    ) || contains_str(lower, "age-restricted") {
        ErrorCode::LoginRequired
    } else if contains_str(lower, "bot") || contains_str(lower, "captcha") || contains_str(
        lower,
        "confirm you're not",
    ) {
        ErrorCode::BotCheck
    } else if contains_str(lower, "not available in your country") || contains_str(lower, "geo")
        || contains_str(lower, "blocked") {
        ErrorCode::GeoRestricted
    } else if contains_str(lower, "unsupported url") || contains_str(lower, "no video formats")
        || contains_str(lower, "extractor") {
        ErrorCode::ExtractorOutdated
    } else if contains_str(lower, "requested format") || contains_str(
        lower,
        "format not available",
    ) {
        ErrorCode::FormatUnavailable
    } else if contains_str(lower, "network") || contains_str(lower, "connection") || contains_str(
        lower,
        "timeout",
    ) || contains_str(lower, "timed out") {
        ErrorCode::Network
    } else {
        ErrorCode::Unknown
    }
}

fn raw_message_for(text: &str) -> (m: String)
    ensures
        m@ == raw_message(text@),
{
    let cs = to_chars(text);
    let k: usize = count_within(&cs, MAX_RAW_MESSAGE_BYTES);
    if k < cs.len() {
        let head = text.substring_char(0, k);
        "Download failed: ".to_owned().concat(head).concat("…")
    } else if cs.len() == 0 {
        "Download failed with unknown error.".to_owned()
    } else {
        "Download failed: ".to_owned().concat(text)
    }
}

fn message_for(code: ErrorCode, text: &str) -> (m: String)
    ensures
        m@ == message_of(code, text@),
{
    match code {
        ErrorCode::LoginRequired => "This content requires sign-in. Import cookies from your browser and retry.".to_owned(),
        ErrorCode::BotCheck => "The site requires verification. Import cookies from a logged-in browser session.".to_owned(),
        ErrorCode::GeoRestricted => "This content is not available in your region.".to_owned(),
        ErrorCode::ExtractorOutdated => "The downloader engine may be outdated for this site.".to_owned(),
        ErrorCode::FormatUnavailable => "The requested format is not available for this content.".to_owned(),
        ErrorCode::Network => "Network error occurred. Check your connection and retry.".to_owned(),
        _ => raw_message_for(text),
    }
}

fn one_action(kind: ActionKind, label: &str) -> (v: Vec<Action>)
    ensures
        action_views(v@) == seq![ActionView { kind, label: label@ }],
{
    let mut v: Vec<Action> = Vec::new();
    v.push(Action { kind, label: label.to_owned() });
    proof {
        assert(action_views(v@) =~= seq![ActionView { kind, label: label@ }]);
    }
    v
}

fn two_actions(first: ActionKind, first_label: &str, second: ActionKind, second_label: &str) -> (v:
    Vec<Action>)
    ensures
        action_views(v@) == seq![
            ActionView { kind: first, label: first_label@ },
            ActionView { kind: second, label: second_label@ },
        ],
{
    let mut v: Vec<Action> = Vec::new();
    v.push(Action { kind: first, label: first_label.to_owned() });
    v.push(Action { kind: second, label: second_label.to_owned() });
    proof {
        assert(action_views(v@) =~= seq![
            ActionView { kind: first, label: first_label@ },
            ActionView { kind: second, label: second_label@ },
        ]);
    }
    v
}

/// The remedies of a category, in the order in which they are offered.
pub fn actions_for(code: ErrorCode) -> (v: Vec<Action>)
    ensures
        action_views(v@) == actions_of(code),
{
    match code {
        ErrorCode::LoginRequired | ErrorCode::BotCheck => one_action(
            ActionKind::ImportCookies,
            "Import cookies from browser",
        ),
        ErrorCode::GeoRestricted => one_action(ActionKind::OpenSettingsProxy, "Configure proxy"),
        ErrorCode::ExtractorOutdated => two_actions(
            ActionKind::UpdateYtDlp,
            "Update yt-dlp",
            ActionKind::Retry,
            "Retry",
        ),
        ErrorCode::FormatUnavailable => one_action(
            ActionKind::RetryRecommended,
            "Use Recommended preset",
        ),
        ErrorCode::Network => one_action(ActionKind::Retry, "Retry"),
        _ => two_actions(ActionKind::Retry, "Retry", ActionKind::OpenLogs, "View logs"),
    }
}

/// The classification of the error text `stderr`, given its lower-case form.
pub fn classify_lowered(stderr: &str, lower: &str) -> (r: (ErrorCode, String, Vec<Action>))
    ensures
        classified(r) == classification_of(stderr@, lower@),
{
    let lc = to_chars(lower);
    let code = code_for(&lc);
    (code, message_for(code, stderr), actions_for(code))
}

/// The classification of the error text of a failed run. The text is put in
/// lower case by Unicode's rules before the key phrases are looked for.
pub fn classify_error(stderr: &str) -> (r: (ErrorCode, String, Vec<Action>))
    ensures
        classified(r) == classification_of(stderr@, lowercase_of(stderr@)),
{
    let lower = to_lowercase(stderr);
    classify_lowered(stderr, lower.as_str())
}

} // verus!
