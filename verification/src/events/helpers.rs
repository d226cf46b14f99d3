//! Ready-made failure events, so that the same failure always reads the same.

use crate::events::{Action, ActionKind, ActionView, DownlinkEvent, DownlinkEventView, ErrorCode};
use vstd::prelude::*;
use vstd::string::*;

verus! {

/// An action of the given kind with the given label.
pub fn action(kind: ActionKind, label: &str) -> (a: Action)
    ensures
        a@ == (ActionView { kind, label: label@ }),
{
    Action { kind, label: label.to_owned() }
}

/// The failure reported when a site asks for a signed-in session.
pub fn fail_login_required(id: u128) -> (e: DownlinkEvent)
    ensures
        e@ == (DownlinkEventView::DownloadFailed {
            id,
            error_code: ErrorCode::LoginRequired,
            user_message: "This site requires sign-in to proceed. Import cookies from your browser and retry."@,
            actions: seq![
                ActionView { kind: ActionKind::ImportCookies, label: "Import cookies from browser"@ },
            ],
        }),
{
    let mut actions: Vec<Action> = Vec::new();
    actions.push(action(ActionKind::ImportCookies, "Import cookies from browser"));
    let e = DownlinkEvent::DownloadFailed {
        id,
        error_code: ErrorCode::LoginRequired,
        user_message: "This site requires sign-in to proceed. Import cookies from your browser and retry.".to_owned(),
        actions,
    };
    proof {
        assert(e@->DownloadFailed_actions =~= seq![
            ActionView { kind: ActionKind::ImportCookies, label: "Import cookies from browser"@ },
        ]);
    }
    e
}

/// The failure reported when the extraction tool no longer understands a site.
pub fn fail_extractor_outdated(id: u128) -> (e: DownlinkEvent)
    ensures
        e@ == (DownlinkEventView::DownloadFailed {
            id,
            error_code: ErrorCode::ExtractorOutdated,
            user_message: "Downloader engine is outdated for this site. Update yt-dlp and retry."@,
            actions: seq![
                ActionView { kind: ActionKind::UpdateYtDlp, label: "Update yt-dlp"@ },
                ActionView { kind: ActionKind::Retry, label: "Retry"@ },
            ],
        }),
{
    let mut actions: Vec<Action> = Vec::new();
    actions.push(action(ActionKind::UpdateYtDlp, "Update yt-dlp"));
    actions.push(action(ActionKind::Retry, "Retry"));
    let e = DownlinkEvent::DownloadFailed {
        id,
        error_code: ErrorCode::ExtractorOutdated,
        user_message: "Downloader engine is outdated for this site. Update yt-dlp and retry.".to_owned(),
        actions,
    };
    proof {
        assert(e@->DownloadFailed_actions =~= seq![
            ActionView { kind: ActionKind::UpdateYtDlp, label: "Update yt-dlp"@ },
            ActionView { kind: ActionKind::Retry, label: "Retry"@ },
        ]);
    }
    e
}

/// The failure reported when the chosen quality or format does not exist.
pub fn fail_format_unavailable(id: u128) -> (e: DownlinkEvent)
    ensures
        e@ == (DownlinkEventView::DownloadFailed {
            id,
            error_code: ErrorCode::FormatUnavailable,
            user_message: "That quality/format isn't available for this media. Try the recommended preset."@,
            actions: seq![
                ActionView { kind: ActionKind::RetryRecommended, label: "Use Recommended preset"@ },
            ],
        }),
{
    let mut actions: Vec<Action> = Vec::new();
    actions.push(action(ActionKind::RetryRecommended, "Use Recommended preset"));
    let e = DownlinkEvent::DownloadFailed {
        id,
        error_code: ErrorCode::FormatUnavailable,
        user_message: "That quality/format isn't available for this media. Try the recommended preset.".to_owned(),
        actions,
    };
    proof {
        assert(e@->DownloadFailed_actions =~= seq![
            ActionView { kind: ActionKind::RetryRecommended, label: "Use Recommended preset"@ },
        ]);
    }
    e
}

/// A failure of no known category, with the given message.
pub fn fail_unknown(id: u128, message: String) -> (e: DownlinkEvent)
    ensures
        e@ == (DownlinkEventView::DownloadFailed {
            id,
            error_code: ErrorCode::Unknown,
            user_message: message@,
            actions: seq![ActionView { kind: ActionKind::OpenLogs, label: "View logs"@ }],
        }),
{
    let mut actions: Vec<Action> = Vec::new();
    actions.push(action(ActionKind::OpenLogs, "View logs"));
    let e = DownlinkEvent::DownloadFailed {
        id,
        error_code: ErrorCode::Unknown,
        user_message: message,
        actions,
    };
    proof {
        assert(e@->DownloadFailed_actions =~= seq![
            ActionView { kind: ActionKind::OpenLogs, label: "View logs"@ },
        ]);
    }
    e
}

} // verus!
