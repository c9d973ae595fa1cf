//! Authentication retry handling for a failed turn.
use crate::json;
use crate::json::{as_str, as_u64, get};
use crate::json::{Json, JsonNumber};
use crate::text;
use vstd::prelude::*;

verus! {

/// What a failed turn has produced.
pub struct PartialTurnData {
    pub error_code: Option<String>,
    pub error_metadata: Option<serde_json::Value>,
}

/// A turn that failed.
pub struct TurnFailure {
    pub error: String,
    pub partial: PartialTurnData,
}

/// Whether the metadata of a failure names the model catalog as its source.
pub open spec fn from_model_access(metadata: Option<Json>) -> bool {
    metadata is Some && metadata->0.field("source"@) == Some(Json::Text("model_access"@))
}

/// The metadata behind an optional value.
pub open spec fn metadata_view(metadata: Option<serde_json::Value>) -> Option<Json> {
    match metadata {
        Some(metadata) => Some(json::json(metadata)),
        None => None,
    }
}

impl TurnFailure {
    /// A failure of the model catalog is retried exactly where it is an
    /// authentication error that the server answered with 401: what the source
    /// wrote decides, not the display wording. Any other failure is retried
    /// where its text is a session authentication error.
    pub open spec fn retried(self, auth_code: Seq<char>, session_auth_error: bool) -> bool {
        let metadata = metadata_view(self.partial.error_metadata);
        if from_model_access(metadata) {
            &&& self.partial.error_code matches Some(code)
            &&& code@ == auth_code
            &&& metadata->0.field("http_status"@) == Some(
                Json::Number(JsonNumber::Unsigned(401)),
            )
        } else {
            session_auth_error
        }
    }
}

/// Whether a turn is worth another try with a fresh token. `auth_code` is the
/// code of authentication errors, and `session_auth_error` says whether the
/// text of the failure is a session authentication error.
pub fn should_retry_after_auth_refresh(
    failure: &TurnFailure,
    auth_code: &str,
    session_auth_error: bool,
) -> (retry: bool)
    ensures
        retry == failure.retried(auth_code@, session_auth_error),
{
    if let Some(metadata) = &failure.partial.error_metadata {
        let source = match get(metadata, "source") {
            Some(source) => as_str(source),
            None => None,
        };
        if let Some(source) = source {
            if text::same(source, "model_access") {
                let code = match &failure.partial.error_code {
                    Some(code) => text::same(code.as_str(), auth_code),
                    None => false,
                };
                let status = match get(metadata, "http_status") {
                    Some(status) => as_u64(status),
                    None => None,
                };
                return code && status == Some(401u64);
            }
        }
    }
    session_auth_error
}

/// What can happen while a retry is prepared.
pub enum RetryEvent {
    /// The turn failed; whether it is worth another try.
    Failed(bool),
    /// The token was refreshed, or not.
    Refreshed(bool),
    /// The token that is current after a refresh, if there is one.
    CurrentToken(Option<String>),
}

/// What is to be done next while a retry is prepared.
pub enum RetryAction {
    /// Show a warning, and try to refresh the token.
    WarnAndRefresh(String),
    /// Read the current token.
    ReadToken,
    /// Retry with this token, and say so with this text.
    Retry { token: String, notice: String },
    /// Do not retry.
    GiveUp,
}

/// What can happen while a retry is prepared, as mathematical values.
pub enum RetryEventView {
    Failed(bool),
    Refreshed(bool),
    CurrentToken(Option<Seq<char>>),
}

/// What is to be done next, as mathematical values.
pub enum RetryActionView {
    WarnAndRefresh(Seq<char>),
    ReadToken,
    Retry { token: Seq<char>, notice: Seq<char> },
    GiveUp,
}

impl View for RetryEvent {
    type V = RetryEventView;

    open spec fn view(&self) -> RetryEventView {
        match self {
            RetryEvent::Failed(retry) => RetryEventView::Failed(*retry),
            RetryEvent::Refreshed(refreshed) => RetryEventView::Refreshed(*refreshed),
            RetryEvent::CurrentToken(Some(token)) => RetryEventView::CurrentToken(Some(token@)),
            RetryEvent::CurrentToken(None) => RetryEventView::CurrentToken(None),
        }
    }
}

impl View for RetryAction {
    type V = RetryActionView;

    open spec fn view(&self) -> RetryActionView {
        match self {
            RetryAction::WarnAndRefresh(warning) => RetryActionView::WarnAndRefresh(warning@),
            RetryAction::ReadToken => RetryActionView::ReadToken,
            RetryAction::Retry { token, notice } => RetryActionView::Retry {
                token: token@,
                notice: notice@,
            },
            RetryAction::GiveUp => RetryActionView::GiveUp,
        }
    }
}

/// What an event leads to while a retry is prepared.
pub open spec fn prepared(event: RetryEventView, icon: Seq<char>) -> RetryActionView {
    match event {
        RetryEventView::Failed(true) => RetryActionView::WarnAndRefresh(
            "  Token expired, attempting refresh\u{2026}"@,
        ),
        RetryEventView::Refreshed(true) => RetryActionView::ReadToken,
        RetryEventView::CurrentToken(Some(token)) => RetryActionView::Retry {
            token,
            notice: "  "@ + icon + " Token refreshed, retrying\u{2026}"@,
        },
        _ => RetryActionView::GiveUp,
    }
}

/// Preparing a retry: the next action after an event. `icon` marks success.
pub fn prepare_auth_refresh_retry(event: RetryEvent, icon: &str) -> (action: RetryAction)
    ensures
        action@ == prepared(event@, icon@),
{
    match event {
        RetryEvent::Failed(retry) => if retry {
            RetryAction::WarnAndRefresh("  Token expired, attempting refresh\u{2026}".to_owned())
        } else {
            RetryAction::GiveUp
        },
        RetryEvent::Refreshed(refreshed) => if refreshed {
            RetryAction::ReadToken
        } else {
            RetryAction::GiveUp
        },
        RetryEvent::CurrentToken(token) => match token {
            Some(token) => {
                let mut notice = "  ".to_owned();
                notice.append(icon);
                notice.append(" Token refreshed, retrying\u{2026}");
                RetryAction::Retry { token, notice }
            },
            None => RetryAction::GiveUp,
        },
    }
}

/// For a failure of the model catalog the display wording does not matter: the
/// same metadata and code give the same decision, whatever the text of the
/// failure is taken for. A status other than 401 is never retried.
pub proof fn metadata_outranks_wording(
    failure: TurnFailure,
    auth_code: Seq<char>,
    one: bool,
    other: bool,
)
    requires
        from_model_access(metadata_view(failure.partial.error_metadata)),
    ensures
        failure.retried(auth_code, one) == failure.retried(auth_code, other),
        failure.retried(auth_code, one) ==> metadata_view(
            failure.partial.error_metadata,
        )->0.field("http_status"@) == Some(Json::Number(JsonNumber::Unsigned(401))),
{
}

/// A catalog failure is retried exactly where its code is the one of authentication errors
/// and its status is 401, and every other failure exactly where its text is a session
/// authentication error.
pub proof fn retries_are_for_authentication(
    failure: TurnFailure,
    auth_code: Seq<char>,
    session_auth_error: bool,
)
    ensures
        ({
            let metadata = metadata_view(failure.partial.error_metadata);
            let catalog = metadata is Some && metadata->0.field("source"@) == Some(
                Json::Text("model_access"@),
            );
            &&& !catalog ==> failure.retried(auth_code, session_auth_error) == session_auth_error
            &&& catalog && failure.partial.error_code is Some
                && failure.partial.error_code->0@ == auth_code && metadata->0.field(
                "http_status"@,
            ) == Some(Json::Number(JsonNumber::Unsigned(401))) ==> failure.retried(
                auth_code,
                session_auth_error,
            )
            &&& catalog && failure.partial.error_code is None ==> !failure.retried(
                auth_code,
                session_auth_error,
            )
            &&& catalog && failure.partial.error_code is Some
                && failure.partial.error_code->0@ != auth_code ==> !failure.retried(
                auth_code,
                session_auth_error,
            )
            &&& catalog && metadata->0.field("http_status"@) != Some(
                Json::Number(JsonNumber::Unsigned(401)),
            ) ==> !failure.retried(auth_code, session_auth_error)
        }),
{
}

/// A turn is retried with the token that is current after a refresh, as it is, and only
/// then; a failure that is not worth it, a refresh that failed and a missing token all end
/// the matter. The notice shows the icon.
pub proof fn retries_use_the_current_token(
    event: RetryEventView,
    token: Seq<char>,
    icon: Seq<char>,
)
    ensures
        prepared(RetryEventView::CurrentToken(Some(token)), icon) is Retry,
        prepared(RetryEventView::CurrentToken(Some(token)), icon)->token == token,
        prepared(RetryEventView::CurrentToken(Some(token)), icon)->notice == "  "@ + icon
            + " Token refreshed, retrying\u{2026}"@,
        prepared(event, icon) is Retry <==> event is CurrentToken && event->CurrentToken_0 is Some,
        prepared(event, icon) is WarnAndRefresh <==> event == RetryEventView::Failed(true),
        prepared(event, icon) is ReadToken <==> event == RetryEventView::Refreshed(true),
        prepared(event, icon) is GiveUp <==> event == RetryEventView::Failed(false) || event
            == RetryEventView::Refreshed(false) || event == RetryEventView::CurrentToken(None),
{
}

/// The call that decides on a retry goes by code and status for a catalog failure, and by the
/// text of the failure for any other.
pub proof fn deciding_goes_by_the_source(
    failure: TurnFailure,
    auth_code: &str,
    session_auth_error: bool,
    retry: bool,
)
    requires
        call_ensures(
            should_retry_after_auth_refresh,
            (&failure, auth_code, session_auth_error),
            retry,
        ),
    ensures
        failure.partial.error_metadata is None ==> retry == session_auth_error,
        failure.partial.error_metadata is Some && json::json(
            failure.partial.error_metadata->0,
        ).field("source"@) == Some(Json::Text("model_access"@)) ==> (retry
            <==> failure.partial.error_code is Some && failure.partial.error_code->0@ == auth_code@
            && json::json(failure.partial.error_metadata->0).field("http_status"@) == Some(
            Json::Number(JsonNumber::Unsigned(401)),
        )),
{
    retries_are_for_authentication(failure, auth_code@, session_auth_error);
}

/// The call that prepares a retry retries with the current token, as it is.
pub proof fn preparing_uses_the_token(
    token: String,
    icon: &str,
    action: RetryAction,
    gone: RetryAction,
)
    requires
        call_ensures(
            prepare_auth_refresh_retry,
            (RetryEvent::CurrentToken(Some(token)), icon),
            action,
        ),
        call_ensures(prepare_auth_refresh_retry, (RetryEvent::CurrentToken(None), icon), gone),
    ensures
        action is Retry && action->token@ == token@,
        gone is GiveUp,
{
    assert(action@ is Retry && action@->token == token@);
    assert(gone@ is GiveUp);
}

} // verus!
