//! Website-mediated browser approval. Only the CLI retrieves the credential;
//! browsers never connect to a local HTTP listener on this path.
use crate::browser_code;
use crate::json;
use crate::json::{from_map, from_str, insert, new_map, singleton};
use crate::json::Json;
use crate::login;
use crate::text;
use crate::web;
use vstd::prelude::*;

verus! {

/// A login that the website has started.
#[derive(Debug)]
pub struct Started {
    pub login_ticket: String,
    pub expires_in: u64,
    pub interval: u64,
}

/// The website's answer to a question for approval.
#[derive(Debug)]
pub struct Polled {
    pub status: String,
    pub connection_key: Option<String>,
}

/// Whether a character may stand in a login ticket.
pub open spec fn ticket_char(c: char) -> bool {
    'A' <= c <= 'Z' || 'a' <= c <= 'z' || '0' <= c <= '9' || c == '-' || c == '_' || c == '.'
}

/// The most characters that a login ticket may have.
pub const MAX_TICKET: usize = 2048;

/// Whether a text can be a login ticket.
pub open spec fn is_ticket(ticket: Seq<char>) -> bool {
    &&& 0 < ticket.len() <= MAX_TICKET
    &&& forall|i: int| 0 <= i < ticket.len() ==> #[trigger] ticket_char(ticket[i])
}

impl Started {
    /// Ticket, expiry and interval are within their bounds.
    pub open spec fn valid(self) -> bool {
        &&& is_ticket(self.login_ticket@)
        &&& 1 <= self.expires_in <= 300
        &&& 1 <= self.interval <= 10
    }

    /// Whether ticket, expiry and interval are within their bounds.
    pub fn is_valid(&self) -> (valid: bool)
        ensures
            valid == self.valid(),
    {
        let ticket = text::chars(self.login_ticket.as_str());
        if ticket.len() == 0 || ticket.len() > MAX_TICKET {
            return false;
        }
        let mut i: usize = 0;
        while i < ticket.len()
            invariant
                i <= ticket@.len(),
                ticket@ == self.login_ticket@,
                forall|j: int| 0 <= j < i ==> #[trigger] ticket_char(ticket@[j]),
            decreases ticket@.len() - i,
        {
            let c = ticket[i];
            if !(('A' <= c && c <= 'Z') || ('a' <= c && c <= 'z') || ('0' <= c && c <= '9') || c
                == '-' || c == '_' || c == '.') {
                assert(!ticket_char(self.login_ticket@[i as int]));
                return false;
            }
            i += 1;
        }
        1 <= self.expires_in && self.expires_in <= 300 && 1 <= self.interval && self.interval <= 10
    }
}

/// The page at which the user approves a login.
pub open spec fn approval_page(website: Seq<char>) -> Seq<char> {
    login::endpoint_view(website, "/connect/astra"@)
}

/// The parameters of the page at which the user approves a login.
pub open spec fn approval_pairs(ticket: Seq<char>, cli_version: Seq<char>) -> Seq<
    (Seq<char>, Seq<char>),
> {
    seq![("request"@, ticket), ("cli_version"@, cli_version)]
}

/// The page at which the user approves a login. Arbitrary verification URLs of
/// a response are never opened: the discovered website stays the authority, and
/// the path is fixed. `website_check` is what the check of the website said.
pub fn login_url(
    website_check: Result<(), String>,
    website: &str,
    started: &Started,
    cli_version: &str,
) -> (page: Result<String, String>)
    requires
        website@.len() + 14 <= web::MAX_URL_CHARS,
        cli_version@.len() <= web::MAX_URL_CHARS,
    ensures
        page is Ok <==> website_check is Ok && started.valid() && web::url_parts(
            approval_page(website@),
        ) is Some,
        page matches Ok(page) ==> {
            let base = approval_page(website@);
            let pairs = approval_pairs(started.login_ticket@, cli_version@);
            &&& web::url_with_query(base, pairs) == Some(page@)
            &&& web::url_parts(page@) is Some
            &&& web::url_parts(page@)->0.scheme == web::url_parts(base)->0.scheme
            &&& web::url_parts(page@)->0.port == web::url_parts(base)->0.port
            &&& web::url_parts(base)->0.scheme != "file"@ ==> {
                &&& web::url_parts(page@)->0.host == web::url_parts(base)->0.host
                &&& web::url_parts(page@)->0.path == web::url_parts(base)->0.path
            }
            &&& web::url_parts(page@)->0.query == web::url_parts(base)->0.query + pairs
        },
        page matches Err(message) ==> match website_check {
            Err(why) => message == why,
            Ok(_) => if started.valid() {
                message@ == "Invalid website login URL"@
            } else {
                message@ == "Invalid website login configuration"@
            },
        },
{
    if let Err(why) = website_check {
        return Err(why);
    }
    if !started.is_valid() {
        return Err("Invalid website login configuration".to_owned());
    }
    let base = login::endpoint(website, "/connect/astra");
    proof {
        reveal_strlit("/connect/astra");
        reveal_strlit("request");
        reveal_strlit("cli_version");
        shorter_without_trailing(website@, '/');
    }
    let mut pairs: Vec<(String, String)> = Vec::new();
    pairs.push(("request".to_owned(), started.login_ticket.clone()));
    pairs.push(("cli_version".to_owned(), cli_version.to_owned()));
    assert(web::pairs_view(pairs@) =~= approval_pairs(started.login_ticket@, cli_version@));
    match web::append_query(base.as_str(), &pairs) {
        Some(page) => Ok(page),
        None => Err("Invalid website login URL".to_owned()),
    }
}

/// Taking characters off the end makes no text longer.
proof fn shorter_without_trailing(text: Seq<char>, c: char)
    ensures
        text::without_trailing(text, c).len() <= text.len(),
    decreases text.len(),
{
    if text.len() > 0 && text.last() == c {
        shorter_without_trailing(text.drop_last(), c);
    }
}

/// The endpoint at which a login is started.
pub fn start_url(website: &str) -> (url: String)
    ensures
        url@ == login::endpoint_view(website@, "/api/auth/astra/device-login/start"@),
{
    login::endpoint(website, "/api/auth/astra/device-login/start")
}

/// The request that starts a login.
pub open spec fn start_request_view(secret: Seq<char>) -> Json {
    Json::Object(
        json::no_fields().insert("code_challenge"@, Json::Text(login::challenge_view(secret))),
    )
}

/// The request that starts a login: of the secret, only the challenge is sent.
pub fn start_request(secret: &str) -> (body: serde_json::Value)
    ensures
        json::json(body) == start_request_view(secret@),
{
    singleton("code_challenge", login::challenge(secret).as_str())
}

/// Why the website gave no answer that can be used.
#[derive(Debug, Clone, Copy, PartialEq, Eq, Structural)]
pub enum AnswerFailure {
    /// No client could be made.
    NoClient,
    /// The request that starts a login was not answered.
    Unanswered,
    /// The answer broke off.
    Interrupted,
    /// The answer is not of the expected shape.
    Malformed,
}

impl AnswerFailure {
    /// The text of the failure.
    pub fn message(self) -> (message: String)
        ensures
            message@ == match self {
                AnswerFailure::NoClient => "Could not initialize website login"@,
                AnswerFailure::Unanswered =>
                    "Could not contact the login website; check your connection and retry"@,
                AnswerFailure::Interrupted =>
                    "Login response could not be read; run astra login again"@,
                AnswerFailure::Malformed => "Invalid website login response"@,
            },
    {
        (match self {
            AnswerFailure::NoClient => "Could not initialize website login",
            AnswerFailure::Unanswered =>
                "Could not contact the login website; check your connection and retry",
            AnswerFailure::Interrupted => "Login response could not be read; run astra login again",
            AnswerFailure::Malformed => "Invalid website login response",
        }).to_owned()
    }
}

/// What follows from the status with which the website answers a start.
pub enum StartReply {
    /// The endpoint is not there: the older login may be tried.
    Legacy,
    /// The login cannot go on.
    Unavailable(String),
    /// The login has started; its configuration is in the body.
    ReadBody,
}

/// What follows from a status, as mathematical values.
pub enum StartView {
    Legacy,
    Unavailable(Seq<char>),
    ReadBody,
}

impl View for StartReply {
    type V = StartView;

    open spec fn view(&self) -> StartView {
        match self {
            StartReply::Legacy => StartView::Legacy,
            StartReply::Unavailable(message) => StartView::Unavailable(message@),
            StartReply::ReadBody => StartView::ReadBody,
        }
    }
}

/// What follows from the status with which the website answers a start.
pub open spec fn start_view(status: u16) -> StartView {
    if status == 404 {
        StartView::Legacy
    } else if login::success(status) {
        StartView::ReadBody
    } else {
        StartView::Unavailable(
            "Website login is unavailable (HTTP "@ + text::decimal_digits(status as nat) + ")"@,
        )
    }
}

/// Only an absent endpoint enables old-server compatibility. Never downgrade on
/// a redirect, rejected request, bad payload, or transport or server failure.
pub fn start_reply(status: u16) -> (reply: StartReply)
    ensures
        reply@ == start_view(status),
{
    if status == 404 {
        return StartReply::Legacy;
    }
    if !login::is_success(status) {
        let mut message = "Website login is unavailable (HTTP ".to_owned();
        message.append(text::decimal(status as u64).as_str());
        message.append(")");
        return StartReply::Unavailable(message);
    }
    StartReply::ReadBody
}

/// The endpoint at which approval is asked for.
pub fn poll_url(website: &str) -> (url: String)
    ensures
        url@ == login::endpoint_view(website@, "/api/auth/astra/device-login/poll"@),
{
    login::endpoint(website, "/api/auth/astra/device-login/poll")
}

/// The request that asks for approval.
pub open spec fn poll_request_view(ticket: Seq<char>, secret: Seq<char>) -> Json {
    Json::Object(
        json::no_fields().insert("login_ticket"@, Json::Text(ticket)).insert(
            "code_verifier"@,
            Json::Text(secret),
        ),
    )
}

/// The request that asks for approval.
pub fn poll_request(started: &Started, secret: &str) -> (body: serde_json::Value)
    ensures
        json::json(body) == poll_request_view(started.login_ticket@, secret@),
{
    let mut fields = new_map();
    insert(&mut fields, "login_ticket", from_str(started.login_ticket.as_str()));
    insert(&mut fields, "code_verifier", from_str(secret));
    from_map(fields)
}

/// What can happen while approval is waited for.
pub enum WaitEvent {
    /// The website could not be asked.
    Unreachable,
    /// The website answered with this status, and no success.
    Refused(u16),
    /// The answer could not be read, for this reason.
    Unreadable(String),
    /// The answer was read.
    Answered(Polled),
    /// The interval between two questions has passed.
    Slept,
    /// The login has expired, during a question or between two.
    Expired,
}

/// What is to be done next while approval is waited for.
pub enum WaitAction {
    /// Ask the website.
    Poll,
    /// Let this many seconds pass.
    Sleep(u64),
    /// The wait is over, with the connection key or with an error.
    Finish(Result<String, String>),
}

/// An event, as mathematical values.
pub enum EventView {
    Unreachable,
    Refused(u16),
    Unreadable(Seq<char>),
    Answered(Seq<char>, Option<Seq<char>>),
    Slept,
    Expired,
}

/// An action, as mathematical values.
pub enum ActionView {
    Poll,
    Sleep(u64),
    Finish(Result<Seq<char>, Seq<char>>),
}

impl View for WaitEvent {
    type V = EventView;

    open spec fn view(&self) -> EventView {
        match self {
            WaitEvent::Unreachable => EventView::Unreachable,
            WaitEvent::Refused(status) => EventView::Refused(*status),
            WaitEvent::Unreadable(why) => EventView::Unreadable(why@),
            WaitEvent::Answered(polled) => EventView::Answered(
                polled.status@,
                browser_code::optional_view(polled.connection_key),
            ),
            WaitEvent::Slept => EventView::Slept,
            WaitEvent::Expired => EventView::Expired,
        }
    }
}

impl View for WaitAction {
    type V = ActionView;

    open spec fn view(&self) -> ActionView {
        match self {
            WaitAction::Poll => ActionView::Poll,
            WaitAction::Sleep(seconds) => ActionView::Sleep(*seconds),
            WaitAction::Finish(result) => ActionView::Finish(browser_code::result_view(*result)),
        }
    }
}

/// An answer that grants the login.
pub open spec fn grants(status: Seq<char>, key: Option<Seq<char>>) -> bool {
    status == "approved"@ && key is Some && login::is_key(key->0)
}

/// An answer that leaves the login open.
pub open spec fn is_pending(status: Seq<char>, key: Option<Seq<char>>) -> bool {
    status == "pending"@ && key is None
}

/// What an event leads to.
pub open spec fn wait_view(interval: u64, event: EventView) -> ActionView {
    match event {
        EventView::Unreachable => ActionView::Finish(
            Err("Login result could not be retrieved; run astra login again"@),
        ),
        EventView::Refused(status) => ActionView::Finish(
            Err(
                "Login approval is unavailable, expired or already used (HTTP "@
                    + text::decimal_digits(status as nat) + "); run astra login again"@,
            ),
        ),
        EventView::Unreadable(why) => ActionView::Finish(Err(why)),
        EventView::Answered(status, key) => if grants(status, key) {
            ActionView::Finish(Ok(key->0))
        } else if is_pending(status, key) {
            ActionView::Sleep(interval)
        } else {
            ActionView::Finish(Err("Invalid website login response; run astra login again"@))
        },
        EventView::Slept => ActionView::Poll,
        EventView::Expired => ActionView::Finish(
            Err("Browser login timed out; run astra login again"@),
        ),
    }
}

/// Waiting for approval of a login that has started: the next action after an
/// event. The wait starts with a question.
pub fn wait_for_approval(started: &Started, event: WaitEvent) -> (action: WaitAction)
    ensures
        action@ == wait_view(started.interval, event@),
{
    match event {
        WaitEvent::Unreachable => WaitAction::Finish(
            Err("Login result could not be retrieved; run astra login again".to_owned()),
        ),
        WaitEvent::Refused(status) => {
            let mut message =
                "Login approval is unavailable, expired or already used (HTTP ".to_owned();
            message.append(text::decimal(status as u64).as_str());
            message.append("); run astra login again");
            WaitAction::Finish(Err(message))
        },
        WaitEvent::Unreadable(why) => WaitAction::Finish(Err(why)),
        WaitEvent::Answered(polled) => answered(started, polled),
        WaitEvent::Slept => WaitAction::Poll,
        WaitEvent::Expired => WaitAction::Finish(
            Err("Browser login timed out; run astra login again".to_owned()),
        ),
    }
}

/// What an answer leads to.
fn answered(started: &Started, polled: Polled) -> (action: WaitAction)
    ensures
        action@ == wait_view(
            started.interval,
            EventView::Answered(
                polled.status@,
                browser_code::optional_view(polled.connection_key),
            ),
        ),
{
    proof {
        reveal_strlit("approved");
        reveal_strlit("pending");
        assert("approved"@.len() == 8);
        assert("pending"@.len() == 7);
    }
    let Polled { status, connection_key } = polled;
    match connection_key {
        Some(key) => {
            if text::same(status.as_str(), "approved") && login::acceptable_key(key.as_str()) {
                return WaitAction::Finish(Ok(key));
            }
        },
        None => {
            if text::same(status.as_str(), "pending") {
                return WaitAction::Sleep(started.interval);
            }
        },
    }
    WaitAction::Finish(
        Err("Invalid website login response; run astra login again".to_owned()),
    )
}

/// The wait goes on only for a pending answer and after an interval: every
/// other event ends it, so that no question is repeated after an error, and a
/// key comes only out of an answer that approves the login with that key.
pub proof fn only_pending_is_repeated(interval: u64, event: EventView)
    ensures
        wait_view(interval, event) is Sleep <==> (event matches EventView::Answered(status, key)
            && is_pending(status, key)),
        wait_view(interval, event) is Poll <==> event is Slept,
        wait_view(interval, event) matches ActionView::Finish(Ok(key)) ==> (
        event matches EventView::Answered(status, given) && grants(status, given) && given == Some(
            key,
        )),
{
    reveal_strlit("approved");
    reveal_strlit("pending");
    assert("approved"@.len() == 8);
    assert("pending"@.len() == 7);
}

/// A login ticket is any text of 1 to 2048 characters of the URL-safe base64 alphabet
/// and dots: letters of both cases, digits, hyphens, underscores. One other character
/// makes it none.
pub proof fn tickets_are_dotted_base64url(ticket: Seq<char>)
    ensures
        is_ticket(ticket) <==> 1 <= ticket.len() <= 2048 && forall|i: int|
            0 <= i < ticket.len()
                ==> "ABCDEFGHIJKLMNOPQRSTUVWXYZabcdefghijklmnopqrstuvwxyz0123456789-_"@.contains(
                #[trigger] ticket[i],
            ) || ticket[i] == '.',
{
    assert forall|c: char|
        ticket_char(c)
            <==> #[trigger] "ABCDEFGHIJKLMNOPQRSTUVWXYZabcdefghijklmnopqrstuvwxyz0123456789-_"@.contains(
        c) || c == '.' by {
        crate::codec::the_url_safe_alphabet(c);
    }
    if is_ticket(ticket) {
        assert forall|i: int| 0 <= i < ticket.len() implies
            "ABCDEFGHIJKLMNOPQRSTUVWXYZabcdefghijklmnopqrstuvwxyz0123456789-_"@.contains(
            #[trigger] ticket[i],
        ) || ticket[i] == '.' by {
            assert(ticket_char(ticket[i]));
        }
    }
}

/// Cutting a ticket gives tickets, and joining two that are not too long together gives
/// one: each character is judged alone.
pub proof fn tickets_are_judged_by_character(a: Seq<char>, b: Seq<char>)
    requires
        a.len() > 0,
        b.len() > 0,
        a.len() + b.len() <= MAX_TICKET,
    ensures
        is_ticket(a + b) <==> is_ticket(a) && is_ticket(b),
{
    let both = a + b;
    assert(forall|i: int| 0 <= i < a.len() ==> both[i] == a[i]);
    assert(forall|i: int| 0 <= i < b.len() ==> both[a.len() + i] == b[i]);
    if is_ticket(both) {
        assert forall|i: int| 0 <= i < a.len() implies #[trigger] ticket_char(a[i]) by {
            assert(ticket_char(both[i]));
        }
        assert forall|i: int| 0 <= i < b.len() implies #[trigger] ticket_char(b[i]) by {
            assert(ticket_char(both[a.len() + i]));
        }
    }
}

/// A configuration is valid with a ticket, an expiry of one second to five minutes and an
/// interval of one to ten seconds, and in no other case.
pub proof fn configurations_are_bounded(started: Started)
    ensures
        started.valid() <==> is_ticket(started.login_ticket@) && 0 < started.expires_in && !(
        started.expires_in > 300) && 0 < started.interval && !(started.interval > 10),
{
}

/// The user approves on the website itself, under the fixed path, and the page gets the
/// ticket and the version and nothing else.
pub proof fn approval_stays_on_the_website(
    website: Seq<char>,
    ticket: Seq<char>,
    cli_version: Seq<char>,
)
    ensures
        website.len() == 0 || website.last() != '/' ==> approval_page(website) == website
            + "/connect/astra"@,
        approval_page(website.push('/')) == approval_page(website),
        approval_pairs(ticket, cli_version).len() == 2,
        browser_code::parameter(approval_pairs(ticket, cli_version), "request"@) == Some(ticket),
        browser_code::parameter(approval_pairs(ticket, cli_version), "cli_version"@) == Some(
            cli_version,
        ),
{
    login::endpoints_extend_the_website(website, "/connect/astra"@);
    reveal_strlit("request");
    reveal_strlit("cli_version");
    assert("request"@.len() == 7);
    assert("cli_version"@.len() == 11);
    let pairs = approval_pairs(ticket, cli_version);
    browser_code::parameters_are_found_by_name(pairs, "request"@, 0);
    browser_code::parameters_are_found_by_name(pairs, "cli_version"@, 1);
    assert(pairs[1].0 == "cli_version"@);
}

/// A start sends the challenge alone; a question sends the ticket and the secret behind
/// the challenge, and nothing else.
pub proof fn requests_send_what_is_needed(ticket: Seq<char>, secret: Seq<char>, key: Seq<char>)
    ensures
        start_request_view(secret).field("code_challenge"@) == Some(
            Json::Text(login::challenge_view(secret)),
        ),
        start_request_view(secret).field(key) is Some ==> key == "code_challenge"@,
        poll_request_view(ticket, secret).field("login_ticket"@) == Some(Json::Text(ticket)),
        poll_request_view(ticket, secret).field("code_verifier"@) == Some(Json::Text(secret)),
        poll_request_view(ticket, secret).field(key) is Some ==> key == "login_ticket"@ || key
            == "code_verifier"@,
{
    reveal_strlit("login_ticket");
    reveal_strlit("code_verifier");
    assert("login_ticket"@.len() == 12);
    assert("code_verifier"@.len() == 13);
}

/// Only an absent endpoint leads to the older login: no success, redirection, rejection or
/// failure of the server does. A body is read exactly on success, and every other status
/// is named in the refusal.
pub proof fn only_absence_downgrades(status: u16)
    ensures
        start_view(status) is Legacy ==> status == 404,
        status == 404 ==> start_view(status) is Legacy,
        start_view(status) is ReadBody <==> status / 100 == 2,
        status / 100 != 2 && status != 404 ==> start_view(status) == StartView::Unavailable(
            "Website login is unavailable (HTTP "@ + text::decimal_digits(status as nat) + ")"@,
        ),
{
}

/// An answer of the website decides in three ways: `approved` with a key of one to 4096
/// bytes ends the wait with that key, `pending` without a key lets the interval pass, and
/// any other answer ends the wait with an error.
pub proof fn answers_decide(interval: u64, status: Seq<char>, key: Option<Seq<char>>)
    ensures
        status == "approved"@ && key is Some && 1 <= key->0.len() && vstd::utf8::encode_utf8(
            key->0,
        ).len() <= 4096 ==> wait_view(interval, EventView::Answered(status, key))
            == ActionView::Finish(Ok(key->0)),
        status == "pending"@ && key is None ==> wait_view(
            interval,
            EventView::Answered(status, key),
        ) == ActionView::Sleep(interval),
        status != "approved"@ && status != "pending"@ || status == "approved"@ && key is None
            || status == "pending"@ && key is Some || key is Some && (key->0.len() == 0
            || vstd::utf8::encode_utf8(key->0).len() > 4096) ==> wait_view(
            interval,
            EventView::Answered(status, key),
        ) == ActionView::Finish(Err("Invalid website login response; run astra login again"@)),
{
    reveal_strlit("approved");
    reveal_strlit("pending");
    assert("approved"@.len() == 8);
    assert("pending"@.len() == 7);
}

/// What ends the wait is told as what it was: a refusal by its status, an answer that could
/// not be read by why, and the rest by fixed texts. After an interval the website is asked.
pub proof fn endings_are_told(interval: u64, status: u16, why: Seq<char>)
    ensures
        wait_view(interval, EventView::Refused(status)) == ActionView::Finish(
            Err(
                "Login approval is unavailable, expired or already used (HTTP "@
                    + text::decimal_digits(status as nat) + "); run astra login again"@,
            ),
        ),
        wait_view(interval, EventView::Unreadable(why)) == ActionView::Finish(Err(why)),
        wait_view(interval, EventView::Unreachable) == ActionView::Finish(
            Err("Login result could not be retrieved; run astra login again"@),
        ),
        wait_view(interval, EventView::Expired) == ActionView::Finish(
            Err("Browser login timed out; run astra login again"@),
        ),
        wait_view(interval, EventView::Slept) == ActionView::Poll,
{
}

/// The call that checks a configuration accepts every ticket of 1 to 2048 characters of the
/// URL-safe base64 alphabet and dots, with an expiry of 1 to 300 seconds and an interval of 1
/// to 10, and nothing else.
pub proof fn configurations_are_checked(started: Started, valid: bool)
    requires
        call_ensures(Started::is_valid, (&started,), valid),
    ensures
        valid <==> {
            let ticket = started.login_ticket@;
            &&& 1 <= ticket.len() <= 2048
            &&& forall|i: int|
                0 <= i < ticket.len()
                    ==> "ABCDEFGHIJKLMNOPQRSTUVWXYZabcdefghijklmnopqrstuvwxyz0123456789-_"@.contains(
                    #[trigger] ticket[i],
                ) || ticket[i] == '.'
            &&& 1 <= started.expires_in <= 300
            &&& 1 <= started.interval <= 10
        },
{
    tickets_are_dotted_base64url(started.login_ticket@);
}

/// The call for the login page gives one only for a website that passed its check and a
/// valid configuration, and else says which of them failed, the website first.
pub proof fn login_pages_are_checked(
    website_check: Result<(), String>,
    website: &str,
    started: Started,
    cli_version: &str,
    page: Result<String, String>,
)
    requires
        call_ensures(login_url, (website_check, website, &started, cli_version), page),
    ensures
        website_check is Err ==> page is Err && page->Err_0 == website_check->Err_0,
        website_check is Ok && !started.valid() ==> page is Err && page->Err_0@
            == "Invalid website login configuration"@,
        website_check is Ok && started.valid() && web::url_parts(approval_page(website@)) is None
            ==> page is Err && page->Err_0@ == "Invalid website login URL"@,
        website_check is Ok && started.valid() && web::url_parts(approval_page(website@)) is Some
            ==> {
            &&& page is Ok
            &&& web::url_parts(page->Ok_0@) is Some
            &&& web::url_parts(page->Ok_0@)->0.query == web::url_parts(
                approval_page(website@),
            )->0.query + seq![
                ("request"@, started.login_ticket@),
                ("cli_version"@, cli_version@),
            ]
        },
{
}

/// A login is started and asked for on the website itself, each under its fixed path.
pub proof fn endpoints_are_on_the_website(website: &str, start: String, poll: String)
    requires
        call_ensures(start_url, (website,), start),
        call_ensures(poll_url, (website,), poll),
        website@.len() == 0 || website@.last() != '/',
    ensures
        start@ == website@ + "/api/auth/astra/device-login/start"@,
        poll@ == website@ + "/api/auth/astra/device-login/poll"@,
{
    login::endpoints_extend_the_website(website@, "/api/auth/astra/device-login/start"@);
    login::endpoints_extend_the_website(website@, "/api/auth/astra/device-login/poll"@);
}

/// The call that waits for approval lets pass exactly the interval of the configuration, and
/// asks again after it.
pub proof fn waiting_lets_the_interval_pass(
    started: Started,
    polled: Polled,
    pause: WaitAction,
    again: WaitAction,
)
    requires
        call_ensures(wait_for_approval, (&started, WaitEvent::Answered(polled)), pause),
        call_ensures(wait_for_approval, (&started, WaitEvent::Slept), again),
        polled.status@ == "pending"@,
        polled.connection_key is None,
    ensures
        pause == WaitAction::Sleep(started.interval),
        again is Poll,
{
    answers_decide(started.interval, polled.status@, None);
    assert(pause@ == ActionView::Sleep(started.interval));
}

/// The call that judges the answer to a start goes on exactly on success, and tries the older
/// login exactly where the endpoint is absent.
pub proof fn starting_never_downgrades_on_failure(status: u16, reply: StartReply)
    requires
        call_ensures(start_reply, (status,), reply),
    ensures
        reply is Legacy <==> status == 404,
        reply is ReadBody <==> status / 100 == 2,
        reply matches StartReply::Unavailable(message) ==> message@
            == "Website login is unavailable (HTTP "@ + text::decimal_digits(status as nat) + ")"@,
{
    only_absence_downgrades(status);
    assert(reply@ == start_view(status));
}

/// The calls that make requests send the challenge of the secret to start, and the ticket and
/// the secret to ask.
pub proof fn requests_are_made_of_their_arguments(
    started: Started,
    secret: &str,
    start: serde_json::Value,
    poll: serde_json::Value,
)
    requires
        call_ensures(start_request, (secret,), start),
        call_ensures(poll_request, (&started, secret), poll),
    ensures
        json::json(start).field("code_challenge"@) == Some(
            Json::Text(login::challenge_view(secret@)),
        ),
        json::json(start).field("code_verifier"@) is None,
        json::json(poll).field("login_ticket"@) == Some(Json::Text(started.login_ticket@)),
        json::json(poll).field("code_verifier"@) == Some(Json::Text(secret@)),
{
    reveal_strlit("code_challenge");
    reveal_strlit("code_verifier");
    assert("code_challenge"@.len() == 14);
    assert("code_verifier"@.len() == 13);
    requests_send_what_is_needed(started.login_ticket@, secret@, "code_verifier"@);
}

/// The call that waits for approval ends with the key of an approval, as it is, and with an
/// error after anything that is neither an approval nor pending.
pub proof fn waiting_ends_with_the_key(
    started: Started,
    polled: Polled,
    action: WaitAction,
    refused: WaitAction,
    status: u16,
)
    requires
        call_ensures(wait_for_approval, (&started, WaitEvent::Answered(polled)), action),
        call_ensures(wait_for_approval, (&started, WaitEvent::Refused(status)), refused),
    ensures
        polled.status@ == "approved"@ && polled.connection_key is Some && 1
            <= polled.connection_key->0@.len() && vstd::utf8::encode_utf8(
            polled.connection_key->0@,
        ).len() <= 4096 ==> {
            &&& action matches WaitAction::Finish(Ok(key))
            &&& key@ == polled.connection_key->0@
        },
        polled.status@ != "approved"@ && polled.status@ != "pending"@ ==> (
        action matches WaitAction::Finish(Err(_))),
        refused matches WaitAction::Finish(Err(_)),
{
    let key = browser_code::optional_view(polled.connection_key);
    answers_decide(started.interval, polled.status@, key);
    endings_are_told(started.interval, status, Seq::empty());
    assert(action@ == wait_view(started.interval, EventView::Answered(polled.status@, key)));
    assert(refused@ == wait_view(started.interval, EventView::Refused(status)));
    assert(refused@ is Finish && refused@->Finish_0 is Err);
}

} // verus!
