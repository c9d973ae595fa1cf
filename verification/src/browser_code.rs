//! One-time authorization codes delivered exclusively through the local browser.
//! There is no remote approval polling or public login-ticket retrieval path.
use crate::codec;
use crate::json;
use crate::json::{from_map, from_str, insert, new_map};
use crate::json::Json;
use crate::login;
use crate::login::BoundedBody;
use crate::text;
use crate::web;
use vstd::prelude::*;

verus! {

/// The parameters that announce the code flow to the website: the secret shows
/// only as its digest.
pub open spec fn capability_pairs(secret: Seq<char>) -> Seq<(Seq<char>, Seq<char>)> {
    seq![
        ("callback_transport"@, "authorization_code_v1"@),
        ("code_challenge_method"@, "S256"@),
        ("code_challenge"@, login::challenge_view(secret)),
    ]
}

/// The login page's URL with the parameters that announce the code flow.
pub fn append_capability(url: &str, secret: &str) -> (extended: Result<String, String>)
    requires
        url@.len() <= web::MAX_URL_CHARS,
    ensures
        extended is Ok <==> web::url_parts(url@) is Some,
        extended matches Ok(page) ==> {
            &&& web::url_with_query(url@, capability_pairs(secret@)) == Some(page@)
            &&& web::url_parts(page@) is Some
            &&& web::url_parts(page@)->0.scheme == web::url_parts(url@)->0.scheme
            &&& web::url_parts(page@)->0.port == web::url_parts(url@)->0.port
            &&& web::url_parts(url@)->0.scheme != "file"@ ==> {
                &&& web::url_parts(page@)->0.host == web::url_parts(url@)->0.host
                &&& web::url_parts(page@)->0.path == web::url_parts(url@)->0.path
            }
            &&& web::url_parts(page@)->0.query == web::url_parts(url@)->0.query + capability_pairs(
                secret@,
            )
        },
        extended matches Err(message) ==> message@ == "Invalid website login URL"@,
{
    let mut pairs: Vec<(String, String)> = Vec::new();
    pairs.push(("callback_transport".to_owned(), "authorization_code_v1".to_owned()));
    pairs.push(("code_challenge_method".to_owned(), "S256".to_owned()));
    pairs.push(("code_challenge".to_owned(), login::challenge(secret)));
    proof {
        reveal_strlit("callback_transport");
        reveal_strlit("authorization_code_v1");
        reveal_strlit("code_challenge_method");
        reveal_strlit("S256");
        reveal_strlit("code_challenge");
    }
    assert(web::pairs_view(pairs@) =~= capability_pairs(secret@));
    match web::append_query(url, &pairs) {
        Some(page) => Ok(page),
        None => Err("Invalid website login URL".to_owned()),
    }
}

/// The last value of a parameter.
pub open spec fn parameter(query: Seq<(Seq<char>, Seq<char>)>, name: Seq<char>) -> Option<Seq<char>>
    decreases query.len(),
{
    if query.len() == 0 {
        None
    } else if query.last().0 == name {
        Some(query.last().1)
    } else {
        parameter(query.drop_last(), name)
    }
}

/// Only the two expected parameters, and neither of them twice.
pub open spec fn unambiguous(query: Seq<(Seq<char>, Seq<char>)>) -> bool {
    &&& forall|i: int|
        0 <= i < query.len() ==> (#[trigger] query[i]).0 == "state"@ || query[i].0 == "code"@
    &&& forall|i: int, j: int|
        0 <= i < j < query.len() ==> (#[trigger] query[i]).0 != (#[trigger] query[j]).0
}

/// Whether a text is an authorization code: 43 bytes that decode to 32.
pub open spec fn is_code(code: Seq<char>) -> bool {
    &&& vstd::utf8::encode_utf8(code).len() == 43
    &&& codec::base64url_bytes(code) matches Some(bytes)
    &&& bytes.len() == 32
}

/// The code that a callback's parameters carry, or why they carry none.
pub open spec fn parameters_code(
    query: Seq<(Seq<char>, Seq<char>)>,
    expected_state: Seq<char>,
) -> Result<Seq<char>, Seq<char>> {
    let state = match parameter(query, "state"@) {
        Some(state) => state,
        None => Seq::empty(),
    };
    if !unambiguous(query) {
        Err("Invalid callback parameters"@)
    } else if state != expected_state {
        Err("Invalid callback state"@)
    } else {
        match parameter(query, "code"@) {
            None => Err("Missing authorization code"@),
            Some(code) => if is_code(code) {
                Ok(code)
            } else {
                Err("Invalid authorization code"@)
            },
        }
    }
}

/// Whether a request target is of origin form, on the fixed callback path, and
/// has no fragment.
pub open spec fn is_callback(target: Seq<char>) -> bool {
    "/callback?"@.is_prefix_of(target) && !target.contains('#')
}

/// The code that a callback's request target carries, or why it carries none.
pub open spec fn target_code(target: Seq<char>, expected_state: Seq<char>) -> Result<
    Seq<char>,
    Seq<char>,
> {
    if !is_callback(target) {
        Err("Invalid callback"@)
    } else {
        match web::url_parts("http://127.0.0.1"@ + target) {
            None => Err("Invalid callback"@),
            Some(parts) => parameters_code(parts.query, expected_state),
        }
    }
}

/// The texts behind a code or an error.
pub open spec fn result_view(result: Result<String, String>) -> Result<Seq<char>, Seq<char>> {
    match result {
        Ok(text) => Ok(text@),
        Err(message) => Err(message@),
    }
}

/// The code that the browser's request for the callback carries.
pub fn callback_code(target: &str, expected_state: &str) -> (code: Result<String, String>)
    requires
        target@.len() + 16 <= web::MAX_PARSED_CHARS,
    ensures
        result_view(code) == target_code(target@, expected_state@),
{
    // Only an origin-form request target on the fixed callback path is accepted.
    if !text::starts_with(target, "/callback?") || has_char(target, '#') {
        return Err("Invalid callback".to_owned());
    }
    let url = text::concat("http://127.0.0.1", target);
    proof {
        reveal_strlit("http://127.0.0.1");
        assert("http://127.0.0.1"@.len() == 16);
    }
    match web::parse_url(url.as_str()) {
        Some(parts) => parameters_callback_code(&parts.query, expected_state),
        None => Err("Invalid callback".to_owned()),
    }
}

/// Whether a character stands in a text.
fn has_char(text: &str, c: char) -> (found: bool)
    ensures
        found == text@.contains(c),
{
    let all = text::chars(text);
    let mut i: usize = 0;
    while i < all.len()
        invariant
            i <= all@.len(),
            all@ == text@,
            forall|j: int| 0 <= j < i ==> all@[j] != c,
        decreases all@.len() - i,
    {
        if all[i] == c {
            return true;
        }
        i += 1;
    }
    false
}

/// Whether two texts are equal, in constant time.
fn same_secret(a: &str, b: &str) -> (equal: bool)
    ensures
        equal == (a@ == b@),
{
    let equal = login::constant_time_eq(a.as_bytes(), b.as_bytes());
    proof {
        if equal {
            vstd::utf8::encode_utf8_decode_utf8(a@);
            vstd::utf8::encode_utf8_decode_utf8(b@);
        }
    }
    equal
}

/// The code that a callback's parameters carry.
pub fn parameters_callback_code(query: &Vec<(String, String)>, expected_state: &str) -> (code: Result<
    String,
    String,
>)
    ensures
        result_view(code) == parameters_code(web::pairs_view(query@), expected_state@),
{
    let ghost pairs = web::pairs_view(query@);
    let mut state: Option<String> = None;
    let mut code: Option<String> = None;
    proof {
        reveal_strlit("state");
        reveal_strlit("code");
        assert("state"@.len() == 5);
        assert("code"@.len() == 4);
    }
    let mut i: usize = 0;
    while i < query.len()
        invariant
            "state"@ != "code"@,
            i <= query@.len(),
            pairs == web::pairs_view(query@),
            unambiguous(pairs.take(i as int)),
            optional_view(state) == parameter(pairs.take(i as int), "state"@),
            optional_view(code) == parameter(pairs.take(i as int), "code"@),
            state is None ==> forall|j: int| 0 <= j < i ==> (#[trigger] pairs[j]).0 != "state"@,
            code is None ==> forall|j: int| 0 <= j < i ==> (#[trigger] pairs[j]).0 != "code"@,
            state is Some ==> exists|j: int| 0 <= j < i && (#[trigger] pairs[j]).0 == "state"@,
            code is Some ==> exists|j: int| 0 <= j < i && (#[trigger] pairs[j]).0 == "code"@,
        decreases query@.len() - i,
    {
        let (name, value) = &query[i];
        let ghost before = pairs.take(i as int);
        let ghost after = pairs.take(i + 1);
        assert(after.drop_last() =~= before);
        assert(after.last() == (name@, value@));
        if text::same(name.as_str(), "state") && state.is_none() {
            state = Some(value.clone());
        } else if text::same(name.as_str(), "code") && code.is_none() {
            code = Some(value.clone());
        } else {
            proof {
                assert(pairs[i as int].0 == name@);
                if name@ == "state"@ {
                    let j = choose|j: int| 0 <= j < i && (#[trigger] pairs[j]).0 == "state"@;
                    assert(pairs[j].0 == pairs[i as int].0);
                } else if name@ == "code"@ {
                    let j = choose|j: int| 0 <= j < i && (#[trigger] pairs[j]).0 == "code"@;
                    assert(pairs[j].0 == pairs[i as int].0);
                }
                assert(!unambiguous(pairs));
            }
            return Err("Invalid callback parameters".to_owned());
        }
        proof {
            assert(pairs[i as int].0 == name@);
            assert forall|a: int, b: int| 0 <= a < b < after.len() implies (#[trigger] after[a]).0
                != (#[trigger] after[b]).0 by {
                if b < i {
                    assert(before[a].0 != before[b].0);
                } else {
                    assert(pairs[a].0 != name@);
                }
            }
            assert forall|a: int| 0 <= a < after.len() implies (#[trigger] after[a]).0 == "state"@
                || after[a].0 == "code"@ by {
                if a < i {
                    assert(before[a].0 == "state"@ || before[a].0 == "code"@);
                }
            }
        }
        i += 1;
    }
    assert(pairs.take(i as int) =~= pairs);
    let given = match &state {
        Some(state) => state.as_str(),
        None => "",
    };
    proof {
        reveal_strlit("");
        assert(state is None ==> given@ =~= Seq::empty());
    }
    if !same_secret(given, expected_state) {
        return Err("Invalid callback state".to_owned());
    }
    match code {
        Some(code) => if is_authorization_code(code.as_str()) {
            Ok(code)
        } else {
            Err("Invalid authorization code".to_owned())
        },
        None => Err("Missing authorization code".to_owned()),
    }
}

/// The text behind an optional string.
pub open spec fn optional_view(text: Option<String>) -> Option<Seq<char>> {
    match text {
        Some(text) => Some(text@),
        None => None,
    }
}

/// Whether a text is an authorization code.
pub fn is_authorization_code(code: &str) -> (ok: bool)
    ensures
        ok == is_code(code@),
{
    if code.as_bytes().len() != 43 {
        return false;
    }
    match codec::decode_base64url(code) {
        Some(bytes) => bytes.len() == 32,
        None => false,
    }
}

/// The address that the browser returns to.
pub open spec fn redirect_uri_view(port: u16) -> Seq<char> {
    "http://127.0.0.1:"@ + text::decimal_digits(port as nat) + "/callback"@
}

/// The exchange of a code for a credential.
pub open spec fn redeem_request_view(
    code: Seq<char>,
    secret: Seq<char>,
    port: u16,
    state: Seq<char>,
) -> Json {
    Json::Object(
        json::no_fields().insert("authorization_code"@, Json::Text(code)).insert(
            "code_verifier"@,
            Json::Text(secret),
        ).insert("redirect_uri"@, Json::Text(redirect_uri_view(port))).insert(
            "state"@,
            Json::Text(state),
        ),
    )
}

/// The endpoint at which a code is exchanged.
pub fn redeem_url(website: &str) -> (url: String)
    ensures
        url@ == login::endpoint_view(website@, "/api/auth/astra/browser-login/redeem"@),
{
    login::endpoint(website, "/api/auth/astra/browser-login/redeem")
}

/// The exchange of a code for a credential.
pub fn redeem_request(code: &str, secret: &str, port: u16, state: &str) -> (body: serde_json::Value)
    ensures
        json::json(body) == redeem_request_view(code@, secret@, port, state@),
{
    let mut redirect_uri = "http://127.0.0.1:".to_owned();
    redirect_uri.append(text::decimal(port as u64).as_str());
    redirect_uri.append("/callback");
    let mut fields = new_map();
    insert(&mut fields, "authorization_code", from_str(code));
    insert(&mut fields, "code_verifier", from_str(secret));
    insert(&mut fields, "redirect_uri", from_str(redirect_uri.as_str()));
    insert(&mut fields, "state", from_str(state));
    from_map(fields)
}

/// Why a status ends the exchange; `None` where it succeeded.
pub open spec fn refusal_view(status: u16) -> Option<Seq<char>> {
    if login::success(status) {
        None
    } else if status == 403 {
        Some("Login code is invalid, expired, or no longer authorized; run astra login again"@)
    } else if status == 409 {
        Some("Login code has already been used; run astra login again"@)
    } else if status == 429 {
        Some("Login is rate limited; wait before running astra login again"@)
    } else {
        Some("Login code exchange is unavailable; run astra login again"@)
    }
}

/// Why an exchange got no whole response.
#[derive(Debug, Clone, Copy, PartialEq, Eq, Structural)]
pub enum RedeemFailure {
    /// No client could be made.
    NoClient,
    /// The request was not answered.
    Unanswered,
    /// The response broke off.
    Interrupted,
}

impl RedeemFailure {
    /// The text of the failure.
    pub fn message(self) -> (message: String)
        ensures
            message@ == match self {
                RedeemFailure::NoClient => "Could not initialize login code exchange"@,
                RedeemFailure::Unanswered => "Login code exchange failed; run astra login again"@,
                RedeemFailure::Interrupted =>
                    "Login response was interrupted; run astra login again"@,
            },
    {
        (match self {
            RedeemFailure::NoClient => "Could not initialize login code exchange",
            RedeemFailure::Unanswered => "Login code exchange failed; run astra login again",
            RedeemFailure::Interrupted => "Login response was interrupted; run astra login again",
        }).to_owned()
    }
}

/// The exchange of a code, once its response has started.
pub struct CodeExchange {
    pub body: BoundedBody,
}

impl CodeExchange {
    /// The response starts: any status but success ends the exchange.
    pub fn begin(status: u16) -> (exchange: Result<Self, String>)
        ensures
            match (refusal_view(status), exchange) {
                (None, Ok(exchange)) => exchange.body.wf() && exchange.body@ == Seq::<u8>::empty(),
                (Some(why), Err(message)) => message@ == why,
                _ => false,
            },
    {
        if login::is_success(status) {
            return Ok(CodeExchange { body: BoundedBody::new() });
        }
        Err(
            (match status {
                403 =>
                    "Login code is invalid, expired, or no longer authorized; run astra login again",
                409 => "Login code has already been used; run astra login again",
                429 => "Login is rate limited; wait before running astra login again",
                _ => "Login code exchange is unavailable; run astra login again",
            }).to_owned(),
        )
    }

    /// The exchange ends with the connection key that the response holds;
    /// `None` where it could not be read as one.
    pub fn complete(parsed: Option<String>) -> (key: Result<String, String>)
        ensures
            result_view(key) == redeemed_view(optional_view(parsed)),
    {
        match parsed {
            None => Err("Invalid login code response".to_owned()),
            Some(key) => if login::acceptable_key(key.as_str()) {
                Ok(key)
            } else {
                Err("Invalid login credential".to_owned())
            },
        }
    }
}

/// The key that an exchange ends with, from what its response holds.
pub open spec fn redeemed_view(parsed: Option<Seq<char>>) -> Result<Seq<char>, Seq<char>> {
    match parsed {
        None => Err("Invalid login code response"@),
        Some(key) => if login::is_key(key) {
            Ok(key)
        } else {
            Err("Invalid login credential"@)
        },
    }
}

/// What the browser shows once the callback has been handled.
pub open spec fn result_text(success: bool) -> Seq<char> {
    if success {
        "You are signed in to Astra. You can close this tab and return to your terminal."@
    } else {
        "Astra could not complete this login. Return to your terminal and run astra login again."@
    }
}

/// The response to the browser's request for the callback.
pub open spec fn result_response(success: bool) -> Seq<char> {
    "HTTP/1.1 "@ + (if success {
        "200 OK"@
    } else {
        "400 Bad Request"@
    })
        + "\r\nContent-Type: text/plain; charset=utf-8\r\nCache-Control: no-store\r\nReferrer-Policy: no-referrer\r\nContent-Security-Policy: default-src 'none'; frame-ancestors 'none'\r\nContent-Length: "@
        + text::decimal_digits(vstd::utf8::encode_utf8(result_text(success)).len())
        + "\r\nConnection: close\r\n\r\n"@ + result_text(success)
}

/// The response to the browser's request for the callback.
pub fn write_result(success: bool) -> (response: String)
    ensures
        response@ == result_response(success),
{
    let (status, body) = if success {
        (
            "200 OK",
            "You are signed in to Astra. You can close this tab and return to your terminal.",
        )
    } else {
        (
            "400 Bad Request",
            "Astra could not complete this login. Return to your terminal and run astra login again.",
        )
    };
    let mut response = "HTTP/1.1 ".to_owned();
    response.append(status);
    response.append(
        "\r\nContent-Type: text/plain; charset=utf-8\r\nCache-Control: no-store\r\nReferrer-Policy: no-referrer\r\nContent-Security-Policy: default-src 'none'; frame-ancestors 'none'\r\nContent-Length: ",
    );
    response.append(text::decimal(body.as_bytes().len() as u64).as_str());
    response.append("\r\nConnection: close\r\n\r\n");
    response.append(body);
    response
}

/// A callback is accepted only on the callback path, without a fragment, with
/// the expected state and with one code: no parameter is repeated or unknown.
pub proof fn accepted_callbacks_are_unambiguous(target: Seq<char>, expected_state: Seq<char>)
    requires
        target_code(target, expected_state) is Ok,
    ensures
        is_callback(target),
        web::url_parts("http://127.0.0.1"@ + target) is Some,
        ({
            let query = web::url_parts("http://127.0.0.1"@ + target)->0.query;
            let code = target_code(target, expected_state)->Ok_0;
            &&& unambiguous(query)
            &&& parameter(query, "code"@) == Some(code)
            &&& is_code(code)
            &&& parameter(query, "state"@) == Some(expected_state) || parameter(query, "state"@)
                is None && expected_state.len() == 0
        }),
{
}

/// A text of 43 characters of the URL-safe alphabet has 43 bytes.
proof fn alphabet_is_ascii(code: Seq<char>)
    requires
        forall|i: int| 0 <= i < code.len() ==> #[trigger] codec::base64url_char(code[i]),
    ensures
        vstd::utf8::encode_utf8(code).len() == code.len(),
{
    assert forall|i: int| 0 <= i < code.len() implies '\0' <= #[trigger] code[i] <= '\u{7f}' by {
        assert(codec::base64url_char(code[i]));
    }
    assert(vstd::utf8::is_ascii_chars(code));
    vstd::utf8::is_ascii_chars_encode_utf8(code);
}

/// A code of the shape of a fresh secret, in a callback with the expected state
/// and nothing else, is accepted as it is, in either order of the parameters.
pub proof fn fresh_codes_are_accepted(code: Seq<char>, state: Seq<char>)
    requires
        code.len() == 43,
        forall|i: int| 0 <= i < 43 ==> #[trigger] codec::base64url_char(code[i]),
        codec::base64url_bytes(code) matches Some(bytes) && bytes.len() == 32,
    ensures
        is_code(code),
        parameters_code(seq![("state"@, state), ("code"@, code)], state) == Ok::<_, Seq<char>>(code),
        parameters_code(seq![("code"@, code), ("state"@, state)], state) == Ok::<_, Seq<char>>(code),
{
    reveal_strlit("state");
    reveal_strlit("code");
    assert("state"@.len() == 5);
    assert("code"@.len() == 4);
    alphabet_is_ascii(code);
    let a = seq![("state"@, state), ("code"@, code)];
    let b = seq![("code"@, code), ("state"@, state)];
    reveal_with_fuel(parameter, 3);
    assert(a.drop_last() =~= seq![("state"@, state)]);
    assert(b.drop_last() =~= seq![("code"@, code)]);
}

/// A repeated parameter, or one that is not expected, is refused whatever else
/// the callback carries.
pub proof fn ambiguous_callbacks_are_refused(
    query: Seq<(Seq<char>, Seq<char>)>,
    expected_state: Seq<char>,
    i: int,
    j: int,
)
    requires
        0 <= i < j < query.len(),
        query[i].0 == query[j].0,
    ensures
        parameters_code(query, expected_state) is Err,
{
}

/// An exchange goes on only on success: a redirection, a refusal and a failure
/// of the server all end it.
pub proof fn only_success_continues_the_exchange(status: u16)
    ensures
        refusal_view(status) is None <==> 200 <= status <= 299,
{
}

/// The announcement of the code flow does not carry the secret: none of its values
/// is a secret of the length of a fresh one, as long as the secret is not its own
/// challenge.
pub proof fn announcement_hides_the_secret(secret: Seq<char>, i: int)
    requires
        secret.len() == 43,
        login::challenge_view(secret) != secret,
        0 <= i < capability_pairs(secret).len(),
    ensures
        capability_pairs(secret)[i].0 != secret,
        capability_pairs(secret)[i].1 != secret,
{
    reveal_strlit("callback_transport");
    reveal_strlit("authorization_code_v1");
    reveal_strlit("code_challenge_method");
    reveal_strlit("S256");
    reveal_strlit("code_challenge");
    assert("callback_transport"@.len() == 18);
    assert("authorization_code_v1"@.len() == 21);
    assert("code_challenge_method"@.len() == 21);
    assert("S256"@.len() == 4);
    assert("code_challenge"@.len() == 14);
}

/// A callback is the fixed path, a question mark and parameters without a fragment, and
/// nothing else is one.
pub proof fn callbacks_have_a_fixed_path(target: Seq<char>, query: Seq<char>)
    ensures
        is_callback("/callback?"@ + query) <==> !query.contains('#'),
        is_callback(target) ==> exists|rest: Seq<char>| target == #[trigger] ("/callback?"@ + rest)
            && !rest.contains('#'),
{
    reveal_strlit("/callback?");
    let path = "/callback?"@;
    assert(path.len() == 10);
    assert(!path.contains('#'));
    let whole = path + query;
    assert(path =~= whole.subrange(0, 10));
    if query.contains('#') {
        let i = choose|i: int| 0 <= i < query.len() && query[i] == '#';
        assert(whole[10 + i] == '#');
    }
    if whole.contains('#') {
        let i = choose|i: int| 0 <= i < whole.len() && whole[i] == '#';
        if i < 10 {
            assert(path[i] == '#');
        } else {
            assert(query[i - 10] == '#');
        }
    }
    if is_callback(target) {
        let rest = target.skip(10);
        assert(target =~= path + rest);
        if rest.contains('#') {
            let i = choose|i: int| 0 <= i < rest.len() && rest[i] == '#';
            assert(target[10 + i] == '#');
        }
    }
}

/// The value of a parameter is the one that stands last under its name, and there is
/// none exactly where the name does not stand.
pub proof fn parameters_are_found_by_name(
    query: Seq<(Seq<char>, Seq<char>)>,
    name: Seq<char>,
    i: int,
)
    requires
        0 <= i < query.len(),
    ensures
        query[i].0 == name && (forall|j: int| i < j < query.len() ==> (#[trigger] query[j]).0 != name)
            ==> parameter(query, name) == Some(query[i].1),
        parameter(query, name) is None ==> query[i].0 != name,
        (forall|j: int| 0 <= j < query.len() ==> (#[trigger] query[j]).0 != name) ==> parameter(
            query,
            name,
        ) is None,
    decreases query.len(),
{
    if query.last().0 != name {
        let rest = query.drop_last();
        assert forall|j: int| 0 <= j < rest.len() implies (#[trigger] rest[j]) == query[j] by {}
        if i < rest.len() {
            parameters_are_found_by_name(rest, name, i);
            if forall|j: int| 0 <= j < query.len() ==> (#[trigger] query[j]).0 != name {
                assert forall|j: int| 0 <= j < rest.len() implies (#[trigger] rest[j]).0 != name by {
                    assert(query[j].0 != name);
                }
            }
            if forall|j: int| i < j < query.len() ==> (#[trigger] query[j]).0 != name {
                assert forall|j: int| i < j < rest.len() implies (#[trigger] rest[j]).0 != name by {
                    assert(query[j].0 != name);
                }
            }
        } else if rest.len() > 0 {
            parameters_are_found_by_name(rest, name, 0);
            if forall|j: int| 0 <= j < query.len() ==> (#[trigger] query[j]).0 != name {
                assert forall|j: int| 0 <= j < rest.len() implies (#[trigger] rest[j]).0 != name by {
                    assert(query[j].0 != name);
                }
            }
        }
    } else {
        assert(query[query.len() - 1].0 == name);
    }
}

/// A parameter of another name than the two that are expected is refused, and so is one
/// that stands twice, with a message that says so.
pub proof fn unexpected_parameters_are_refused(
    query: Seq<(Seq<char>, Seq<char>)>,
    expected_state: Seq<char>,
    i: int,
    j: int,
)
    requires
        0 <= i < query.len(),
        0 <= j < query.len(),
        query[i].0 != "state"@ && query[i].0 != "code"@ || i != j && query[i].0 == query[j].0,
    ensures
        parameters_code(query, expected_state) == Err::<Seq<char>, _>(
            "Invalid callback parameters"@,
        ),
{
    if query[i].0 == "state"@ || query[i].0 == "code"@ {
        assert(!unambiguous(query));
    }
}

/// Of the two expected parameters, a state other than the expected one is refused first,
/// whatever the code; then a code that is missing; then one that is no code.
pub proof fn callback_refusals_are_told_apart(
    state: Seq<char>,
    code: Seq<char>,
    expected_state: Seq<char>,
)
    ensures
        state != expected_state ==> parameters_code(
            seq![("state"@, state), ("code"@, code)],
            expected_state,
        ) == Err::<Seq<char>, _>("Invalid callback state"@),
        state != expected_state ==> parameters_code(seq![("state"@, state)], expected_state)
            == Err::<Seq<char>, _>("Invalid callback state"@),
        expected_state.len() > 0 ==> parameters_code(seq![("code"@, code)], expected_state)
            == Err::<Seq<char>, _>("Invalid callback state"@),
        parameters_code(seq![("state"@, expected_state)], expected_state) == Err::<Seq<char>, _>(
            "Missing authorization code"@,
        ),
        vstd::utf8::encode_utf8(code).len() != 43 || codec::base64url_bytes(code) is None
            || codec::base64url_bytes(code)->0.len() != 32 ==> parameters_code(
            seq![("state"@, expected_state), ("code"@, code)],
            expected_state,
        ) == Err::<Seq<char>, _>("Invalid authorization code"@),
        vstd::utf8::encode_utf8(code).len() == 43 && codec::base64url_bytes(code) is Some
            && codec::base64url_bytes(code)->0.len() == 32 ==> parameters_code(
            seq![("state"@, expected_state), ("code"@, code)],
            expected_state,
        ) == Ok::<_, Seq<char>>(code),
{
    reveal_strlit("state");
    reveal_strlit("code");
    assert("state"@.len() == 5);
    assert("code"@.len() == 4);
    reveal_with_fuel(parameter, 3);
    let both = seq![("state"@, state), ("code"@, code)];
    assert(both.drop_last() =~= seq![("state"@, state)]);
    let expected = seq![("state"@, expected_state), ("code"@, code)];
    assert(expected.drop_last() =~= seq![("state"@, expected_state)]);
    assert(seq![("state"@, state)].drop_last() =~= Seq::empty());
    assert(seq![("code"@, code)].drop_last() =~= Seq::empty());
}

/// The announcement carries the challenge of the secret, how it was made, and how the
/// code is to come back, each once.
pub proof fn announcements_carry_the_challenge(secret: Seq<char>)
    ensures
        capability_pairs(secret).len() == 3,
        parameter(capability_pairs(secret), "code_challenge"@) == Some(
            login::challenge_view(secret),
        ),
        parameter(capability_pairs(secret), "code_challenge_method"@) == Some("S256"@),
        parameter(capability_pairs(secret), "callback_transport"@) == Some(
            "authorization_code_v1"@,
        ),
{
    reveal_strlit("callback_transport");
    reveal_strlit("code_challenge_method");
    reveal_strlit("code_challenge");
    assert("callback_transport"@.len() == 18);
    assert("code_challenge_method"@.len() == 21);
    assert("code_challenge"@.len() == 14);
    let pairs = capability_pairs(secret);
    parameters_are_found_by_name(pairs, "code_challenge"@, 2);
    parameters_are_found_by_name(pairs, "code_challenge_method"@, 1);
    parameters_are_found_by_name(pairs, "callback_transport"@, 0);
    assert(pairs[1].0 == "code_challenge_method"@ && pairs[2].0 == "code_challenge"@);
}

/// An exchange carries the code, the secret behind the challenge, the state and the
/// address that the code came to, and nothing else.
pub proof fn exchanges_bind_what_was_announced(
    code: Seq<char>,
    secret: Seq<char>,
    port: u16,
    state: Seq<char>,
    key: Seq<char>,
)
    ensures
        ({
            let body = redeem_request_view(code, secret, port, state);
            &&& body.field("authorization_code"@) == Some(Json::Text(code))
            &&& body.field("code_verifier"@) == Some(Json::Text(secret))
            &&& body.field("state"@) == Some(Json::Text(state))
            &&& body.field("redirect_uri"@) == Some(
                Json::Text(
                    "http://127.0.0.1:"@ + text::decimal_digits(port as nat) + "/callback"@,
                ),
            )
            &&& body.field(key) is Some ==> key == "authorization_code"@ || key == "code_verifier"@
                || key == "state"@ || key == "redirect_uri"@
        }),
{
    reveal_strlit("authorization_code");
    reveal_strlit("code_verifier");
    reveal_strlit("redirect_uri");
    reveal_strlit("state");
    assert("authorization_code"@.len() == 18);
    assert("code_verifier"@.len() == 13);
    assert("redirect_uri"@.len() == 12);
    assert("state"@.len() == 5);
}

/// A refused code, a used one and too many requests are told apart, and every other
/// status but success is told as an exchange that is not available.
pub proof fn refusals_are_told_apart(status: u16)
    ensures
        status == 403 ==> refusal_view(status) == Some(
            "Login code is invalid, expired, or no longer authorized; run astra login again"@,
        ),
        status == 409 ==> refusal_view(status) == Some(
            "Login code has already been used; run astra login again"@,
        ),
        status == 429 ==> refusal_view(status) == Some(
            "Login is rate limited; wait before running astra login again"@,
        ),
        status / 100 != 2 && status != 403 && status != 409 && status != 429 ==> refusal_view(
            status,
        ) == Some("Login code exchange is unavailable; run astra login again"@),
{
}

/// The key that an exchange ends with is the one of the response, as it is, and every
/// key of one to 4096 bytes is accepted.
pub proof fn keys_come_from_the_response(key: Seq<char>)
    ensures
        redeemed_view(None) == Err::<Seq<char>, _>("Invalid login code response"@),
        1 <= key.len() && vstd::utf8::encode_utf8(key).len() <= 4096 ==> redeemed_view(Some(key))
            == Ok::<_, Seq<char>>(key),
        key.len() == 0 || vstd::utf8::encode_utf8(key).len() > 4096 ==> redeemed_view(Some(key))
            == Err::<Seq<char>, _>("Invalid login credential"@),
{
}

/// The browser is told by status and text how the login went. But for these and the
/// length of the text, the two responses are the same.
pub proof fn results_differ_in_the_outcome_only()
    ensures
        result_text(true) != result_text(false),
        exists|head: Seq<char>, tail: Seq<char>|
            {
                &&& result_response(true) == "HTTP/1.1 200 OK"@ + #[trigger] (head
                    + text::decimal_digits(vstd::utf8::encode_utf8(result_text(true)).len())
                    + tail) + result_text(true)
                &&& result_response(false) == "HTTP/1.1 400 Bad Request"@ + (head
                    + text::decimal_digits(vstd::utf8::encode_utf8(result_text(false)).len())
                    + tail) + result_text(false)
            },
        result_text(false)
            == "Astra could not complete this login. Return to your terminal and run astra login again."@,
{
    reveal_strlit("You are signed in to Astra. You can close this tab and return to your terminal.");
    reveal_strlit(
        "Astra could not complete this login. Return to your terminal and run astra login again.",
    );
    assert(result_text(true)[0] == 'Y');
    assert(result_text(false)[0] == 'A');
    reveal_strlit("HTTP/1.1 ");
    reveal_strlit("200 OK");
    reveal_strlit("400 Bad Request");
    reveal_strlit("HTTP/1.1 200 OK");
    reveal_strlit("HTTP/1.1 400 Bad Request");
    assert("HTTP/1.1 "@ + "200 OK"@ =~= "HTTP/1.1 200 OK"@);
    assert("HTTP/1.1 "@ + "400 Bad Request"@ =~= "HTTP/1.1 400 Bad Request"@);
    let head =
        "\r\nContent-Type: text/plain; charset=utf-8\r\nCache-Control: no-store\r\nReferrer-Policy: no-referrer\r\nContent-Security-Policy: default-src 'none'; frame-ancestors 'none'\r\nContent-Length: "@;
    let tail = "\r\nConnection: close\r\n\r\n"@;
    let long = text::decimal_digits(vstd::utf8::encode_utf8(result_text(true)).len());
    let longer = text::decimal_digits(vstd::utf8::encode_utf8(result_text(false)).len());
    assert(result_response(true) =~= "HTTP/1.1 200 OK"@ + (head + long + tail) + result_text(true));
    assert(result_response(false) =~= "HTTP/1.1 400 Bad Request"@ + (head + longer + tail)
        + result_text(false));
}

/// A code is exchanged on the website itself, under a fixed path.
pub proof fn codes_are_exchanged_on_the_website(website: &str, url: String)
    requires
        call_ensures(redeem_url, (website,), url),
        website@.len() == 0 || website@.last() != '/',
    ensures
        url@ == website@ + "/api/auth/astra/browser-login/redeem"@,
{
    login::endpoints_extend_the_website(website@, "/api/auth/astra/browser-login/redeem"@);
}

/// An exchange begins with an empty body on success, and with a refusal on any other status.
pub proof fn exchanges_begin_on_success(status: u16, exchange: Result<CodeExchange, String>)
    requires
        call_ensures(CodeExchange::begin, (status,), exchange),
    ensures
        exchange is Ok <==> status / 100 == 2,
        exchange matches Ok(exchange) ==> exchange.body@.len() == 0,
        exchange matches Err(message) ==> Some(message@) == refusal_view(status),
{
}

/// The call that announces the code flow extends any URL by the three parameters, keeps what
/// was there before them, and refuses what is no URL.
pub proof fn announcing_extends_the_page(
    url: &str,
    secret: &str,
    extended: Result<String, String>,
)
    requires
        call_ensures(append_capability, (url, secret), extended),
    ensures
        web::url_parts(url@) is None ==> extended is Err && extended->Err_0@
            == "Invalid website login URL"@,
        web::url_parts(url@) is Some ==> {
            &&& extended is Ok
            &&& web::url_parts(extended->Ok_0@) is Some
            &&& web::url_parts(extended->Ok_0@)->0.scheme == web::url_parts(url@)->0.scheme
            &&& web::url_parts(extended->Ok_0@)->0.port == web::url_parts(url@)->0.port
            &&& web::url_parts(extended->Ok_0@)->0.query == web::url_parts(url@)->0.query + seq![
                ("callback_transport"@, "authorization_code_v1"@),
                ("code_challenge_method"@, "S256"@),
                ("code_challenge"@, login::challenge_view(secret@)),
            ]
        },
{
}

/// The call that reads a callback's parameters accepts the expected state with a code that
/// decodes to 32 bytes, as it is, and refuses another state.
pub proof fn reading_parameters_checks_the_state(
    query: Vec<(String, String)>,
    expected_state: &str,
    given: Result<String, String>,
    state: Seq<char>,
    code: Seq<char>,
)
    requires
        call_ensures(parameters_callback_code, (&query, expected_state), given),
        web::pairs_view(query@) == seq![("state"@, state), ("code"@, code)],
    ensures
        state != expected_state@ ==> given is Err && given->Err_0@ == "Invalid callback state"@,
        state == expected_state@ && vstd::utf8::encode_utf8(code).len() == 43
            && codec::base64url_bytes(code) is Some && codec::base64url_bytes(code)->0.len() == 32
            ==> given is Ok && given->Ok_0@ == code,
        given matches Ok(accepted) ==> accepted@ == code && vstd::utf8::encode_utf8(code).len()
            == 43 && codec::base64url_bytes(code) is Some && codec::base64url_bytes(code)->0.len()
            == 32,
{
    callback_refusals_are_told_apart(state, code, expected_state@);
}

/// The call that reads a callback's request target reads the parameters of a callback, and
/// refuses any other target.
pub proof fn reading_targets_checks_the_path(
    target: &str,
    expected_state: &str,
    given: Result<String, String>,
)
    requires
        call_ensures(callback_code, (target, expected_state), given),
    ensures
        !"/callback?"@.is_prefix_of(target@) || target@.contains('#') ==> given is Err
            && given->Err_0@ == "Invalid callback"@,
        "/callback?"@.is_prefix_of(target@) && !target@.contains('#') && web::url_parts(
            "http://127.0.0.1"@ + target@,
        ) is Some ==> result_view(given) == parameters_code(
            web::url_parts("http://127.0.0.1"@ + target@)->0.query,
            expected_state@,
        ),
{
}

/// The call that tells codes accepts 43 bytes of base64 that decode to 32, and nothing else.
pub proof fn codes_have_one_shape(code: &str, ok: bool)
    requires
        call_ensures(is_authorization_code, (code,), ok),
    ensures
        ok <==> vstd::utf8::encode_utf8(code@).len() == 43 && codec::base64url_bytes(code@) is Some
            && codec::base64url_bytes(code@)->0.len() == 32,
{
}

/// The call that makes an exchange puts each of its arguments where it belongs.
pub proof fn exchanging_binds_the_arguments(
    code: &str,
    secret: &str,
    port: u16,
    state: &str,
    body: serde_json::Value,
)
    requires
        call_ensures(redeem_request, (code, secret, port, state), body),
    ensures
        json::json(body).field("authorization_code"@) == Some(Json::Text(code@)),
        json::json(body).field("code_verifier"@) == Some(Json::Text(secret@)),
        json::json(body).field("state"@) == Some(Json::Text(state@)),
        json::json(body).field("redirect_uri"@) == Some(
            Json::Text("http://127.0.0.1:"@ + text::decimal_digits(port as nat) + "/callback"@),
        ),
{
    exchanges_bind_what_was_announced(code@, secret@, port, state@, "state"@);
}

/// The call that ends an exchange gives the key of the response where it has one to 4096
/// bytes.
pub proof fn exchanges_end_with_the_key(parsed: Option<String>, key: Result<String, String>)
    requires
        call_ensures(CodeExchange::complete, (parsed,), key),
    ensures
        key is Ok <==> parsed is Some && 1 <= parsed->0@.len() && vstd::utf8::encode_utf8(
            parsed->0@,
        ).len() <= 4096,
        key matches Ok(key) ==> key@ == parsed->0@,
        parsed is None ==> key->Err_0@ == "Invalid login code response"@,
        parsed is Some && key is Err ==> key->Err_0@ == "Invalid login credential"@,
{
}

/// The call that answers the browser says how the login went, in status and text.
pub proof fn browsers_are_told_the_outcome(response: String, refused: String)
    requires
        call_ensures(write_result, (true,), response),
        call_ensures(write_result, (false,), refused),
    ensures
        "HTTP/1.1 200 OK"@.is_prefix_of(response@),
        "HTTP/1.1 400 Bad Request"@.is_prefix_of(refused@),
        result_text(true).is_suffix_of(response@),
        result_text(false).is_suffix_of(refused@),
{
    results_differ_in_the_outcome_only();
    let (head, tail) = choose|head: Seq<char>, tail: Seq<char>|
        {
            &&& result_response(true) == "HTTP/1.1 200 OK"@ + #[trigger] (head
                + text::decimal_digits(vstd::utf8::encode_utf8(result_text(true)).len()) + tail)
                + result_text(true)
            &&& result_response(false) == "HTTP/1.1 400 Bad Request"@ + (head
                + text::decimal_digits(vstd::utf8::encode_utf8(result_text(false)).len()) + tail)
                + result_text(false)
        };
    let granted = "HTTP/1.1 200 OK"@;
    let denied = "HTTP/1.1 400 Bad Request"@;
    assert(granted =~= response@.subrange(0, granted.len() as int));
    assert(denied =~= refused@.subrange(0, denied.len() as int));
    assert(result_text(true) =~= response@.subrange(
        response@.len() - result_text(true).len(),
        response@.len() as int,
    ));
    assert(result_text(false) =~= refused@.subrange(
        refused@.len() - result_text(false).len(),
        refused@.len() as int,
    ));
}

} // verus!
