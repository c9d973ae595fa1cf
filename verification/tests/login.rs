use astra::browser_code::{
    append_capability, callback_code, is_authorization_code, parameters_callback_code,
    redeem_request, redeem_url, write_result, CodeExchange, RedeemFailure,
};
use astra::device_login::{
    login_url, poll_request, poll_url, start_reply, start_request, start_url, wait_for_approval,
    AnswerFailure, Polled, StartReply, Started, WaitAction, WaitEvent,
};
use astra::login::{
    acceptable_key, challenge, constant_time_eq, endpoint, is_success, new_verifier,
    verifier_from, BoundedBody,
};
use astra::turn_auth_retry::{
    prepare_auth_refresh_retry, should_retry_after_auth_refresh, PartialTurnData, RetryAction,
    RetryEvent, TurnFailure,
};
use base64::engine::general_purpose::URL_SAFE_NO_PAD;
use base64::Engine;
use sha2::Digest;
use sha2::Sha256;

fn parsed(text: &str) -> serde_json::Value {
    serde_json::from_str(text).unwrap()
}

#[test]
fn capability_is_explicit_and_never_exposes_verifier() {
    let secret = new_verifier();
    let url = append_capability(
        "https://example.com/connect/astra?port=1234&state=state",
        &secret,
    )
    .unwrap();
    assert!(!url.contains(&secret));
    let url = url::Url::parse(&url).unwrap();
    let fields: std::collections::HashMap<_, _> = url.query_pairs().collect();
    assert_eq!(fields["code_challenge_method"], "S256");
    assert_eq!(fields["callback_transport"], "authorization_code_v1");
    assert_eq!(
        fields["code_challenge"],
        URL_SAFE_NO_PAD.encode(Sha256::digest(secret.as_bytes()))
    );
    assert_eq!((&*fields["port"], &*fields["state"]), ("1234", "state"));
    assert_eq!((url.host_str(), url.path()), (Some("example.com"), "/connect/astra"));
    assert_eq!(
        append_capability("not a url", &secret).unwrap_err(),
        "Invalid website login URL"
    );
}

#[test]
fn callback_requires_matching_state_and_unambiguous_code() {
    let code = new_verifier();
    assert_eq!(
        callback_code(&format!("/callback?state=expected&code={code}"), "expected").unwrap(),
        code
    );
    for target in [
        format!("/callback?state=wrong&code={code}"),
        format!("/callback?state=expected&state=expected&code={code}"),
        format!("/callback?state=expected&code={code}&code={code}"),
        format!("http://evil.invalid/callback?state=expected&code={code}"),
        "/callback?state=expected&code=short".into(),
        format!("/callback?state=expected&code={code}#fragment"),
    ] {
        assert!(callback_code(&target, "expected").is_err());
    }
}

#[test]
fn callback_errors_say_what_is_wrong() {
    let code = new_verifier();
    for (target, message) in [
        ("/other?state=expected".to_string(), "Invalid callback"),
        (format!("/callback?state=expected&code={code}&x=1"), "Invalid callback parameters"),
        (format!("/callback?code={code}"), "Invalid callback state"),
        ("/callback?state=expected".to_string(), "Missing authorization code"),
        ("/callback?state=expected&code=%2B".to_string(), "Invalid authorization code"),
    ] {
        assert_eq!(callback_code(&target, "expected").unwrap_err(), message);
    }
    // Parameters are read decoded, in either order.
    assert_eq!(callback_code(&format!("/callback?code={code}&st%61te=a%20b"), "a b").unwrap(), code);
}

#[test]
fn parameters_are_judged_without_a_target() {
    let code = verifier_from(&[7; 16], &[9; 16]);
    let pair = |name: &str, value: &str| (name.to_string(), value.to_string());
    assert_eq!(
        parameters_callback_code(&vec![pair("state", ""), pair("code", &code)], "").unwrap(),
        code
    );
    // An absent state is an empty one.
    assert_eq!(parameters_callback_code(&vec![pair("code", &code)], "").unwrap(), code);
    assert!(parameters_callback_code(&vec![], "").is_err());
    assert!(is_authorization_code(&code));
    assert!(!is_authorization_code(&code[1..]));
    assert!(!is_authorization_code(&format!("{}+", &code[1..])));
}

#[test]
fn secrets_are_fresh_and_decode_to_their_bytes() {
    let first: [u8; 16] = [1; 16];
    let second: [u8; 16] = [2; 16];
    let secret = verifier_from(&first, &second);
    assert_eq!(secret, "AQEBAQEBAQEBAQEBAQEBAQICAgICAgICAgICAgICAgI");
    assert_eq!(URL_SAFE_NO_PAD.decode(&secret).unwrap(), [first, second].concat());
    let fresh = URL_SAFE_NO_PAD.decode(new_verifier()).unwrap();
    assert_eq!((fresh[6] >> 4, fresh[8] >> 6, fresh[22] >> 4, fresh[24] >> 6), (4, 2, 4, 2));
    assert_eq!(challenge("abc"), "ungWv48Bz-pBQUDeXa4iI7ADYaOWF3qctBD_YfIAFa0");
}

#[test]
fn constant_time_comparison_is_equality() {
    assert!(constant_time_eq(b"", b""));
    assert!(constant_time_eq(b"same", b"same"));
    assert!(!constant_time_eq(b"same", b"sane"));
    assert!(!constant_time_eq(b"same", b"sam"));
}

#[test]
fn redeem_requests_bind_code_secret_port_and_state() {
    assert_eq!(
        redeem_url("https://example.com//"),
        "https://example.com/api/auth/astra/browser-login/redeem"
    );
    assert_eq!(
        redeem_request("code", "secret", 1234, "nonce"),
        parsed(
            "{\"authorization_code\":\"code\",\"code_verifier\":\"secret\",\"redirect_uri\":\"http://127.0.0.1:1234/callback\",\"state\":\"nonce\"}"
        )
    );
}

#[test]
fn only_success_continues_an_exchange() {
    for status in [200, 302, 403, 409, 429, 503] {
        assert_eq!(CodeExchange::begin(status).is_ok(), status == 200);
    }
    for (status, message) in [
        (403, "Login code is invalid, expired, or no longer authorized; run astra login again"),
        (409, "Login code has already been used; run astra login again"),
        (429, "Login is rate limited; wait before running astra login again"),
        (302, "Login code exchange is unavailable; run astra login again"),
    ] {
        assert_eq!(CodeExchange::begin(status).err().unwrap(), message);
    }
}

#[test]
fn exchanges_end_with_a_bounded_key() {
    assert_eq!(CodeExchange::complete(Some("test-key".to_string())).unwrap(), "test-key");
    assert_eq!(CodeExchange::complete(None).unwrap_err(), "Invalid login code response");
    for key in [String::new(), "x".repeat(4097)] {
        assert_eq!(CodeExchange::complete(Some(key)).unwrap_err(), "Invalid login credential");
    }
    assert!(acceptable_key(&"x".repeat(4096)));
    assert!(!acceptable_key(&"é".repeat(2049)));
}

#[test]
fn bodies_are_bounded_however_they_are_cut() {
    let mut body = BoundedBody::new();
    assert!(body.push(&[1; 8000]).is_ok());
    assert_eq!(body.push(&[2; 193]).unwrap_err(), "Login response is too large");
    assert!(body.push(&[2; 192]).is_ok());
    assert_eq!(body.bytes().len(), 8192);
    assert_eq!(body.bytes()[8000], 2);
    assert!(body.push(&[]).is_ok());
    assert!(body.push(&[3]).is_err());
    assert!(BoundedBody::new().push(&[0; 8193]).is_err());
}

#[test]
fn results_are_plain_and_not_cached() {
    let response = write_result(true);
    assert_eq!(
        response,
        "HTTP/1.1 200 OK\r\nContent-Type: text/plain; charset=utf-8\r\nCache-Control: no-store\r\nReferrer-Policy: no-referrer\r\nContent-Security-Policy: default-src 'none'; frame-ancestors 'none'\r\nContent-Length: 79\r\nConnection: close\r\n\r\nYou are signed in to Astra. You can close this tab and return to your terminal."
    );
    let refused = write_result(false);
    assert!(refused.starts_with("HTTP/1.1 400 Bad Request\r\n"));
    let (head, text) = refused.split_once("\r\n\r\n").unwrap();
    assert!(head.contains(&format!("Content-Length: {}\r\n", text.len())));
}

fn configuration() -> Started {
    Started { login_ticket: "header.payload.signature".to_string(), expires_in: 300, interval: 1 }
}

#[test]
fn verification_url_stays_on_discovered_website_and_never_contains_verifier() {
    let started = configuration();
    let secret = new_verifier();
    assert_eq!(URL_SAFE_NO_PAD.decode(&secret).unwrap().len(), 32);
    assert_ne!(secret, new_verifier());
    let url = login_url(Ok(()), "https://example.com", &started, "1.2.3").unwrap();
    let url = url::Url::parse(&url).unwrap();
    assert_eq!(url.origin().ascii_serialization(), "https://example.com");
    assert_eq!(url.path(), "/connect/astra");
    assert!(!url.as_str().contains(&secret));
    assert!(!url.as_str().contains("code_verifier"));
    assert_eq!(url.query(), Some("request=header.payload.signature&cli_version=1.2.3"));
    let invalid =
        Started { login_ticket: "https://evil.invalid/\n".to_string(), ..configuration() };
    assert!(login_url(Ok(()), "https://example.com", &invalid, "1.2.3").is_err());
    for (expires_in, interval) in [(0, 1), (301, 1), (300, 0), (300, 11)] {
        let invalid = Started { expires_in, interval, ..configuration() };
        assert_eq!(
            login_url(Ok(()), "https://example.com", &invalid, "1.2.3").unwrap_err(),
            "Invalid website login configuration"
        );
    }
}

#[test]
fn login_pages_need_a_website_that_passed() {
    assert_eq!(
        login_url(Err("refused".to_string()), "https://example.com", &configuration(), "1")
            .unwrap_err(),
        "refused"
    );
    assert_eq!(
        login_url(Ok(()), "no website", &configuration(), "1").unwrap_err(),
        "Invalid website login URL"
    );
    for length in [0, 2049] {
        let invalid = Started { login_ticket: "t".repeat(length), ..configuration() };
        assert!(!invalid.is_valid());
    }
    assert!(Started { login_ticket: "t".repeat(2048), expires_in: 1, interval: 10 }.is_valid());
}

#[test]
fn only_an_absent_endpoint_allows_the_older_login() {
    for status in [200, 404, 401, 429, 500, 302] {
        let reply = start_reply(status);
        assert_eq!(matches!(reply, StartReply::Legacy), status == 404);
        assert_eq!(matches!(reply, StartReply::ReadBody), status == 200);
        if let StartReply::Unavailable(message) = reply {
            assert_eq!(message, format!("Website login is unavailable (HTTP {status})"));
        }
    }
}

#[test]
fn starting_sends_only_the_challenge() {
    assert_eq!(
        start_request("abc"),
        parsed("{\"code_challenge\":\"ungWv48Bz-pBQUDeXa4iI7ADYaOWF3qctBD_YfIAFa0\"}")
    );
    assert_eq!(
        start_url("http://localhost:8080/"),
        "http://localhost:8080/api/auth/astra/device-login/start"
    );
}

#[test]
fn polling_repeats_only_pending_answers() {
    let started = configuration();
    let answered = |status: &str, key: Option<&str>| {
        wait_for_approval(
            &started,
            WaitEvent::Answered(Polled {
                status: status.to_string(),
                connection_key: key.map(|key| key.to_string()),
            }),
        )
    };
    assert!(matches!(answered("pending", None), WaitAction::Sleep(1)));
    assert!(matches!(wait_for_approval(&started, WaitEvent::Slept), WaitAction::Poll));
    assert!(matches!(
        answered("approved", Some("test-only-key")),
        WaitAction::Finish(Ok(key)) if key == "test-only-key"
    ));
    let long = "x".repeat(4097);
    for (status, key) in [
        ("approved", None),
        ("pending", Some("unexpected")),
        ("approved", Some("")),
        ("approved", Some(long.as_str())),
        ("denied", None),
    ] {
        assert!(matches!(
            answered(status, key),
            WaitAction::Finish(Err(message))
                if message == "Invalid website login response; run astra login again"
        ));
    }
    for (event, expected) in [
        (
            WaitEvent::Refused(409),
            "Login approval is unavailable, expired or already used (HTTP 409); run astra login again",
        ),
        (
            WaitEvent::Unreachable,
            "Login result could not be retrieved; run astra login again",
        ),
        (WaitEvent::Unreadable("too large".to_string()), "too large"),
        (WaitEvent::Expired, "Browser login timed out; run astra login again"),
    ] {
        assert!(matches!(
            wait_for_approval(&started, event),
            WaitAction::Finish(Err(message)) if message == expected
        ));
    }
}

#[test]
fn poll_requests_prove_possession_of_the_secret() {
    assert_eq!(
        poll_request(&configuration(), "secret"),
        parsed("{\"login_ticket\":\"header.payload.signature\",\"code_verifier\":\"secret\"}")
    );
    assert_eq!(
        poll_url("https://example.com"),
        "https://example.com/api/auth/astra/device-login/poll"
    );
    assert_eq!(endpoint("a///", "/b"), "a/b");
    assert!(is_success(299) && !is_success(300) && !is_success(199));
}

fn failure(error: &str, code: Option<&str>, metadata: Option<&str>) -> TurnFailure {
    TurnFailure {
        error: error.to_string(),
        partial: PartialTurnData {
            error_code: code.map(|code| code.to_string()),
            error_metadata: metadata.map(parsed),
        },
    }
}

#[test]
fn should_retry_after_auth_refresh_matches_session_auth_only() {
    for (error, expected) in [
        (
            "API Error (401): Could not validate credentials\n  Hint: Session expired — try /login",
            true,
        ),
        ("LLM provider authentication failed", false),
        ("[auth] LLM provider authentication failed", false),
        ("[auth] Model provider rejected credentials", false),
        ("rate limited", false),
    ] {
        let failure = failure(error, None, None);
        assert_eq!(
            should_retry_after_auth_refresh(&failure, "auth", expected),
            expected,
            "{error}"
        );
    }
}

#[test]
fn catalog_failures_are_retried_by_their_metadata() {
    let unauthorized = "{\"source\":\"model_access\",\"http_status\":401}";
    for (code, metadata, expected) in [
        (Some("auth"), unauthorized, true),
        (Some("auth"), "{\"source\":\"model_access\",\"http_status\":403}", false),
        (Some("auth"), "{\"source\":\"model_access\",\"http_status\":\"401\"}", false),
        (Some("auth"), "{\"source\":\"model_access\"}", false),
        (Some("other"), unauthorized, false),
        (None, unauthorized, false),
    ] {
        for wording in [false, true] {
            let failure = failure("translated authentication message", code, Some(metadata));
            assert_eq!(should_retry_after_auth_refresh(&failure, "auth", wording), expected);
        }
    }
    for metadata in ["{\"source\":\"turn\",\"http_status\":401}", "{}", "[]", "{\"source\":1}"] {
        for wording in [false, true] {
            let failure = failure("x", Some("auth"), Some(metadata));
            assert_eq!(should_retry_after_auth_refresh(&failure, "auth", wording), wording);
        }
    }
}

#[test]
fn a_retry_needs_a_refresh_and_a_token() {
    assert!(matches!(
        prepare_auth_refresh_retry(RetryEvent::Failed(false), "ok"),
        RetryAction::GiveUp
    ));
    assert!(matches!(
        prepare_auth_refresh_retry(RetryEvent::Failed(true), "ok"),
        RetryAction::WarnAndRefresh(warning) if warning == "  Token expired, attempting refresh…"
    ));
    assert!(matches!(
        prepare_auth_refresh_retry(RetryEvent::Refreshed(false), "ok"),
        RetryAction::GiveUp
    ));
    assert!(matches!(
        prepare_auth_refresh_retry(RetryEvent::Refreshed(true), "ok"),
        RetryAction::ReadToken
    ));
    assert!(matches!(
        prepare_auth_refresh_retry(RetryEvent::CurrentToken(None), "ok"),
        RetryAction::GiveUp
    ));
    assert!(matches!(
        prepare_auth_refresh_retry(RetryEvent::CurrentToken(Some("new-access".to_string())), "ok"),
        RetryAction::Retry { token, notice }
            if token == "new-access" && notice == "  ok Token refreshed, retrying…"
    ));
}

#[test]
fn failures_on_the_way_have_texts() {
    for (message, expected) in [
        (RedeemFailure::NoClient.message(), "Could not initialize login code exchange"),
        (RedeemFailure::Unanswered.message(), "Login code exchange failed; run astra login again"),
        (
            RedeemFailure::Interrupted.message(),
            "Login response was interrupted; run astra login again",
        ),
        (AnswerFailure::NoClient.message(), "Could not initialize website login"),
        (
            AnswerFailure::Unanswered.message(),
            "Could not contact the login website; check your connection and retry",
        ),
        (
            AnswerFailure::Interrupted.message(),
            "Login response could not be read; run astra login again",
        ),
        (AnswerFailure::Malformed.message(), "Invalid website login response"),
    ] {
        assert_eq!(message, expected);
    }
}

#[test]
fn file_urls_may_lose_their_host_when_read_back() {
    let before = url::Url::parse("file://h//C:/x").unwrap();
    assert_eq!(before.host_str(), Some("h"));
    let page = append_capability("file://h//C:/x", "secret").unwrap();
    let after = url::Url::parse(&page).unwrap();
    assert_eq!((after.scheme(), after.port(), after.host_str()), ("file", None, None));
    assert_eq!(after.query_pairs().count(), 3);
}
