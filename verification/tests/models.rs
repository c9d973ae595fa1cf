use astra::model_wire::apply_chat_output_token_limit;
use astra::protocol_history::{content_contains_tool_block, messages_contain_tool_protocol};
use astra::thinking::{
    canonical_thinking_protocol, choose_temperature, configured_temperature,
    endpoint_thinking_protocol, is_dashscope_provider, DoubleBits, TemperatureError,
    ThinkingProtocol,
};
use astra::thinking_probe::{
    cached_capability, probe_identity, ChatProbe, ProbeStep, StoredSnapshot, ThinkingCapability,
    ThinkingProbeResult, ThinkingProbeSnapshot,
};
use astra::text::{is_white_space, trim};
use astra::web::UrlParts;

fn json(text: &str) -> serde_json::Value {
    serde_json::from_str(text).unwrap()
}

#[test]
fn detects_supported_tool_protocol_history_shapes() {
    for messages in [
        vec![json("{\"role\":\"assistant\",\"tool_calls\":[{\"id\":\"call-1\"}]}")],
        vec![json("{\"role\":\"tool\",\"tool_call_id\":\"call-1\",\"content\":\"ok\"}")],
        vec![json(
            "{\"role\":\"assistant\",\"content\":[{\"type\":\"tool_use\",\"id\":\"call-1\"}]}",
        )],
        vec![json(
            "{\"role\":\"user\",\"content\":[{\"type\":\"tool_result\",\"tool_use_id\":\"call-1\"}]}",
        )],
        vec![json(
            "{\"role\":\"assistant\",\"content\":[{\"toolUse\":{\"toolUseId\":\"call-1\"}}]}",
        )],
        vec![json(
            "{\"role\":\"user\",\"content\":[{\"toolResult\":{\"toolUseId\":\"call-1\"}}]}",
        )],
    ] {
        assert!(messages_contain_tool_protocol(&messages), "{messages:?}");
    }
}

#[test]
fn ordinary_history_does_not_claim_a_tool_protocol() {
    assert!(!messages_contain_tool_protocol(&[
        json("{\"role\":\"user\",\"content\":\"hello\"}"),
        json("{\"role\":\"assistant\",\"content\":[{\"type\":\"text\",\"text\":\"hi\"}]}")
    ]));
    assert!(!messages_contain_tool_protocol(&[json(
        "{\"role\":\"assistant\",\"tool_calls\":[]}"
    )]));
}

#[test]
fn content_may_be_one_block_or_several() {
    assert!(content_contains_tool_block(Some(&json("{\"type\":\"tool_use\"}"))));
    assert!(content_contains_tool_block(Some(&json("[1,{\"toolResult\":null}]"))));
    assert!(!content_contains_tool_block(Some(&json("\"tool_use\""))));
    assert!(!content_contains_tool_block(Some(&json("[\"tool_use\",[{\"toolUse\":1}]]"))));
    assert!(!content_contains_tool_block(None));
    assert!(!messages_contain_tool_protocol(&[]));
    assert!(messages_contain_tool_protocol(&[json("{}"), json("{\"tool_call_id\":null}")]));
}

#[test]
fn output_limit_uses_the_protocol_not_the_model_name() {
    for provider in ["openai", "openai-compatible", "deepseek", "anthropic"] {
        let mut body = json("{\"model\":\"o3\", \"max_tokens\":1, \"max_completion_tokens\":2}");
        apply_chat_output_token_limit(&mut body, provider, 32);
        let (field, absent) = if provider == "anthropic" {
            ("max_tokens", "max_completion_tokens")
        } else {
            ("max_completion_tokens", "max_tokens")
        };
        assert_eq!(body[field], 32);
        assert!(body.get(absent).is_none());
        assert_eq!(body["model"], "o3");
    }
}

#[test]
fn the_last_output_limit_wins_and_only_objects_have_one() {
    let mut body = json("{}");
    apply_chat_output_token_limit(&mut body, "anthropic", 1);
    apply_chat_output_token_limit(&mut body, "openai", 2);
    assert_eq!(body, json("{\"max_completion_tokens\":2}"));
    let mut list = json("[1]");
    apply_chat_output_token_limit(&mut list, "openai", 2);
    assert_eq!(list, json("[1]"));
}

#[test]
fn toggle_preserves_explicit_sampling_in_both_modes() {
    for enabled in [false, true] {
        let mut body = json(
            "{\"temperature\":0.7,\"top_p\":0.9,\"presence_penalty\":0.1,\"frequency_penalty\":0.2}",
        );
        let original = body.clone();
        ThinkingProtocol::Moonshot.apply(&mut body, enabled, Some("low"));
        for key in [
            "temperature",
            "top_p",
            "presence_penalty",
            "frequency_penalty",
        ] {
            assert_eq!(body[key], original[key]);
        }
        assert!(body.get("reasoning_effort").is_none());
    }
}

#[test]
fn unknown_preserves_existing_controls_and_dashscope_aliases_agree() {
    let mut body = json(
        "{\"reasoning_effort\":\"high\",\"enable_thinking\":false,\"thinking\":{\"type\":\"enabled\"}}",
    );
    let original = body.clone();
    ThinkingProtocol::Unknown.apply(&mut body, true, Some("low"));
    assert_eq!(body, original);
    for provider in ["dashscope-intl", "alibaba-cloud", "aliyun"] {
        assert_eq!(
            canonical_thinking_protocol(provider, "https://gateway.example/v1", "m"),
            ThinkingProtocol::EnableThinking
        );
    }
}

fn bits(value: f64) -> DoubleBits {
    DoubleBits(value.to_bits())
}

#[test]
fn shared_temperature_checks_explicit_conflicts_only() {
    assert_eq!(configured_temperature(None, Some(bits(0.6))).unwrap(), Some(bits(0.6)));
    let values = json("{\"temperature\":0.7}");
    assert_eq!(
        configured_temperature(values.as_object(), None).unwrap(),
        Some(bits(0.7))
    );
    assert!(configured_temperature(values.as_object(), Some(bits(0.6))).is_err());
    assert!(configured_temperature(None, Some(bits(f64::NAN))).is_err());
}

#[test]
fn temperatures_are_finite_and_not_negative() {
    for value in [-0.1, f64::INFINITY, f64::NEG_INFINITY, f64::NAN, -f64::MIN_POSITIVE] {
        assert_eq!(
            choose_temperature(Some(bits(value)), None),
            Err(TemperatureError::InvalidOverride)
        );
        assert_eq!(
            choose_temperature(None, Some(bits(value))),
            Err(TemperatureError::InvalidFixed)
        );
        assert_eq!(bits(value).is_sampling(), value.is_finite() && value >= 0.0);
    }
    for value in [0.0, -0.0, 1.0, f64::MAX, f64::MIN_POSITIVE] {
        assert_eq!(choose_temperature(None, Some(bits(value))), Ok(Some(bits(value))));
        assert!(bits(value).is_sampling());
    }
    assert_eq!(choose_temperature(Some(bits(-0.0)), Some(bits(0.0))), Ok(Some(bits(-0.0))));
    assert_eq!(choose_temperature(None, None), Ok(None));
    for text in ["{\"temperature\":\"0.7\"}", "{\"temperature\":null}"] {
        assert_eq!(
            configured_temperature(json(text).as_object(), None),
            Err(TemperatureError::InvalidOverride)
        );
    }
    // Integers are numbers too.
    assert_eq!(
        configured_temperature(json("{\"temperature\":1}").as_object(), Some(bits(1.0))),
        Ok(Some(bits(1.0)))
    );
    assert_eq!(configured_temperature(json("{}").as_object(), None), Ok(None));
}

#[test]
fn temperature_errors_have_texts() {
    let conflict = choose_temperature(Some(bits(0.7)), Some(bits(0.6))).unwrap_err();
    assert_eq!(conflict, TemperatureError::Conflict { configured: bits(0.7), fixed: bits(0.6) });
    assert_eq!(
        conflict.message("0.7", "0.6"),
        "request_body_overrides.temperature (0.7) conflicts with fixed_temperature (0.6)"
    );
    assert_eq!(
        TemperatureError::InvalidOverride.message("", ""),
        "request_body_overrides.temperature must be a finite non-negative number"
    );
    assert_eq!(
        TemperatureError::InvalidFixed.message("", ""),
        "fixed_temperature must be a finite non-negative number"
    );
}

#[test]
fn canonical_contract_rejects_gateway_name_and_url_spoofing() {
    for url in [
        "https://api.moonshot.cn.evil.test/v1",
        "https://api.moonshot.cn@evil.test/v1",
        "https://evil.test/api.moonshot.cn/v1",
        "https://api.moonshot.cn:8443/v1",
        "https://api.moonshot.cn/proxy",
    ] {
        assert_eq!(
            canonical_thinking_protocol("openai-compatible", url, "kimi-k2.6"),
            ThinkingProtocol::Unknown
        );
    }
    assert_eq!(
        canonical_thinking_protocol(
            "openai-compatible",
            "https://api.moonshot.cn/v1",
            "unknown"
        ),
        ThinkingProtocol::Unknown
    );
    assert_eq!(
        canonical_thinking_protocol(
            "openai-compatible",
            "https://api.moonshot.cn/v1",
            "kimi-k2.6"
        ),
        ThinkingProtocol::Moonshot
    );
}

#[test]
fn adapters_have_their_protocols() {
    for (provider, url, protocol) in [
        (" Anthropic ", "https://api.deepseek.com", ThinkingProtocol::Unknown),
        ("bedrock", "", ThinkingProtocol::Unknown),
        ("deepseek-cn", "", ThinkingProtocol::ThinkingObject),
        ("custom", "https://eu.deepseek.com./v1", ThinkingProtocol::ThinkingObject),
        ("custom", "https://notdeepseek.com/v1", ThinkingProtocol::Unknown),
        ("custom", "https://x.dashscope.aliyuncs.com", ThinkingProtocol::EnableThinking),
        ("custom", "https://dashscope-us.aliyuncs.com", ThinkingProtocol::EnableThinking),
        ("custom", "https://api.moonshot.ai/v1/", ThinkingProtocol::Moonshot),
        ("custom", "http://api.moonshot.ai/v1", ThinkingProtocol::Unknown),
        ("OPENAI", "https://api.openai.com/v1", ThinkingProtocol::ReasoningEffort),
        ("openai", "", ThinkingProtocol::ReasoningEffort),
        ("openai", "https://proxy.test", ThinkingProtocol::Unknown),
        ("\u{2003}openai\n", "", ThinkingProtocol::ReasoningEffort),
    ] {
        assert_eq!(canonical_thinking_protocol(provider, url, "kimi-k3"), protocol, "{provider} {url}");
    }
    assert!(is_dashscope_provider("My-DashScope"));
    assert!(!is_dashscope_provider("dash-scope"));
    let parts = Some(UrlParts {
        scheme: "https".to_string(),
        host: Some("api.moonshot.cn".to_string()),
        port: Some(443),
        path: "/v1".to_string(),
        query: vec![],
    });
    assert_eq!(
        endpoint_thinking_protocol("custom", &parts, "x", "kimi-k2.5"),
        ThinkingProtocol::Moonshot
    );
    assert_eq!(ThinkingProtocol::default(), ThinkingProtocol::Unknown);
}

#[test]
fn controls_are_exclusive_and_unknown_emits_nothing() {
    for protocol in [
        ThinkingProtocol::EnableThinking,
        ThinkingProtocol::ThinkingObject,
        ThinkingProtocol::Moonshot,
        ThinkingProtocol::ReasoningEffort,
    ] {
        let mut body = json(
            "{\"thinking\": {}, \"enable_thinking\": true, \"reasoning_effort\": \"max\", \"temperature\": 0}",
        );
        protocol.apply(&mut body, false, None);
        assert!(body.get("reasoning_effort").is_none());
        assert_eq!(
            body.get("enable_thinking").is_some(),
            protocol == ThinkingProtocol::EnableThinking
        );
        assert_eq!(
            body.get("thinking").is_some(),
            matches!(
                protocol,
                ThinkingProtocol::ThinkingObject | ThinkingProtocol::Moonshot
            )
        );
        if protocol == ThinkingProtocol::Moonshot {
            assert_eq!(body["temperature"], 0);
        }
    }
}

#[test]
fn each_protocol_writes_its_own_controls() {
    for (protocol, enabled, expected) in [
        (ThinkingProtocol::EnableThinking, true, "{\"enable_thinking\":true}"),
        (ThinkingProtocol::EnableThinking, false, "{\"enable_thinking\":false}"),
        (
            ThinkingProtocol::ThinkingObject,
            true,
            "{\"thinking\":{\"type\":\"enabled\"},\"reasoning_effort\":\"max\"}",
        ),
        (ThinkingProtocol::ThinkingObject, false, "{\"thinking\":{\"type\":\"disabled\"}}"),
        (ThinkingProtocol::Moonshot, true, "{\"thinking\":{\"type\":\"enabled\"}}"),
        (ThinkingProtocol::ReasoningEffort, true, "{\"reasoning_effort\":\"max\"}"),
        (ThinkingProtocol::ReasoningEffort, false, "{}"),
    ] {
        let mut body = json("{\"thinking\":1}");
        protocol.apply(&mut body, enabled, Some("max"));
        assert_eq!(body, json(expected));
        assert_eq!(
            protocol.can_disable(),
            !matches!(protocol, ThinkingProtocol::Unknown | ThinkingProtocol::ReasoningEffort)
        );
    }
    let mut list = json("[]");
    ThinkingProtocol::Moonshot.apply(&mut list, true, None);
    assert_eq!(list, json("[]"));
    // The last application wins.
    let mut body = json("{}");
    ThinkingProtocol::ThinkingObject.apply(&mut body, true, Some("low"));
    ThinkingProtocol::EnableThinking.apply(&mut body, false, Some("low"));
    assert_eq!(body, json("{\"enable_thinking\":false}"));
}

#[test]
fn inconclusive_probe_preserves_only_matching_knowledge() {
    let protocol = ThinkingProtocol::ThinkingObject;
    let success = ThinkingProbeResult {
        capability: ThinkingCapability::Both,
        error: None,
    };
    let failure = ThinkingProbeResult {
        capability: ThinkingCapability::Absent,
        error: Some("inconclusive".into()),
    };
    let raw = StoredSnapshot::Parsed(ThinkingProbeSnapshot::new(
        "identity".into(),
        protocol,
        &success,
    ));
    let retained = ThinkingProbeSnapshot::new("identity".into(), protocol, &failure)
        .with_previous(&raw, None);
    assert_eq!(
        retained.capability("identity", protocol),
        Some(ThinkingCapability::Both)
    );
    assert!(retained
        .result("identity", protocol)
        .unwrap()
        .error
        .is_some());
    for changed in ["rotated-key", "changed-model"] {
        let invalid = ThinkingProbeSnapshot::new(changed.into(), protocol, &failure)
            .with_previous(&raw, Some(ThinkingCapability::Both));
        assert_eq!(invalid.capability(changed, protocol), None);
    }
    let legacy = ThinkingProbeSnapshot::new("identity".into(), protocol, &failure)
        .with_previous(&StoredSnapshot::Absent, Some(ThinkingCapability::NativeOnly));
    assert!(legacy.legacy_hint);
    assert_eq!(
        legacy.persisted_capability(),
        Some(ThinkingCapability::NativeOnly)
    );
    let malformed = ThinkingProbeSnapshot::new("identity".into(), protocol, &failure)
        .with_previous(&StoredSnapshot::Malformed, Some(ThinkingCapability::Both));
    assert_eq!(malformed.persisted_capability(), None);
    let native = ThinkingProbeResult {
        capability: ThinkingCapability::NativeOnly,
        error: None,
    };
    let baseline =
        ThinkingProbeSnapshot::new("identity".into(), ThinkingProtocol::Unknown, &native)
            .with_previous(&StoredSnapshot::Absent, Some(ThinkingCapability::Both));
    assert_eq!(
        baseline.persisted_capability(),
        Some(ThinkingCapability::Both)
    );
    assert!(
        baseline.legacy_hint,
        "baseline must not claim it verified a toggle"
    );
}

#[test]
fn snapshot_reuse_is_bound_to_exact_configuration_and_revision() {
    let identity = probe_identity(
        "openai-compatible",
        "https://provider.test/v1",
        "m",
        "ciphertext-v1",
        "{}",
    );
    let result = ThinkingProbeResult {
        capability: ThinkingCapability::Both,
        error: None,
    };
    let snapshot =
        ThinkingProbeSnapshot::new(identity.clone(), ThinkingProtocol::ThinkingObject, &result);
    let raw = StoredSnapshot::Parsed(snapshot.clone());
    assert_eq!(
        cached_capability(&raw, &identity, ThinkingProtocol::ThinkingObject),
        Some(ThinkingCapability::Both)
    );
    for changed in [
        probe_identity(
            "openai",
            "https://provider.test/v1",
            "m",
            "ciphertext-v1",
            "{}",
        ),
        probe_identity(
            "openai-compatible",
            "https://other.test/v1",
            "m",
            "ciphertext-v1",
            "{}",
        ),
        probe_identity(
            "openai-compatible",
            "https://provider.test/v1",
            "n",
            "ciphertext-v1",
            "{}",
        ),
        probe_identity(
            "openai-compatible",
            "https://provider.test/v1",
            "m",
            "ciphertext-v2",
            "{}",
        ),
        probe_identity(
            "openai-compatible",
            "https://provider.test/v1",
            "m",
            "ciphertext-v1",
            "{\"changed\":true}",
        ),
    ] {
        assert_eq!(
            cached_capability(&raw, &changed, ThinkingProtocol::ThinkingObject),
            None
        );
    }
    assert_eq!(
        cached_capability(&raw, &identity, ThinkingProtocol::Moonshot),
        None
    );
    assert_eq!(
        cached_capability(&StoredSnapshot::Absent, &identity, ThinkingProtocol::ThinkingObject),
        None
    );
    let mut stale = snapshot.clone();
    stale.revision += 1;
    assert_eq!(
        stale.capability(&identity, ThinkingProtocol::ThinkingObject),
        None
    );
    let failed = ThinkingProbeSnapshot::new(
        identity.clone(),
        ThinkingProtocol::ThinkingObject,
        &ThinkingProbeResult {
            capability: ThinkingCapability::Both,
            error: Some("failed".into()),
        },
    );
    assert_eq!(
        failed.capability(&identity, ThinkingProtocol::ThinkingObject),
        None
    );
}

#[test]
fn identities_are_digests_of_the_serialized_configuration() {
    let serialized = "[\"a\",\"b\",\"c\",\"d\\\"\",\"e\"]";
    let expected: String = sha2::Digest::finalize(sha2::Digest::chain_update(
        <sha2::Sha256 as sha2::Digest>::new(),
        serialized.as_bytes(),
    ))
    .iter()
    .map(|byte: &u8| format!("{byte:02x}"))
    .collect();
    assert_eq!(probe_identity("a", "b", "c", "d\"", "e"), expected);
    assert_ne!(probe_identity("a,", "b", "", "", ""), probe_identity("a", ",b", "", "", ""));
}

#[test]
fn snapshots_say_when_they_were_observed() {
    let result = ThinkingProbeResult { capability: ThinkingCapability::EffortOnly, error: None };
    let now = ThinkingProbeSnapshot::new("i".into(), ThinkingProtocol::Unknown, &result);
    assert!(chrono::DateTime::parse_from_rfc3339(&now.observed_at).is_ok());
    let then = ThinkingProbeSnapshot::observed(
        "i".into(),
        ThinkingProtocol::Unknown,
        &result,
        "2025-01-15T10:30:00+00:00".to_string(),
    );
    assert_eq!(then.observed_at, "2025-01-15T10:30:00+00:00");
    assert!(then.result("j", ThinkingProtocol::Unknown).is_none());
    assert_eq!(
        then.result("i", ThinkingProtocol::Unknown).unwrap().capability,
        ThinkingCapability::EffortOnly
    );
}

fn done(step: ProbeStep) -> (ThinkingCapability, Option<String>) {
    match step {
        ProbeStep::Done(result) => (result.capability, result.error),
        ProbeStep::SendDisabled(_) => panic!("the probe is over"),
    }
}

#[test]
fn probes_ask_one_question_with_and_without_reasoning() {
    let probe = ChatProbe { protocol: ThinkingProtocol::EnableThinking };
    let enabled = probe.enabled_request("openai-compatible", "fixture");
    assert_eq!(
        enabled,
        json(
            "{\"model\":\"fixture\",\"messages\":[{\"role\":\"user\",\"content\":\"Calculate 17 * 23. Reply with the result.\"}],\"max_completion_tokens\":1024,\"enable_thinking\":true}"
        )
    );
    let ProbeStep::SendDisabled(disabled) = probe.after_enabled(enabled.clone(), Ok(true)) else {
        panic!("a toggle needs a second request");
    };
    let mut expected = enabled.clone();
    expected["enable_thinking"] = serde_json::Value::from(false);
    assert_eq!(disabled, expected);
    let both = probe.after_disabled(Ok(false));
    assert_eq!((both.capability, both.error), (ThinkingCapability::Both, None));
    let ignored = probe.after_disabled(Ok(true));
    assert_eq!(ignored.capability, ThinkingCapability::Absent);
    assert_eq!(
        ignored.error.unwrap(),
        "Reasoning remained visible with suppression requested; capability remains unknown"
    );
    assert_eq!(probe.after_disabled(Err("e".to_string())).error.unwrap(), "e");
    assert_eq!(
        done(probe.after_enabled(enabled.clone(), Ok(false))),
        (
            ThinkingCapability::Absent,
            Some("No observable reasoning in enabled mode; capability remains unknown".to_string())
        )
    );
    assert_eq!(
        done(probe.after_enabled(enabled, Err("down".to_string()))),
        (ThinkingCapability::Absent, Some("down".to_string()))
    );
}

#[test]
fn native_and_effort_probes_never_claim_a_toggle() {
    for (protocol, capability, effort) in [
        (ThinkingProtocol::Unknown, ThinkingCapability::NativeOnly, None),
        (ThinkingProtocol::ReasoningEffort, ThinkingCapability::EffortOnly, Some("low")),
    ] {
        let probe = ChatProbe { protocol };
        let enabled = probe.enabled_request("openai", "m");
        assert_eq!(enabled.get("reasoning_effort").and_then(|effort| effort.as_str()), effort);
        assert_eq!(probe.counts_usage(), effort.is_some());
        assert_eq!(done(probe.after_enabled(enabled, Ok(true))), (capability, None));
    }
}

#[test]
fn white_space_is_that_of_unicode() {
    for c in '\u{0}'..=char::MAX {
        assert_eq!(is_white_space(c), c.is_whitespace(), "{c:?}");
    }
    assert_eq!(trim("\u{3000} a b\t\u{85}"), "a b");
    assert_eq!(trim(" \n"), "");
}

#[test]
fn the_spelling_of_a_provider_does_not_matter() {
    for (provider, url) in [
        ("DeepSeek-cn", ""),
        ("openai", ""),
        ("aliyun", "https://gateway.example/v1"),
        ("anthropic", "https://api.openai.com/v1"),
        ("custom", "https://api.moonshot.cn/v1"),
    ] {
        let protocol = canonical_thinking_protocol(provider, url, "kimi-k3");
        for spelled in [
            provider.to_ascii_uppercase(),
            format!("\u{a0}\t{provider} \u{2028}"),
        ] {
            assert_eq!(canonical_thinking_protocol(&spelled, url, "kimi-k3"), protocol);
        }
    }
}

#[test]
fn the_model_decides_only_for_moonshot() {
    for provider in ["openai", "custom", "deepseek", "aliyun", "bedrock"] {
        for url in ["", "https://api.openai.com/v1", "https://api.moonshot.ai/v1", "x"] {
            let one = canonical_thinking_protocol(provider, url, "kimi-k2.5");
            let other = canonical_thinking_protocol(provider, url, "gpt");
            assert!(
                one == other
                    || (one == ThinkingProtocol::Moonshot && other == ThinkingProtocol::Unknown)
            );
        }
    }
}
