//! One thinking wire contract for chat probes and inference. An unknown
//! protocol is not evidence that reasoning is disabled.
use crate::json;
use crate::json::{as_double_bits, from_bool, from_str, insert, map_get, object_mut, remove, singleton};
use crate::json::Json;
use crate::text;
use crate::web;
use crate::web::{UrlParts, UrlView};
use vstd::prelude::*;

verus! {

/// How a provider's chat endpoint switches reasoning on and off.
#[derive(Debug, Clone, Copy, PartialEq, Eq, Structural)]
pub enum ThinkingProtocol {
    Unknown,
    EnableThinking,
    ThinkingObject,
    ReasoningEffort,
    /// Moonshot's binary toggle, without an additional effort field. Sampling
    /// capability is independent of the toggle and is not inferred here.
    Moonshot,
}

impl Default for ThinkingProtocol {
    fn default() -> (protocol: Self)
        ensures
            protocol == ThinkingProtocol::Unknown,
    {
        ThinkingProtocol::Unknown
    }
}

/// Whether a field is one of the three that control reasoning.
pub open spec fn is_control(key: Seq<char>) -> bool {
    key == "thinking"@ || key == "enable_thinking"@ || key == "reasoning_effort"@
}

/// The fields of a request without those that control reasoning.
pub open spec fn without_controls(fields: Map<Seq<char>, Json>) -> Map<Seq<char>, Json> {
    fields.remove("thinking"@).remove("enable_thinking"@).remove("reasoning_effort"@)
}

/// The object that names the state of a thinking toggle.
pub open spec fn toggle(enabled: bool) -> Json {
    Json::Object(
        json::no_fields().insert(
            "type"@,
            Json::Text(
                if enabled {
                    "enabled"@
                } else {
                    "disabled"@
                },
            ),
        ),
    )
}

/// The fields with an effort, where one is given.
pub open spec fn with_effort(
    fields: Map<Seq<char>, Json>,
    effort: Option<Seq<char>>,
) -> Map<Seq<char>, Json> {
    match effort {
        Some(effort) => fields.insert("reasoning_effort"@, Json::Text(effort)),
        None => fields,
    }
}

/// The text behind an optional string.
pub open spec fn optional_text(text: Option<&str>) -> Option<Seq<char>> {
    match text {
        Some(text) => Some(text@),
        None => None,
    }
}

impl ThinkingProtocol {
    /// The version of this contract that persisted observations are bound to.
    pub const REVISION: u32 = 1;

    /// Whether the protocol can ask for reasoning to stay off.
    pub open spec fn disables(self) -> bool {
        self is EnableThinking || self is ThinkingObject || self is Moonshot
    }

    /// The request that asks for reasoning to be on or off.
    pub open spec fn applied(self, body: Json, enabled: bool, effort: Option<Seq<char>>) -> Json {
        match body {
            Json::Object(fields) if self != ThinkingProtocol::Unknown => {
                let bare = without_controls(fields);
                Json::Object(
                    match self {
                        ThinkingProtocol::Unknown => fields,
                        ThinkingProtocol::EnableThinking => bare.insert(
                            "enable_thinking"@,
                            Json::Bool(enabled),
                        ),
                        ThinkingProtocol::ThinkingObject => with_effort(
                            bare.insert("thinking"@, toggle(enabled)),
                            if enabled {
                                effort
                            } else {
                                None
                            },
                        ),
                        ThinkingProtocol::Moonshot => bare.insert("thinking"@, toggle(enabled)),
                        ThinkingProtocol::ReasoningEffort => with_effort(
                            bare,
                            if enabled {
                                effort
                            } else {
                                None
                            },
                        ),
                    },
                )
            },
            _ => body,
        }
    }

    /// Whether the protocol can ask for reasoning to stay off.
    pub fn can_disable(self) -> (can: bool)
        ensures
            can == self.disables(),
    {
        matches!(
            self,
            ThinkingProtocol::EnableThinking | ThinkingProtocol::ThinkingObject
                | ThinkingProtocol::Moonshot
        )
    }

    /// Apply known protocols *after* generic overrides. Unknown preserves the
    /// existing assembly contract: it is absence of adapter knowledge, not
    /// authority to erase established provider behavior or explicit
    /// overrides. `effort` is canonical low/medium/high/max.
    pub fn apply(self, body: &mut serde_json::Value, enabled: bool, effort: Option<&str>)
        ensures
            json::json(*final(body)) == self.applied(
                json::json(*old(body)),
                enabled,
                optional_text(effort),
            ),
    {
        if self == ThinkingProtocol::Unknown {
            return;
        }
        if let Some(object) = object_mut(body) {
            remove(object, "thinking");
            remove(object, "enable_thinking");
            remove(object, "reasoning_effort");
            match self {
                ThinkingProtocol::Unknown => {},
                ThinkingProtocol::EnableThinking => {
                    insert(object, "enable_thinking", from_bool(enabled));
                },
                ThinkingProtocol::ThinkingObject | ThinkingProtocol::Moonshot => {
                    let state = if enabled {
                        "enabled"
                    } else {
                        "disabled"
                    };
                    insert(object, "thinking", singleton("type", state));
                    if self == ThinkingProtocol::ThinkingObject && enabled {
                        if let Some(effort) = effort {
                            insert(object, "reasoning_effort", from_str(effort));
                        }
                    }
                },
                ThinkingProtocol::ReasoningEffort => {
                    if enabled {
                        if let Some(effort) = effort {
                            insert(object, "reasoning_effort", from_str(effort));
                        }
                    }
                },
            }
        }
    }
}

/// The provider aliases that stand for DashScope.
pub open spec fn dashscope_alias(provider: Seq<char>) -> bool {
    let provider = text::lower(provider);
    ||| text::occurs(provider, "dashscope"@)
    ||| text::occurs(provider, "aliyun"@)
    ||| text::occurs(provider, "alibaba"@)
}

/// The host of an endpoint, without trailing dots; empty where there is none.
pub open spec fn endpoint_host(url: Option<UrlView>) -> Seq<char> {
    match url {
        Some(url) => match url.host {
            Some(host) => text::without_trailing(host, '.'),
            None => Seq::empty(),
        },
        None => Seq::empty(),
    }
}

/// The adapters that own their native envelopes.
pub open spec fn owns_envelope(provider: Seq<char>) -> bool {
    provider == "anthropic"@ || provider == "bedrock"@
}

/// Whether provider or host is DeepSeek.
pub open spec fn is_deepseek(provider: Seq<char>, host: Seq<char>) -> bool {
    ||| provider == "deepseek"@
    ||| "deepseek-"@.is_prefix_of(provider)
    ||| host == "api.deepseek.com"@
    ||| ".deepseek.com"@.is_suffix_of(host)
}

/// Whether provider or host is DashScope.
pub open spec fn is_dashscope(provider: Seq<char>, host: Seq<char>) -> bool {
    ||| dashscope_alias(provider)
    ||| host == "dashscope.aliyuncs.com"@
    ||| ".dashscope.aliyuncs.com"@.is_suffix_of(host)
    ||| host == "dashscope-intl.aliyuncs.com"@
    ||| host == "dashscope-us.aliyuncs.com"@
}

/// Whether an endpoint is Moonshot's own API, on its own port and path, and the
/// model one whose toggle is known.
pub open spec fn is_moonshot(url: Option<UrlView>, model: Seq<char>) -> bool {
    let host = endpoint_host(url);
    &&& host == "api.moonshot.cn"@ || host == "api.moonshot.ai"@
    &&& url matches Some(url)
    &&& url.scheme == "https"@
    &&& url.port == Some(443u16)
    &&& text::without_trailing(url.path, '/') == "/v1"@
    &&& model == "kimi-k2.5"@ || model == "kimi-k2.6"@ || model == "kimi-k3"@
}

/// The protocol of a trimmed, lower-case provider at a parsed endpoint.
pub open spec fn adapter_protocol(
    provider: Seq<char>,
    url: Option<UrlView>,
    base_url: Seq<char>,
    model: Seq<char>,
) -> ThinkingProtocol {
    let host = endpoint_host(url);
    if owns_envelope(provider) {
        ThinkingProtocol::Unknown
    } else if is_deepseek(provider, host) {
        ThinkingProtocol::ThinkingObject
    } else if is_dashscope(provider, host) {
        ThinkingProtocol::EnableThinking
    } else if is_moonshot(url, model) {
        ThinkingProtocol::Moonshot
    } else if provider == "openai"@ && (host == "api.openai.com"@ || base_url.len() == 0) {
        ThinkingProtocol::ReasoningEffort
    } else {
        ThinkingProtocol::Unknown
    }
}

/// The parts behind an optional parsed URL.
pub open spec fn optional_url(url: Option<UrlParts>) -> Option<UrlView> {
    match url {
        Some(url) => Some(url@),
        None => None,
    }
}

/// The protocol of a provider as it is configured, at a parsed endpoint.
pub open spec fn configured_protocol(
    provider: Seq<char>,
    url: Option<UrlView>,
    base_url: Seq<char>,
    model: Seq<char>,
) -> ThinkingProtocol {
    adapter_protocol(text::lower(text::trimmed(provider)), url, base_url, model)
}

/// Maintained adapter defaults, never substring matching arbitrary URLs.
/// Explicit protocol configuration takes precedence at admission. An empty base
/// URL is no URL.
pub fn canonical_thinking_protocol(provider: &str, base_url: &str, model: &str) -> (protocol:
    ThinkingProtocol)
    requires
        base_url@.len() <= web::MAX_PARSED_CHARS,
    ensures
        protocol == configured_protocol(
            provider@,
            web::url_parts(base_url@),
            base_url@,
            model@,
        ),
        base_url@.len() == 0 ==> web::url_parts(base_url@) is None,
{
    let url = web::parse_url(base_url);
    let protocol = endpoint_thinking_protocol(provider, &url, base_url, model);
    assert(optional_url(url) == web::url_parts(base_url@));
    protocol
}

/// The adapter default for an endpoint that has been taken apart.
pub fn endpoint_thinking_protocol(
    provider: &str,
    url: &Option<UrlParts>,
    base_url: &str,
    model: &str,
) -> (protocol: ThinkingProtocol)
    ensures
        protocol == configured_protocol(
            provider@,
            optional_url(*url),
            base_url@,
            model@,
        ),
{
    let host = match url {
        Some(url) => match &url.host {
            Some(host) => text::trim_end_matches(host.as_str(), '.'),
            None => String::new(),
        },
        None => String::new(),
    };
    let host = host.as_str();
    assert(host@ == endpoint_host(optional_url(*url)));
    let provider = text::to_ascii_lowercase(text::trim(provider).as_str());
    let provider = provider.as_str();
    if text::same(provider, "anthropic") || text::same(provider, "bedrock") {
        return ThinkingProtocol::Unknown;
    }
    if text::same(provider, "deepseek") || text::starts_with(provider, "deepseek-") || text::same(
        host,
        "api.deepseek.com",
    ) || text::ends_with(host, ".deepseek.com") {
        return ThinkingProtocol::ThinkingObject;
    }
    if is_dashscope_provider(provider) || text::same(host, "dashscope.aliyuncs.com")
        || text::ends_with(host, ".dashscope.aliyuncs.com") || text::same(
        host,
        "dashscope-intl.aliyuncs.com",
    ) || text::same(host, "dashscope-us.aliyuncs.com") {
        return ThinkingProtocol::EnableThinking;
    }
    if text::same(host, "api.moonshot.cn") || text::same(host, "api.moonshot.ai") {
        if let Some(url) = url {
            if text::same(url.scheme.as_str(), "https") && url.port == Some(443u16) && text::same(
                text::trim_end_matches(url.path.as_str(), '/').as_str(),
                "/v1",
            ) && (text::same(model, "kimi-k2.5") || text::same(model, "kimi-k2.6") || text::same(
                model,
                "kimi-k3",
            )) {
                return ThinkingProtocol::Moonshot;
            }
        }
    }
    if text::same(provider, "openai") && (text::same(host, "api.openai.com") || base_url.is_empty()) {
        return ThinkingProtocol::ReasoningEffort;
    }
    ThinkingProtocol::Unknown
}

/// Preserve the established provider-alias contract in one owner.
pub fn is_dashscope_provider(provider: &str) -> (found: bool)
    ensures
        found == dashscope_alias(provider@),
{
    let provider = text::to_ascii_lowercase(provider);
    text::contains(provider.as_str(), "dashscope") || text::contains(provider.as_str(), "aliyun")
        || text::contains(provider.as_str(), "alibaba")
}

/// A double-precision number by its IEEE 754 bits.
#[derive(Debug, Clone, Copy, PartialEq, Eq, Structural)]
pub struct DoubleBits(pub u64);

/// The weight of the sign bit, which alone is the negative zero.
pub const SIGN: u64 = 0x8000_0000_0000_0000;

/// The weight of the lowest exponent bit.
pub const EXPONENT_UNIT: u64 = 0x10_0000_0000_0000;

impl DoubleBits {
    /// Neither infinite nor a NaN: the eleven exponent bits are not all set.
    pub open spec fn finite(self) -> bool {
        (self.0 / EXPONENT_UNIT) % 2048 != 2047
    }

    /// Finite, and not below zero; the negative zero is not below zero.
    pub open spec fn sampling(self) -> bool {
        self.finite() && self.0 <= SIGN
    }

    /// Numeric equality of two finite numbers: the two zeros are equal.
    pub open spec fn equals(self, other: Self) -> bool {
        ||| self == other
        ||| (self.0 == 0 || self.0 == SIGN) && (other.0 == 0 || other.0 == SIGN)
    }

    /// Whether the number can be a sampling temperature: finite and not
    /// negative.
    pub fn is_sampling(self) -> (valid: bool)
        ensures
            valid == self.sampling(),
    {
        (self.0 / EXPONENT_UNIT) % 2048 != 2047 && self.0 <= SIGN
    }

    /// Numeric equality of two finite numbers.
    pub fn same(self, other: Self) -> (equal: bool)
        ensures
            equal == self.equals(other),
    {
        self.0 == other.0 || ((self.0 == 0 || self.0 == SIGN) && (other.0 == 0 || other.0 == SIGN))
    }
}

/// Why a temperature configuration is refused.
#[derive(Debug, Clone, Copy, PartialEq, Eq, Structural)]
pub enum TemperatureError {
    /// The override is no finite non-negative number.
    InvalidOverride,
    /// The fixed temperature is no finite non-negative number.
    InvalidFixed,
    /// Both are given and they differ.
    Conflict { configured: DoubleBits, fixed: DoubleBits },
}

impl TemperatureError {
    /// The text of the error. A conflict shows both numbers, which the caller
    /// has rendered.
    pub open spec fn described(self, configured: Seq<char>, fixed: Seq<char>) -> Seq<char> {
        match self {
            TemperatureError::InvalidOverride =>
                "request_body_overrides.temperature must be a finite non-negative number"@,
            TemperatureError::InvalidFixed =>
                "fixed_temperature must be a finite non-negative number"@,
            TemperatureError::Conflict { .. } => "request_body_overrides.temperature ("@ + configured
                + ") conflicts with fixed_temperature ("@ + fixed + ")"@,
        }
    }

    /// The text of the error, with both numbers as the caller has rendered
    /// them.
    pub fn message(&self, configured: &str, fixed: &str) -> (message: String)
        ensures
            message@ == self.described(configured@, fixed@),
    {
        match self {
            TemperatureError::InvalidOverride =>
                "request_body_overrides.temperature must be a finite non-negative number".to_owned(),
            TemperatureError::InvalidFixed =>
                "fixed_temperature must be a finite non-negative number".to_owned(),
            TemperatureError::Conflict { .. } => {
                let mut message = "request_body_overrides.temperature (".to_owned();
                message.append(configured);
                message.append(") conflicts with fixed_temperature (");
                message.append(fixed);
                message.append(")");
                message
            },
        }
    }
}

/// The temperature that request overrides hold: none, a number, or a value that
/// is no number.
pub open spec fn override_temperature(overrides: Option<Map<Seq<char>, Json>>) -> Option<Json> {
    match overrides {
        Some(fields) => if fields.contains_key("temperature"@) {
            Some(fields["temperature"@])
        } else {
            None
        },
        None => None,
    }
}

/// The temperature to send, from the override and the fixed temperature.
pub open spec fn chosen_temperature(
    configured: Option<DoubleBits>,
    fixed: Option<DoubleBits>,
) -> Result<Option<DoubleBits>, TemperatureError> {
    if configured is Some && !configured->0.sampling() {
        Err(TemperatureError::InvalidOverride)
    } else if fixed is Some && !fixed->0.sampling() {
        Err(TemperatureError::InvalidFixed)
    } else if configured is Some && fixed is Some && !configured->0.equals(fixed->0) {
        Err(TemperatureError::Conflict { configured: configured->0, fixed: fixed->0 })
    } else if configured is Some {
        Ok(configured)
    } else {
        Ok(fixed)
    }
}

/// The temperature to send, from the value of an override and the fixed temperature.
pub open spec fn temperature_with(given: Option<Json>, fixed: Option<DoubleBits>) -> Result<
    Option<DoubleBits>,
    TemperatureError,
> {
    match given {
        None => chosen_temperature(None, fixed),
        Some(Json::Number(number)) => chosen_temperature(
            Some(DoubleBits(json::double_bits(number))),
            fixed,
        ),
        Some(_) => Err(TemperatureError::InvalidOverride),
    }
}

/// The fields behind optional request overrides.
pub open spec fn optional_fields(
    overrides: Option<&serde_json::Map<String, serde_json::Value>>,
) -> Option<Map<Seq<char>, Json>> {
    match overrides {
        Some(map) => Some(json::fields(*map)),
        None => None,
    }
}

/// Shared main/auxiliary temperature configuration. Protocol-specific adapters
/// still own native restrictions; a thinking toggle is not a sampling
/// capability and must not invent one.
pub fn configured_temperature(
    overrides: Option<&serde_json::Map<String, serde_json::Value>>,
    fixed: Option<DoubleBits>,
) -> (chosen: Result<Option<DoubleBits>, TemperatureError>)
    ensures
        chosen == temperature_with(override_temperature(optional_fields(overrides)), fixed),
{
    let configured = match overrides {
        Some(map) => match map_get(map, "temperature") {
            Some(value) => match as_double_bits(value) {
                Some(bits) => Some(DoubleBits(bits)),
                None => {
                    return Err(TemperatureError::InvalidOverride);
                },
            },
            None => None,
        },
        None => None,
    };
    choose_temperature(configured, fixed)
}

/// The temperature to send, from the override and the fixed temperature.
pub fn choose_temperature(configured: Option<DoubleBits>, fixed: Option<DoubleBits>) -> (chosen: Result<
    Option<DoubleBits>,
    TemperatureError,
>)
    ensures
        chosen == chosen_temperature(configured, fixed),
{
    if let Some(value) = configured {
        if !value.is_sampling() {
            return Err(TemperatureError::InvalidOverride);
        }
    }
    if let Some(value) = fixed {
        if !value.is_sampling() {
            return Err(TemperatureError::InvalidFixed);
        }
    }
    match (configured, fixed) {
        (Some(configured), Some(fixed)) => if configured.same(fixed) {
            Ok(Some(configured))
        } else {
            Err(TemperatureError::Conflict { configured, fixed })
        },
        (Some(value), None) => Ok(Some(value)),
        (None, fixed) => Ok(fixed),
    }
}

/// The three control fields have different names.
proof fn controls_differ()
    ensures
        "thinking"@ != "enable_thinking"@,
        "thinking"@ != "reasoning_effort"@,
        "enable_thinking"@ != "reasoning_effort"@,
        "enabled"@ != "disabled"@,
{
    reveal_strlit("thinking");
    reveal_strlit("enable_thinking");
    reveal_strlit("reasoning_effort");
    reveal_strlit("enabled");
    reveal_strlit("disabled");
    assert("enable_thinking"@[0] == 'e');
    assert("reasoning_effort"@[0] == 'r');
    assert("thinking"@[0] == 't');
    assert("enabled"@[0] == 'e');
    assert("disabled"@[0] == 'd');
}

/// An unknown protocol leaves every request as it is, and no protocol touches a
/// body that is not an object.
pub proof fn unknown_preserves(
    protocol: ThinkingProtocol,
    body: Json,
    enabled: bool,
    effort: Option<Seq<char>>,
)
    requires
        protocol == ThinkingProtocol::Unknown || !(body is Object),
    ensures
        protocol.applied(body, enabled, effort) == body,
{
}

/// Applying a protocol changes control fields only: sampling parameters and all
/// other fields keep their values, and none is added.
pub proof fn other_fields_preserved(
    protocol: ThinkingProtocol,
    body: Json,
    enabled: bool,
    effort: Option<Seq<char>>,
    key: Seq<char>,
)
    requires
        !is_control(key),
    ensures
        protocol.applied(body, enabled, effort).field(key) == body.field(key),
{
}

/// The controls of a known protocol are exclusive: each control field is there
/// exactly where that protocol emits it.
pub proof fn controls_exclusive(
    protocol: ThinkingProtocol,
    body: Json,
    enabled: bool,
    effort: Option<Seq<char>>,
)
    requires
        protocol != ThinkingProtocol::Unknown,
        body is Object,
    ensures
        ({
            let sent = protocol.applied(body, enabled, effort);
            &&& sent.field("enable_thinking"@) == if protocol is EnableThinking {
                Some(Json::Bool(enabled))
            } else {
                None
            }
            &&& sent.field("thinking"@) == if protocol is ThinkingObject || protocol is Moonshot {
                Some(toggle(enabled))
            } else {
                None
            }
            &&& sent.field("reasoning_effort"@) == if enabled && effort is Some && (
            protocol is ThinkingObject || protocol is ReasoningEffort) {
                Some(Json::Text(effort->0))
            } else {
                None
            }
        }),
{
    controls_differ();
}

/// The last known protocol wins: what an earlier application left behind does
/// not show in the request.
pub proof fn last_application_wins(
    first: ThinkingProtocol,
    second: ThinkingProtocol,
    body: Json,
    enabled_first: bool,
    effort_first: Option<Seq<char>>,
    enabled: bool,
    effort: Option<Seq<char>>,
)
    requires
        second != ThinkingProtocol::Unknown,
    ensures
        second.applied(first.applied(body, enabled_first, effort_first), enabled, effort)
            == second.applied(body, enabled, effort),
{
    if let Json::Object(fields) = body {
        if let Json::Object(between) = first.applied(body, enabled_first, effort_first) {
            assert(without_controls(between) =~= without_controls(fields));
        }
    }
}

/// A protocol can disable reasoning exactly where a request that asks for it to
/// be off is told apart, by an explicit control, from one that says nothing.
pub proof fn disabling_is_explicit(protocol: ThinkingProtocol, body: Json, effort: Option<Seq<char>>)
    requires
        protocol != ThinkingProtocol::Unknown,
        body is Object,
    ensures
        protocol.disables() <==> protocol.applied(body, false, effort) != Json::Object(
            without_controls(body->Object_0),
        ),
        protocol.disables() ==> protocol.applied(body, false, effort) != protocol.applied(
            body,
            true,
            effort,
        ),
{
    controls_differ();
    controls_exclusive(protocol, body, false, effort);
    controls_exclusive(protocol, body, true, effort);
    let bare = Json::Object(without_controls(body->Object_0));
    assert(bare.field("thinking"@) is None);
    assert(bare.field("enable_thinking"@) is None);
    assert(toggle(true).field("type"@) == Some(Json::Text("enabled"@)));
    assert(toggle(false).field("type"@) == Some(Json::Text("disabled"@)));
}

/// Adapters that own their envelope never get a chat protocol, whatever the
/// endpoint and the model.
pub proof fn native_envelopes_stay_unknown(
    provider: Seq<char>,
    url: Option<UrlView>,
    base_url: Seq<char>,
    model: Seq<char>,
)
    requires
        owns_envelope(provider),
    ensures
        adapter_protocol(provider, url, base_url, model) == ThinkingProtocol::Unknown,
{
}

/// All aliases of DashScope agree, whatever the gateway and the model, unless
/// the endpoint is DeepSeek's.
pub proof fn dashscope_aliases_agree(
    provider: Seq<char>,
    url: Option<UrlView>,
    base_url: Seq<char>,
    model: Seq<char>,
)
    requires
        dashscope_alias(provider),
        !owns_envelope(provider),
        !is_deepseek(provider, endpoint_host(url)),
    ensures
        adapter_protocol(provider, url, base_url, model) == ThinkingProtocol::EnableThinking,
{
}

/// Moonshot's protocol is inferred for its own HTTPS endpoints and known models
/// only: no model name and no part of a URL but host, port and path brings it.
pub proof fn moonshot_is_not_spoofed(
    provider: Seq<char>,
    url: Option<UrlView>,
    base_url: Seq<char>,
    model: Seq<char>,
)
    requires
        adapter_protocol(provider, url, base_url, model) == ThinkingProtocol::Moonshot,
    ensures
        url is Some,
        url->0.scheme == "https"@,
        url->0.port == Some(443u16),
        url->0.host is Some,
        ({
            let host = text::without_trailing(url->0.host->0, '.');
            host == "api.moonshot.cn"@ || host == "api.moonshot.ai"@
        }),
        model == "kimi-k2.5"@ || model == "kimi-k2.6"@ || model == "kimi-k3"@,
{
    reveal_strlit("api.moonshot.cn");
    reveal_strlit("api.moonshot.ai");
    assert("api.moonshot.cn"@.len() == 15);
    assert("api.moonshot.ai"@.len() == 15);
}

/// The model name decides only between Moonshot's protocol and none: two models at
/// one endpoint have the same protocol, or one has Moonshot's and the other's is
/// unknown. An empty base URL is no URL.
pub proof fn model_decides_moonshot_only(
    provider: Seq<char>,
    url: Option<UrlView>,
    base_url: Seq<char>,
    one: Seq<char>,
    other: Seq<char>,
)
    requires
        base_url.len() == 0 ==> url is None,
        configured_protocol(provider, url, base_url, one) != configured_protocol(
            provider,
            url,
            base_url,
            other,
        ),
    ensures
        ({
            let a = configured_protocol(provider, url, base_url, one);
            let b = configured_protocol(provider, url, base_url, other);
            ||| a == ThinkingProtocol::Moonshot && b == ThinkingProtocol::Unknown
            ||| a == ThinkingProtocol::Unknown && b == ThinkingProtocol::Moonshot
        }),
{
    reveal_strlit("api.moonshot.cn");
    reveal_strlit("api.moonshot.ai");
    reveal_strlit("api.openai.com");
    assert("api.moonshot.cn"@.len() == 15);
    assert("api.moonshot.ai"@.len() == 15);
    assert("api.openai.com"@.len() == 14);
}

/// Neither the case of a provider's letters nor white space around it matters.
pub proof fn provider_spelling_does_not_matter(
    provider: Seq<char>,
    url: Option<UrlView>,
    base_url: Seq<char>,
    model: Seq<char>,
)
    ensures
        configured_protocol(text::trimmed(provider), url, base_url, model) == configured_protocol(
            provider,
            url,
            base_url,
            model,
        ),
        configured_protocol(text::upper(provider), url, base_url, model) == configured_protocol(
            provider,
            url,
            base_url,
            model,
        ),
{
    text::trimming_settles(provider);
    text::case_does_not_outlast_lowering(provider);
}

/// An accepted temperature is finite and not negative, and is that of every
/// source that gives one; there is none exactly where no source gives one.
pub proof fn accepted_temperature_agrees(configured: Option<DoubleBits>, fixed: Option<DoubleBits>)
    ensures
        chosen_temperature(configured, fixed) matches Ok(Some(value)) ==> {
            &&& value.sampling()
            &&& configured is Some ==> value == configured->0
            &&& fixed is Some ==> value.equals(fixed->0)
        },
        (chosen_temperature(configured, fixed) matches Ok(None)) <==> configured is None
            && fixed is None,
{
}

/// A toggle is an object with one field, whose text says the state.
pub proof fn toggles_name_their_state(enabled: bool, key: Seq<char>)
    ensures
        toggle(true).field("type"@) == Some(Json::Text("enabled"@)),
        toggle(false).field("type"@) == Some(Json::Text("disabled"@)),
        toggle(enabled).field(key) is Some ==> key == "type"@,
{
}

/// Whatever is applied, a field other than the three controls keeps its value, or stays
/// away.
pub proof fn only_the_three_controls_change(
    protocol: ThinkingProtocol,
    body: Json,
    enabled: bool,
    effort: Option<Seq<char>>,
    key: Seq<char>,
)
    requires
        key != "thinking"@,
        key != "enable_thinking"@,
        key != "reasoning_effort"@,
    ensures
        protocol.applied(body, enabled, effort).field(key) == body.field(key),
        protocol.applied(body, enabled, effort) is Object <==> body is Object,
{
}

/// A binary control can ask for reasoning to stay off; an effort cannot, and neither can a
/// protocol that is not known.
pub proof fn binary_controls_disable(protocol: ThinkingProtocol)
    ensures
        protocol.disables() <==> protocol != ThinkingProtocol::Unknown && protocol
            != ThinkingProtocol::ReasoningEffort,
{
}

/// A provider stands for DashScope exactly where its name, in lower case, has one of the
/// three names in it, whatever comes before and after.
pub proof fn dashscope_goes_by_three_names(
    provider: Seq<char>,
    before: Seq<char>,
    after: Seq<char>,
)
    ensures
        text::lower(provider) == before + "dashscope"@ + after ==> dashscope_alias(provider),
        text::lower(provider) == before + "aliyun"@ + after ==> dashscope_alias(provider),
        text::lower(provider) == before + "alibaba"@ + after ==> dashscope_alias(provider),
        dashscope_alias(provider) ==> text::occurs(text::lower(provider), "dashscope"@)
            || text::occurs(text::lower(provider), "aliyun"@) || text::occurs(
            text::lower(provider),
            "alibaba"@,
        ),
{
    text::occurrences_split(provider, "dashscope"@, before, after);
    text::occurrences_split(provider, "aliyun"@, before, after);
    text::occurrences_split(provider, "alibaba"@, before, after);
}

/// The host of an endpoint is the one of its URL; dots at the end do not matter, and
/// without a URL or a host there is none.
pub proof fn hosts_ignore_trailing_dots(url: UrlView, dotted: UrlView)
    requires
        url.host is Some,
        dotted.host == Some(url.host->0.push('.')),
    ensures
        endpoint_host(Some(dotted)) == endpoint_host(Some(url)),
        url.host->0.len() > 0 && url.host->0.last() != '.' ==> endpoint_host(Some(url))
            == url.host->0,
        endpoint_host(None) == Seq::<char>::empty(),
        endpoint_host(Some(UrlView { host: None, ..url })) == Seq::<char>::empty(),
{
    text::trailing_copies_are_taken_off(url.host->0, '.');
}

/// A provider that is neither Anthropic nor Bedrock gets DeepSeek's protocol exactly where
/// its name or its host is DeepSeek's own.
pub proof fn deepseek_is_recognized(
    provider: Seq<char>,
    url: Option<UrlView>,
    base_url: Seq<char>,
    model: Seq<char>,
    part: Seq<char>,
)
    requires
        provider != "anthropic"@,
        provider != "bedrock"@,
    ensures
        ({
            let host = endpoint_host(url);
            let protocol = adapter_protocol(provider, url, base_url, model);
            &&& provider == "deepseek"@ || provider == "deepseek-"@ + part || host
                == "api.deepseek.com"@ || host == part + ".deepseek.com"@ ==> protocol
                is ThinkingObject
            &&& protocol is ThinkingObject ==> provider == "deepseek"@
                || "deepseek-"@.is_prefix_of(provider) || host == "api.deepseek.com"@
                || ".deepseek.com"@.is_suffix_of(host)
        }),
{
    let host = endpoint_host(url);
    if provider == "deepseek-"@ + part {
        assert("deepseek-"@ =~= provider.subrange(0, "deepseek-"@.len() as int));
    }
    if host == part + ".deepseek.com"@ {
        assert(".deepseek.com"@ =~= host.subrange(
            host.len() - ".deepseek.com"@.len(),
            host.len() as int,
        ));
    }
}

/// Apart from the providers before it, DashScope's protocol is that of its aliases and of
/// its own hosts, and of no other.
pub proof fn dashscope_is_recognized(
    provider: Seq<char>,
    url: Option<UrlView>,
    base_url: Seq<char>,
    model: Seq<char>,
    part: Seq<char>,
)
    requires
        provider != "anthropic"@,
        provider != "bedrock"@,
        !(adapter_protocol(provider, url, base_url, model) is ThinkingObject),
    ensures
        ({
            let host = endpoint_host(url);
            let protocol = adapter_protocol(provider, url, base_url, model);
            &&& dashscope_alias(provider) || host == "dashscope.aliyuncs.com"@ || host == part
                + ".dashscope.aliyuncs.com"@ || host == "dashscope-intl.aliyuncs.com"@ || host
                == "dashscope-us.aliyuncs.com"@ ==> protocol is EnableThinking
            &&& protocol is EnableThinking ==> dashscope_alias(provider) || host
                == "dashscope.aliyuncs.com"@ || ".dashscope.aliyuncs.com"@.is_suffix_of(host)
                || host == "dashscope-intl.aliyuncs.com"@ || host == "dashscope-us.aliyuncs.com"@
        }),
{
    let host = endpoint_host(url);
    if host == part + ".dashscope.aliyuncs.com"@ {
        assert(".dashscope.aliyuncs.com"@ =~= host.subrange(
            host.len() - ".dashscope.aliyuncs.com"@.len(),
            host.len() as int,
        ));
    }
}

/// At Moonshot's own endpoint, under HTTPS on its port and path, the models with a known
/// toggle get Moonshot's protocol, whatever other provider is configured; elsewhere, and
/// for other models, none does.
pub proof fn moonshot_is_recognized(
    provider: Seq<char>,
    url: UrlView,
    base_url: Seq<char>,
    model: Seq<char>,
)
    requires
        provider != "anthropic"@,
        provider != "bedrock"@,
        !(adapter_protocol(provider, Some(url), base_url, model) is ThinkingObject),
        !(adapter_protocol(provider, Some(url), base_url, model) is EnableThinking),
    ensures
        adapter_protocol(provider, Some(url), base_url, model) is Moonshot <==> {
            &&& url.host is Some
            &&& text::without_trailing(url.host->0, '.') == "api.moonshot.cn"@
                || text::without_trailing(url.host->0, '.') == "api.moonshot.ai"@
            &&& url.scheme == "https"@
            &&& url.port == Some(443u16)
            &&& text::without_trailing(url.path, '/') == "/v1"@
            &&& model == "kimi-k2.5"@ || model == "kimi-k2.6"@ || model == "kimi-k3"@
        },
{
    reveal_strlit("api.moonshot.cn");
    reveal_strlit("api.moonshot.ai");
    assert("api.moonshot.cn"@.len() == 15);
    assert("api.moonshot.ai"@.len() == 15);
}

/// OpenAI itself, at its own host or without a base URL, takes an effort; through any other
/// endpoint nothing is known of it, and no other provider takes an effort by default.
pub proof fn openai_takes_an_effort(
    provider: Seq<char>,
    url: Option<UrlView>,
    base_url: Seq<char>,
    model: Seq<char>,
)
    ensures
        provider == "openai"@ && endpoint_host(url) == "api.openai.com"@ ==> adapter_protocol(
            provider,
            url,
            base_url,
            model,
        ) is ReasoningEffort,
        provider == "openai"@ && base_url.len() == 0 && url is None ==> adapter_protocol(
            provider,
            url,
            base_url,
            model,
        ) is ReasoningEffort,
        adapter_protocol(provider, url, base_url, model) is ReasoningEffort ==> provider
            == "openai"@ && (endpoint_host(url) == "api.openai.com"@ || base_url.len() == 0),
{
    if provider == "openai"@ {
        openai_is_no_other();
        openai_host_is_no_other();
    }
}

/// The name of OpenAI is none of the names before it.
proof fn openai_is_no_other()
    ensures
        !owns_envelope("openai"@),
        "openai"@ != "deepseek"@,
        !"deepseek-"@.is_prefix_of("openai"@),
        !dashscope_alias("openai"@),
{
    reveal_strlit("openai");
    reveal_strlit("anthropic");
    reveal_strlit("bedrock");
    reveal_strlit("deepseek");
    reveal_strlit("deepseek-");
    reveal_strlit("dashscope");
    reveal_strlit("aliyun");
    reveal_strlit("alibaba");
    assert("openai"@.len() == 6 && "openai"@[0] == 'o');
    assert("anthropic"@.len() == 9 && "bedrock"@.len() == 7);
    assert("deepseek"@.len() == 8 && "deepseek-"@.len() == 9);
    assert("dashscope"@.len() == 9 && "alibaba"@.len() == 7);
    assert("aliyun"@.len() == 6 && "aliyun"@[0] == 'a');
    let name = text::lower("openai"@);
    assert(name.len() == 6 && name[0] == 'o');
    if text::occurs(name, "aliyun"@) {
        let at = choose|at: int| #[trigger] text::found_at(name, "aliyun"@, at);
        assert(name.subrange(at, at + 6)[0] == name[at]);
    }
}

/// The host of OpenAI, or none, is none of the hosts before it.
proof fn openai_host_is_no_other()
    ensures
        "api.openai.com"@ != "api.deepseek.com"@,
        !".deepseek.com"@.is_suffix_of("api.openai.com"@),
        "api.openai.com"@ != "dashscope.aliyuncs.com"@,
        !".dashscope.aliyuncs.com"@.is_suffix_of("api.openai.com"@),
        "api.openai.com"@ != "dashscope-intl.aliyuncs.com"@,
        "api.openai.com"@ != "dashscope-us.aliyuncs.com"@,
        "api.openai.com"@ != "api.moonshot.cn"@,
        "api.openai.com"@ != "api.moonshot.ai"@,
        "api.deepseek.com"@.len() > 0,
        ".deepseek.com"@.len() > 0,
        "dashscope.aliyuncs.com"@.len() > 0,
        ".dashscope.aliyuncs.com"@.len() > 0,
        "dashscope-intl.aliyuncs.com"@.len() > 0,
        "dashscope-us.aliyuncs.com"@.len() > 0,
{
    reveal_strlit("api.openai.com");
    reveal_strlit("api.deepseek.com");
    reveal_strlit(".deepseek.com");
    reveal_strlit("dashscope.aliyuncs.com");
    reveal_strlit(".dashscope.aliyuncs.com");
    reveal_strlit("dashscope-intl.aliyuncs.com");
    reveal_strlit("dashscope-us.aliyuncs.com");
    reveal_strlit("api.moonshot.cn");
    reveal_strlit("api.moonshot.ai");
    assert("api.openai.com"@.len() == 14);
    assert("api.deepseek.com"@.len() == 16);
    assert(".deepseek.com"@.len() == 13);
    assert("dashscope.aliyuncs.com"@.len() == 22);
    assert(".dashscope.aliyuncs.com"@.len() == 23);
    assert("dashscope-intl.aliyuncs.com"@.len() == 27);
    assert("dashscope-us.aliyuncs.com"@.len() == 25);
    assert("api.moonshot.cn"@.len() == 15);
    assert("api.moonshot.ai"@.len() == 15);
    assert("api.openai.com"@[1] == 'p');
    assert(".deepseek.com"@[0] == '.');
}

/// A provider is read trimmed and in lower case, and otherwise as it is.
pub proof fn providers_are_read_as_spelled(
    provider: Seq<char>,
    url: Option<UrlView>,
    base_url: Seq<char>,
    model: Seq<char>,
)
    requires
        forall|i: int| 0 <= i < provider.len() ==> !('A' <= #[trigger] provider[i] <= 'Z'),
        provider.len() > 0 ==> !text::white_space(provider.first()) && !text::white_space(
            provider.last(),
        ),
    ensures
        configured_protocol(provider, url, base_url, model) == adapter_protocol(
            provider,
            url,
            base_url,
            model,
        ),
{
    assert(text::trimmed(provider) == provider);
    assert(text::lower(provider) =~= provider);
}

/// By its bits a number can be a temperature where it is below the positive infinity, or the
/// negative zero.
pub proof fn temperatures_are_below_infinity(number: DoubleBits)
    ensures
        number.sampling() <==> number.0 < 0x7ff0_0000_0000_0000 || number.0
            == 0x8000_0000_0000_0000,
{
}

/// Equality of numbers is that of their bits, but for the two zeros, which are equal. It is
/// an equivalence.
pub proof fn zeros_are_equal(a: DoubleBits, b: DoubleBits, c: DoubleBits)
    ensures
        DoubleBits(0).equals(DoubleBits(0x8000_0000_0000_0000)),
        a.equals(a),
        a.equals(b) ==> b.equals(a),
        a.equals(b) && b.equals(c) ==> a.equals(c),
        a.0 != 0 && a.0 != 0x8000_0000_0000_0000 && a.equals(b) ==> a == b,
{
}

/// Each refusal of a temperature says what is wrong: an override that can be none, a fixed
/// one that can be none, or two that can be but differ.
pub proof fn temperature_refusals_are_exact(configured: DoubleBits, fixed: DoubleBits)
    ensures
        !configured.sampling() ==> chosen_temperature(Some(configured), None) == Err::<
            Option<DoubleBits>,
            _,
        >(TemperatureError::InvalidOverride) && chosen_temperature(Some(configured), Some(fixed))
            == Err::<Option<DoubleBits>, _>(TemperatureError::InvalidOverride),
        !fixed.sampling() ==> chosen_temperature(None, Some(fixed)) == Err::<
            Option<DoubleBits>,
            _,
        >(TemperatureError::InvalidFixed),
        configured.sampling() && !fixed.sampling() ==> chosen_temperature(
            Some(configured),
            Some(fixed),
        ) == Err::<Option<DoubleBits>, _>(TemperatureError::InvalidFixed),
        configured.sampling() ==> chosen_temperature(Some(configured), None) == Ok::<
            _,
            TemperatureError,
        >(Some(configured)),
        fixed.sampling() ==> chosen_temperature(None, Some(fixed)) == Ok::<_, TemperatureError>(
            Some(fixed),
        ),
        configured.sampling() && fixed.sampling() && configured.equals(fixed)
            ==> chosen_temperature(Some(configured), Some(fixed)) == Ok::<_, TemperatureError>(
            Some(configured),
        ),
        configured.sampling() && fixed.sampling() && !configured.equals(fixed)
            ==> chosen_temperature(Some(configured), Some(fixed)) == Err::<Option<DoubleBits>, _>(
            TemperatureError::Conflict { configured, fixed },
        ),
{
}

/// An override that is no number is refused whatever is fixed, one that is missing leaves
/// the fixed temperature, and a number counts by its double.
pub proof fn overrides_are_numbers(
    overrides: Map<Seq<char>, Json>,
    value: Json,
    fixed: Option<DoubleBits>,
)
    ensures
        !(value is Number) ==> temperature_with(
            override_temperature(Some(overrides.insert("temperature"@, value))),
            fixed,
        ) == Err::<Option<DoubleBits>, _>(TemperatureError::InvalidOverride),
        value is Number ==> temperature_with(
            override_temperature(Some(overrides.insert("temperature"@, value))),
            fixed,
        ) == chosen_temperature(Some(DoubleBits(json::double_bits(value->Number_0))), fixed),
        temperature_with(override_temperature(Some(overrides.remove("temperature"@))), fixed)
            == chosen_temperature(None, fixed),
        temperature_with(override_temperature(None), fixed) == chosen_temperature(None, fixed),
{
}

/// A conflict shows both numbers, the configured one first; the other refusals show none.
pub proof fn conflicts_show_both_numbers(
    error: TemperatureError,
    configured: Seq<char>,
    fixed: Seq<char>,
    other_configured: Seq<char>,
    other_fixed: Seq<char>,
)
    ensures
        !(error is Conflict) ==> error.described(configured, fixed) == error.described(
            other_configured,
            other_fixed,
        ),
        error is Conflict ==> error.described(configured, fixed)
            == "request_body_overrides.temperature ("@ + configured
            + ") conflicts with fixed_temperature ("@ + fixed + ")"@,
{
}

/// The call that applies a protocol writes its control, takes the other controls out, and
/// leaves every other field.
pub proof fn applying_writes_the_control(
    protocol: ThinkingProtocol,
    body: &mut serde_json::Value,
    enabled: bool,
    effort: Option<&str>,
    can: bool,
    key: Seq<char>,
)
    requires
        call_ensures(ThinkingProtocol::apply, (protocol, body, enabled, effort), ()),
        call_ensures(ThinkingProtocol::can_disable, (protocol,), can),
        json::json(*old(body)) is Object,
        key != "thinking"@ && key != "enable_thinking"@ && key != "reasoning_effort"@,
    ensures
        can <==> protocol is EnableThinking || protocol is ThinkingObject || protocol is Moonshot,
        protocol is Unknown ==> json::json(*final(body)) == json::json(*old(body)),
        protocol is EnableThinking ==> json::json(*final(body)).field("enable_thinking"@) == Some(
            Json::Bool(enabled),
        ),
        protocol is ThinkingObject || protocol is Moonshot ==> json::json(*final(body)).field(
            "thinking"@,
        ) is Some && json::json(*final(body)).field("thinking"@)->0.field("type"@) == Some(
            Json::Text(
                if enabled {
                    "enabled"@
                } else {
                    "disabled"@
                },
            ),
        ),
        (protocol is ThinkingObject || protocol is ReasoningEffort) && enabled && effort is Some
            ==> json::json(*final(body)).field("reasoning_effort"@) == Some(
            Json::Text(effort->0@),
        ),
        !(protocol is Unknown) && (!enabled || effort is None) ==> json::json(*final(body)).field(
            "reasoning_effort"@,
        ) is None,
        json::json(*final(body)).field(key) == json::json(*old(body)).field(key),
{
    let before = json::json(*old(body));
    if protocol != ThinkingProtocol::Unknown {
        controls_exclusive(protocol, before, enabled, optional_text(effort));
    }
    toggles_name_their_state(enabled, key);
    only_the_three_controls_change(protocol, before, enabled, optional_text(effort), key);
}

/// The call for the protocol of a configuration goes by the parts of its base URL, and the
/// one for aliases by the three names.
pub proof fn protocols_go_by_the_configuration(
    provider: &str,
    base_url: &str,
    model: &str,
    protocol: ThinkingProtocol,
    url: Option<UrlParts>,
    endpoint: ThinkingProtocol,
    alias: bool,
)
    requires
        call_ensures(canonical_thinking_protocol, (provider, base_url, model), protocol),
        call_ensures(endpoint_thinking_protocol, (provider, &url, base_url, model), endpoint),
        call_ensures(is_dashscope_provider, (provider,), alias),
        optional_url(url) == web::url_parts(base_url@),
    ensures
        protocol == endpoint,
        protocol == configured_protocol(provider@, web::url_parts(base_url@), base_url@, model@),
        alias <==> text::occurs(text::lower(provider@), "dashscope"@) || text::occurs(
            text::lower(provider@),
            "aliyun"@,
        ) || text::occurs(text::lower(provider@), "alibaba"@),
{
}

/// The calls about temperatures judge a number by its bits, and the two zeros as equal; a
/// choice is refused or is one of the numbers that were given.
pub proof fn temperatures_are_judged_by_bits(
    number: DoubleBits,
    valid: bool,
    other: DoubleBits,
    equal: bool,
    configured: Option<DoubleBits>,
    fixed: Option<DoubleBits>,
    chosen: Result<Option<DoubleBits>, TemperatureError>,
    plain: Result<Option<DoubleBits>, TemperatureError>,
)
    requires
        call_ensures(DoubleBits::is_sampling, (number,), valid),
        call_ensures(DoubleBits::same, (number, other), equal),
        call_ensures(choose_temperature, (configured, fixed), chosen),
        call_ensures(configured_temperature, (None, fixed), plain),
    ensures
        valid <==> number.0 < 0x7ff0_0000_0000_0000 || number.0 == 0x8000_0000_0000_0000,
        equal <==> number == other || (number.0 == 0 || number.0 == 0x8000_0000_0000_0000) && (
        other.0 == 0 || other.0 == 0x8000_0000_0000_0000),
        chosen matches Ok(value) ==> value == configured || configured is None && value == fixed,
        configured is None ==> chosen == plain,
        fixed is Some && fixed->0.sampling() ==> plain == Ok::<_, TemperatureError>(fixed),
        fixed is None ==> plain == Ok::<Option<DoubleBits>, TemperatureError>(None),
{
    temperatures_are_below_infinity(number);
    if fixed is Some {
        temperature_refusals_are_exact(fixed->0, fixed->0);
    }
}

} // verus!
