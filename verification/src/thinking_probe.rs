//! Persistable, configuration-bound thinking observations. Only explicit model
//! checks probe; model resolution and inference never do.
use crate::codec;
use crate::json;
use crate::json::{from_map, from_str, from_vec, insert, new_map};
use crate::json::Json;
use crate::model_wire;
use crate::model_wire::apply_chat_output_token_limit;
use crate::text;
use crate::thinking;
use crate::thinking::ThinkingProtocol;
use vstd::prelude::*;

verus! {

/// What is known of a model's reasoning.
#[derive(Debug, Clone, Copy, PartialEq, Eq, Structural)]
pub enum ThinkingCapability {
    Absent,
    NativeOnly,
    EffortOnly,
    Both,
}

/// What a probe found. With an error, nothing was established.
#[derive(Debug)]
pub struct ThinkingProbeResult {
    pub capability: ThinkingCapability,
    pub error: Option<String>,
}

/// What a probe found, as mathematical values.
pub struct ProbeView {
    pub capability: ThinkingCapability,
    pub error: Option<Seq<char>>,
}

/// The text behind an optional string.
pub open spec fn optional_string(text: Option<String>) -> Option<Seq<char>> {
    match text {
        Some(text) => Some(text@),
        None => None,
    }
}

impl View for ThinkingProbeResult {
    type V = ProbeView;

    open spec fn view(&self) -> ProbeView {
        ProbeView { capability: self.capability, error: optional_string(self.error) }
    }
}

/// A persisted observation of one configuration.
#[derive(Debug)]
pub struct ThinkingProbeSnapshot {
    pub revision: u32,
    pub identity: String,
    pub protocol: ThinkingProtocol,
    pub capability: Option<ThinkingCapability>,
    pub error: Option<String>,
    pub observed_at: String,
    pub legacy_hint: bool,
}

/// A persisted observation, as mathematical values.
pub struct SnapshotView {
    pub revision: u32,
    pub identity: Seq<char>,
    pub protocol: ThinkingProtocol,
    pub capability: Option<ThinkingCapability>,
    pub error: Option<Seq<char>>,
    pub observed_at: Seq<char>,
    pub legacy_hint: bool,
}

impl View for ThinkingProbeSnapshot {
    type V = SnapshotView;

    open spec fn view(&self) -> SnapshotView {
        SnapshotView {
            revision: self.revision,
            identity: self.identity@,
            protocol: self.protocol,
            capability: self.capability,
            error: optional_string(self.error),
            observed_at: self.observed_at@,
            legacy_hint: self.legacy_hint,
        }
    }
}

/// What the store holds of an earlier observation.
#[derive(Debug)]
pub enum StoredSnapshot {
    /// Nothing is stored.
    Absent,
    /// What is stored is no observation.
    Malformed,
    Parsed(ThinkingProbeSnapshot),
}

/// What the store holds, as mathematical values.
pub enum StoredView {
    Absent,
    Malformed,
    Parsed(SnapshotView),
}

impl View for StoredSnapshot {
    type V = StoredView;

    open spec fn view(&self) -> StoredView {
        match self {
            StoredSnapshot::Absent => StoredView::Absent,
            StoredSnapshot::Malformed => StoredView::Malformed,
            StoredSnapshot::Parsed(snapshot) => StoredView::Parsed(snapshot@),
        }
    }
}

impl SnapshotView {
    /// The observation is of exactly this configuration and protocol, under the
    /// current contract.
    pub open spec fn is_of(self, identity: Seq<char>, protocol: ThinkingProtocol) -> bool {
        &&& self.revision == ThinkingProtocol::REVISION
        &&& self.identity == identity
        &&& self.protocol == protocol
    }

    /// What the observation says of a configuration.
    pub open spec fn known(
        self,
        identity: Seq<char>,
        protocol: ThinkingProtocol,
    ) -> Option<ThinkingCapability> {
        if self.is_of(identity, protocol) {
            self.capability
        } else {
            None
        }
    }

    /// The result of the observed probe, for a configuration.
    pub open spec fn probed(self, identity: Seq<char>, protocol: ThinkingProtocol) -> Option<
        ProbeView,
    > {
        if self.is_of(identity, protocol) {
            Some(
                ProbeView {
                    capability: match self.capability {
                        Some(capability) => capability,
                        None => ThinkingCapability::Absent,
                    },
                    error: self.error,
                },
            )
        } else {
            None
        }
    }

    /// A failed check, or a baseline that did not touch any control: neither
    /// disproves controls that were known before.
    pub open spec fn is_inconclusive(self) -> bool {
        ||| self.error is Some
        ||| self.protocol == ThinkingProtocol::Unknown && self.capability == Some(
            ThinkingCapability::NativeOnly,
        )
    }

    /// The observation with a capability that was known before.
    pub open spec fn retaining(self, capability: ThinkingCapability, legacy_hint: bool) -> Self {
        SnapshotView { capability: Some(capability), legacy_hint, ..self }
    }

    /// The observation, with what is known from before where it is inconclusive.
    pub open spec fn after(
        self,
        previous: StoredView,
        legacy: Option<ThinkingCapability>,
    ) -> SnapshotView {
        if !self.is_inconclusive() {
            self
        } else {
            match previous {
                StoredView::Absent => match legacy {
                    Some(capability) => self.retaining(capability, true),
                    None => self,
                },
                StoredView::Malformed => self,
                StoredView::Parsed(before) => match before.known(self.identity, self.protocol) {
                    Some(capability) => self.retaining(capability, before.legacy_hint),
                    None => self,
                },
            }
        }
    }

    /// The observation that a probe's result is persisted as.
    pub open spec fn of_probe(
        identity: Seq<char>,
        protocol: ThinkingProtocol,
        result: ProbeView,
        observed_at: Seq<char>,
    ) -> SnapshotView {
        SnapshotView {
            revision: ThinkingProtocol::REVISION,
            identity,
            protocol,
            capability: if result.error is None {
                Some(result.capability)
            } else {
                None
            },
            error: result.error,
            observed_at,
            legacy_hint: false,
        }
    }
}

/// `chrono::Utc::now` and `chrono::DateTime::to_rfc3339`: the current time as
/// text. Nothing is claimed of it.
#[verifier::external_body]
fn utc_now() -> String {
    chrono::Utc::now().to_rfc3339()
}

/// A copy of an optional text.
fn copy_text(text: &Option<String>) -> (copy: Option<String>)
    ensures
        optional_string(copy) == optional_string(*text),
{
    match text {
        Some(text) => Some(text.clone()),
        None => None,
    }
}

impl Clone for ThinkingProbeSnapshot {
    fn clone(&self) -> (copy: Self)
        ensures
            copy@ == self@,
    {
        ThinkingProbeSnapshot {
            revision: self.revision,
            identity: self.identity.clone(),
            protocol: self.protocol,
            capability: self.capability,
            error: copy_text(&self.error),
            observed_at: self.observed_at.clone(),
            legacy_hint: self.legacy_hint,
        }
    }
}

impl ThinkingProbeSnapshot {
    /// The observation is of exactly this configuration and protocol.
    fn is_of(&self, identity: &str, protocol: ThinkingProtocol) -> (found: bool)
        ensures
            found == self@.is_of(identity@, protocol),
    {
        self.revision == ThinkingProtocol::REVISION && text::same(self.identity.as_str(), identity)
            && self.protocol == protocol
    }

    /// The result of the observed probe, for this configuration only.
    pub fn result(&self, identity: &str, protocol: ThinkingProtocol) -> (result: Option<
        ThinkingProbeResult,
    >)
        ensures
            match result {
                Some(result) => self@.probed(identity@, protocol) == Some(result@),
                None => self@.probed(identity@, protocol) is None,
            },
    {
        if self.is_of(identity, protocol) {
            Some(
                ThinkingProbeResult {
                    capability: match self.capability {
                        Some(capability) => capability,
                        None => ThinkingCapability::Absent,
                    },
                    error: copy_text(&self.error),
                },
            )
        } else {
            None
        }
    }

    /// A probe's result, observed now.
    pub fn new(
        identity: String,
        protocol: ThinkingProtocol,
        result: &ThinkingProbeResult,
    ) -> (snapshot: Self)
        ensures
            snapshot@ == SnapshotView::of_probe(
                identity@,
                protocol,
                result@,
                snapshot@.observed_at,
            ),
    {
        Self::observed(identity, protocol, result, utc_now())
    }

    /// A probe's result, observed at a given time. A failed probe establishes no
    /// capability.
    pub fn observed(
        identity: String,
        protocol: ThinkingProtocol,
        result: &ThinkingProbeResult,
        observed_at: String,
    ) -> (snapshot: Self)
        ensures
            snapshot@ == SnapshotView::of_probe(identity@, protocol, result@, observed_at@),
    {
        ThinkingProbeSnapshot {
            revision: ThinkingProtocol::REVISION,
            identity,
            protocol,
            capability: if result.error.is_none() {
                Some(result.capability)
            } else {
                None
            },
            error: copy_text(&result.error),
            observed_at,
            legacy_hint: false,
        }
    }

    /// An inconclusive check is not a negative capability observation. Keep
    /// prior knowledge only for exactly the same configuration and protocol.
    pub fn with_previous(
        self,
        previous: &StoredSnapshot,
        legacy: Option<ThinkingCapability>,
    ) -> (snapshot: Self)
        ensures
            snapshot@ == self@.after(previous@, legacy),
    {
        let mut snapshot = self;
        if snapshot.error.is_some() || (snapshot.protocol == ThinkingProtocol::Unknown
            && snapshot.capability == Some(ThinkingCapability::NativeOnly)) {
            match previous {
                StoredSnapshot::Absent => {
                    if let Some(capability) = legacy {
                        snapshot.capability = Some(capability);
                        snapshot.legacy_hint = true;
                    }
                },
                StoredSnapshot::Malformed => {},
                StoredSnapshot::Parsed(before) => {
                    if let Some(capability) = before.capability(
                        snapshot.identity.as_str(),
                        snapshot.protocol,
                    ) {
                        snapshot.capability = Some(capability);
                        snapshot.legacy_hint = before.legacy_hint;
                    }
                },
            }
        }
        snapshot
    }

    /// The capability that is persisted, whatever configuration it is of.
    pub fn persisted_capability(&self) -> (capability: Option<ThinkingCapability>)
        ensures
            capability == self@.capability,
    {
        self.capability
    }

    /// What the observation says of a configuration.
    pub fn capability(&self, identity: &str, protocol: ThinkingProtocol) -> (capability: Option<
        ThinkingCapability,
    >)
        ensures
            capability == self@.known(identity@, protocol),
    {
        if self.is_of(identity, protocol) {
            self.capability
        } else {
            None
        }
    }
}

impl StoredView {
    /// What the store says of a configuration.
    pub open spec fn known(
        self,
        identity: Seq<char>,
        protocol: ThinkingProtocol,
    ) -> Option<ThinkingCapability> {
        match self {
            StoredView::Parsed(snapshot) => snapshot.known(identity, protocol),
            _ => None,
        }
    }
}

/// What the store says of a configuration.
pub fn cached_capability(
    stored: &StoredSnapshot,
    identity: &str,
    protocol: ThinkingProtocol,
) -> (capability: Option<ThinkingCapability>)
    ensures
        capability == stored@.known(identity@, protocol),
{
    match stored {
        StoredSnapshot::Parsed(snapshot) => snapshot.capability(identity, protocol),
        _ => None,
    }
}

/// The JSON text, as bytes, of an array of strings.
pub uninterp spec fn json_texts(texts: Seq<Seq<char>>) -> Seq<u8>;

/// `serde_json::to_vec` of five strings: the bytes that [`json_texts`] names.
/// No other strings have them: the text is one from which the strings can be
/// read back.
#[verifier::external_body]
fn serialize_texts(a: &str, b: &str, c: &str, d: &str, e: &str) -> (bytes: Vec<u8>)
    ensures
        bytes@ == json_texts(seq![a@, b@, c@, d@, e@]),
        forall|other: Seq<Seq<char>>| #[trigger]
            json_texts(other) == bytes@ ==> other == seq![a@, b@, c@, d@, e@],
{
    serde_json::to_vec(&(a, b, c, d, e)).expect("string tuple serializes")
}

/// Hash configuration, not plaintext credentials. Ciphertext generation binds
/// the observation to credential rotation without persisting a key-derived hash.
pub fn probe_identity(
    provider: &str,
    endpoint: &str,
    model: &str,
    encrypted: &str,
    config: &str,
) -> (identity: String)
    ensures
        identity@ == text::hex_digits(
            codec::sha256_digest(
                json_texts(seq![provider@, endpoint@, model@, encrypted@, config@]),
            ),
        ),
        identity@.len() == 64,
        forall|other: Seq<Seq<char>>| #[trigger]
            json_texts(other) == json_texts(
                seq![provider@, endpoint@, model@, encrypted@, config@],
            ) ==> other == seq![provider@, endpoint@, model@, encrypted@, config@],
{
    let serialized = serialize_texts(provider, endpoint, model, encrypted, config);
    text::hex(&codec::sha256(serialized.as_slice()))
}

/// The error of a probe that saw no reasoning though it was asked for.
pub open spec fn unseen() -> Seq<char> {
    "No observable reasoning in enabled mode; capability remains unknown"@
}

/// The error of a probe that saw reasoning though it was to be off.
pub open spec fn ignored() -> Seq<char> {
    "Reasoning remained visible with suppression requested; capability remains unknown"@
}

/// A result that establishes nothing.
pub open spec fn unknown_view(error: Seq<char>) -> ProbeView {
    ProbeView { capability: ThinkingCapability::Absent, error: Some(error) }
}

/// A result that establishes a capability.
pub open spec fn established_view(capability: ThinkingCapability) -> ProbeView {
    ProbeView { capability, error: None }
}

/// The text behind the outcome of a request: whether reasoning was visible, or
/// why nothing is known.
pub open spec fn outcome_view(outcome: Result<bool, String>) -> Result<bool, Seq<char>> {
    match outcome {
        Ok(visible) => Ok(visible),
        Err(error) => Err(error@),
    }
}

/// What the request with reasoning on establishes by itself: `None` where a
/// second request, with reasoning off, is needed.
pub open spec fn after_enabled_view(
    protocol: ThinkingProtocol,
    outcome: Result<bool, Seq<char>>,
) -> Option<ProbeView> {
    match outcome {
        Err(error) => Some(unknown_view(error)),
        Ok(false) => Some(unknown_view(unseen())),
        Ok(true) => if protocol.disables() {
            None
        } else if protocol == ThinkingProtocol::ReasoningEffort {
            Some(established_view(ThinkingCapability::EffortOnly))
        } else {
            Some(established_view(ThinkingCapability::NativeOnly))
        },
    }
}

/// What the request with reasoning off establishes, after one that showed it.
pub open spec fn after_disabled_view(outcome: Result<bool, Seq<char>>) -> ProbeView {
    match outcome {
        Err(error) => unknown_view(error),
        Ok(true) => unknown_view(ignored()),
        Ok(false) => established_view(ThinkingCapability::Both),
    }
}

/// What a probe establishes from the outcomes of both requests; the second is
/// made only where the first leaves the result open.
pub open spec fn probe_view(
    protocol: ThinkingProtocol,
    enabled: Result<bool, Seq<char>>,
    disabled: Result<bool, Seq<char>>,
) -> ProbeView {
    match after_enabled_view(protocol, enabled) {
        Some(result) => result,
        None => after_disabled_view(disabled),
    }
}

/// The question that a probe asks.
pub open spec fn probe_question(model: Seq<char>) -> Json {
    Json::Object(
        json::no_fields().insert("model"@, Json::Text(model)).insert(
            "messages"@,
            Json::Array(
                seq![
                    Json::Object(
                        json::no_fields().insert("role"@, Json::Text("user"@)).insert(
                            "content"@,
                            Json::Text("Calculate 17 * 23. Reply with the result."@),
                        ),
                    ),
                ],
            ),
        ),
    )
}

/// The output budget of a probe.
pub const PROBE_TOKENS: usize = 1024;

/// The request with reasoning on.
pub open spec fn enabled_request_view(
    provider: Seq<char>,
    model: Seq<char>,
    protocol: ThinkingProtocol,
) -> Json {
    protocol.applied(
        model_wire::limited(probe_question(model), provider, PROBE_TOKENS),
        true,
        if protocol == ThinkingProtocol::ReasoningEffort {
            Some("low"@)
        } else {
            None
        },
    )
}

/// Whether reported reasoning tokens count as visible reasoning under a protocol.
pub open spec fn usage_counts(protocol: ThinkingProtocol) -> bool {
    protocol == ThinkingProtocol::ReasoningEffort
}

/// The request with reasoning off, made of the one with reasoning on.
pub open spec fn disabled_request_view(enabled: Json, protocol: ThinkingProtocol) -> Json {
    protocol.applied(enabled, false, None)
}

/// The next thing to do for a probe.
pub enum ProbeStep {
    /// Send this request, and take its outcome to `after_disabled`.
    SendDisabled(serde_json::Value),
    /// The probe is over.
    Done(ThinkingProbeResult),
}

/// Probing one model. Binary controls require two-sided observation. Native and
/// effort protocols establish reasoning only, never suppression. An accepted
/// but ignored toggle is not `Both`; absent observable reasoning remains
/// inconclusive.
pub struct ChatProbe {
    pub protocol: ThinkingProtocol,
}

impl ChatProbe {
    /// The request with reasoning on, which starts the probe.
    pub fn enabled_request(&self, provider: &str, model: &str) -> (body: serde_json::Value)
        ensures
            json::json(body) == enabled_request_view(provider@, model@, self.protocol),
    {
        let mut question = new_map();
        insert(&mut question, "role", from_str("user"));
        insert(&mut question, "content", from_str("Calculate 17 * 23. Reply with the result."));
        let mut messages: Vec<serde_json::Value> = Vec::new();
        messages.push(from_map(question));
        assert(json::jsons(messages@) =~= seq![json::json(messages@[0])]);
        let mut fields = new_map();
        insert(&mut fields, "model", from_str(model));
        insert(&mut fields, "messages", from_vec(messages));
        let mut body = from_map(fields);
        assert(json::json(body) == probe_question(model@));
        apply_chat_output_token_limit(&mut body, provider, PROBE_TOKENS);
        let effort = if self.protocol == ThinkingProtocol::ReasoningEffort {
            Some("low")
        } else {
            None
        };
        self.protocol.apply(&mut body, true, effort);
        body
    }

    /// Whether reported reasoning tokens count as visible reasoning.
    pub fn counts_usage(&self) -> (counts: bool)
        ensures
            counts == usage_counts(self.protocol),
    {
        self.protocol == ThinkingProtocol::ReasoningEffort
    }

    /// What follows from the outcome of the request with reasoning on, which was
    /// `enabled`.
    pub fn after_enabled(
        &self,
        enabled: serde_json::Value,
        outcome: Result<bool, String>,
    ) -> (step: ProbeStep)
        ensures
            match after_enabled_view(self.protocol, outcome_view(outcome)) {
                Some(result) => step matches ProbeStep::Done(done) && done@ == result,
                None => step matches ProbeStep::SendDisabled(body) && json::json(body)
                    == disabled_request_view(json::json(enabled), self.protocol),
            },
    {
        match outcome {
            Ok(true) => {},
            Ok(false) => {
                return ProbeStep::Done(
                    ThinkingProbeResult {
                        capability: ThinkingCapability::Absent,
                        error: Some(
                            "No observable reasoning in enabled mode; capability remains unknown".to_owned(),
                        ),
                    },
                );
            },
            Err(error) => {
                return ProbeStep::Done(
                    ThinkingProbeResult { capability: ThinkingCapability::Absent, error: Some(error) },
                );
            },
        }
        if !self.protocol.can_disable() {
            return ProbeStep::Done(
                ThinkingProbeResult {
                    capability: if self.protocol == ThinkingProtocol::ReasoningEffort {
                        ThinkingCapability::EffortOnly
                    } else {
                        ThinkingCapability::NativeOnly
                    },
                    error: None,
                },
            );
        }
        let mut disabled = enabled;
        self.protocol.apply(&mut disabled, false, None);
        ProbeStep::SendDisabled(disabled)
    }

    /// The result of a probe that showed reasoning, from the outcome of the
    /// request with reasoning off.
    pub fn after_disabled(&self, outcome: Result<bool, String>) -> (result: ThinkingProbeResult)
        ensures
            result@ == after_disabled_view(outcome_view(outcome)),
    {
        match outcome {
            Ok(false) => ThinkingProbeResult { capability: ThinkingCapability::Both, error: None },
            Ok(true) => ThinkingProbeResult {
                capability: ThinkingCapability::Absent,
                error: Some(
                    "Reasoning remained visible with suppression requested; capability remains unknown".to_owned(),
                ),
            },
            Err(error) => ThinkingProbeResult {
                capability: ThinkingCapability::Absent,
                error: Some(error),
            },
        }
    }
}

/// An observation is reused for exactly the configuration, the protocol and the
/// revision that it was made of.
pub proof fn reuse_is_exact(snapshot: SnapshotView, identity: Seq<char>, protocol: ThinkingProtocol)
    ensures
        snapshot.known(identity, protocol) is Some ==> {
            &&& snapshot.revision == ThinkingProtocol::REVISION
            &&& snapshot.identity == identity
            &&& snapshot.protocol == protocol
        },
        snapshot.revision != ThinkingProtocol::REVISION || snapshot.identity != identity
            || snapshot.protocol != protocol ==> snapshot.known(identity, protocol) is None,
{
}

/// What a conclusive probe found is what the store says of that configuration
/// afterwards, whatever was known before; a failed probe alone says nothing.
pub proof fn probes_are_remembered(
    identity: Seq<char>,
    protocol: ThinkingProtocol,
    result: ProbeView,
    observed_at: Seq<char>,
    previous: StoredView,
    legacy: Option<ThinkingCapability>,
)
    ensures
        ({
            let snapshot = SnapshotView::of_probe(identity, protocol, result, observed_at);
            &&& result.error is None ==> snapshot.known(identity, protocol) == Some(
                result.capability,
            )
            &&& result.error is Some ==> snapshot.known(identity, protocol) is None
            &&& !snapshot.is_inconclusive() ==> snapshot.after(previous, legacy) == snapshot
        }),
{
}

/// An inconclusive probe retains what is stored of exactly its configuration
/// and protocol and, where nothing at all is stored, the legacy capability,
/// marked as a hint. It takes nothing from an observation of another
/// configuration, protocol or revision, or from a store that cannot be read.
/// Its own error and time stay.
pub proof fn inconclusive_probes_retain_matching_knowledge(
    snapshot: SnapshotView,
    previous: StoredView,
    legacy: Option<ThinkingCapability>,
)
    requires
        snapshot.is_inconclusive(),
    ensures
        ({
            let after = snapshot.after(previous, legacy);
            &&& after.error == snapshot.error
            &&& after.observed_at == snapshot.observed_at
            &&& after.identity == snapshot.identity
            &&& after.protocol == snapshot.protocol
            &&& match previous {
                StoredView::Absent => if legacy is Some {
                    after.capability == legacy && after.legacy_hint
                } else {
                    after == snapshot
                },
                StoredView::Malformed => after == snapshot,
                StoredView::Parsed(before) => if before.known(
                    snapshot.identity,
                    snapshot.protocol,
                ) is Some {
                    after.capability == before.capability && after.legacy_hint == before.legacy_hint
                } else {
                    after == snapshot
                },
            }
        }),
{
}

/// Applying what is known from before twice adds nothing.
pub proof fn retention_is_idempotent(
    snapshot: SnapshotView,
    previous: StoredView,
    legacy: Option<ThinkingCapability>,
)
    ensures
        snapshot.after(previous, legacy).after(previous, legacy) == snapshot.after(previous, legacy),
{
}

/// Only a two-sided observation establishes a toggle: reasoning shown when
/// asked for, and not shown when it was to be off, under a protocol that can
/// ask for that. Native and effort protocols never establish one.
pub proof fn toggles_need_both_sides(
    protocol: ThinkingProtocol,
    enabled: Result<bool, Seq<char>>,
    disabled: Result<bool, Seq<char>>,
)
    ensures
        probe_view(protocol, enabled, disabled).capability is Both <==> {
            &&& protocol.disables()
            &&& enabled matches Ok(true)
            &&& disabled matches Ok(false)
        },
        probe_view(protocol, enabled, disabled).error is Some ==> probe_view(
            protocol,
            enabled,
            disabled,
        ).capability is Absent,
        !(enabled matches Ok(true)) ==> probe_view(protocol, enabled, disabled).error is Some,
{
}

/// Two identities agree exactly where the digests behind them do.
pub proof fn identities_agree_with_digests(a: Seq<Seq<char>>, b: Seq<Seq<char>>)
    ensures
        text::hex_digits(codec::sha256_digest(json_texts(a))) == text::hex_digits(
            codec::sha256_digest(json_texts(b)),
        ) <==> codec::sha256_digest(json_texts(a)) == codec::sha256_digest(json_texts(b)),
{
    if text::hex_digits(codec::sha256_digest(json_texts(a))) == text::hex_digits(
        codec::sha256_digest(json_texts(b)),
    ) {
        text::hex_digits_injective(
            codec::sha256_digest(json_texts(a)),
            codec::sha256_digest(json_texts(b)),
        );
    }
}

/// The request with reasoning off asks the same question under the same budget:
/// it is what the protocol makes of the unmarked question, and carries nothing
/// of the request with reasoning on.
pub proof fn disabled_request_asks_the_same(
    provider: Seq<char>,
    model: Seq<char>,
    protocol: ThinkingProtocol,
)
    requires
        protocol.disables(),
    ensures
        disabled_request_view(enabled_request_view(provider, model, protocol), protocol)
            == protocol.applied(
            model_wire::limited(probe_question(model), provider, PROBE_TOKENS),
            false,
            None,
        ),
{
    thinking::last_application_wins(
        protocol,
        protocol,
        model_wire::limited(probe_question(model), provider, PROBE_TOKENS),
        true,
        None,
        false,
        None,
    );
}

/// The names in a probe's requests differ.
proof fn request_names_differ()
    ensures
        "model"@ != "messages"@,
        "model"@ != "thinking"@,
        "model"@ != "enable_thinking"@,
        "model"@ != "reasoning_effort"@,
        "model"@ != "max_tokens"@,
        "model"@ != "max_completion_tokens"@,
        "messages"@ != "thinking"@,
        "messages"@ != "enable_thinking"@,
        "messages"@ != "reasoning_effort"@,
        "messages"@ != "max_tokens"@,
        "messages"@ != "max_completion_tokens"@,
        "max_tokens"@ != "thinking"@,
        "max_tokens"@ != "enable_thinking"@,
        "max_tokens"@ != "reasoning_effort"@,
        "max_completion_tokens"@ != "thinking"@,
        "max_completion_tokens"@ != "enable_thinking"@,
        "max_completion_tokens"@ != "reasoning_effort"@,
        "thinking"@ != "enable_thinking"@,
        "thinking"@ != "reasoning_effort"@,
        "enable_thinking"@ != "reasoning_effort"@,
        "role"@ != "content"@,
{
    reveal_strlit("model");
    reveal_strlit("messages");
    reveal_strlit("thinking");
    reveal_strlit("enable_thinking");
    reveal_strlit("reasoning_effort");
    reveal_strlit("max_tokens");
    reveal_strlit("max_completion_tokens");
    reveal_strlit("role");
    reveal_strlit("content");
    assert("model"@.len() == 5);
    assert("messages"@.len() == 8 && "messages"@[0] == 'm');
    assert("thinking"@.len() == 8 && "thinking"@[0] == 't');
    assert("enable_thinking"@.len() == 15);
    assert("reasoning_effort"@.len() == 16);
    assert("max_tokens"@.len() == 10);
    assert("max_completion_tokens"@.len() == 21);
    assert("role"@.len() == 4);
    assert("content"@.len() == 7);
}

/// A probe starts with reasoning on: under every protocol that can disable it, the first
/// request carries that protocol's control set to on. The second carries it set to off,
/// and differs from the first in that control only.
pub proof fn probes_start_with_reasoning_on(
    provider: Seq<char>,
    model: Seq<char>,
    protocol: ThinkingProtocol,
    key: Seq<char>,
)
    requires
        protocol.disables(),
    ensures
        ({
            let first = enabled_request_view(provider, model, protocol);
            let second = disabled_request_view(first, protocol);
            &&& protocol is EnableThinking ==> {
                &&& first.field("enable_thinking"@) == Some(Json::Bool(true))
                &&& second.field("enable_thinking"@) == Some(Json::Bool(false))
                &&& key != "enable_thinking"@ ==> second.field(key) == first.field(key)
            }
            &&& !(protocol is EnableThinking) ==> {
                &&& first.field("thinking"@) is Some
                &&& first.field("thinking"@)->0.field("type"@) == Some(Json::Text("enabled"@))
                &&& second.field("thinking"@) is Some
                &&& second.field("thinking"@)->0.field("type"@) == Some(Json::Text("disabled"@))
                &&& key != "thinking"@ ==> second.field(key) == first.field(key)
            }
        }),
{
    request_names_differ();
    let question = model_wire::limited(probe_question(model), provider, PROBE_TOKENS);
    let first = enabled_request_view(provider, model, protocol);
    disabled_request_asks_the_same(provider, model, protocol);
    thinking::controls_exclusive(protocol, question, true, None);
    thinking::controls_exclusive(protocol, question, false, None);
    thinking::toggles_name_their_state(true, key);
    if key != "thinking"@ && key != "enable_thinking"@ && key != "reasoning_effort"@ {
        thinking::only_the_three_controls_change(protocol, question, true, None, key);
        thinking::only_the_three_controls_change(protocol, question, false, None, key);
    }
}

/// Under an effort protocol a probe asks for a low effort and no more; under an unknown one
/// it sends no control at all.
pub proof fn other_probes_send_no_toggle(
    provider: Seq<char>,
    model: Seq<char>,
    protocol: ThinkingProtocol,
)
    requires
        !protocol.disables(),
    ensures
        ({
            let first = enabled_request_view(provider, model, protocol);
            &&& first.field("thinking"@) is None
            &&& first.field("enable_thinking"@) is None
            &&& first.field("reasoning_effort"@) == if protocol is ReasoningEffort {
                Some(Json::Text("low"@))
            } else {
                None
            }
        }),
{
    request_names_differ();
    let question = model_wire::limited(probe_question(model), provider, PROBE_TOKENS);
    if protocol != ThinkingProtocol::Unknown {
        thinking::controls_exclusive(protocol, question, true, Some("low"@));
    }
}

/// Every probe asks its model one question, as the user, under a budget of 1024 tokens in
/// the field of the provider.
pub proof fn probes_ask_one_question(
    provider: Seq<char>,
    model: Seq<char>,
    protocol: ThinkingProtocol,
)
    ensures
        ({
            let first = enabled_request_view(provider, model, protocol);
            let messages = first.field("messages"@);
            &&& first.field("model"@) == Some(Json::Text(model))
            &&& messages is Some && messages->0 is Array && messages->0->Array_0.len() == 1
            &&& messages->0->Array_0[0].field("role"@) == Some(Json::Text("user"@))
            &&& messages->0->Array_0[0].field("content"@) == Some(
                Json::Text("Calculate 17 * 23. Reply with the result."@),
            )
            &&& first.field(
                if provider == "anthropic"@ {
                    "max_tokens"@
                } else {
                    "max_completion_tokens"@
                },
            ) == Some(Json::Number(json::JsonNumber::Unsigned(1024)))
        }),
{
    request_names_differ();
    let plain = probe_question(model);
    let question = model_wire::limited(plain, provider, PROBE_TOKENS);
    model_wire::budgets_go_by_the_provider(plain, provider, PROBE_TOKENS, "model"@);
    model_wire::budgets_go_by_the_provider(plain, provider, PROBE_TOKENS, "messages"@);
    let effort = if protocol == ThinkingProtocol::ReasoningEffort {
        Some("low"@)
    } else {
        None
    };
    thinking::only_the_three_controls_change(protocol, question, true, effort, "model"@);
    thinking::only_the_three_controls_change(protocol, question, true, effort, "messages"@);
    thinking::only_the_three_controls_change(protocol, question, true, effort, "max_tokens"@);
    thinking::only_the_three_controls_change(
        protocol,
        question,
        true,
        effort,
        "max_completion_tokens"@,
    );
}

/// What a probe establishes, by its outcomes: an error says why nothing is known, reasoning
/// that does not show or does not go away is no capability, and what shows under an effort
/// protocol, or under none, is known as that.
pub proof fn outcomes_decide_the_capability(
    protocol: ThinkingProtocol,
    error: Seq<char>,
    disabled: Result<bool, Seq<char>>,
)
    ensures
        probe_view(protocol, Err(error), disabled) == (ProbeView {
            capability: ThinkingCapability::Absent,
            error: Some(error),
        }),
        probe_view(protocol, Ok(false), disabled).error == Some(
            "No observable reasoning in enabled mode; capability remains unknown"@,
        ),
        probe_view(ThinkingProtocol::ReasoningEffort, Ok(true), disabled) == (ProbeView {
            capability: ThinkingCapability::EffortOnly,
            error: None,
        }),
        probe_view(ThinkingProtocol::Unknown, Ok(true), disabled) == (ProbeView {
            capability: ThinkingCapability::NativeOnly,
            error: None,
        }),
        after_enabled_view(protocol, Ok(true)) is None <==> protocol.disables(),
        after_disabled_view(Err(error)) == (ProbeView {
            capability: ThinkingCapability::Absent,
            error: Some(error),
        }),
        after_disabled_view(Ok(true)).error == Some(
            "Reasoning remained visible with suppression requested; capability remains unknown"@,
        ),
        after_disabled_view(Ok(false)) == (ProbeView {
            capability: ThinkingCapability::Both,
            error: None,
        }),
{
}

/// Reported reasoning tokens show reasoning where an effort is all that is asked for; where
/// a toggle or nothing is sent, only reasoning itself does.
pub proof fn usage_shows_effort_only(protocol: ThinkingProtocol)
    ensures
        protocol.disables() ==> !usage_counts(protocol),
        !usage_counts(ThinkingProtocol::Unknown),
        usage_counts(ThinkingProtocol::ReasoningEffort),
{
}

/// An observation answers for its own configuration, with what it holds; the result of its
/// probe has the same error, and no capability where none was established. A store without
/// an observation answers nothing.
pub proof fn observations_answer_for_themselves(
    snapshot: SnapshotView,
    identity: Seq<char>,
    protocol: ThinkingProtocol,
)
    ensures
        snapshot.revision == 1 && snapshot.identity == identity && snapshot.protocol == protocol
            ==> {
            &&& snapshot.known(identity, protocol) == snapshot.capability
            &&& StoredView::Parsed(snapshot).known(identity, protocol) == snapshot.capability
            &&& snapshot.probed(identity, protocol) is Some
            &&& snapshot.probed(identity, protocol)->0.error == snapshot.error
            &&& snapshot.capability is Some ==> snapshot.probed(identity, protocol)->0.capability
                == snapshot.capability->0
            &&& snapshot.capability is None ==> snapshot.probed(identity, protocol)->0.capability
                is Absent
        },
        snapshot.revision != 1 || snapshot.identity != identity || snapshot.protocol != protocol
            ==> snapshot.probed(identity, protocol) is None && StoredView::Parsed(snapshot).known(
            identity,
            protocol,
        ) is None,
        StoredView::Absent.known(identity, protocol) is None,
        StoredView::Malformed.known(identity, protocol) is None,
{
}

/// A probe is inconclusive where it failed, or where it only showed reasoning without
/// touching a control; a capability under a known protocol is conclusive.
pub proof fn failed_and_untouched_probes_are_inconclusive(snapshot: SnapshotView)
    ensures
        snapshot.error is Some ==> snapshot.is_inconclusive(),
        snapshot.protocol is Unknown && snapshot.capability == Some(
            ThinkingCapability::NativeOnly,
        ) ==> snapshot.is_inconclusive(),
        snapshot.error is None && !(snapshot.protocol is Unknown) ==> !snapshot.is_inconclusive(),
        snapshot.error is None && snapshot.capability != Some(ThinkingCapability::NativeOnly)
            ==> !snapshot.is_inconclusive(),
{
}

/// What is persisted of a probe is its configuration, protocol, error and time as they were,
/// under the current revision, and never as a hint.
pub proof fn probes_are_persisted_as_observed(
    identity: Seq<char>,
    protocol: ThinkingProtocol,
    result: ProbeView,
    observed_at: Seq<char>,
)
    ensures
        ({
            let snapshot = SnapshotView::of_probe(identity, protocol, result, observed_at);
            &&& snapshot.revision == 1
            &&& snapshot.identity == identity
            &&& snapshot.protocol == protocol
            &&& snapshot.error == result.error
            &&& snapshot.observed_at == observed_at
            &&& !snapshot.legacy_hint
            &&& result.error is None ==> snapshot.probed(identity, protocol) == Some(result)
        }),
{
}

/// The call that makes the first request of a probe carries the protocol's control set to
/// on, under every protocol that can disable reasoning.
pub proof fn first_requests_carry_the_control(
    probe: ChatProbe,
    provider: &str,
    model: &str,
    body: serde_json::Value,
)
    requires
        call_ensures(ChatProbe::enabled_request, (&probe, provider, model), body),
    ensures
        probe.protocol is EnableThinking ==> json::json(body).field("enable_thinking"@) == Some(
            Json::Bool(true),
        ),
        probe.protocol is ThinkingObject || probe.protocol is Moonshot ==> json::json(body).field(
            "thinking"@,
        ) is Some && json::json(body).field("thinking"@)->0.field("type"@) == Some(
            Json::Text("enabled"@),
        ),
        probe.protocol is ReasoningEffort ==> json::json(body).field("reasoning_effort"@) == Some(
            Json::Text("low"@),
        ),
        json::json(body).field("model"@) == Some(Json::Text(model@)),
{
    probes_ask_one_question(provider@, model@, probe.protocol);
    if probe.protocol.disables() {
        probes_start_with_reasoning_on(provider@, model@, probe.protocol, "model"@);
    } else {
        other_probes_send_no_toggle(provider@, model@, probe.protocol);
    }
}

/// The call that follows a request which showed reasoning makes the second request where
/// the protocol can disable it: the same one with the control set to off.
pub proof fn second_requests_turn_it_off(
    probe: ChatProbe,
    enabled: serde_json::Value,
    body: serde_json::Value,
    key: Seq<char>,
)
    requires
        call_ensures(
            ChatProbe::after_enabled,
            (&probe, enabled, Ok::<bool, String>(true)),
            ProbeStep::SendDisabled(body),
        ),
        json::json(enabled) is Object,
        key != "thinking"@ && key != "enable_thinking"@ && key != "reasoning_effort"@,
    ensures
        probe.protocol.disables(),
        probe.protocol is EnableThinking ==> json::json(body).field("enable_thinking"@) == Some(
            Json::Bool(false),
        ),
        probe.protocol is ThinkingObject || probe.protocol is Moonshot ==> json::json(body).field(
            "thinking"@,
        ) is Some && json::json(body).field("thinking"@)->0.field("type"@) == Some(
            Json::Text("disabled"@),
        ),
        json::json(body).field(key) == json::json(enabled).field(key),
{
    thinking::controls_exclusive(probe.protocol, json::json(enabled), false, None);
    thinking::toggles_name_their_state(false, key);
    thinking::only_the_three_controls_change(
        probe.protocol,
        json::json(enabled),
        false,
        None,
        key,
    );
}

/// What is persisted is told as it is, for whatever configuration.
pub proof fn persisted_capabilities_are_told(
    snapshot: ThinkingProbeSnapshot,
    capability: Option<ThinkingCapability>,
)
    requires
        call_ensures(ThinkingProbeSnapshot::persisted_capability, (&snapshot,), capability),
    ensures
        capability == snapshot.capability,
{
}

/// The calls on an observation answer for exactly its configuration, protocol and revision:
/// with its capability, and with the result of its probe.
pub proof fn observations_are_asked_exactly(
    snapshot: ThinkingProbeSnapshot,
    identity: &str,
    protocol: ThinkingProtocol,
    capability: Option<ThinkingCapability>,
    result: Option<ThinkingProbeResult>,
    cached: Option<ThinkingCapability>,
)
    requires
        call_ensures(ThinkingProbeSnapshot::capability, (&snapshot, identity, protocol), capability),
        call_ensures(ThinkingProbeSnapshot::result, (&snapshot, identity, protocol), result),
        call_ensures(
            cached_capability,
            (&StoredSnapshot::Parsed(snapshot), identity, protocol),
            cached,
        ),
    ensures
        ({
            let own = snapshot.revision == 1 && snapshot.identity@ == identity@
                && snapshot.protocol == protocol;
            &&& own ==> capability == snapshot.capability && cached == snapshot.capability
            &&& !own ==> capability is None && cached is None && result is None
            &&& own ==> result is Some && optional_string(result->0.error) == optional_string(
                snapshot.error,
            )
            &&& own && snapshot.capability is Some ==> result->0.capability
                == snapshot.capability->0
            &&& own && snapshot.capability is None ==> result->0.capability is Absent
        }),
{
    observations_answer_for_themselves(snapshot@, identity@, protocol);
}

/// The call that persists a probe keeps what it found, unless it failed, with its
/// configuration and time; the call that adds what was known before changes a conclusive
/// observation in nothing, and keeps configuration, error and time of any.
pub proof fn probes_are_persisted_and_kept(
    identity: String,
    protocol: ThinkingProtocol,
    result: ThinkingProbeResult,
    observed_at: String,
    snapshot: ThinkingProbeSnapshot,
    previous: StoredSnapshot,
    legacy: Option<ThinkingCapability>,
    kept: ThinkingProbeSnapshot,
)
    requires
        call_ensures(
            ThinkingProbeSnapshot::observed,
            (identity, protocol, &result, observed_at),
            snapshot,
        ),
        call_ensures(ThinkingProbeSnapshot::with_previous, (snapshot, &previous, legacy), kept),
    ensures
        snapshot.identity@ == identity@,
        snapshot.protocol == protocol,
        snapshot.observed_at@ == observed_at@,
        snapshot.revision == 1,
        !snapshot.legacy_hint,
        result.error is None ==> snapshot.capability == Some(result.capability),
        result.error is Some ==> snapshot.capability is None,
        kept.identity@ == identity@,
        kept.protocol == protocol,
        kept.observed_at@ == observed_at@,
        optional_string(kept.error) == optional_string(result.error),
        result.error is None && !(protocol is Unknown) ==> kept@ == snapshot@,
        result.error is Some && previous is Absent ==> kept.capability == legacy,
        result.error is Some && previous is Malformed ==> kept.capability is None,
{
    assert(snapshot@ == SnapshotView::of_probe(identity@, protocol, result@, observed_at@));
    probes_are_persisted_as_observed(identity@, protocol, result@, observed_at@);
    failed_and_untouched_probes_are_inconclusive(snapshot@);
    assert(kept@ == snapshot@.after(previous@, legacy));
    if snapshot@.is_inconclusive() {
        inconclusive_probes_retain_matching_knowledge(snapshot@, previous@, legacy);
    }
}

/// The calls that follow a request say what is known by then: nothing after an error, which
/// they pass on, and a toggle only after reasoning that went away.
pub proof fn outcomes_are_passed_on(
    probe: ChatProbe,
    enabled: serde_json::Value,
    error: String,
    failed: ProbeStep,
    off: ThinkingProbeResult,
    visible: ThinkingProbeResult,
    counts: bool,
)
    requires
        call_ensures(
            ChatProbe::after_enabled,
            (&probe, enabled, Err::<bool, String>(error)),
            failed,
        ),
        call_ensures(ChatProbe::after_disabled, (&probe, Ok::<bool, String>(false)), off),
        call_ensures(ChatProbe::after_disabled, (&probe, Ok::<bool, String>(true)), visible),
        call_ensures(ChatProbe::counts_usage, (&probe,), counts),
    ensures
        failed is Done && failed->Done_0.capability is Absent && optional_string(
            failed->Done_0.error,
        ) == Some(error@),
        off.capability is Both && off.error is None,
        visible.capability is Absent && visible.error is Some,
        counts <==> probe.protocol is ReasoningEffort,
{
    outcomes_decide_the_capability(probe.protocol, error@, Ok(true));
    assert(failed->Done_0@ == unknown_view(error@));
    assert(off@ == established_view(ThinkingCapability::Both));
    assert(visible@ == unknown_view(ignored()));
}

/// An identity is the digest of the five texts of a configuration, in their order, in 64
/// hexadecimal digits.
pub proof fn identities_are_digests(
    provider: &str,
    endpoint: &str,
    model: &str,
    encrypted: &str,
    config: &str,
    identity: String,
)
    requires
        call_ensures(probe_identity, (provider, endpoint, model, encrypted, config), identity),
    ensures
        identity@ == text::hex_digits(
            codec::sha256_digest(
                json_texts(seq![provider@, endpoint@, model@, encrypted@, config@]),
            ),
        ),
        identity@.len() == 64,
{
}

} // verus!
