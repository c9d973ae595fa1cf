//! Shared wire rules for chat inference and credential or connectivity probes,
//! so that probes cannot invent a second contract.
use crate::json;
use crate::json::{from_usize, insert, object_mut, remove};
use crate::json::{Json, JsonNumber};
use crate::text;
use vstd::prelude::*;

verus! {

/// The output budget field that a provider reads.
pub open spec fn budget_field(provider: Seq<char>) -> Seq<char> {
    if provider == "anthropic"@ {
        "max_tokens"@
    } else {
        "max_completion_tokens"@
    }
}

/// The output budget field that a provider must not be sent.
pub open spec fn obsolete_field(provider: Seq<char>) -> Seq<char> {
    if provider == "anthropic"@ {
        "max_completion_tokens"@
    } else {
        "max_tokens"@
    }
}

/// The request with its output budget.
pub open spec fn limited(body: Json, provider: Seq<char>, tokens: usize) -> Json {
    match body {
        Json::Object(fields) => Json::Object(
            fields.remove(obsolete_field(provider)).insert(
                budget_field(provider),
                Json::Number(JsonNumber::Unsigned(tokens as u64)),
            ),
        ),
        _ => body,
    }
}

/// Apply a caller-bounded output budget to Anthropic Messages or OpenAI-style
/// chat completions. Thinking-budget policy belongs to the caller, not this
/// serialization helper.
pub fn apply_chat_output_token_limit(body: &mut serde_json::Value, provider: &str, tokens: usize)
    ensures
        json::json(*final(body)) == limited(json::json(*old(body)), provider@, tokens),
{
    let (field, obsolete) = if text::same(provider, "anthropic") {
        ("max_tokens", "max_completion_tokens")
    } else {
        ("max_completion_tokens", "max_tokens")
    };
    if let Some(object) = object_mut(body) {
        remove(object, obsolete);
        insert(object, field, from_usize(tokens));
    }
}

/// The two budget fields have different names.
pub proof fn budget_fields_differ(provider: Seq<char>)
    ensures
        budget_field(provider) != obsolete_field(provider),
{
    reveal_strlit("max_tokens");
    reveal_strlit("max_completion_tokens");
    assert("max_tokens"@.len() == 10);
    assert("max_completion_tokens"@.len() == 21);
}

/// The budget stands in the field of the provider's protocol and nowhere else,
/// and every other field keeps its value.
pub proof fn budget_is_unambiguous(
    body: Json,
    provider: Seq<char>,
    tokens: usize,
    other: Seq<char>,
)
    requires
        body is Object,
        other != budget_field(provider),
        other != obsolete_field(provider),
    ensures
        limited(body, provider, tokens).field(budget_field(provider)) == Some(
            Json::Number(JsonNumber::Unsigned(tokens as u64)),
        ),
        limited(body, provider, tokens).field(obsolete_field(provider)) is None,
        limited(body, provider, tokens).field(other) == body.field(other),
{
    budget_fields_differ(provider);
}

/// The last budget wins, also where the provider has changed.
pub proof fn last_budget_wins(
    body: Json,
    first: Seq<char>,
    first_tokens: usize,
    provider: Seq<char>,
    tokens: usize,
)
    ensures
        limited(limited(body, first, first_tokens), provider, tokens) == limited(
            body,
            provider,
            tokens,
        ),
{
    budget_fields_differ(first);
    budget_fields_differ(provider);
    if let Json::Object(fields) = body {
        if let Json::Object(between) = limited(body, first, first_tokens) {
            let field = budget_field(provider);
            let obsolete = obsolete_field(provider);
            let budget = Json::Number(JsonNumber::Unsigned(tokens as u64));
            assert(between.remove(obsolete).insert(field, budget) =~= fields.remove(
                obsolete,
            ).insert(field, budget));
        }
    }
}

/// Anthropic Messages take the budget as `max_tokens`, and every other provider as
/// `max_completion_tokens`; the other of the two is not sent, and all else stays.
pub proof fn budgets_go_by_the_provider(
    body: Json,
    provider: Seq<char>,
    tokens: usize,
    key: Seq<char>,
)
    requires
        body is Object,
    ensures
        limited(body, provider, tokens) is Object,
        provider == "anthropic"@ ==> limited(body, provider, tokens).field("max_tokens"@) == Some(
            Json::Number(JsonNumber::Unsigned(tokens as u64)),
        ) && limited(body, provider, tokens).field("max_completion_tokens"@) is None,
        provider != "anthropic"@ ==> limited(body, provider, tokens).field(
            "max_completion_tokens"@,
        ) == Some(Json::Number(JsonNumber::Unsigned(tokens as u64))) && limited(
            body,
            provider,
            tokens,
        ).field("max_tokens"@) is None,
        key != "max_tokens"@ && key != "max_completion_tokens"@ ==> limited(
            body,
            provider,
            tokens,
        ).field(key) == body.field(key),
{
    budget_fields_differ(provider);
}

/// Only an object takes a budget: any other body stays as it is.
pub proof fn only_objects_take_a_budget(body: Json, provider: Seq<char>, tokens: usize)
    requires
        !(body is Object),
    ensures
        limited(body, provider, tokens) == body,
{
}

/// The call that sets the budget sets it in the field of the provider, with that number of
/// tokens, and takes the other field out.
pub proof fn setting_the_budget_is_exact(
    body: &mut serde_json::Value,
    provider: &str,
    tokens: usize,
)
    requires
        call_ensures(apply_chat_output_token_limit, (body, provider, tokens), ()),
        json::json(*old(body)) is Object,
    ensures
        provider@ == "anthropic"@ ==> json::json(*final(body)).field("max_tokens"@) == Some(
            Json::Number(JsonNumber::Unsigned(tokens as u64)),
        ) && json::json(*final(body)).field("max_completion_tokens"@) is None,
        provider@ != "anthropic"@ ==> json::json(*final(body)).field("max_completion_tokens"@)
            == Some(Json::Number(JsonNumber::Unsigned(tokens as u64))) && json::json(
            *final(body),
        ).field("max_tokens"@) is None,
{
    budgets_go_by_the_provider(json::json(*old(body)), provider@, tokens, "model"@);
}

} // verus!
