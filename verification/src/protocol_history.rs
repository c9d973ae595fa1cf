//! Provider-neutral detection of tool protocol state in conversation history.
//!
//! Some providers reject a request that contains historical tool-use blocks
//! when the request omits tool declarations. Local and server request builders
//! share this detector, so that an optimization cannot accidentally produce an
//! invalid replay shape.
use crate::json;
use crate::json::{as_array, as_str, get};
use crate::json::Json;
use crate::text;
use vstd::prelude::*;

verus! {

/// Whether a content block is a tool call or a tool result, in any provider's
/// shape.
pub open spec fn is_tool_block(block: Json) -> bool {
    ||| block.field("type"@) == Some(Json::Text("tool_use"@))
    ||| block.field("type"@) == Some(Json::Text("tool_result"@))
    ||| block.field("toolUse"@) is Some
    ||| block.field("toolResult"@) is Some
}

/// Whether one of several content blocks is a tool block.
pub open spec fn some_tool_block(blocks: Seq<Json>) -> bool {
    exists|i: int| 0 <= i < blocks.len() && is_tool_block(#[trigger] blocks[i])
}

/// Whether a message's content holds a tool block: as one of several blocks, or
/// as the only one.
pub open spec fn has_tool_block(content: Option<Json>) -> bool {
    match content {
        Some(Json::Array(blocks)) => some_tool_block(blocks),
        Some(Json::Object(fields)) => is_tool_block(Json::Object(fields)),
        _ => false,
    }
}

/// Whether a message belongs to a tool protocol.
pub open spec fn is_tool_message(message: Json) -> bool {
    ||| message.field("role"@) == Some(Json::Text("tool"@))
    ||| message.field("tool_call_id"@) is Some
    ||| message.field("tool_calls"@) matches Some(Json::Array(calls)) && calls.len() > 0
    ||| has_tool_block(message.field("content"@))
}

/// Whether one of several messages belongs to a tool protocol.
pub open spec fn holds_tool_state(messages: Seq<Json>) -> bool {
    exists|i: int| 0 <= i < messages.len() && is_tool_message(#[trigger] messages[i])
}

/// Whether a field holds the given text.
fn field_is(value: &serde_json::Value, key: &str, expected: &str) -> (found: bool)
    ensures
        found == (json::json(*value).field(key@) == Some(Json::Text(expected@))),
{
    match get(value, key) {
        Some(field) => match as_str(field) {
            Some(found) => text::same(found, expected),
            None => false,
        },
        None => false,
    }
}

/// Whether a content block is a tool call or a tool result.
fn block_is_tool(block: &serde_json::Value) -> (found: bool)
    ensures
        found == is_tool_block(json::json(*block)),
{
    field_is(block, "type", "tool_use") || field_is(block, "type", "tool_result") || get(
        block,
        "toolUse",
    ).is_some() || get(block, "toolResult").is_some()
}

/// The content behind an optional value.
pub open spec fn optional_json(content: Option<&serde_json::Value>) -> Option<Json> {
    match content {
        Some(content) => Some(json::json(*content)),
        None => None,
    }
}

/// Whether a message's content holds a tool block.
pub fn content_contains_tool_block(content: Option<&serde_json::Value>) -> (found: bool)
    ensures
        found == has_tool_block(optional_json(content)),
{
    match content {
        Some(value) => match as_array(value) {
            Some(blocks) => {
                let mut i: usize = 0;
                while i < blocks.len()
                    invariant
                        i <= blocks@.len(),
                        content == Some(value),
                        json::json(*value) == Json::Array(json::jsons(blocks@)),
                        forall|j: int|
                            0 <= j < i ==> !is_tool_block(#[trigger] json::jsons(blocks@)[j]),
                    decreases blocks@.len() - i,
                {
                    if block_is_tool(&blocks[i]) {
                        assert(is_tool_block(json::jsons(blocks@)[i as int]));
                        assert(some_tool_block(json::jsons(blocks@)));
                        return true;
                    }
                    i += 1;
                }
                false
            },
            None => json::is_object(value) && block_is_tool(value),
        },
        None => false,
    }
}

/// Whether messages contain any OpenAI-, Anthropic-, or Bedrock-shaped tool
/// call or result state that requires a compatible tool declaration surface.
#[must_use]
pub fn messages_contain_tool_protocol(messages: &[serde_json::Value]) -> (found: bool)
    ensures
        found == holds_tool_state(json::jsons(messages@)),
{
    let mut i: usize = 0;
    while i < messages.len()
        invariant
            i <= messages@.len(),
            forall|j: int|
                0 <= j < i ==> !is_tool_message(json::json(#[trigger] messages@[j])),
        decreases messages@.len() - i,
    {
        if message_is_tool(&messages[i]) {
            assert(is_tool_message(json::jsons(messages@)[i as int]));
            return true;
        }
        i += 1;
    }
    assert forall|j: int| 0 <= j < messages@.len() implies !is_tool_message(
        #[trigger] json::jsons(messages@)[j],
    ) by {
        assert(!is_tool_message(json::json(messages@[j])));
    }
    false
}

/// Whether a message belongs to a tool protocol.
fn message_is_tool(message: &serde_json::Value) -> (found: bool)
    ensures
        found == is_tool_message(json::json(*message)),
{
    if field_is(message, "role", "tool") || get(message, "tool_call_id").is_some() {
        return true;
    }
    if let Some(calls) = get(message, "tool_calls") {
        if let Some(calls) = as_array(calls) {
            if calls.len() > 0 {
                return true;
            }
        }
    }
    content_contains_tool_block(get(message, "content"))
}

/// Detection looks at messages one by one: a history holds tool state exactly
/// where one of two parts of it does, an empty one holds none, and one of a single
/// message holds what that message does.
pub proof fn detection_splits(before: Seq<Json>, after: Seq<Json>, message: Json)
    ensures
        holds_tool_state(before + after) <==> holds_tool_state(before) || holds_tool_state(after),
        !holds_tool_state(Seq::empty()),
        holds_tool_state(seq![message]) <==> is_tool_message(message),
{
    let all = before + after;
    if holds_tool_state(before) {
        let i = choose|i: int| 0 <= i < before.len() && is_tool_message(#[trigger] before[i]);
        assert(is_tool_message(all[i]));
    }
    if holds_tool_state(after) {
        let i = choose|i: int| 0 <= i < after.len() && is_tool_message(#[trigger] after[i]);
        assert(is_tool_message(all[before.len() + i]));
    }
    if holds_tool_state(all) {
        let i = choose|i: int| 0 <= i < all.len() && is_tool_message(#[trigger] all[i]);
        if i < before.len() {
            assert(is_tool_message(before[i]));
        } else {
            assert(is_tool_message(after[i - before.len()]));
        }
    }
    assert(seq![message][0] == message);
}

/// A message belongs to a tool protocol by any one of its marks: the role of a tool, the
/// identifier of a call, calls, or content that is or holds a tool block.
pub proof fn each_mark_shows_a_tool_message(message: Json, blocks: Seq<Json>, i: int)
    ensures
        message.field("role"@) == Some(Json::Text("tool"@)) ==> is_tool_message(message),
        message.field("tool_call_id"@) is Some ==> is_tool_message(message),
        message.field("tool_calls"@) == Some(Json::Array(blocks)) && blocks.len() > 0
            ==> is_tool_message(message),
        message.field("content"@) == Some(Json::Array(blocks)) && 0 <= i < blocks.len()
            && is_tool_block(blocks[i]) ==> is_tool_message(message),
        message.field("content"@) is Some && message.field("content"@)->0 is Object
            && is_tool_block(message.field("content"@)->0) ==> is_tool_message(message),
{
}

/// A message with none of the marks belongs to no tool protocol: another role, no
/// identifier of a call, no calls, and content of plain blocks, or that is no block.
pub proof fn ordinary_messages_are_not_claimed(message: Json)
    requires
        message.field("role"@) != Some(Json::Text("tool"@)),
        message.field("tool_call_id"@) is None,
        message.field("tool_calls"@) is None || !(message.field("tool_calls"@)->0 is Array)
            || message.field("tool_calls"@)->0 == Json::Array(Seq::empty()),
        message.field("content"@) matches Some(Json::Array(blocks)) ==> forall|i: int|
            0 <= i < blocks.len() ==> !is_tool_block(#[trigger] blocks[i]),
        message.field("content"@) matches Some(Json::Object(fields)) ==> !is_tool_block(
            Json::Object(fields),
        ),
    ensures
        !is_tool_message(message),
{
}

/// A block is a tool block by its type or by the field of a call or a result, and by
/// nothing else.
pub proof fn tool_blocks_have_three_shapes(block: Json)
    ensures
        block.field("type"@) == Some(Json::Text("tool_use"@)) ==> is_tool_block(block),
        block.field("type"@) == Some(Json::Text("tool_result"@)) ==> is_tool_block(block),
        block.field("toolUse"@) is Some ==> is_tool_block(block),
        block.field("toolResult"@) is Some ==> is_tool_block(block),
        block.field("type"@) != Some(Json::Text("tool_use"@)) && block.field("type"@) != Some(
            Json::Text("tool_result"@),
        ) && block.field("toolUse"@) is None && block.field("toolResult"@) is None
            ==> !is_tool_block(block),
        !(block is Object) ==> !is_tool_block(block),
{
}

/// The call that looks through a history finds tool state in whichever message it stands, and
/// the one that looks at content finds it in whichever block.
pub proof fn tool_state_is_found_anywhere(
    messages: &[serde_json::Value],
    found: bool,
    content: serde_json::Value,
    held: bool,
    i: int,
)
    requires
        call_ensures(messages_contain_tool_protocol, (messages,), found),
        call_ensures(content_contains_tool_block, (Some(&content),), held),
    ensures
        0 <= i < messages@.len() && is_tool_message(json::json(messages@[i])) ==> found,
        found ==> exists|j: int|
            0 <= j < messages@.len() && is_tool_message(json::json(#[trigger] messages@[j])),
        json::json(content) matches Json::Array(blocks) ==> (held <==> exists|j: int|
            0 <= j < blocks.len() && is_tool_block(#[trigger] blocks[j])),
        json::json(content) is Object ==> (held <==> is_tool_block(json::json(content))),
        !(json::json(content) is Array) && !(json::json(content) is Object) ==> !held,
{
    let all = json::jsons(messages@);
    if 0 <= i < messages@.len() && is_tool_message(json::json(messages@[i])) {
        assert(is_tool_message(all[i]));
    }
    if found {
        let j = choose|j: int| 0 <= j < all.len() && is_tool_message(#[trigger] all[j]);
        assert(is_tool_message(json::json(messages@[j])));
    }
}

} // verus!
