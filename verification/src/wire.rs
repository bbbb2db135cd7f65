//! What the provider clients send and how they read what comes back: the
//! JSON of messages for each API, the Anthropic and Ollama request and reply
//! shapes, the errors of failed replies, and the provider fallback chain.
//!
//! The HTTP exchange itself is the application's.

use vstd::prelude::*;
use crate::config::LLMConfig;
use crate::llm::{
    anthropic_part_spec, data_uri_parts, data_uri_split, ollama_images_spec, provider_debug_name,
    provider_debug_name_spec, strip_trailing_slashes, trim_trailing_slashes, ChatMessage, ChatResponse, Choice,
    ContentPart, FunctionCall, LLMError, TokenBudget, ToolCallResponse, Usage,
};
use crate::text::{chars_of, json_quote, json_quoted, push_chars, push_str, slice_range, string_from_chars};

verus! {

// ── Message JSON ───────────────────────────────────────────────────────────

/// The JSON of a content part for OpenAI-compatible APIs.
pub open spec fn openai_part_json(p: ContentPart) -> Seq<char> {
    match p {
        ContentPart::Text { text } => "{\"text\":"@ + json_quote(text@) + ",\"type\":\"text\"}"@,
        ContentPart::ImageUrl { image_url } => "{\"image_url\":{\"url\":"@ + json_quote(image_url.url@)
            + "},\"type\":\"image_url\"}"@,
    }
}

/// The JSON of a content part for the Anthropic API: a base64 image block for
/// a data URI, a text block otherwise.
pub open spec fn anthropic_part_json(p: ContentPart) -> Seq<char> {
    match anthropic_part_spec(p) {
        (t, None) => "{\"text\":"@ + json_quote(t) + ",\"type\":\"text\"}"@,
        (_, Some(q)) => "{\"source\":{\"data\":"@ + json_quote(q.1) + ",\"media_type\":"@ + json_quote(q.0)
            + ",\"type\":\"base64\"},\"type\":\"image\"}"@,
    }
}

/// A JSON array of the given element texts.
pub open spec fn json_array(items: Seq<Seq<char>>) -> Seq<char> {
    "["@ + comma_joined(items) + "]"@
}

/// Texts joined by commas.
pub open spec fn comma_joined(items: Seq<Seq<char>>) -> Seq<char>
    decreases items.len(),
{
    if items.len() == 0 {
        seq![]
    } else if items.len() == 1 {
        items[0]
    } else {
        comma_joined(items.drop_last()) + ","@ + items.last()
    }
}

/// The JSON of a message: its content (a string, or an array of parts) and role.
pub open spec fn message_json(m: ChatMessage, part: spec_fn(ContentPart) -> Seq<char>) -> Seq<char> {
    "{\"content\":"@ + match m.content_parts {
        Some(parts) => json_array(parts@.map_values(part)),
        None => json_quote(m.content@),
    } + ",\"role\":"@ + json_quote(m.role@) + "}"@
}

/// The base64 payloads of a message's images.
pub open spec fn images_of(m: ChatMessage) -> Seq<Seq<char>> {
    match m.content_parts {
        Some(parts) => ollama_images_spec(parts@),
        None => seq![],
    }
}

/// The JSON of a message for Ollama: role and content, with the base64
/// payloads of its images when it has any.
pub open spec fn ollama_message_json(m: ChatMessage) -> Seq<char> {
    let images = images_of(m);
    if images.len() > 0 {
        "{\"content\":"@ + json_quote(m.content@) + ",\"images\":"@ + json_array(images.map_values(
            |i: Seq<char>| json_quote(i),
        )) + ",\"role\":"@ + json_quote(m.role@) + "}"@
    } else {
        "{\"content\":"@ + json_quote(m.content@) + ",\"role\":"@ + json_quote(m.role@) + "}"@
    }
}

fn push_quoted(v: &mut Vec<char>, s: &str)
    ensures
        final(v)@ == old(v)@ + json_quote(s@),
{
    let q = json_quoted(s);
    push_str(v, q.as_str());
}

impl ContentPart {
    /// The JSON of this part for OpenAI-compatible APIs.
    pub fn to_openai_value(&self) -> (j: String)
        ensures
            j@ == openai_part_json(*self),
    {
        let mut v: Vec<char> = Vec::new();
        match self {
            ContentPart::Text { text } => {
                push_str(&mut v, "{\"text\":");
                push_quoted(&mut v, text.as_str());
                push_str(&mut v, ",\"type\":\"text\"}");
            },
            ContentPart::ImageUrl { image_url } => {
                push_str(&mut v, "{\"image_url\":{\"url\":");
                push_quoted(&mut v, image_url.url.as_str());
                push_str(&mut v, "},\"type\":\"image_url\"}");
            },
        }
        string_from_chars(&v)
    }

    /// The JSON of this part for the Anthropic API.
    pub fn to_anthropic_value(&self) -> (j: String)
        ensures
            j@ == anthropic_part_json(*self),
    {
        let mut v: Vec<char> = Vec::new();
        match crate::llm::anthropic_part(self) {
            crate::llm::AnthropicPart::Text(t) => {
                push_str(&mut v, "{\"text\":");
                push_quoted(&mut v, t.as_str());
                push_str(&mut v, ",\"type\":\"text\"}");
            },
            crate::llm::AnthropicPart::Image { media_type, data } => {
                push_str(&mut v, "{\"source\":{\"data\":");
                push_quoted(&mut v, data.as_str());
                push_str(&mut v, ",\"media_type\":");
                push_quoted(&mut v, media_type.as_str());
                push_str(&mut v, ",\"type\":\"base64\"},\"type\":\"image\"}");
            },
        }
        string_from_chars(&v)
    }
}

/// Pushes `[e0,e1,...]` given the element texts.
fn push_array(v: &mut Vec<char>, items: &Vec<String>)
    ensures
        final(v)@ == old(v)@ + json_array(items@.map_values(|s: String| s@)),
{
    let ghost start = v@;
    let ghost texts = items@.map_values(|s: String| s@);
    push_str(v, "[");
    let mut i: usize = 0;
    while i < items.len()
        invariant
            i <= items@.len(),
            texts == items@.map_values(|s: String| s@),
            v@ == start + "["@ + comma_joined(texts.take(i as int)),
        decreases items@.len() - i,
    {
        if i > 0 {
            push_str(v, ",");
        }
        push_str(v, items[i].as_str());
        proof {
            let p = texts.take(i + 1);
            assert(p.drop_last() =~= texts.take(i as int));
            assert(p.last() == items@[i as int]@);
            if i == 0 {
                assert(p.len() == 1);
            }
        }
        i = i + 1;
    }
    proof {
        assert(texts.take(items@.len() as int) =~= texts);
    }
    push_str(v, "]");
}

impl ChatMessage {
    /// The JSON of this message for OpenAI-compatible APIs: a multi-modal
    /// message sends its parts.
    pub fn to_openai_message(&self) -> (j: String)
        ensures
            j@ == message_json(*self, |p: ContentPart| openai_part_json(p)),
    {
        let mut v: Vec<char> = Vec::new();
        push_str(&mut v, "{\"content\":");
        match &self.content_parts {
            Some(parts) => {
                let mut items: Vec<String> = Vec::new();
                let mut i: usize = 0;
                while i < parts.len()
                    invariant
                        i <= parts@.len(),
                        items@.len() == i,
                        forall|k: int| 0 <= k < i ==> (#[trigger] items@[k])@ == openai_part_json(parts@[k]),
                    decreases parts@.len() - i,
                {
                    items.push(parts[i].to_openai_value());
                    i = i + 1;
                }
                assert(items@.map_values(|s: String| s@) =~= parts@.map_values(
                    |p: ContentPart| openai_part_json(p),
                ));
                push_array(&mut v, &items);
            },
            None => push_quoted(&mut v, self.content.as_str()),
        }
        push_str(&mut v, ",\"role\":");
        push_quoted(&mut v, self.role.as_str());
        push_str(&mut v, "}");
        string_from_chars(&v)
    }

    /// The JSON of this message for the Anthropic API.
    pub fn to_anthropic_message(&self) -> (j: String)
        ensures
            j@ == message_json(*self, |p: ContentPart| anthropic_part_json(p)),
    {
        let mut v: Vec<char> = Vec::new();
        push_str(&mut v, "{\"content\":");
        match &self.content_parts {
            Some(parts) => {
                let mut items: Vec<String> = Vec::new();
                let mut i: usize = 0;
                while i < parts.len()
                    invariant
                        i <= parts@.len(),
                        items@.len() == i,
                        forall|k: int| 0 <= k < i ==> (#[trigger] items@[k])@ == anthropic_part_json(parts@[k]),
                    decreases parts@.len() - i,
                {
                    items.push(parts[i].to_anthropic_value());
                    i = i + 1;
                }
                assert(items@.map_values(|s: String| s@) =~= parts@.map_values(
                    |p: ContentPart| anthropic_part_json(p),
                ));
                push_array(&mut v, &items);
            },
            None => push_quoted(&mut v, self.content.as_str()),
        }
        push_str(&mut v, ",\"role\":");
        push_quoted(&mut v, self.role.as_str());
        push_str(&mut v, "}");
        string_from_chars(&v)
    }

    /// The JSON of this message for Ollama, which takes images as a list of
    /// base64 payloads.
    pub fn to_ollama_message(&self) -> (j: String)
        ensures
            j@ == ollama_message_json(*self),
    {
        let mut v: Vec<char> = Vec::new();
        push_str(&mut v, "{\"content\":");
        push_quoted(&mut v, self.content.as_str());
        match self.ollama_images() {
            Some(images) => {
                let mut items: Vec<String> = Vec::new();
                let mut i: usize = 0;
                while i < images.len()
                    invariant
                        i <= images@.len(),
                        items@.len() == i,
                        forall|k: int| 0 <= k < i ==> (#[trigger] items@[k])@ == json_quote(images@[k]@),
                    decreases images@.len() - i,
                {
                    let q = json_quoted(images[i].as_str());
                    items.push(q);
                    i = i + 1;
                }
                push_str(&mut v, ",\"images\":");
                push_array(&mut v, &items);
                proof {
                    let imgs = images_of(*self);
                    assert(images@.map_values(|s: String| s@) =~= imgs);
                    assert(items@.map_values(|s: String| s@) =~= imgs.map_values(|i: Seq<char>| json_quote(i)));
                }
            },
            None => {},
        }
        push_str(&mut v, ",\"role\":");
        push_quoted(&mut v, self.role.as_str());
        push_str(&mut v, "}");
        string_from_chars(&v)
    }
}

/// The JSON array of messages for OpenAI-compatible APIs.
pub fn serialize_messages_openai(messages: &[ChatMessage]) -> (j: String)
    ensures
        j@ == json_array(messages@.map_values(|m: ChatMessage| message_json(m, |p: ContentPart| openai_part_json(p)))),
{
    let mut items: Vec<String> = Vec::new();
    let mut i: usize = 0;
    while i < messages.len()
        invariant
            i <= messages@.len(),
            items@.len() == i,
            forall|k: int| 0 <= k < i ==> (#[trigger] items@[k])@ == message_json(
                messages@[k],
                |p: ContentPart| openai_part_json(p),
            ),
        decreases messages@.len() - i,
    {
        items.push(messages[i].to_openai_message());
        i = i + 1;
    }
    assert(items@.map_values(|s: String| s@) =~= messages@.map_values(
        |m: ChatMessage| message_json(m, |p: ContentPart| openai_part_json(p)),
    ));
    let mut v: Vec<char> = Vec::new();
    push_array(&mut v, &items);
    string_from_chars(&v)
}

/// The body of a chat request to an OpenAI-compatible API: the model, the
/// messages, temperature 0.7 and at most 2048 tokens.
pub open spec fn openai_request_json(model: Seq<char>, msgs: Seq<ChatMessage>) -> Seq<char> {
    "{\"model\":"@ + json_quote(model) + ",\"messages\":"@ + json_array(
        msgs.map_values(|m: ChatMessage| message_json(m, |p: ContentPart| openai_part_json(p))),
    ) + ",\"temperature\":0.7,\"max_tokens\":2048}"@
}

/// Builds the body of a chat request to an OpenAI-compatible API.
pub fn openai_request_body(model: &str, messages: &[ChatMessage]) -> (j: String)
    ensures
        j@ == openai_request_json(model@, messages@),
{
    let mut v: Vec<char> = Vec::new();
    push_str(&mut v, "{\"model\":");
    push_quoted(&mut v, model);
    push_str(&mut v, ",\"messages\":");
    let arr = serialize_messages_openai(messages);
    push_str(&mut v, arr.as_str());
    push_str(&mut v, ",\"temperature\":0.7,\"max_tokens\":2048}");
    string_from_chars(&v)
}

/// The body of a chat request to Ollama: the model, the messages, no streaming.
pub open spec fn ollama_request_json(model: Seq<char>, msgs: Seq<ChatMessage>) -> Seq<char> {
    "{\"model\":"@ + json_quote(model) + ",\"messages\":"@ + json_array(
        msgs.map_values(|m: ChatMessage| ollama_message_json(m)),
    ) + ",\"stream\":false}"@
}

/// Builds the body of a chat request to Ollama.
pub fn ollama_request_body(model: &str, messages: &[ChatMessage]) -> (j: String)
    ensures
        j@ == ollama_request_json(model@, messages@),
{
    let mut items: Vec<String> = Vec::new();
    let mut i: usize = 0;
    while i < messages.len()
        invariant
            i <= messages@.len(),
            items@.len() == i,
            forall|k: int| 0 <= k < i ==> (#[trigger] items@[k])@ == ollama_message_json(messages@[k]),
        decreases messages@.len() - i,
    {
        items.push(messages[i].to_ollama_message());
        i = i + 1;
    }
    assert(items@.map_values(|s: String| s@) =~= messages@.map_values(|m: ChatMessage| ollama_message_json(m)));
    let mut v: Vec<char> = Vec::new();
    push_str(&mut v, "{\"model\":");
    push_quoted(&mut v, model);
    push_str(&mut v, ",\"messages\":");
    push_array(&mut v, &items);
    push_str(&mut v, ",\"stream\":false}");
    string_from_chars(&v)
}

/// The body of a request to the Anthropic API: the model, at most 2048
/// tokens, the messages, the system prompt when there is one, temperature 0.7.
pub open spec fn anthropic_request_json(model: Seq<char>, system: Option<Seq<char>>, msgs: Seq<ChatMessage>) -> Seq<
    char,
> {
    "{\"model\":"@ + json_quote(model) + ",\"max_tokens\":2048,\"messages\":"@ + json_array(
        msgs.map_values(|m: ChatMessage| message_json(m, |p: ContentPart| anthropic_part_json(p))),
    ) + match system {
        Some(sp) => ",\"system\":"@ + json_quote(sp),
        None => Seq::<char>::empty(),
    } + ",\"temperature\":0.7}"@
}

/// Builds the body of a request to the Anthropic API.
pub fn anthropic_request_body(model: &str, system: Option<&str>, messages: &[ChatMessage]) -> (j: String)
    ensures
        j@ == anthropic_request_json(
            model@,
            match system {
                Some(sp) => Some(sp@),
                None => None,
            },
            messages@,
        ),
{
    let mut items: Vec<String> = Vec::new();
    let mut i: usize = 0;
    while i < messages.len()
        invariant
            i <= messages@.len(),
            items@.len() == i,
            forall|k: int| 0 <= k < i ==> (#[trigger] items@[k])@ == message_json(
                messages@[k],
                |p: ContentPart| anthropic_part_json(p),
            ),
        decreases messages@.len() - i,
    {
        items.push(messages[i].to_anthropic_message());
        i = i + 1;
    }
    assert(items@.map_values(|s: String| s@) =~= messages@.map_values(
        |m: ChatMessage| message_json(m, |p: ContentPart| anthropic_part_json(p)),
    ));
    let mut v: Vec<char> = Vec::new();
    push_str(&mut v, "{\"model\":");
    push_quoted(&mut v, model);
    push_str(&mut v, ",\"max_tokens\":2048,\"messages\":");
    push_array(&mut v, &items);
    match system {
        Some(sp) => {
            push_str(&mut v, ",\"system\":");
            push_quoted(&mut v, sp);
        },
        None => {},
    }
    push_str(&mut v, ",\"temperature\":0.7}");
    string_from_chars(&v)
}

// ── Anthropic ──────────────────────────────────────────────────────────────

/// The content of the first system message, which Anthropic takes apart.
pub open spec fn first_system(ms: Seq<ChatMessage>) -> Option<Seq<char>>
    decreases ms.len(),
{
    if ms.len() == 0 {
        None
    } else {
        match first_system(ms.drop_last()) {
            Some(x) => Some(x),
            None => if ms.last().role@ == "system"@ {
                Some(ms.last().content@)
            } else {
                None
            },
        }
    }
}

/// The messages that are not system messages, in order.
pub open spec fn non_system(ms: Seq<ChatMessage>) -> Seq<ChatMessage>
    decreases ms.len(),
{
    if ms.len() == 0 {
        seq![]
    } else if ms.last().role@ == "system"@ {
        non_system(ms.drop_last())
    } else {
        non_system(ms.drop_last()).push(ms.last())
    }
}

/// Splits the messages of an Anthropic request: the first system message's
/// content becomes the `system` field, the other messages are sent in order.
pub fn anthropic_request_parts(messages: Vec<ChatMessage>) -> (r: (Option<String>, Vec<ChatMessage>))
    ensures
        match first_system(messages@) {
            None => r.0 is None,
            Some(x) => r.0 matches Some(t) && t@ == x,
        },
        r.1@ == non_system(messages@),
{
    let ghost all = messages@;
    let mut src = messages;
    let mut system: Option<String> = None;
    let mut rest: Vec<ChatMessage> = Vec::new();
    let mut k: usize = 0;
    let n = src.len();
    assert(all.take(0) =~= Seq::<ChatMessage>::empty());
    assert(src@ =~= all.skip(0));
    while src.len() > 0
        invariant
            k <= n,
            n == all.len(),
            src@ == all.skip(k as int),
            rest@ == non_system(all.take(k as int)),
            match first_system(all.take(k as int)) {
                None => system is None,
                Some(x) => system matches Some(t) && t@ == x,
            },
        decreases src@.len(),
    {
        let m = src.remove(0);
        proof {
            assert(m == all[k as int]);
            let p = all.take(k + 1);
            assert(p.drop_last() =~= all.take(k as int));
            assert(p.last() == all[k as int]);
            assert(src@ =~= all.skip(k + 1));
        }
        let is_system = crate::text::str_eq(m.role.as_str(), "system");
        if is_system {
            if system.is_none() {
                system = Some(m.content);
            }
        } else {
            rest.push(m);
        }
        k = k + 1;
    }
    proof {
        assert(all.take(n as int) =~= all);
    }
    (system, rest)
}

/// A content block of an Anthropic reply.
#[derive(Debug, Clone)]
pub enum AnthropicBlock {
    /// Text.
    Text { text: String },
    /// A tool use, with its input as JSON text.
    ToolUse { id: String, name: String, input_json: String },
}

/// The text of a reply: its text blocks, concatenated.
pub open spec fn blocks_text(bs: Seq<AnthropicBlock>) -> Seq<char>
    decreases bs.len(),
{
    if bs.len() == 0 {
        seq![]
    } else {
        blocks_text(bs.drop_last()) + match bs.last() {
            AnthropicBlock::Text { text } => text@,
            AnthropicBlock::ToolUse { .. } => seq![],
        }
    }
}

/// The tool uses of a reply (id, name, input), in order.
pub open spec fn blocks_calls(bs: Seq<AnthropicBlock>) -> Seq<(Seq<char>, Seq<char>, Seq<char>)>
    decreases bs.len(),
{
    if bs.len() == 0 {
        seq![]
    } else {
        let prev = blocks_calls(bs.drop_last());
        match bs.last() {
            AnthropicBlock::Text { .. } => prev,
            AnthropicBlock::ToolUse { id, name, input_json } => prev.push((id@, name@, input_json@)),
        }
    }
}

/// Law: the tool calls of a reply are those of its parts in order: the calls
/// of `a + b` are the calls of `a` followed by those of `b`, and likewise its
/// text. Every tool use therefore gives its own call, none is dropped or
/// replaced by a later one.
pub proof fn lemma_blocks_concat(a: Seq<AnthropicBlock>, b: Seq<AnthropicBlock>)
    ensures
        blocks_calls(a + b) == blocks_calls(a) + blocks_calls(b),
        blocks_text(a + b) == blocks_text(a) + blocks_text(b),
    decreases b.len(),
{
    if b.len() == 0 {
        assert(a + b =~= a);
        assert(blocks_calls(a) + blocks_calls(b) =~= blocks_calls(a));
        assert(blocks_text(a) + blocks_text(b) =~= blocks_text(a));
    } else {
        lemma_blocks_concat(a, b.drop_last());
        assert((a + b).drop_last() =~= a + b.drop_last());
        assert((a + b).last() == b.last());
        match b.last() {
            AnthropicBlock::Text { .. } => {},
            AnthropicBlock::ToolUse { .. } => {
                assert(blocks_calls(a) + blocks_calls(b) =~= (blocks_calls(a) + blocks_calls(b.drop_last())).push(
                    blocks_calls(b).last(),
                ));
            },
        }
        assert(blocks_text(a) + blocks_text(b) =~= blocks_text(a) + blocks_text(b.drop_last()) + match b.last() {
            AnthropicBlock::Text { text } => text@,
            AnthropicBlock::ToolUse { .. } => seq![],
        });
    }
}

/// Law: one tool-use block gives exactly one call, with its id, name and
/// input; one text block gives no call and its text.
pub proof fn lemma_single_block(b: AnthropicBlock)
    ensures
        match b {
            AnthropicBlock::ToolUse { id, name, input_json } => blocks_calls(seq![b]) == seq![(id@, name@, input_json@)]
                && blocks_text(seq![b]) == Seq::<char>::empty(),
            AnthropicBlock::Text { text } => blocks_calls(seq![b]) == Seq::<(Seq<char>, Seq<char>, Seq<char>)>::empty()
                && blocks_text(seq![b]) == text@,
        },
{
    let s = seq![b];
    let none = Seq::<AnthropicBlock>::empty();
    assert(s.drop_last() =~= none);
    assert(s.last() == b);
    assert(blocks_calls(none) == Seq::<(Seq<char>, Seq<char>, Seq<char>)>::empty());
    assert(blocks_text(none) == Seq::<char>::empty());
    match b {
        AnthropicBlock::Text { text } => {
            assert(Seq::<char>::empty() + text@ =~= text@);
        },
        AnthropicBlock::ToolUse { id, name, input_json } => {
            assert(seq![(id@, name@, input_json@)] =~= Seq::<(Seq<char>, Seq<char>, Seq<char>)>::empty().push(
                (id@, name@, input_json@),
            ));
            assert(Seq::<char>::empty() + Seq::<char>::empty() =~= Seq::<char>::empty());
        },
    }
}

/// `c` is the tool call for the tool use `u` (id, name, input).
pub open spec fn call_for(c: ToolCallResponse, u: (Seq<char>, Seq<char>, Seq<char>)) -> bool {
    c.id@ == u.0 && c.call_type@ == "function"@ && c.function.name@ == u.1 && c.function.arguments@ == u.2
}

/// The standard response for an Anthropic reply: one assistant choice with
/// the reply's text, its tool uses as function calls (none when it has no
/// tool use), its stop reason, and the token usage (input plus output).
pub fn anthropic_response(
    id: String,
    model: String,
    created: u64,
    blocks: Vec<AnthropicBlock>,
    stop_reason: Option<String>,
    usage: Option<(u32, u32)>,
) -> (r: ChatResponse)
    requires
        usage matches Some(u) ==> u.0 + u.1 <= u32::MAX,
    ensures
        r.id == id,
        r.object@ == "chat.completion"@,
        r.created == created,
        r.model == model,
        r.choices@.len() == 1,
        r.choices@[0].index == 0,
        r.choices@[0].message.role@ == "assistant"@,
        r.choices@[0].message.content@ == blocks_text(blocks@),
        r.choices@[0].message.content_parts is None,
        r.choices@[0].finish_reason == stop_reason,
        blocks_calls(blocks@).len() == 0 ==> r.choices@[0].tool_calls is None,
        blocks_calls(blocks@).len() > 0 ==> (r.choices@[0].tool_calls matches Some(cs) && cs@.len() == blocks_calls(
            blocks@,
        ).len() && forall|i: int| 0 <= i < cs@.len() ==> call_for(#[trigger] cs@[i], blocks_calls(blocks@)[i])),
        match usage {
            None => r.usage is None,
            Some(u) => r.usage == Some(
                Usage { prompt_tokens: u.0, completion_tokens: u.1, total_tokens: (u.0 + u.1) as u32 },
            ),
        },
{
    let mut text: Vec<char> = Vec::new();
    let mut calls: Vec<ToolCallResponse> = Vec::new();
    let mut i: usize = 0;
    while i < blocks.len()
        invariant
            i <= blocks@.len(),
            text@ == blocks_text(blocks@.take(i as int)),
            calls@.len() == blocks_calls(blocks@.take(i as int)).len(),
            forall|k: int| 0 <= k < calls@.len() ==> call_for(#[trigger] calls@[k], blocks_calls(blocks@.take(i as int))[k]),
        decreases blocks@.len() - i,
    {
        proof {
            let p = blocks@.take(i + 1);
            assert(p.drop_last() =~= blocks@.take(i as int));
            assert(p.last() == blocks@[i as int]);
        }
        match &blocks[i] {
            AnthropicBlock::Text { text: t } => {
                push_str(&mut text, t.as_str());
            },
            AnthropicBlock::ToolUse { id: cid, name, input_json } => {
                calls.push(
                    ToolCallResponse {
                        id: cid.clone(),
                        call_type: String::from_str("function"),
                        function: FunctionCall { name: name.clone(), arguments: input_json.clone() },
                    },
                );
            },
        }
        i = i + 1;
    }
    proof {
        assert(blocks@.take(blocks@.len() as int) =~= blocks@);
    }
    let tool_calls = if calls.len() == 0 { None } else { Some(calls) };
    let usage_out = match usage {
        None => None,
        Some((input, output)) => Some(
            Usage { prompt_tokens: input, completion_tokens: output, total_tokens: input + output },
        ),
    };
    ChatResponse {
        id,
        object: String::from_str("chat.completion"),
        created,
        model,
        choices: vec![
            Choice {
                index: 0,
                message: ChatMessage { role: String::from_str("assistant"), content: string_from_chars(&text), content_parts: None },
                finish_reason: stop_reason,
                tool_calls,
            },
        ],
        usage: usage_out,
    }
}

/// The API key of an Anthropic client; a missing key is an authentication failure.
pub fn anthropic_api_key(config: &LLMConfig) -> (r: Result<String, LLMError>)
    ensures
        match config.api_key {
            None => r matches Err(LLMError::AuthFailed),
            Some(k) => r == Ok::<String, LLMError>(k),
        },
{
    match &config.api_key {
        None => Err(LLMError::AuthFailed),
        Some(k) => Ok(k.clone()),
    }
}

// ── Ollama ─────────────────────────────────────────────────────────────────

/// The chat URL of an Ollama server.
pub fn ollama_chat_url(endpoint: &str) -> (u: String)
    ensures
        u@ == trim_trailing_slashes(endpoint@) + "/api/chat"@,
{
    let mut v = strip_trailing_slashes(&chars_of(endpoint));
    push_str(&mut v, "/api/chat");
    string_from_chars(&v)
}

/// The standard response for an Ollama reply: one choice with the reply's
/// message, finished (`stop`) when Ollama says it is done; the id is
/// `ollama-` followed by a fresh identifier.
pub fn ollama_response(uuid: &str, created: u64, model: String, message: ChatMessage, done: bool) -> (r: ChatResponse)
    ensures
        r.id@ == "ollama-"@ + uuid@,
        r.object@ == "chat.completion"@,
        r.created == created,
        r.model == model,
        r.choices@.len() == 1,
        r.choices@[0].index == 0,
        r.choices@[0].message == message,
        done ==> (r.choices@[0].finish_reason matches Some(f) && f@ == "stop"@),
        !done ==> r.choices@[0].finish_reason is None,
        r.choices@[0].tool_calls is None,
        r.usage is None,
{
    let mut v: Vec<char> = Vec::new();
    push_str(&mut v, "ollama-");
    push_str(&mut v, uuid);
    ChatResponse {
        id: string_from_chars(&v),
        object: String::from_str("chat.completion"),
        created,
        model,
        choices: vec![
            Choice {
                index: 0,
                message,
                finish_reason: if done { Some(String::from_str("stop")) } else { None },
                tool_calls: None,
            },
        ],
        usage: None,
    }
}

// ── Failed replies ─────────────────────────────────────────────────────────

/// The error for a reply that is not a success: 401 is an authentication
/// failure, 429 a rate limit, anything else a failed request naming the
/// status (`status_text`) and the body (`Unknown error` when it could not
/// be read).
pub fn reply_error(code: u16, status_text: &str, body: Option<String>) -> (e: LLMError)
    ensures
        code == 401 ==> e matches LLMError::AuthFailed,
        code == 429 ==> e matches LLMError::RateLimited,
        code != 401 && code != 429 ==> (e matches LLMError::RequestFailed(m) && m@ == status_text@ + ": "@ + match body {
            Some(b) => b@,
            None => "Unknown error"@,
        }),
{
    if code == 401 {
        return LLMError::AuthFailed;
    }
    if code == 429 {
        return LLMError::RateLimited;
    }
    let mut v: Vec<char> = Vec::new();
    push_str(&mut v, status_text);
    push_str(&mut v, ": ");
    match &body {
        Some(b) => push_str(&mut v, b.as_str()),
        None => push_str(&mut v, "Unknown error"),
    }
    LLMError::RequestFailed(string_from_chars(&v))
}

/// The error when a provider's circuit is open.
pub fn circuit_open_error(provider_name: &str) -> (e: LLMError)
    ensures
        e matches LLMError::CircuitBreakerOpen(n) && n@ == provider_name@,
{
    LLMError::CircuitBreakerOpen(String::from_str(provider_name))
}

/// The headers an OpenAI-compatible provider adds besides authentication:
/// OpenRouter wants to know the calling application.
pub fn provider_headers(p: crate::llm::OpenAICompatibleProvider) -> (h: Vec<(String, String)>)
    ensures
        p == crate::llm::OpenAICompatibleProvider::OpenRouter ==> h@.len() == 2 && h@[0].0@ == "HTTP-Referer"@
            && h@[0].1@ == "https://github.com/egkristi/RavenClaws"@ && h@[1].0@ == "X-Title"@ && h@[1].1@
            == "RavenClaws"@,
        p != crate::llm::OpenAICompatibleProvider::OpenRouter ==> h@.len() == 0,
{
    let mut h: Vec<(String, String)> = Vec::new();
    if p == crate::llm::OpenAICompatibleProvider::OpenRouter {
        h.push((String::from_str("HTTP-Referer"), String::from_str("https://github.com/egkristi/RavenClaws")));
        h.push((String::from_str("X-Title"), String::from_str("RavenClaws")));
    }
    h
}

// ── Fallback chain ─────────────────────────────────────────────────────────

/// Providers tried in order until one answers, within an optional token budget.
#[derive(Debug)]
pub struct ProviderFallbackChain {
    /// The providers, in the order they are tried.
    pub configs: Vec<LLMConfig>,
    /// The budget the chain spends from.
    pub token_budget: Option<TokenBudget>,
}

/// Tokens a request is expected to cost.
pub const ESTIMATED_REQUEST_TOKENS: u32 = 500;

/// The next move of a fallback chain.
#[derive(Debug)]
pub enum FallbackStep {
    /// Ask the provider with this index (after [`ProviderFallbackChain::before_request`]).
    Ask(usize),
    /// The chain is over, with this result.
    Done(Result<ChatResponse, LLMError>),
}

impl ProviderFallbackChain {
    /// A chain over `configs` without a budget.
    pub fn new(configs: Vec<LLMConfig>) -> (c: Self)
        ensures
            c.configs == configs,
            c.token_budget is None,
    {
        ProviderFallbackChain { configs, token_budget: None }
    }

    /// The chain with a token budget.
    pub fn with_token_budget(self, budget: TokenBudget) -> (c: Self)
        ensures
            c.configs == self.configs,
            c.token_budget == Some(budget),
    {
        ProviderFallbackChain { configs: self.configs, token_budget: Some(budget) }
    }

    /// The providers of the chain, by name.
    pub fn provider_names(&self) -> (names: Vec<String>)
        ensures
            names@.len() == self.configs@.len(),
            forall|i: int| 0 <= i < names@.len() ==> (#[trigger] names@[i])@ == provider_debug_name_spec(
                self.configs@[i].provider,
            ),
    {
        let mut names: Vec<String> = Vec::new();
        let mut i: usize = 0;
        while i < self.configs.len()
            invariant
                i <= self.configs@.len(),
                names@.len() == i,
                forall|k: int| 0 <= k < i ==> (#[trigger] names@[k])@ == provider_debug_name_spec(
                    self.configs@[k].provider,
                ),
            decreases self.configs@.len() - i,
        {
            names.push(provider_debug_name(self.configs[i].provider));
            i = i + 1;
        }
        names
    }

    /// Checked before each provider is asked: the budget must still cover
    /// an estimated 500 tokens.
    pub fn before_request(&self) -> (r: Result<(), LLMError>)
        ensures
            match self.token_budget {
                None => r is Ok,
                Some(b) => if ESTIMATED_REQUEST_TOKENS <= (if b.used_tokens <= b.max_tokens {
                    b.max_tokens - b.used_tokens
                } else {
                    0
                }) {
                    r is Ok
                } else {
                    r matches Err(LLMError::TokenBudgetExceeded)
                },
            },
    {
        match &self.token_budget {
            None => Ok(()),
            Some(b) => {
                if b.can_spend(ESTIMATED_REQUEST_TOKENS) {
                    Ok(())
                } else {
                    Err(LLMError::TokenBudgetExceeded)
                }
            },
        }
    }

    /// Spends the tokens a successful reply reports from the budget.
    pub fn record_reply(&mut self, usage: Option<Usage>)
        ensures
            final(self).configs == old(self).configs,
            match (old(self).token_budget, usage) {
                (Some(b), Some(u)) => final(self).token_budget matches Some(nb) && nb.max_tokens == b.max_tokens
                    && nb.used_tokens == (if b.used_tokens + u.total_tokens <= u32::MAX {
                    b.used_tokens + u.total_tokens
                } else {
                    u32::MAX as int
                }),
                _ => final(self).token_budget == old(self).token_budget,
            },
    {
        match (&mut self.token_budget, usage) {
            (Some(b), Some(u)) => b.record_usage(u.total_tokens),
            _ => {},
        }
    }

    /// The first move: the first provider is asked; with no provider the
    /// chain fails with `AllProvidersFailed`.
    pub fn start(&self) -> (s: FallbackStep)
        ensures
            self.configs@.len() == 0 ==> s matches FallbackStep::Done(Err(LLMError::AllProvidersFailed)),
            self.configs@.len() > 0 ==> s matches FallbackStep::Ask(0),
    {
        if self.configs.len() == 0 {
            FallbackStep::Done(Err(LLMError::AllProvidersFailed))
        } else {
            FallbackStep::Ask(0)
        }
    }

    /// What follows the outcome of provider `index` (a reply, or the error of
    /// its request or of setting up its client): a reply ends the chain and
    /// its usage is spent from the budget; an error moves on to the next
    /// provider, and after the last one the chain fails with that error.
    pub fn after_provider(&mut self, index: usize, outcome: Result<ChatResponse, LLMError>) -> (s: FallbackStep)
        requires
            index < old(self).configs@.len(),
        ensures
            final(self).configs == old(self).configs,
            match outcome {
                Ok(reply) => s == FallbackStep::Done(Ok(reply)) && match (old(self).token_budget, reply.usage) {
                    (Some(b), Some(u)) => final(self).token_budget matches Some(nb) && nb.max_tokens == b.max_tokens
                        && nb.used_tokens == (if b.used_tokens + u.total_tokens <= u32::MAX {
                        b.used_tokens + u.total_tokens
                    } else {
                        u32::MAX as int
                    }),
                    _ => final(self).token_budget == old(self).token_budget,
                },
                Err(e) => final(self).token_budget == old(self).token_budget && if index + 1 < old(self).configs@.len() {
                    s == FallbackStep::Ask((index + 1) as usize)
                } else {
                    s == FallbackStep::Done(Err(e))
                },
            },
    {
        match outcome {
            Ok(reply) => {
                self.record_reply(reply.usage);
                FallbackStep::Done(Ok(reply))
            },
            Err(e) => {
                let n = self.configs.len();
                assert(index < n);
                if index + 1 < n {
                    FallbackStep::Ask(index + 1)
                } else {
                    FallbackStep::Done(Err(Self::exhausted(Some(e))))
                }
            },
        }
    }

    /// The error once every provider failed: the last provider's error, or
    /// `AllProvidersFailed` when there was none.
    pub fn exhausted(last_error: Option<LLMError>) -> (e: LLMError)
        ensures
            match last_error {
                Some(x) => e == x,
                None => e matches LLMError::AllProvidersFailed,
            },
    {
        match last_error {
            Some(x) => x,
            None => LLMError::AllProvidersFailed,
        }
    }
}

} // verus!