//! The chat relay: translation of OpenAI chat-completion requests into
//! dialog-backend requests, and of the backend's replies and stream events
//! back into OpenAI-shaped responses and server-sent-event frames.

use vstd::prelude::*;
use crate::text::{text_eq, starts_with, is_blank, has_prefix, all_space, trim, trimmed, concat};

verus! {

/// A function call attached to a message.
#[derive(Debug)]
pub struct FunctionCall {
    pub name: String,
    pub arguments: String,
}

/// A tool call attached to a message or a reply. `kind` is the wire `type`.
#[derive(Debug)]
pub struct ToolCall {
    pub id: String,
    pub kind: String,
    pub function: FunctionCall,
}

/// One typed part of a structured message content. `kind` is the wire `type`.
#[derive(Debug)]
pub struct ComplexMessageContent {
    pub kind: String,
    pub text: String,
}

/// A message content: plain text, or an ordered list of typed parts.
#[derive(Debug)]
pub enum MessageContent {
    String(String),
    Complex(Vec<ComplexMessageContent>),
}

/// One message of a chat conversation.
#[derive(Debug)]
pub struct OpenAIMessage {
    pub role: String,
    pub content: MessageContent,
    pub function_call: Option<FunctionCall>,
    pub tool_calls: Option<Vec<ToolCall>>,
}

/// A tool's function declaration; `parameters` is its JSON schema as text.
#[derive(Debug)]
pub struct ToolFunction {
    pub name: String,
    pub description: String,
    pub parameters: String,
}

/// A tool offered to the model. `kind` is the wire `type`.
#[derive(Debug)]
pub struct Tool {
    pub kind: String,
    pub function: ToolFunction,
}

/// An OpenAI chat-completion request. The sampling parameters are carried as
/// the bit patterns of their 32-bit floats and passed on unchanged.
#[derive(Debug)]
pub struct OpenAIRequest {
    pub messages: Vec<OpenAIMessage>,
    pub tools: Option<Vec<Tool>>,
    pub stream: Option<bool>,
    pub temperature_bits: Option<u32>,
    pub top_p_bits: Option<u32>,
    pub max_tokens: Option<u32>,
    pub model: Option<String>,
    pub user: Option<String>,
}

/// A dialog-backend request. `conversation_history` is the single entry of
/// the backend's `inputs` object.
#[derive(Debug)]
pub struct DifyRequest {
    pub conversation_history: String,
    pub query: Vec<String>,
    pub response_mode: String,
    pub user: String,
    pub temperature_bits: Option<u32>,
    pub top_p_bits: Option<u32>,
    pub max_tokens: Option<u32>,
    pub tools: Option<Vec<Tool>>,
}

/// A file attached to a backend reply. `kind` is the wire `type`.
#[derive(Debug)]
pub struct File {
    pub kind: String,
    pub url: String,
    pub name: String,
}

/// A blocking reply of the dialog backend.
#[derive(Debug)]
pub struct DifyResponse {
    pub event: String,
    pub task_id: String,
    pub conversation_id: String,
    pub message_id: String,
    pub created_at: u64,
    pub answer: String,
    pub tool_calls: Option<Vec<ToolCall>>,
    pub files: Option<Vec<File>>,
}

/// One event of the dialog backend's stream.
#[derive(Debug)]
pub struct DifyEvent {
    pub event: String,
    pub task_id: String,
    pub conversation_id: String,
    pub message_id: String,
    pub created_at: u64,
    pub answer: String,
    pub tool_calls: Option<Vec<ToolCall>>,
    pub files: Option<Vec<File>>,
}

/// Token accounting of a response.
#[derive(Debug)]
pub struct Usage {
    pub prompt_tokens: u32,
    pub completion_tokens: u32,
    pub total_tokens: u32,
}

/// The message or delta of a choice.
#[derive(Debug)]
pub struct OpenAIDelta {
    pub role: Option<String>,
    pub content: Option<String>,
    pub tool_calls: Option<Vec<ToolCall>>,
    pub files: Option<Vec<File>>,
}

/// One choice of a response.
#[derive(Debug)]
pub struct OpenAIChoice {
    pub index: u32,
    pub delta: OpenAIDelta,
    pub finish_reason: Option<String>,
}

/// An OpenAI chat-completion response or stream chunk.
#[derive(Debug)]
pub struct OpenAIResponse {
    pub id: String,
    pub object: String,
    pub created: u64,
    pub model: String,
    pub choices: Vec<OpenAIChoice>,
    pub usage: Option<Usage>,
}

/// Why a chat completion could not be served.
#[derive(Debug)]
pub enum ChatCompletionError {
    /// The `Authorization: Bearer <key>` header is missing or malformed.
    InvalidApiKey,
    /// The request cannot be translated (for instance, it has no messages).
    RequestConstructionError(String),
    /// The backend failed, with its HTTP status code and description.
    DifyApiError(u16, String),
    /// A body could not be read or written as JSON.
    JsonSerializationError(String),
}

/// `parts` joined with `sep` between neighbours.
pub open spec fn joined(parts: Seq<Seq<char>>, sep: Seq<char>) -> Seq<char>
    decreases parts.len(),
{
    if parts.len() == 0 {
        Seq::empty()
    } else if parts.len() == 1 {
        parts[0]
    } else {
        joined(parts.drop_last(), sep) + sep + parts.last()
    }
}

/// The text of a message content: plain text as it is, parts joined by one space.
pub open spec fn content_text(c: MessageContent) -> Seq<char> {
    match c {
        MessageContent::String(s) => s@,
        MessageContent::Complex(parts) => joined(
            parts@.map_values(|p: ComplexMessageContent| p.text@),
            " "@,
        ),
    }
}

/// One line of the conversation history: `<role>: <content>`.
pub open spec fn history_line(m: OpenAIMessage) -> Seq<char> {
    m.role@ + ": "@ + content_text(m.content)
}

/// The conversation history of all messages but the last, one per line.
pub open spec fn history_of(msgs: Seq<OpenAIMessage>) -> Seq<char> {
    joined(msgs.drop_last().map_values(|m: OpenAIMessage| history_line(m)), "\n"@)
}

/// The texts of a list of parts.
fn part_texts(parts: &Vec<ComplexMessageContent>) -> (r: Vec<String>)
    ensures
        r@.map_values(|s: String| s@) == parts@.map_values(|p: ComplexMessageContent| p.text@),
{
    let mut out: Vec<String> = Vec::new();
    let mut i: usize = 0;
    while i < parts.len()
        invariant
            i <= parts@.len(),
            out@.len() == i,
            forall|k: int| 0 <= k < i ==> (#[trigger] out@[k])@ == parts@[k].text@,
        decreases parts@.len() - i,
    {
        out.push(parts[i].text.clone());
        i = i + 1;
    }
    assert(out@.map_values(|s: String| s@) =~= parts@.map_values(|p: ComplexMessageContent| p.text@));
    out
}

/// The texts of `items` joined with `sep` between neighbours.
pub fn join_texts(items: &Vec<String>, sep: &str) -> (r: String)
    ensures
        r@ == joined(items@.map_values(|s: String| s@), sep@),
{
    let ghost views = items@.map_values(|s: String| s@);
    if items.len() == 0 {
        return String::new();
    }
    let mut acc = items[0].clone();
    let mut i: usize = 1;
    assert(views.subrange(0, 1).drop_last() =~= Seq::<Seq<char>>::empty());
    while i < items.len()
        invariant
            1 <= i <= items@.len(),
            views == items@.map_values(|s: String| s@),
            acc@ == joined(views.subrange(0, i as int), sep@),
        decreases items@.len() - i,
    {
        let with_sep = concat(acc.as_str(), sep);
        acc = concat(with_sep.as_str(), items[i].as_str());
        assert(views.subrange(0, i + 1).drop_last() =~= views.subrange(0, i as int));
        i = i + 1;
    }
    assert(views.subrange(0, items@.len() as int) =~= views);
    acc
}

/// The text of a message content.
pub fn message_content_to_string(content: &MessageContent) -> (r: String)
    ensures
        r@ == content_text(*content),
{
    match content {
        MessageContent::String(s) => s.clone(),
        MessageContent::Complex(parts) => {
            let texts = part_texts(parts);
            join_texts(&texts, " ")
        },
    }
}

/// The decimal digit `d` (below ten) as a character.
pub open spec fn digit_char(d: nat) -> char {
    if d == 0 {
        '0'
    } else if d == 1 {
        '1'
    } else if d == 2 {
        '2'
    } else if d == 3 {
        '3'
    } else if d == 4 {
        '4'
    } else if d == 5 {
        '5'
    } else if d == 6 {
        '6'
    } else if d == 7 {
        '7'
    } else if d == 8 {
        '8'
    } else {
        '9'
    }
}

/// The decimal form of `n`, without leading zeros.
pub open spec fn decimal(n: nat) -> Seq<char>
    decreases n,
{
    if n < 10 {
        seq![digit_char(n)]
    } else {
        decimal(n / 10).push(digit_char(n % 10))
    }
}

fn digit_text(d: u64) -> (r: &'static str)
    requires
        d < 10,
    ensures
        r@ == seq![digit_char(d as nat)],
{
    proof {
        reveal_strlit("0");
        reveal_strlit("1");
        reveal_strlit("2");
        reveal_strlit("3");
        reveal_strlit("4");
        reveal_strlit("5");
        reveal_strlit("6");
        reveal_strlit("7");
        reveal_strlit("8");
        reveal_strlit("9");
    }
    if d == 0 {
        "0"
    } else if d == 1 {
        "1"
    } else if d == 2 {
        "2"
    } else if d == 3 {
        "3"
    } else if d == 4 {
        "4"
    } else if d == 5 {
        "5"
    } else if d == 6 {
        "6"
    } else if d == 7 {
        "7"
    } else if d == 8 {
        "8"
    } else {
        "9"
    }
}

/// The decimal form of `n`.
pub fn decimal_text(n: u64) -> (r: String)
    ensures
        r@ == decimal(n as nat),
    decreases n,
{
    if n < 10 {
        digit_text(n).to_owned()
    } else {
        let head = decimal_text(n / 10);
        let r = concat(head.as_str(), digit_text(n % 10));
        assert(r@ =~= decimal(n as nat));
        r
    }
}

/// The `response_mode` for a request's `stream` flag.
pub open spec fn response_mode_for(stream: Option<bool>) -> Seq<char> {
    if stream == Some(true) {
        "streaming"@
    } else {
        "blocking"@
    }
}

/// The user tag sent to the backend: the caller's, else `proxy`.
pub open spec fn user_for(user: Option<String>) -> Seq<char> {
    match user {
        Some(u) => u@,
        None => "proxy"@,
    }
}

/// The model named in a response: the request's, else `dify-transformed`.
pub open spec fn model_name_for(model: Option<String>) -> Seq<char> {
    match model {
        Some(m) => m@,
        None => "dify-transformed"@,
    }
}

/// A copy of a list of tools.
pub fn copy_tools(v: &Vec<Tool>) -> (r: Vec<Tool>)
    ensures
        r@ == v@,
{
    let mut out: Vec<Tool> = Vec::new();
    let mut i: usize = 0;
    while i < v.len()
        invariant
            i <= v@.len(),
            out@ == v@.subrange(0, i as int),
        decreases v@.len() - i,
    {
        let t = &v[i];
        out.push(
            Tool {
                kind: t.kind.clone(),
                function: ToolFunction {
                    name: t.function.name.clone(),
                    description: t.function.description.clone(),
                    parameters: t.function.parameters.clone(),
                },
            },
        );
        assert(out@ =~= v@.subrange(0, i + 1));
        i = i + 1;
    }
    assert(v@.subrange(0, v@.len() as int) =~= v@);
    out
}

/// A copy of a list of tool calls.
pub fn copy_tool_calls(v: &Vec<ToolCall>) -> (r: Vec<ToolCall>)
    ensures
        r@ == v@,
{
    let mut out: Vec<ToolCall> = Vec::new();
    let mut i: usize = 0;
    while i < v.len()
        invariant
            i <= v@.len(),
            out@ == v@.subrange(0, i as int),
        decreases v@.len() - i,
    {
        let t = &v[i];
        out.push(
            ToolCall {
                id: t.id.clone(),
                kind: t.kind.clone(),
                function: FunctionCall {
                    name: t.function.name.clone(),
                    arguments: t.function.arguments.clone(),
                },
            },
        );
        assert(out@ =~= v@.subrange(0, i + 1));
        i = i + 1;
    }
    assert(v@.subrange(0, v@.len() as int) =~= v@);
    out
}

/// A copy of a list of files.
pub fn copy_files(v: &Vec<File>) -> (r: Vec<File>)
    ensures
        r@ == v@,
{
    let mut out: Vec<File> = Vec::new();
    let mut i: usize = 0;
    while i < v.len()
        invariant
            i <= v@.len(),
            out@ == v@.subrange(0, i as int),
        decreases v@.len() - i,
    {
        let f = &v[i];
        out.push(File { kind: f.kind.clone(), url: f.url.clone(), name: f.name.clone() });
        assert(out@ =~= v@.subrange(0, i + 1));
        i = i + 1;
    }
    assert(v@.subrange(0, v@.len() as int) =~= v@);
    out
}

/// The view of an optional list.
pub open spec fn opt_seq<T>(v: Option<Vec<T>>) -> Option<Seq<T>> {
    match v {
        Some(v) => Some(v@),
        None => None,
    }
}

/// One line of the conversation history.
fn history_line_text(m: &OpenAIMessage) -> (r: String)
    ensures
        r@ == history_line(*m),
{
    let head = concat(m.role.as_str(), ": ");
    let body = message_content_to_string(&m.content);
    concat(head.as_str(), body.as_str())
}

/// Translates an OpenAI request into a dialog-backend request.
///
/// All messages but the last become the conversation history, one
/// `<role>: <content>` line each; the last message's text is the single
/// query. The request streams exactly when the caller set `stream` to true;
/// the user tag defaults to `proxy`; the sampling parameters, the token limit
/// and the tools pass through. A request without messages is refused.
pub fn construct_dify_request(openai_req: &OpenAIRequest) -> (r: Result<DifyRequest, ChatCompletionError>)
    ensures
        openai_req.messages@.len() == 0 <==> r is Err,
        r is Err ==> (r->Err_0 is RequestConstructionError
            && r->Err_0->RequestConstructionError_0@ == "OpenAI request contains no messages"@),
        r is Ok ==> ({
            let d = r->Ok_0;
            let msgs = openai_req.messages@;
            &&& d.conversation_history@ == history_of(msgs)
            &&& d.query@.len() == 1
            &&& d.query@[0]@ == content_text(msgs.last().content)
            &&& d.response_mode@ == response_mode_for(openai_req.stream)
            &&& d.user@ == user_for(openai_req.user)
            &&& d.temperature_bits == openai_req.temperature_bits
            &&& d.top_p_bits == openai_req.top_p_bits
            &&& d.max_tokens == openai_req.max_tokens
            &&& opt_seq(d.tools) == opt_seq(openai_req.tools)
        }),
{
    let n = openai_req.messages.len();
    if n == 0 {
        return Err(
            ChatCompletionError::RequestConstructionError(
                "OpenAI request contains no messages".to_owned(),
            ),
        );
    }
    let ghost msgs = openai_req.messages@;
    let mut lines: Vec<String> = Vec::new();
    let mut i: usize = 0;
    while i < n - 1
        invariant
            n == msgs.len(),
            msgs == openai_req.messages@,
            i <= n - 1,
            lines@.len() == i,
            forall|k: int| 0 <= k < i ==> (#[trigger] lines@[k])@ == history_line(msgs[k]),
        decreases n - 1 - i,
    {
        lines.push(history_line_text(&openai_req.messages[i]));
        i = i + 1;
    }
    assert(lines@.map_values(|s: String| s@) =~= msgs.drop_last().map_values(
        |m: OpenAIMessage| history_line(m),
    ));
    let history = join_texts(&lines, "\n");
    let mut query: Vec<String> = Vec::new();
    query.push(message_content_to_string(&openai_req.messages[n - 1].content));
    let streaming = match openai_req.stream {
        Some(b) => b,
        None => false,
    };
    let response_mode = if streaming {
        "streaming".to_owned()
    } else {
        "blocking".to_owned()
    };
    let user = match &openai_req.user {
        Some(u) => u.clone(),
        None => "proxy".to_owned(),
    };
    let tools = match &openai_req.tools {
        Some(t) => Some(copy_tools(t)),
        None => None,
    };
    Ok(
        DifyRequest {
            conversation_history: history,
            query,
            response_mode,
            user,
            temperature_bits: openai_req.temperature_bits,
            top_p_bits: openai_req.top_p_bits,
            max_tokens: openai_req.max_tokens,
            tools,
        },
    )
}

/// The body of an HTTP error response of the relay.
#[derive(Debug)]
pub struct ErrorBody {
    pub message: String,
    pub kind: String,
}

/// The shape shared by every response this relay produces: a single choice
/// at index 0 and no usage.
pub open spec fn single_choice(r: OpenAIResponse) -> bool {
    &&& r.choices@.len() == 1
    &&& r.choices@[0].index == 0
    &&& r.usage is None
}

fn some_text(s: &str) -> (r: Option<String>)
    ensures
        r is Some && r->0@ == s@,
{
    Some(s.to_owned())
}

fn one_choice(delta: OpenAIDelta, finish_reason: Option<String>) -> (r: Vec<OpenAIChoice>)
    ensures
        r@.len() == 1,
        r@[0] == (OpenAIChoice { index: 0, delta, finish_reason }),
{
    let mut v: Vec<OpenAIChoice> = Vec::new();
    v.push(OpenAIChoice { index: 0, delta, finish_reason });
    v
}

/// `chatcmpl-<now_ms>`.
fn completion_id(prefix: &str, now_ms: u64) -> (r: String)
    ensures
        r@ == prefix@ + decimal(now_ms as nat),
{
    let digits = decimal_text(now_ms);
    concat(prefix, digits.as_str())
}

fn model_name(model: &Option<String>) -> (r: String)
    ensures
        r@ == model_name_for(*model),
{
    match model {
        Some(m) => m.clone(),
        None => "dify-transformed".to_owned(),
    }
}

/// The OpenAI response for a blocking backend reply, answered at `now_ms`
/// (milliseconds since the epoch): id `chatcmpl-<now_ms>`, the request's
/// model (else `dify-transformed`), and one assistant choice carrying the
/// answer, the tool calls and the files, finished with `stop`.
pub fn transform_dify_to_openai(
    dify_response: &DifyResponse,
    original_request: &OpenAIRequest,
    now_ms: u64,
) -> (r: OpenAIResponse)
    ensures
        r.id@ == "chatcmpl-"@ + decimal(now_ms as nat),
        r.object@ == "chat.completion"@,
        r.created == now_ms / 1000,
        r.model@ == model_name_for(original_request.model),
        single_choice(r),
        r.choices@[0].delta.role is Some && r.choices@[0].delta.role->0@ == "assistant"@,
        r.choices@[0].delta.content is Some && r.choices@[0].delta.content->0@
            == dify_response.answer@,
        opt_seq(r.choices@[0].delta.tool_calls) == opt_seq(dify_response.tool_calls),
        opt_seq(r.choices@[0].delta.files) == opt_seq(dify_response.files),
        r.choices@[0].finish_reason is Some && r.choices@[0].finish_reason->0@ == "stop"@,
{
    let delta = OpenAIDelta {
        role: some_text("assistant"),
        content: Some(dify_response.answer.clone()),
        tool_calls: match &dify_response.tool_calls {
            Some(t) => Some(copy_tool_calls(t)),
            None => None,
        },
        files: match &dify_response.files {
            Some(f) => Some(copy_files(f)),
            None => None,
        },
    };
    OpenAIResponse {
        id: completion_id("chatcmpl-", now_ms),
        object: "chat.completion".to_owned(),
        created: now_ms / 1000,
        model: model_name(&original_request.model),
        choices: one_choice(delta, some_text("stop")),
        usage: None,
    }
}

/// The stream chunk for one backend event: the event's message id and
/// creation time, a delta with the answer, tool calls and files, and no
/// finish reason.
pub fn transform_dify_to_openai_stream(dify_event: DifyEvent) -> (r: OpenAIResponse)
    ensures
        r.id == dify_event.message_id,
        r.object@ == "chat.completion.chunk"@,
        r.created == dify_event.created_at,
        r.model@ == "gpt-3.5-turbo"@,
        single_choice(r),
        r.choices@[0].delta == (OpenAIDelta {
            role: None,
            content: Some(dify_event.answer),
            tool_calls: dify_event.tool_calls,
            files: dify_event.files,
        }),
        r.choices@[0].finish_reason is None,
{
    let delta = OpenAIDelta {
        role: None,
        content: Some(dify_event.answer),
        tool_calls: dify_event.tool_calls,
        files: dify_event.files,
    };
    OpenAIResponse {
        id: dify_event.message_id,
        object: "chat.completion.chunk".to_owned(),
        created: dify_event.created_at,
        model: "gpt-3.5-turbo".to_owned(),
        choices: one_choice(delta, None),
        usage: None,
    }
}

/// The error chunk for a message: id `chatcmpl-error-<now_ms>`, the whole
/// message as assistant content, finished with `error`.
pub fn create_error_response(message: &str, now_ms: u64) -> (r: OpenAIResponse)
    ensures
        r.id@ == "chatcmpl-error-"@ + decimal(now_ms as nat),
        r.object@ == "chat.completion.chunk"@,
        r.created == now_ms / 1000,
        r.model@ == "dify-transformed"@,
        single_choice(r),
        r.choices@[0].delta.role is Some && r.choices@[0].delta.role->0@ == "assistant"@,
        r.choices@[0].delta.content is Some && r.choices@[0].delta.content->0@ == message@,
        r.choices@[0].delta.tool_calls is None,
        r.choices@[0].delta.files is None,
        r.choices@[0].finish_reason is Some && r.choices@[0].finish_reason->0@ == "error"@,
{
    let delta = OpenAIDelta {
        role: some_text("assistant"),
        content: some_text(message),
        tool_calls: None,
        files: None,
    };
    OpenAIResponse {
        id: completion_id("chatcmpl-error-", now_ms),
        object: "chat.completion.chunk".to_owned(),
        created: now_ms / 1000,
        model: "dify-transformed".to_owned(),
        choices: one_choice(delta, some_text("error")),
        usage: None,
    }
}

/// The stream chunk for a piece of backend text: an error chunk when the
/// text, trimmed, starts with `Error:`, otherwise an assistant delta with
/// the text and no finish reason.
pub fn transform_dify_to_openai_chunk(
    dify_response: &str,
    original_request: &OpenAIRequest,
    now_ms: u64,
) -> (r: OpenAIResponse)
    ensures
        r.object@ == "chat.completion.chunk"@,
        r.created == now_ms / 1000,
        single_choice(r),
        r.choices@[0].delta.content is Some && r.choices@[0].delta.content->0@ == dify_response@,
        has_prefix(trimmed(dify_response@), "Error:"@) ==> {
            &&& r.id@ == "chatcmpl-error-"@ + decimal(now_ms as nat)
            &&& r.model@ == "dify-transformed"@
            &&& r.choices@[0].finish_reason is Some
            &&& r.choices@[0].finish_reason->0@ == "error"@
        },
        !has_prefix(trimmed(dify_response@), "Error:"@) ==> {
            &&& r.id@ == "chatcmpl-"@ + decimal(now_ms as nat)
            &&& r.model@ == model_name_for(original_request.model)
            &&& r.choices@[0].finish_reason is None
        },
        r.choices@[0].delta.role is Some && r.choices@[0].delta.role->0@ == "assistant"@,
        r.choices@[0].delta.tool_calls is None,
        r.choices@[0].delta.files is None,
{
    let t = trim(dify_response);
    if starts_with(t.as_str(), "Error:") {
        return create_error_response(dify_response, now_ms);
    }
    let delta = OpenAIDelta {
        role: some_text("assistant"),
        content: some_text(dify_response),
        tool_calls: None,
        files: None,
    };
    OpenAIResponse {
        id: completion_id("chatcmpl-", now_ms),
        object: "chat.completion.chunk".to_owned(),
        created: now_ms / 1000,
        model: model_name(&original_request.model),
        choices: one_choice(delta, None),
        usage: None,
    }
}

/// The closing chunk of a stream: an empty delta finished with `stop`.
pub fn create_final_chunk(now_ms: u64) -> (r: OpenAIResponse)
    ensures
        r.id@ == "chatcmpl-"@ + decimal(now_ms as nat),
        r.object@ == "chat.completion.chunk"@,
        r.created == now_ms / 1000,
        r.model@ == "dify-transformed"@,
        single_choice(r),
        r.choices@[0].delta == (OpenAIDelta { role: None, content: None, tool_calls: None, files: None }),
        r.choices@[0].finish_reason is Some && r.choices@[0].finish_reason->0@ == "stop"@,
{
    let delta = OpenAIDelta { role: None, content: None, tool_calls: None, files: None };
    OpenAIResponse {
        id: completion_id("chatcmpl-", now_ms),
        object: "chat.completion.chunk".to_owned(),
        created: now_ms / 1000,
        model: "dify-transformed".to_owned(),
        choices: one_choice(delta, some_text("stop")),
        usage: None,
    }
}

/// The payload of a stream line: the text after `data: `, trimmed; `None`
/// for a line without that prefix.
pub fn frame_payload(line: &str) -> (r: Option<String>)
    ensures
        has_prefix(line@, "data: "@) <==> r is Some,
        r is Some ==> r->0@ == trimmed(line@.subrange(6, line@.len() as int)),
{
    proof {
        reveal_strlit("data: ");
    }
    if starts_with(line, "data: ") {
        let n = line.unicode_len();
        let rest = line.substring_char(6, n);
        Some(trim(rest))
    } else {
        None
    }
}

/// Whether a backend event is forwarded to the client: a `message` event
/// whose answer is not only whitespace.
pub open spec fn forwards(event: DifyEvent) -> bool {
    event.event@ == "message"@ && !all_space(event.answer@)
}

/// The chunk for a backend stream event, or `None` for an event that is
/// dropped.
pub fn event_chunk(dify_event: DifyEvent) -> (r: Option<OpenAIResponse>)
    ensures
        r is Some <==> forwards(dify_event),
        r is Some ==> ({
            let c = r->0;
            &&& c.id == dify_event.message_id
            &&& c.object@ == "chat.completion.chunk"@
            &&& c.created == dify_event.created_at
            &&& c.model@ == "gpt-3.5-turbo"@
            &&& single_choice(c)
            &&& c.choices@[0].delta == (OpenAIDelta {
                role: None,
                content: Some(dify_event.answer),
                tool_calls: dify_event.tool_calls,
                files: dify_event.files,
            })
            &&& c.choices@[0].finish_reason is None
        }),
{
    if text_eq(dify_event.event.as_str(), "message") && !is_blank(dify_event.answer.as_str()) {
        Some(transform_dify_to_openai_stream(dify_event))
    } else {
        None
    }
}

/// A server-sent-event frame carrying `json`.
pub fn sse_frame(json: &str) -> (r: String)
    ensures
        r@ == "data: "@ + json@ + "\n\n"@,
{
    let head = concat("data: ", json);
    concat(head.as_str(), "\n\n")
}

/// The frame that ends every stream.
pub fn done_frame() -> (r: String)
    ensures
        r@ == "data: [DONE]\n\n"@,
{
    "data: [DONE]\n\n".to_owned()
}

/// The key of an `Authorization: Bearer <key>` header value; `None` when the
/// header is absent or has another scheme.
pub fn extract_api_key(header: Option<&str>) -> (r: Option<String>)
    ensures
        header is None ==> r is None,
        header is Some ==> (r is Some <==> has_prefix(header->0@, "Bearer "@)),
        r is Some ==> r->0@ == header->0@.subrange(7, header->0@.len() as int),
{
    proof {
        reveal_strlit("Bearer ");
    }
    match header {
        Some(h) => {
            if starts_with(h, "Bearer ") {
                let n = h.unicode_len();
                Some(h.substring_char(7, n).to_owned())
            } else {
                None
            }
        },
        None => None,
    }
}

/// Whether `code` is a status code an HTTP response can carry (three digits).
pub open spec fn valid_status(code: u16) -> bool {
    100 <= code <= 999
}

/// The backend's status code when it is a valid one, else 500.
pub fn reqwest_to_actix_status(code: u16) -> (r: u16)
    ensures
        r == (if valid_status(code) {
            code
        } else {
            500
        }),
{
    if 100 <= code && code <= 999 {
        code
    } else {
        500
    }
}

/// The text form of a valid HTTP status code, as the HTTP client prints it.
pub uninterp spec fn status_display(code: u16) -> Seq<char>;

/// Relies on `reqwest::StatusCode::from_u16`, which accepts every code from
/// 100 to 999, and on the `Display` of `StatusCode` (the code, a space, and
/// its canonical reason or `<unknown status code>`).
#[verifier::external_body]
fn status_text(code: u16) -> (r: String)
    requires
        valid_status(code),
    ensures
        r@ == status_display(code),
{
    match reqwest::StatusCode::from_u16(code) {
        Ok(s) => s.to_string(),
        Err(_) => String::new(),
    }
}

/// The error for a backend reply with status `code` and body `body`: none
/// for a success status (200 to 299), otherwise a backend error carrying both.
pub fn check_backend_status(code: u16, body: String) -> (r: Result<(), ChatCompletionError>)
    ensures
        (200 <= code <= 299) <==> r is Ok,
        r is Err ==> r->Err_0 == ChatCompletionError::DifyApiError(code, body),
{
    if 200 <= code && code <= 299 {
        Ok(())
    } else {
        Err(ChatCompletionError::DifyApiError(code, body))
    }
}

impl ChatCompletionError {
    /// A one-line description of the error, for logs.
    pub fn describe(&self) -> (r: String)
        ensures
            r@ == match *self {
                ChatCompletionError::InvalidApiKey => "Missing or invalid Authorization header"@,
                ChatCompletionError::RequestConstructionError(m) => "Request construction error: "@
                    + m@,
                ChatCompletionError::DifyApiError(code, m) => "Dify API error ("@ + (if valid_status(
                    code,
                ) {
                    status_display(code)
                } else {
                    decimal(code as nat)
                }) + "): "@ + m@,
                ChatCompletionError::JsonSerializationError(m) => "JSON serialization error: "@ + m@,
            },
    {
        match self {
            ChatCompletionError::InvalidApiKey => "Missing or invalid Authorization header".to_owned(),
            ChatCompletionError::RequestConstructionError(m) => concat(
                "Request construction error: ",
                m.as_str(),
            ),
            ChatCompletionError::DifyApiError(code, m) => {
                let status = if 100 <= *code && *code <= 999 {
                    status_text(*code)
                } else {
                    decimal_text(*code as u64)
                };
                let a = concat("Dify API error (", status.as_str());
                let b = concat(a.as_str(), "): ");
                concat(b.as_str(), m.as_str())
            },
            ChatCompletionError::JsonSerializationError(m) => concat(
                "JSON serialization error: ",
                m.as_str(),
            ),
        }
    }

    /// The HTTP status of the error: 401, 400, the backend's own status
    /// (502 when it is not a valid one), or 500.
    pub fn status_code(&self) -> (r: u16)
        ensures
            r == match *self {
                ChatCompletionError::InvalidApiKey => 401u16,
                ChatCompletionError::RequestConstructionError(_) => 400u16,
                ChatCompletionError::DifyApiError(code, _) => if valid_status(code) {
                    code
                } else {
                    502u16
                },
                ChatCompletionError::JsonSerializationError(_) => 500u16,
            },
    {
        match self {
            ChatCompletionError::InvalidApiKey => 401,
            ChatCompletionError::RequestConstructionError(_) => 400,
            ChatCompletionError::DifyApiError(code, _) => {
                if 100 <= *code && *code <= 999 {
                    *code
                } else {
                    502
                }
            },
            ChatCompletionError::JsonSerializationError(_) => 500,
        }
    }

    /// The message the client sees in the error body.
    pub open spec fn spec_message(&self) -> Seq<char> {
        match *self {
            ChatCompletionError::InvalidApiKey => "Missing or invalid Authorization header"@,
            ChatCompletionError::RequestConstructionError(m) => m@,
            ChatCompletionError::DifyApiError(_, m) => m@,
            ChatCompletionError::JsonSerializationError(m) => m@,
        }
    }

    /// The message the client sees in the error body.
    pub fn message(&self) -> (r: String)
        ensures
            r@ == self.spec_message(),
    {
        match self {
            ChatCompletionError::InvalidApiKey => "Missing or invalid Authorization header".to_owned(),
            ChatCompletionError::RequestConstructionError(m) => m.clone(),
            ChatCompletionError::DifyApiError(_, m) => m.clone(),
            ChatCompletionError::JsonSerializationError(m) => m.clone(),
        }
    }

    /// The error body the client receives.
    pub fn error_response(&self) -> (r: ErrorBody)
        ensures
            r.message@ == self.spec_message(),
            r.kind@ == "invalid_request_error"@,
    {
        ErrorBody { message: self.message(), kind: "invalid_request_error".to_owned() }
    }
}

/// Appending a character to the last part appends it to the joined text.
proof fn lemma_joined_push_char(parts: Seq<Seq<char>>, x: Seq<char>, c: char, sep: Seq<char>)
    ensures
        joined(parts.push(x.push(c)), sep) == joined(parts.push(x), sep).push(c),
{
    assert(parts.push(x.push(c)).drop_last() =~= parts);
    assert(parts.push(x).drop_last() =~= parts);
    if parts.len() == 0 {
    } else {
        assert(joined(parts, sep) + sep + x.push(c) =~= (joined(parts, sep) + sep + x).push(c));
    }
}

/// The lines of a text: the pieces between newline characters, in order.
/// Joining them with newlines gives the text back, and none holds a newline.
pub fn split_lines(text: &str) -> (r: Vec<String>)
    ensures
        r@.len() >= 1,
        joined(r@.map_values(|l: String| l@), "\n"@) == text@,
        forall|i: int, k: int|
            0 <= i < r@.len() && 0 <= k < r@[i]@.len() ==> (#[trigger] r@[i]@[k]) != '\n',
{
    let n = text.unicode_len();
    let mut parts: Vec<String> = Vec::new();
    let mut start: usize = 0;
    let mut i: usize = 0;
    assert(text@.subrange(0, 0) =~= Seq::<char>::empty());
    assert(parts@.map_values(|l: String| l@).push(text@.subrange(0, 0)).drop_last() =~= Seq::<Seq<char>>::empty());
    while i < n
        invariant
            n == text@.len(),
            start <= i <= n,
            joined(parts@.map_values(|l: String| l@).push(text@.subrange(start as int, i as int)), "\n"@)
                == text@.subrange(0, i as int),
            forall|j: int, k: int|
                0 <= j < parts@.len() && 0 <= k < parts@[j]@.len() ==> (#[trigger] parts@[j]@[k])
                    != '\n',
            forall|k: int| start <= k < i ==> (#[trigger] text@[k]) != '\n',
        decreases n - i,
    {
        let c = text.get_char(i);
        let ghost views = parts@.map_values(|l: String| l@);
        if c == '\n' {
            let piece = text.substring_char(start, i).to_owned();
            parts.push(piece);
            let ghost nv = parts@.map_values(|l: String| l@);
            proof {
                reveal_strlit("\n");
                assert(nv =~= views.push(text@.subrange(start as int, i as int)));
                assert(text@.subrange(i + 1, i + 1) =~= Seq::<char>::empty());
                assert(nv.push(text@.subrange(i + 1, i + 1)).drop_last() =~= nv);
                assert(joined(nv.push(text@.subrange(i + 1, i + 1)), "\n"@) =~= joined(nv, "\n"@)
                    + "\n"@ + Seq::<char>::empty());
                assert(text@.subrange(0, i + 1) =~= text@.subrange(0, i as int).push('\n'));
            }
            start = i + 1;
        } else {
            proof {
                lemma_joined_push_char(views, text@.subrange(start as int, i as int), c, "\n"@);
                assert(text@.subrange(start as int, i + 1) =~= text@.subrange(start as int, i as int).push(c));
                assert(text@.subrange(0, i + 1) =~= text@.subrange(0, i as int).push(c));
            }
        }
        i = i + 1;
    }
    let last = text.substring_char(start, n).to_owned();
    let ghost views = parts@.map_values(|l: String| l@);
    parts.push(last);
    assert(parts@.map_values(|l: String| l@) =~= views.push(text@.subrange(start as int, n as int)));
    assert(text@.subrange(0, n as int) =~= text@);
    parts
}

/// The payloads of the `data: ` lines among `lines`, in order, each trimmed.
pub open spec fn payloads(lines: Seq<Seq<char>>) -> Seq<Seq<char>>
    decreases lines.len(),
{
    if lines.len() == 0 {
        Seq::empty()
    } else {
        let rest = payloads(lines.drop_last());
        let l = lines.last();
        if has_prefix(l, "data: "@) {
            rest.push(trimmed(l.subrange(6, l.len() as int)))
        } else {
            rest
        }
    }
}

/// The payloads of the `data: ` lines among `lines`, in order, each trimmed.
pub fn line_payloads(lines: &Vec<String>) -> (r: Vec<String>)
    ensures
        r@.map_values(|p: String| p@) == payloads(lines@.map_values(|l: String| l@)),
{
    let ghost lv = lines@.map_values(|l: String| l@);
    let mut out: Vec<String> = Vec::new();
    let mut i: usize = 0;
    while i < lines.len()
        invariant
            i <= lines@.len(),
            lv == lines@.map_values(|l: String| l@),
            out@.map_values(|p: String| p@) == payloads(lv.subrange(0, i as int)),
        decreases lines@.len() - i,
    {
        let ghost before = out@.map_values(|p: String| p@);
        assert(lv.subrange(0, i + 1).drop_last() =~= lv.subrange(0, i as int));
        match frame_payload(lines[i].as_str()) {
            Some(p) => {
                out.push(p);
                assert(out@.map_values(|p: String| p@) =~= before.push(
                    trimmed(lv[i as int].subrange(6, lv[i as int].len() as int)),
                ));
            },
            None => {},
        }
        i = i + 1;
    }
    assert(lv.subrange(0, lines@.len() as int) =~= lv);
    out
}

/// The payloads of the `data: ` lines of a piece of the backend's stream,
/// in the order they came, each trimmed. Other lines are skipped.
pub fn process_chunk(chunk: &str) -> (r: Vec<String>)
    ensures
        exists|lines: Seq<Seq<char>>|
            {
                &&& joined(lines, "\n"@) == chunk@
                &&& forall|i: int, k: int|
                    0 <= i < lines.len() && 0 <= k < lines[i].len() ==> #[trigger] lines[i][k] != '\n'
                &&& r@.map_values(|p: String| p@) == payloads(lines)
            },
{
    let lines = split_lines(chunk);
    let ghost lv = lines@.map_values(|l: String| l@);
    let out = line_payloads(&lines);
    assert forall|a: int, k: int|
        0 <= a < lv.len() && 0 <= k < lv[a].len() implies #[trigger] lv[a][k] != '\n' by {
        assert(lv[a] == lines@[a]@);
        assert(lines@[a]@[k] != '\n');
    }
    out
}

/// Reassembles the lines of a stream that arrives in pieces: the text after
/// the last newline is held back until the piece that completes it.
pub struct LineBuffer {
    pending: String,
}

impl LineBuffer {
    /// The text received after the last newline.
    pub closed spec fn pending(&self) -> Seq<char> {
        self.pending@
    }

    pub fn new() -> (r: LineBuffer)
        ensures
            r.pending() == Seq::<char>::empty(),
    {
        LineBuffer { pending: String::new() }
    }

    /// Takes the next piece of the stream and returns the lines it completes,
    /// without their newlines. Those lines, then the text held back, joined
    /// by newlines, are the held-back text before the call followed by the
    /// piece.
    pub fn feed(&mut self, piece: &str) -> (r: Vec<String>)
        ensures
            joined(r@.map_values(|l: String| l@).push(final(self).pending()), "\n"@) == old(
                self,
            ).pending() + piece@,
            forall|i: int, k: int|
                0 <= i < r@.len() && 0 <= k < r@[i]@.len() ==> (#[trigger] r@[i]@[k]) != '\n',
            forall|k: int| 0 <= k < final(self).pending().len() ==> #[trigger] final(self).pending()[k] != '\n',
    {
        let text = concat(self.pending.as_str(), piece);
        let mut lines = split_lines(text.as_str());
        let ghost all = lines@;
        let rest = lines.pop();
        match rest {
            Some(last) => {
                assert(all =~= lines@.push(last));
                assert(all.map_values(|l: String| l@) =~= lines@.map_values(|l: String| l@).push(last@));
                assert forall|k: int| 0 <= k < last@.len() implies #[trigger] last@[k] != '\n' by {
                    assert(all[all.len() - 1] == last);
                    assert(all[all.len() - 1]@[k] != '\n');
                }
                assert forall|i: int, k: int|
                    0 <= i < lines@.len() && 0 <= k < lines@[i]@.len() implies (#[trigger] lines@[i]@[k])
                        != '\n' by {
                    assert(all[i] == lines@[i]);
                    assert(all[i]@[k] != '\n');
                }
                self.pending = last;
            },
            None => {},
        }
        lines
    }

    /// Ends the stream: the text held back, as a last line.
    pub fn finish(self) -> (r: String)
        ensures
            r@ == self.pending(),
    {
        self.pending
    }
}

/// The events of `events` that are forwarded to the client, in order.
pub open spec fn forwarded(events: Seq<DifyEvent>) -> Seq<DifyEvent>
    decreases events.len(),
{
    if events.len() == 0 {
        Seq::empty()
    } else {
        let rest = forwarded(events.drop_last());
        if forwards(events.last()) {
            rest.push(events.last())
        } else {
            rest
        }
    }
}

/// The chunks for a run of backend events: one per forwarded event, in the
/// order the events came; every other event is dropped.
pub fn stream_chunks(events: Vec<DifyEvent>) -> (r: Vec<OpenAIResponse>)
    ensures
        r@.len() == forwarded(events@).len(),
        forall|j: int|
            0 <= j < r@.len() ==> {
                &&& (#[trigger] r@[j]).id == forwarded(events@)[j].message_id
                &&& r@[j].object@ == "chat.completion.chunk"@
                &&& r@[j].created == forwarded(events@)[j].created_at
                &&& r@[j].model@ == "gpt-3.5-turbo"@
                &&& single_choice(r@[j])
                &&& r@[j].choices@[0].delta == (OpenAIDelta {
                    role: None,
                    content: Some(forwarded(events@)[j].answer),
                    tool_calls: forwarded(events@)[j].tool_calls,
                    files: forwarded(events@)[j].files,
                })
                &&& r@[j].choices@[0].finish_reason is None
            },
{
    let ghost all = events@;
    let n = events.len();
    let mut rest = events;
    let mut out: Vec<OpenAIResponse> = Vec::new();
    let mut i: usize = 0;
    while i < n
        invariant
            n == all.len(),
            i <= n,
            rest@ == all.subrange(i as int, n as int),
            out@.len() == forwarded(all.subrange(0, i as int)).len(),
            forall|j: int|
                0 <= j < out@.len() ==> {
                    &&& (#[trigger] out@[j]).id == forwarded(all.subrange(0, i as int))[j].message_id
                    &&& out@[j].object@ == "chat.completion.chunk"@
                    &&& out@[j].created == forwarded(all.subrange(0, i as int))[j].created_at
                    &&& out@[j].model@ == "gpt-3.5-turbo"@
                    &&& single_choice(out@[j])
                    &&& out@[j].choices@[0].delta == (OpenAIDelta {
                        role: None,
                        content: Some(forwarded(all.subrange(0, i as int))[j].answer),
                        tool_calls: forwarded(all.subrange(0, i as int))[j].tool_calls,
                        files: forwarded(all.subrange(0, i as int))[j].files,
                    })
                    &&& out@[j].choices@[0].finish_reason is None
                },
        decreases n - i,
    {
        let ev = rest.remove(0);
        assert(ev == all[i as int]);
        assert(all.subrange(0, i + 1).drop_last() =~= all.subrange(0, i as int));
        assert(rest@ =~= all.subrange(i + 1, n as int));
        match event_chunk(ev) {
            Some(c) => {
                out.push(c);
            },
            None => {},
        }
        i = i + 1;
    }
    assert(all.subrange(0, n as int) =~= all);
    out
}

} // verus!
