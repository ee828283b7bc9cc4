//! Text polishing, speak-to-edit and translation through the Qwen LLM
//! (DashScope, OpenAI-compatible chat API): the prompts and requests that
//! are sent, the early answers that need no request, the fallbacks applied to
//! the reply, and the decoding of the streamed (server-sent events) reply.
//! Sending the request and parsing each event's JSON is left to the caller.

use vstd::prelude::*;
use vstd::utf8::{decode_utf8, valid_utf8};
use crate::text::{lemma_decode_utf8_concat,
    append_chars, chars_of, find_char, from_utf8_lossy, has_prefix, index_of, index_of_from, join, join_strings,
    starts_with_chars, string_from_chars, string_views, suffix_from, prefix_to, trim, trim_chars,
    utf8_lossy,
};

verus! {

/// Alibaba Cloud DashScope (Qwen) chat completions endpoint.
pub const DASHSCOPE_LLM_URL: &'static str = "https://dashscope.aliyuncs.com/compatible-mode/v1/chat/completions";

/// The model every request names.
pub const LLM_MODEL: &'static str = "qwen-plus";

/// The token limit every request sets.
pub const LLM_MAX_TOKENS: u32 = 2048;

/// System prompt for translation, before the target language.
pub const TRANSLATE_PROMPT_PREFIX: &'static str = "你是一个翻译助手。将用户输入的文本翻译成";

/// System prompt for translation, after the target language.
pub const TRANSLATE_PROMPT_SUFFIX: &'static str = "。只返回翻译结果，不要添加任何解释。保持原文的语气和风格。";

/// System prompt for speak-to-edit: modify selected text according to a
/// voice command.
pub const EDIT_TEXT_SYSTEM_PROMPT: &'static str = "你是一个文本编辑助手。用户会提供一段已选中的文本和一个语音指令。请根据指令修改文本。只返回修改后的文本，不要添加任何解释。";

/// System prompt for text polishing.
pub const POLISH_SYSTEM_PROMPT: &'static str = r#"你是一个语音转文字的后处理助手。你的任务是润色语音识别的原始文本，使其更加通顺自然。

规则：
1. 去除口头禅和语气词（嗯、啊、那个、就是说、然后等）
2. 修正明显的语音识别错误
3. 添加合适的标点符号
4. 保持原文的意思不变，不要添加或删除实质内容
5. 如果原文已经很好，直接返回原文
6. 只返回润色后的文本，不要添加任何解释
7. 如果内容包含多个要点、步骤、条目，必须用换行分行输出（每条一行），格式如：
   第一，xxx
   第二，xxx
   或者：
   1. xxx
   2. xxx
8. 如果内容是连续的一段话，则不要分行

示例1：
输入：嗯那个我想说的是就是说今天天气还不错啊我们可以出去走走
输出：我想说的是，今天天气还不错，我们可以出去走走。

示例2：
输入：那个我说三点啊第一点呢就是要遵守纪律第二点呢要整理好衣服第三点呢要去操场跑步
输出：我说三点：
1. 遵守纪律
2. 整理好衣服
3. 去操场跑步"#;

/// Errors that can occur while talking to the LLM.
#[derive(Debug)]
pub enum LlmError {
    /// Network error.
    NetworkError(String),
    /// The service answered with an HTTP error.
    ApiError(String),
    /// The service's answer could not be parsed.
    ParseError(String),
}

/// The user-facing message of an LLM error.
pub open spec fn llm_error_message(e: LlmError) -> Seq<char> {
    match e {
        LlmError::NetworkError(m) => "Network error: "@ + m@,
        LlmError::ApiError(m) => "API error: "@ + m@,
        LlmError::ParseError(m) => "Failed to parse API response: "@ + m@,
    }
}

impl LlmError {
    /// The user-facing message of the error.
    pub fn message(&self) -> (r: String)
        ensures
            r@ == llm_error_message(*self),
    {
        match self {
            LlmError::NetworkError(m) => String::from_str("Network error: ").concat(m.as_str()),
            LlmError::ApiError(m) => String::from_str("API error: ").concat(m.as_str()),
            LlmError::ParseError(m) => String::from_str("Failed to parse API response: ").concat(
                m.as_str(),
            ),
        }
    }
}

/// One message of a chat request.
#[derive(Debug)]
pub struct ChatMessage {
    pub role: String,
    pub content: String,
}

/// A streaming chat completions request. When it is serialised, a sampling
/// temperature of 0.3 is added to these fields.
#[derive(Debug)]
pub struct ChatRequest {
    pub model: String,
    pub messages: Vec<ChatMessage>,
    pub max_tokens: u32,
    pub stream: bool,
}

/// `q` is the streaming `qwen-plus` request (2048 tokens) with the given
/// system prompt followed by the given user message.
pub open spec fn is_chat_request(q: ChatRequest, system: Seq<char>, user: Seq<char>) -> bool {
    &&& q.model@ == LLM_MODEL@
    &&& q.max_tokens == 2048
    &&& q.stream
    &&& q.messages@.len() == 2
    &&& q.messages@[0].role@ == "system"@
    &&& q.messages@[0].content@ == system
    &&& q.messages@[1].role@ == "user"@
    &&& q.messages@[1].content@ == user
}

/// The streaming request with a system prompt and a user message.
pub fn chat_request(system: String, user: String) -> (r: ChatRequest)
    ensures
        is_chat_request(r, system@, user@),
{
    let mut messages: Vec<ChatMessage> = Vec::new();
    messages.push(ChatMessage { role: String::from_str("system"), content: system });
    messages.push(ChatMessage { role: String::from_str("user"), content: user });
    ChatRequest { model: String::from_str(LLM_MODEL), messages, max_tokens: LLM_MAX_TOKENS, stream: true }
}

/// What a text operation needs: either its answer is known without asking
/// the LLM, or this request must be sent.
#[derive(Debug)]
pub enum LlmStep {
    /// The answer, without any request.
    Done(String),
    /// The request to send.
    Send(ChatRequest),
}

/// The polishing system prompt: the base prompt, then the custom terms that
/// must be kept verbatim (joined with "、") when there are any, then the tone
/// instruction when a tone is given.
pub open spec fn polish_system_prompt(dictionary: Seq<Seq<char>>, tone: Seq<char>) -> Seq<char> {
    let base = if dictionary.len() == 0 {
        POLISH_SYSTEM_PROMPT@
    } else {
        POLISH_SYSTEM_PROMPT@ + "\n\n以下专有名词必须原样保留，不要修改："@ + join(dictionary, "、"@)
    };
    if tone.len() == 0 {
        base
    } else {
        base + "\n\n请使用"@ + tone + "的语气风格。"@
    }
}

/// The speak-to-edit user message: the selected text, then the instruction.
pub open spec fn edit_user_message(selected: Seq<char>, command: Seq<char>) -> Seq<char> {
    "选中的文本：\n"@ + selected + "\n\n指令："@ + command
}

/// The translation system prompt for a target language.
pub open spec fn translate_system_prompt(target: Seq<char>) -> Seq<char> {
    TRANSLATE_PROMPT_PREFIX@ + target + TRANSLATE_PROMPT_SUFFIX@
}

/// The text to keep from an LLM reply: the reply, or the original text when
/// the reply is empty.
pub open spec fn reply_or_original(original: Seq<char>, reply: Seq<char>) -> Seq<char> {
    if reply.len() == 0 { original } else { reply }
}

/// Fall back to the original text when the LLM returned nothing.
pub fn fallback_if_empty(original: &str, reply: String) -> (r: String)
    ensures
        r@ == reply_or_original(original@, reply@),
{
    if reply.as_str().is_empty() {
        String::from_str(original)
    } else {
        reply
    }
}

/// Client for the Qwen LLM text services.
#[derive(Clone)]
pub struct LlmClient {
    api_key: String,
    enabled: bool,
}

impl LlmClient {
    /// The key the client was created with.
    pub closed spec fn key(&self) -> Seq<char> {
        self.api_key@
    }

    /// Whether polishing is enabled.
    pub closed spec fn polishing(&self) -> bool {
        self.enabled
    }

    /// Create a new LLM client with the given DashScope API key; polishing is
    /// enabled.
    pub fn new(api_key: String) -> (r: Self)
        ensures
            r.key() == api_key@,
            r.polishing(),
    {
        LlmClient { api_key, enabled: true }
    }

    /// Enable or disable text polishing.
    pub fn set_enabled(&mut self, enabled: bool)
        ensures
            final(self).polishing() == enabled,
            final(self).key() == old(self).key(),
    {
        self.enabled = enabled;
    }

    /// Whether polishing is enabled.
    pub fn is_enabled(&self) -> (r: bool)
        ensures
            r == self.polishing(),
    {
        self.enabled
    }

    /// The `Authorization` header value: the key as a bearer token.
    pub fn authorization(&self) -> (r: String)
        ensures
            r@ == "Bearer "@ + self.key(),
    {
        String::from_str("Bearer ").concat(self.api_key.as_str())
    }

    /// Polishing of raw recognised text: empty text is answered with the
    /// empty string; with polishing disabled the raw text comes back as it
    /// is; otherwise the polishing prompt (with the custom terms and tone)
    /// and the raw text are sent.
    pub fn polish_request(&self, raw_text: &str, dictionary: &[String], tone: &str) -> (r: LlmStep)
        ensures
            raw_text@.len() == 0 ==> (r matches LlmStep::Done(t) && t@.len() == 0),
            raw_text@.len() > 0 && !self.polishing() ==> (r matches LlmStep::Done(t) && t@
                == raw_text@),
            raw_text@.len() > 0 && self.polishing() ==> (r matches LlmStep::Send(q)
                && is_chat_request(
                q,
                polish_system_prompt(string_views(dictionary@), tone@),
                raw_text@,
            )),
    {
        if raw_text.is_empty() {
            return LlmStep::Done(String::new());
        }
        if !self.enabled {
            return LlmStep::Done(String::from_str(raw_text));
        }
        let mut system = String::from_str(POLISH_SYSTEM_PROMPT);
        if dictionary.len() > 0 {
            let terms = join_strings(dictionary, "、");
            system.append("\n\n以下专有名词必须原样保留，不要修改：");
            system.append(terms.as_str());
        }
        if !tone.is_empty() {
            system.append("\n\n请使用");
            system.append(tone);
            system.append("的语气风格。");
        }
        LlmStep::Send(chat_request(system, String::from_str(raw_text)))
    }

    /// Speak-to-edit of `selected_text` by `voice_command`: no selection is
    /// answered with the empty string, no command with the selection
    /// unchanged; otherwise the edit prompt and a message holding both are
    /// sent.
    pub fn edit_text_request(&self, selected_text: &str, voice_command: &str) -> (r: LlmStep)
        ensures
            selected_text@.len() == 0 ==> (r matches LlmStep::Done(t) && t@.len() == 0),
            selected_text@.len() > 0 && voice_command@.len() == 0 ==> (r matches LlmStep::Done(t)
                && t@ == selected_text@),
            selected_text@.len() > 0 && voice_command@.len() > 0 ==> (r matches LlmStep::Send(q)
                && is_chat_request(
                q,
                EDIT_TEXT_SYSTEM_PROMPT@,
                edit_user_message(selected_text@, voice_command@),
            )),
    {
        if selected_text.is_empty() {
            return LlmStep::Done(String::new());
        }
        if voice_command.is_empty() {
            return LlmStep::Done(String::from_str(selected_text));
        }
        let user = String::from_str("选中的文本：\n").concat(selected_text).concat("\n\n指令：").concat(
            voice_command,
        );
        LlmStep::Send(chat_request(String::from_str(EDIT_TEXT_SYSTEM_PROMPT), user))
    }

    /// Translation of `text` into `target_language`: empty text is answered
    /// with the empty string; otherwise the translation prompt for the
    /// language and the text are sent.
    pub fn translate_request(&self, text: &str, target_language: &str) -> (r: LlmStep)
        ensures
            text@.len() == 0 ==> (r matches LlmStep::Done(t) && t@.len() == 0),
            text@.len() > 0 ==> (r matches LlmStep::Send(q) && is_chat_request(
                q,
                translate_system_prompt(target_language@),
                text@,
            )),
    {
        if text.is_empty() {
            return LlmStep::Done(String::new());
        }
        let system = String::from_str(TRANSLATE_PROMPT_PREFIX).concat(target_language).concat(
            TRANSLATE_PROMPT_SUFFIX,
        );
        LlmStep::Send(chat_request(system, String::from_str(text)))
    }
}

/// The tone instruction is independent of the personal dictionary: with a
/// tone, the polishing prompt ends with "\n\n请使用" + tone + "的语气风格。"
/// whatever the dictionary; without a dictionary it is the base prompt
/// followed by that instruction; without a tone it carries no instruction
/// and, without a dictionary either, it is the base prompt alone.
pub proof fn lemma_polish_prompt_tone(dictionary: Seq<Seq<char>>, tone: Seq<char>)
    ensures
        tone.len() > 0 ==> {
            let p = polish_system_prompt(dictionary, tone);
            let instr = "\n\n请使用"@ + tone + "的语气风格。"@;
            &&& p.len() >= POLISH_SYSTEM_PROMPT@.len() + instr.len()
            &&& p.subrange(p.len() - instr.len(), p.len() as int) == instr
        },
        tone.len() > 0 ==> polish_system_prompt(Seq::empty(), tone) == POLISH_SYSTEM_PROMPT@
            + "\n\n请使用"@ + tone + "的语气风格。"@,
        polish_system_prompt(Seq::empty(), Seq::empty()) == POLISH_SYSTEM_PROMPT@,
        dictionary.len() > 0 ==> polish_system_prompt(dictionary, Seq::empty()) == POLISH_SYSTEM_PROMPT@
            + "\n\n以下专有名词必须原样保留，不要修改："@ + join(dictionary, "、"@),
{
    if tone.len() > 0 {
        let p = polish_system_prompt(dictionary, tone);
        let instr = "\n\n请使用"@ + tone + "的语气风格。"@;
        let base = if dictionary.len() == 0 {
            POLISH_SYSTEM_PROMPT@
        } else {
            POLISH_SYSTEM_PROMPT@ + "\n\n以下专有名词必须原样保留，不要修改："@ + join(dictionary, "、"@)
        };
        assert(p == base + instr);
        assert(p.subrange(p.len() - instr.len(), p.len() as int) =~= instr);
    }
}

/// The speak-to-edit message carries the whole selection and the whole
/// command: it is 12 characters longer than both together, the selection
/// stands whole after the 7-character heading, and the message ends with
/// the command.
pub proof fn lemma_edit_message_whole(selected: Seq<char>, command: Seq<char>)
    ensures
        edit_user_message(selected, command).len() == 12 + selected.len() + command.len(),
        edit_user_message(selected, command).subrange(0, 7) == "选中的文本：\n"@,
        edit_user_message(selected, command).subrange(7, 7 + selected.len() as int) == selected,
        edit_user_message(selected, command).subrange(
            12 + selected.len() as int,
            12 + selected.len() + command.len() as int,
        ) == command,
{
    reveal_strlit("选中的文本：\n");
    reveal_strlit("\n\n指令：");
    let m = edit_user_message(selected, command);
    assert("选中的文本：\n"@.len() == 7);
    assert("\n\n指令："@.len() == 5);
    assert(m.subrange(0, 7) =~= "选中的文本：\n"@);
    assert(m.subrange(7, 7 + selected.len() as int) =~= selected);
    assert(m.subrange(12 + selected.len() as int, 12 + selected.len() + command.len() as int) =~= command);
}

/// Whether the reply is empty or carries the original text unchanged is all
/// the fallback looks at: a non-empty original never turns into an empty
/// result.
pub proof fn lemma_fallback_never_empty(original: Seq<char>, reply: Seq<char>)
    requires
        original.len() > 0,
    ensures
        reply_or_original(original, reply).len() > 0,
{
}

/// What draining complete lines from the stream buffer leaves in the buffer
/// and which event payloads it yields.
///
/// Each complete line (up to the first `'\n'`) is trimmed and removed from
/// the buffer. A line starting with `data: [DONE]` ends the draining (the
/// lines after it stay in the buffer). A line starting with `data: ` yields
/// the rest of the line as a payload; other lines are skipped. An incomplete
/// last line stays in the buffer.
pub open spec fn sse_drain(buf: Seq<char>) -> (Seq<char>, Seq<Seq<char>>)
    decreases buf.len(),
{
    let pos = index_of(buf, '\n');
    if pos >= buf.len() {
        (buf, Seq::empty())
    } else {
        proof {
            crate::text::lemma_index_of_from_bounds(buf, '\n', 0);
        }
        let line = trim(buf.subrange(0, pos));
        let rest = buf.subrange(pos + 1, buf.len() as int);
        if has_prefix(line, "data: [DONE]"@) {
            (rest, Seq::empty())
        } else {
            let (left, payloads) = sse_drain(rest);
            if has_prefix(line, "data: "@) {
                (left, seq![line.subrange(6, line.len() as int)] + payloads)
            } else {
                (left, payloads)
            }
        }
    }
}

/// The content an event adds: the first choice's content delta, or nothing
/// when the payload did not parse, has no choice, or its first choice has no
/// content.
pub open spec fn event_content(parsed: Result<Vec<Option<String>>, String>) -> Seq<char> {
    match parsed {
        Ok(v) => if v@.len() > 0 {
            match v@[0] {
                Some(c) => c@,
                None => Seq::empty(),
            }
        } else {
            Seq::empty()
        },
        Err(_) => Seq::empty(),
    }
}

/// The answer of polishing once its request was sent: the reply, or the raw
/// text when the request failed or the reply is empty (polishing falls back
/// to the raw text).
pub fn polish_reply(raw: &str, reply: Result<String, LlmError>) -> (r: String)
    ensures
        r@ == match reply {
            Ok(t) => reply_or_original(raw@, t@),
            Err(_) => raw@,
        },
{
    match reply {
        Ok(t) => fallback_if_empty(raw, t),
        Err(_) => String::from_str(raw),
    }
}

/// Decoder for the streamed chat reply (server-sent events): it buffers the
/// bytes received so far, hands out the JSON payload of each complete
/// `data: ` line, and accumulates the content deltas it is given back.
#[derive(Debug)]
pub struct SseDecoder {
    buffer: Vec<char>,
    text: Vec<char>,
}

impl SseDecoder {
    /// The received characters that do not yet form a complete line.
    pub closed spec fn pending(&self) -> Seq<char> {
        self.buffer@
    }

    /// The content accumulated so far.
    pub closed spec fn content(&self) -> Seq<char> {
        self.text@
    }

    /// A decoder that has received nothing.
    pub fn new() -> (r: Self)
        ensures
            r.pending().len() == 0,
            r.content().len() == 0,
    {
        SseDecoder { buffer: Vec::new(), text: Vec::new() }
    }

    /// Take in a chunk of the response body (decoded as lossy UTF-8) and
    /// return the payloads of the complete event lines, in order, as
    /// `sse_drain` describes.
    pub fn feed(&mut self, chunk: &[u8]) -> (r: Vec<String>)
        ensures
            final(self).pending() == sse_drain(old(self).pending() + utf8_lossy(chunk@)).0,
            string_views(r@) == sse_drain(old(self).pending() + utf8_lossy(chunk@)).1,
            valid_utf8(chunk@) ==> final(self).pending() == sse_drain(
                old(self).pending() + decode_utf8(chunk@),
            ).0,
            valid_utf8(chunk@) ==> string_views(r@) == sse_drain(
                old(self).pending() + decode_utf8(chunk@),
            ).1,
            final(self).content() == old(self).content(),
    {
        let decoded = from_utf8_lossy(chunk);
        let added = chars_of(decoded.as_str());
        append_chars(&mut self.buffer, added.as_slice());
        let ghost start = self.buffer@;
        let done = chars_of("data: [DONE]");
        let data = chars_of("data: ");
        let mut out: Vec<String> = Vec::new();
        loop
            invariant
                done@ == "data: [DONE]"@,
                data@ == "data: "@,
                self.text@ == old(self).text@,
                start == old(self).buffer@ + utf8_lossy(chunk@),
                valid_utf8(chunk@) ==> utf8_lossy(chunk@) == decode_utf8(chunk@),
                sse_drain(start).0 == sse_drain(self.buffer@).0,
                sse_drain(start).1 == string_views(out@) + sse_drain(self.buffer@).1,
            decreases self.buffer@.len(),
        {
            let ghost buf = self.buffer@;
            let pos = find_char(self.buffer.as_slice(), '\n');
            if pos == self.buffer.len() {
                assert(string_views(out@) + Seq::<Seq<char>>::empty() =~= string_views(out@));
                return out;
            }
            let head = prefix_to(self.buffer.as_slice(), pos);
            let line = trim_chars(head.as_slice());
            let rest = suffix_from(self.buffer.as_slice(), pos + 1);
            self.buffer = rest;
            if starts_with_chars(line.as_slice(), done.as_slice()) {
                assert(string_views(out@) + Seq::<Seq<char>>::empty() =~= string_views(out@));
                return out;
            }
            if starts_with_chars(line.as_slice(), data.as_slice()) {
                proof {
                    reveal_strlit("data: ");
                }
                let payload = suffix_from(line.as_slice(), 6);
                let ghost before = out@;
                out.push(string_from_chars(payload.as_slice()));
                assert(string_views(out@) =~= string_views(before) + seq![payload@]);
                assert(string_views(before) + (seq![payload@] + sse_drain(self.buffer@).1)
                    =~= string_views(out@) + sse_drain(self.buffer@).1);
            }
        }
    }

    /// Append a content delta parsed from an event payload.
    pub fn push_content(&mut self, content: &str)
        ensures
            final(self).content() == old(self).content() + content@,
            final(self).pending() == old(self).pending(),
    {
        let c = chars_of(content);
        append_chars(&mut self.text, c.as_slice());
    }

    /// Take in one event payload, as the caller parsed it: `Ok` with each
    /// choice's content delta (`None` where a choice carries none), or `Err`
    /// when the payload is not a stream chunk. The first choice's content is
    /// appended; an event that did not parse, has no choice or no content is
    /// skipped.
    pub fn push_event(&mut self, parsed: Result<Vec<Option<String>>, String>)
        ensures
            final(self).content() == old(self).content() + event_content(parsed),
            final(self).pending() == old(self).pending(),
    {
        match parsed {
            Ok(choices) => {
                if choices.len() > 0 {
                    match &choices[0] {
                        Some(c) => self.push_content(c.as_str()),
                        None => {
                            assert(old(self).content() + Seq::<char>::empty() =~= old(self).content());
                        },
                    }
                } else {
                    assert(old(self).content() + Seq::<char>::empty() =~= old(self).content());
                }
            },
            Err(_) => {
                assert(old(self).content() + Seq::<char>::empty() =~= old(self).content());
            },
        }
    }

    /// The complete reply: the accumulated content, trimmed.
    pub fn finish(&self) -> (r: String)
        ensures
            r@ == trim(self.content()),
    {
        let t = trim_chars(self.text.as_slice());
        string_from_chars(t.as_slice())
    }
}

/// No complete line of the buffer is a `data: [DONE]` line (so draining it
/// consumes every complete line).
pub open spec fn no_done_line(buf: Seq<char>) -> bool
    decreases buf.len(),
{
    let pos = index_of(buf, '\n');
    if pos >= buf.len() {
        true
    } else {
        proof {
            crate::text::lemma_index_of_from_bounds(buf, '\n', 0);
        }
        !has_prefix(trim(buf.subrange(0, pos)), "data: [DONE]"@) && no_done_line(
            buf.subrange(pos + 1, buf.len() as int),
        )
    }
}

proof fn lemma_index_of_append(x: Seq<char>, y: Seq<char>, c: char, from: int)
    requires
        0 <= from <= x.len(),
        index_of_from(x, c, from) < x.len(),
    ensures
        index_of_from(x + y, c, from) == index_of_from(x, c, from),
    decreases x.len() - from,
{
    if x[from] != c {
        lemma_index_of_append(x, y, c, from + 1);
    }
}

/// Line buffering does not depend on how the stream is cut into chunks:
/// draining the buffer after a first piece and then after the rest yields the
/// same payloads, in the same order, and leaves the same incomplete line, as
/// draining both pieces at once (when the first piece holds no `[DONE]`
/// line, which stops draining).
pub proof fn lemma_sse_chunking(x: Seq<char>, y: Seq<char>)
    requires
        no_done_line(x),
    ensures
        sse_drain(x + y).0 == sse_drain(sse_drain(x).0 + y).0,
        sse_drain(x + y).1 == sse_drain(x).1 + sse_drain(sse_drain(x).0 + y).1,
    decreases x.len(),
{
    let pos = index_of(x, '\n');
    crate::text::lemma_index_of_from_bounds(x, '\n', 0);
    if pos >= x.len() {
        assert(sse_drain(x).1 =~= Seq::<Seq<char>>::empty());
        assert(sse_drain(x).1 + sse_drain(sse_drain(x).0 + y).1 =~= sse_drain(sse_drain(x).0 + y).1);
    } else {
        lemma_index_of_append(x, y, '\n', 0);
        let xy = x + y;
        crate::text::lemma_index_of_from_bounds(xy, '\n', 0);
        assert(index_of(xy, '\n') == pos);
        let rest = x.subrange(pos + 1, x.len() as int);
        assert(xy.subrange(0, pos) =~= x.subrange(0, pos));
        assert(xy.subrange(pos + 1, xy.len() as int) =~= rest + y);
        lemma_sse_chunking(rest, y);
        let line = trim(x.subrange(0, pos));
        let a = sse_drain(rest).1;
        let b = sse_drain(sse_drain(rest).0 + y).1;
        if has_prefix(line, "data: "@) {
            let p = line.subrange(6, line.len() as int);
            assert(seq![p] + (a + b) =~= (seq![p] + a) + b);
        }
    }
}

/// A buffer without a `[DONE]` line keeps that property when text is cut
/// off its end.
proof fn lemma_no_done_prefix(x: Seq<char>, z: Seq<char>)
    requires
        no_done_line(x + z),
    ensures
        no_done_line(x),
    decreases x.len(),
{
    let pos = index_of(x, '\n');
    crate::text::lemma_index_of_from_bounds(x, '\n', 0);
    if pos < x.len() {
        lemma_index_of_append(x, z, '\n', 0);
        let xz = x + z;
        assert(xz.subrange(0, pos) =~= x.subrange(0, pos));
        let rest = x.subrange(pos + 1, x.len() as int);
        assert(xz.subrange(pos + 1, xz.len() as int) =~= rest + z);
        lemma_no_done_prefix(rest, z);
    }
}

/// Draining a buffer without a `[DONE]` line leaves its incomplete last
/// line, and what follows it still holds no `[DONE]` line.
proof fn lemma_no_done_after_drain(x: Seq<char>, z: Seq<char>)
    requires
        no_done_line(x + z),
    ensures
        no_done_line(sse_drain(x).0 + z),
    decreases x.len(),
{
    let pos = index_of(x, '\n');
    crate::text::lemma_index_of_from_bounds(x, '\n', 0);
    if pos < x.len() {
        lemma_index_of_append(x, z, '\n', 0);
        let xz = x + z;
        assert(xz.subrange(0, pos) =~= x.subrange(0, pos));
        let rest = x.subrange(pos + 1, x.len() as int);
        assert(xz.subrange(pos + 1, xz.len() as int) =~= rest + z);
        lemma_no_done_after_drain(rest, z);
    }
}

/// All chunks, concatenated in order.
pub open spec fn concat_chunks(chunks: Seq<Seq<char>>) -> Seq<char>
    decreases chunks.len(),
{
    if chunks.len() == 0 {
        Seq::empty()
    } else {
        chunks[0] + concat_chunks(chunks.drop_first())
    }
}

/// Feeding the decoder the chunks in turn (as characters), starting from
/// the buffer `buf`: what stays buffered, and the payloads, in order.
pub open spec fn drain_chunks(buf: Seq<char>, chunks: Seq<Seq<char>>) -> (Seq<char>, Seq<Seq<char>>)
    decreases chunks.len(),
{
    if chunks.len() == 0 {
        (buf, Seq::empty())
    } else {
        let first = sse_drain(buf + chunks[0]);
        let later = drain_chunks(first.0, chunks.drop_first());
        (later.0, first.1 + later.1)
    }
}

/// Concatenating all chunks but the last one, split off the first chunk.
proof fn lemma_concat_drop_last(chunks: Seq<Seq<char>>)
    requires
        chunks.len() >= 2,
    ensures
        concat_chunks(chunks.drop_last()) == chunks[0] + concat_chunks(chunks.drop_first().drop_last()),
{
    assert(chunks.drop_last().drop_first() =~= chunks.drop_first().drop_last());
}

/// However the reply is cut into chunks, feeding them in turn yields the
/// payloads of the whole reply, in order, and leaves the same incomplete
/// line, provided no `[DONE]` line is complete before the last chunk (a
/// `[DONE]` line ending the reply inside the last chunk is allowed).
pub proof fn lemma_sse_chunks(buf: Seq<char>, chunks: Seq<Seq<char>>)
    requires
        chunks.len() > 0,
        no_done_line(buf + concat_chunks(chunks.drop_last())),
    ensures
        drain_chunks(buf, chunks) == sse_drain(buf + concat_chunks(chunks)),
    decreases chunks.len(),
{
    let c0 = chunks[0];
    let rest = chunks.drop_first();
    if chunks.len() == 1 {
        assert(rest.len() == 0);
        assert(concat_chunks(chunks) =~= c0);
        assert(sse_drain(buf + c0).1 + Seq::<Seq<char>>::empty() =~= sse_drain(buf + c0).1);
        assert(drain_chunks(sse_drain(buf + c0).0, rest) == (
            sse_drain(buf + c0).0,
            Seq::<Seq<char>>::empty(),
        ));
        assert(buf + concat_chunks(chunks) =~= buf + c0);
    } else {
        lemma_concat_drop_last(chunks);
        let tail = concat_chunks(rest.drop_last());
        assert(buf + concat_chunks(chunks.drop_last()) =~= (buf + c0) + tail);
        lemma_no_done_prefix(buf + c0, tail);
        lemma_no_done_after_drain(buf + c0, tail);
        let b1 = sse_drain(buf + c0).0;
        lemma_sse_chunks(b1, rest);
        lemma_sse_chunking(buf + c0, concat_chunks(rest));
        assert(buf + concat_chunks(chunks) =~= (buf + c0) + concat_chunks(rest));
        let whole = sse_drain(buf + concat_chunks(chunks));
        let later = drain_chunks(b1, rest);
        assert(later == sse_drain(b1 + concat_chunks(rest)));
        assert(whole.0 == later.0);
        assert(whole.1 == sse_drain(buf + c0).1 + later.1);
    }
}

/// The bytes of all chunks, concatenated in order.
pub open spec fn concat_bytes(chunks: Seq<Seq<u8>>) -> Seq<u8>
    decreases chunks.len(),
{
    if chunks.len() == 0 {
        Seq::empty()
    } else {
        chunks[0] + concat_bytes(chunks.drop_first())
    }
}

/// The text of each chunk, decoded as UTF-8.
pub open spec fn decode_chunks(chunks: Seq<Seq<u8>>) -> Seq<Seq<char>> {
    chunks.map_values(|c: Seq<u8>| decode_utf8(c))
}

/// Chunks that are each valid UTF-8 make valid UTF-8 together, and decode
/// to their texts one after the other.
proof fn lemma_decode_concat_chunks(chunks: Seq<Seq<u8>>)
    requires
        forall|i: int| 0 <= i < chunks.len() ==> valid_utf8(#[trigger] chunks[i]),
    ensures
        valid_utf8(concat_bytes(chunks)),
        decode_utf8(concat_bytes(chunks)) == concat_chunks(decode_chunks(chunks)),
    decreases chunks.len(),
{
    if chunks.len() == 0 {
        assert(decode_utf8(concat_bytes(chunks)) =~= Seq::<char>::empty());
    } else {
        let rest = chunks.drop_first();
        assert(forall|i: int| 0 <= i < rest.len() ==> rest[i] == chunks[i + 1]);
        lemma_decode_concat_chunks(rest);
        assert(valid_utf8(chunks[0]));
        lemma_decode_utf8_concat(chunks[0], concat_bytes(rest));
        assert(decode_chunks(chunks).drop_first() =~= decode_chunks(rest));
    }
}

/// However the reply's bytes are cut into chunks at character boundaries
/// (so that every chunk is valid UTF-8), feeding the chunks in turn yields
/// the payloads of the whole reply, in order, and leaves the same incomplete
/// line, provided no `[DONE]` line is complete before the last chunk.
/// (`feed` of a valid UTF-8 chunk drains exactly the chunk's decoded text.)
pub proof fn lemma_sse_byte_chunks(buf: Seq<char>, chunks: Seq<Seq<u8>>)
    requires
        chunks.len() > 0,
        forall|i: int| 0 <= i < chunks.len() ==> valid_utf8(#[trigger] chunks[i]),
        no_done_line(buf + decode_utf8(concat_bytes(chunks.drop_last()))),
    ensures
        valid_utf8(concat_bytes(chunks)),
        drain_chunks(buf, decode_chunks(chunks)) == sse_drain(buf + decode_utf8(concat_bytes(chunks))),
{
    let front = chunks.drop_last();
    assert(forall|i: int| 0 <= i < front.len() ==> front[i] == chunks[i]);
    lemma_decode_concat_chunks(front);
    lemma_decode_concat_chunks(chunks);
    assert(decode_chunks(chunks).drop_last() =~= decode_chunks(front));
    lemma_sse_chunks(buf, decode_chunks(chunks));
}

/// The error of an LLM request that the service answered with an HTTP error:
/// `ApiError("HTTP <status>: <body>")`.
pub fn llm_http_error(status: &str, body: &str) -> (r: LlmError)
    ensures
        r matches LlmError::ApiError(m) && m@ == "HTTP "@ + status@ + ": "@ + body@,
{
    LlmError::ApiError(String::from_str("HTTP ").concat(status).concat(": ").concat(body))
}

} // verus!
