//! Speech recognition through Alibaba Cloud Paraformer (DashScope): the
//! request that is sent for a WAV recording and how the service's reply
//! becomes the transcribed text or an error. Sending the request is left to
//! the caller.

use vstd::prelude::*;
use crate::text::{string_from_chars, chars_of, append_chars};

verus! {

/// Alibaba Cloud Paraformer ASR API endpoint.
pub const DASHSCOPE_ASR_URL: &'static str = "https://dashscope.aliyuncs.com/api/v1/services/audio/asr/transcription";

/// The character of the standard base64 alphabet for a value in `0..64`.
pub open spec fn b64_char(v: int) -> char {
    if v < 26 {
        (65 + v) as char
    } else if v < 52 {
        (97 + v - 26) as char
    } else if v < 62 {
        (48 + v - 52) as char
    } else if v == 62 {
        '+'
    } else {
        '/'
    }
}

/// Standard base64 (RFC 4648 alphabet, `=` padding) of a byte sequence.
pub open spec fn base64_std(b: Seq<u8>) -> Seq<char>
    decreases b.len(),
{
    if b.len() == 0 {
        Seq::empty()
    } else {
        let x = b[0] as int;
        if b.len() == 1 {
            seq![b64_char(x / 4), b64_char((x % 4) * 16), '=', '=']
        } else {
            let y = b[1] as int;
            if b.len() == 2 {
                seq![b64_char(x / 4), b64_char((x % 4) * 16 + y / 16), b64_char((y % 16) * 4), '=']
            } else {
                let z = b[2] as int;
                seq![
                    b64_char(x / 4),
                    b64_char((x % 4) * 16 + y / 16),
                    b64_char((y % 16) * 4 + z / 64),
                    b64_char(z % 64),
                ] + base64_std(b.subrange(3, b.len() as int))
            }
        }
    }
}

/// Trusted: `base64::engine::general_purpose::STANDARD.encode`. Claims that
/// the result is the standard-alphabet, padded base64 encoding of the bytes
/// (the crate's `STANDARD` engine: RFC 4648 alphabet with `PAD`). The
/// `requires` keeps the encoded length within `usize`, where the crate would
/// panic.
#[verifier::external_body]
fn base64_encode(data: &[u8]) -> (r: String)
    requires
        data@.len() <= usize::MAX / 2,
    ensures
        r@ == base64_std(data@),
{
    base64::Engine::encode(&base64::engine::general_purpose::STANDARD, data)
}

/// Errors that can occur during speech recognition.
#[derive(Debug)]
pub enum AsrError {
    /// Empty audio data provided.
    EmptyAudio,
    /// Network error.
    NetworkError(String),
    /// The service answered with an HTTP error.
    ApiError(String),
    /// The service's answer could not be parsed.
    ParseError(String),
    /// The service recognised no text.
    EmptyResult,
}

/// The user-facing message of a recognition error.
pub open spec fn asr_error_message(e: AsrError) -> Seq<char> {
    match e {
        AsrError::EmptyAudio => "Empty audio data provided"@,
        AsrError::NetworkError(m) => "Network error: "@ + m@,
        AsrError::ApiError(m) => "API error: "@ + m@,
        AsrError::ParseError(m) => "Failed to parse API response: "@ + m@,
        AsrError::EmptyResult => "ASR returned empty result"@,
    }
}

impl AsrError {
    /// The user-facing message of the error.
    pub fn message(&self) -> (r: String)
        ensures
            r@ == asr_error_message(*self),
    {
        match self {
            AsrError::EmptyAudio => String::from_str("Empty audio data provided"),
            AsrError::NetworkError(m) => String::from_str("Network error: ").concat(m.as_str()),
            AsrError::ApiError(m) => String::from_str("API error: ").concat(m.as_str()),
            AsrError::ParseError(m) => String::from_str("Failed to parse API response: ").concat(
                m.as_str(),
            ),
            AsrError::EmptyResult => String::from_str("ASR returned empty result"),
        }
    }
}

/// The request for one recognition: where it goes, its `Authorization`
/// header, and the fields of its JSON body (`model`, and `input` with
/// `audio`, `format`, `sample_rate`).
#[derive(Debug)]
pub struct AsrRequest {
    pub url: String,
    pub authorization: String,
    pub model: String,
    pub audio: String,
    pub format: String,
    pub sample_rate: u32,
}

/// Client for Alibaba Cloud's Paraformer speech recognition service.
#[derive(Clone)]
pub struct AsrClient {
    api_key: String,
}

/// `"Bearer "` followed by the key.
pub open spec fn bearer(api_key: Seq<char>) -> Seq<char> {
    "Bearer "@ + api_key
}

impl AsrClient {
    /// The key the client was created with.
    pub closed spec fn key(&self) -> Seq<char> {
        self.api_key@
    }

    /// Create a new ASR client with the given DashScope API key.
    pub fn new(api_key: String) -> (r: Self)
        ensures
            r.key() == api_key@,
    {
        AsrClient { api_key }
    }

    /// The DashScope API key.
    pub fn api_key(&self) -> (r: &str)
        ensures
            r@ == self.key(),
    {
        self.api_key.as_str()
    }

    /// The request that recognises `wav_data`: `EmptyAudio` for no audio;
    /// otherwise a POST to the Paraformer endpoint with the bearer key and a
    /// body naming model `paraformer-realtime-v2`, format `wav`, rate 16000
    /// and the base64 of the audio.
    pub fn prepare_request(&self, wav_data: &[u8]) -> (r: Result<AsrRequest, AsrError>)
        requires
            wav_data@.len() <= usize::MAX / 2,
        ensures
            wav_data@.len() == 0 ==> r matches Err(AsrError::EmptyAudio),
            wav_data@.len() > 0 ==> (r matches Ok(q) && {
                &&& q.url@ == DASHSCOPE_ASR_URL@
                &&& q.authorization@ == bearer(self.key())
                &&& q.model@ == "paraformer-realtime-v2"@
                &&& q.audio@ == base64_std(wav_data@)
                &&& q.format@ == "wav"@
                &&& q.sample_rate == 16000
            }),
    {
        if wav_data.len() == 0 {
            return Err(AsrError::EmptyAudio);
        }
        let audio = base64_encode(wav_data);
        Ok(
            AsrRequest {
                url: String::from_str(DASHSCOPE_ASR_URL),
                authorization: String::from_str("Bearer ").concat(self.api_key.as_str()),
                model: String::from_str("paraformer-realtime-v2"),
                audio,
                format: String::from_str("wav"),
                sample_rate: 16000,
            },
        )
    }
}

/// All strings, concatenated in order.
pub open spec fn concat_strings(v: Seq<Seq<char>>) -> Seq<char>
    decreases v.len(),
{
    if v.len() == 0 {
        Seq::empty()
    } else {
        concat_strings(v.drop_last()) + v.last()
    }
}

/// The transcribed text of the sentences the service returned (none when the
/// reply has no output or no sentence list).
pub open spec fn transcript(sentences: Option<Seq<Seq<char>>>) -> Seq<char> {
    match sentences {
        Some(v) => concat_strings(v),
        None => Seq::empty(),
    }
}

/// Concatenate the sentences' texts.
pub fn join_sentences(sentences: &[String]) -> (r: String)
    ensures
        r@ == concat_strings(sentences@.map_values(|s: String| s@)),
{
    let ghost views = sentences@.map_values(|s: String| s@);
    let mut out: Vec<char> = Vec::new();
    let mut i: usize = 0;
    while i < sentences.len()
        invariant
            i <= sentences@.len(),
            views == sentences@.map_values(|s: String| s@),
            out@ == concat_strings(views.subrange(0, i as int)),
        decreases sentences@.len() - i,
    {
        let c = chars_of(sentences[i].as_str());
        append_chars(&mut out, c.as_slice());
        assert(views.subrange(0, i + 1).drop_last() =~= views.subrange(0, i as int));
        i = i + 1;
    }
    assert(views.subrange(0, sentences@.len() as int) =~= views);
    string_from_chars(out.as_slice())
}

/// The view of parsed sentences.
pub open spec fn parsed_view(p: Result<Option<Vec<String>>, String>) -> Result<Option<Seq<Seq<char>>>, Seq<char>> {
    match p {
        Ok(Some(v)) => Ok(Some(v@.map_values(|s: String| s@))),
        Ok(None) => Ok(None),
        Err(e) => Err(e@),
    }
}

/// The outcome of a recognition request, from what came back.
///
/// An HTTP error status gives `ApiError("HTTP <status>: <body>")`; otherwise
/// a body that did not parse gives `ParseError("Failed to parse response:
/// <why>, body: <body>")`; otherwise the sentences' texts, concatenated, or
/// `EmptyResult` when that text is empty. `parsed` is the body read as a
/// recognition reply: `Ok(None)` when it has no output or no sentence list,
/// `Err(why)` when it is not such a reply (it is not looked at when the
/// status is an error).
pub fn interpret_response(
    status_success: bool,
    status: &str,
    body: &str,
    parsed: Result<Option<Vec<String>>, String>,
) -> (r: Result<String, AsrError>)
    ensures
        !status_success ==> (r matches Err(AsrError::ApiError(m)) && m@ == "HTTP "@ + status@ + ": "@
            + body@),
        status_success && parsed is Err ==> (r matches Err(AsrError::ParseError(m)) && m@
            == "Failed to parse response: "@ + parsed->Err_0@ + ", body: "@ + body@),
        status_success && parsed is Ok && transcript(parsed_view(parsed)->Ok_0).len() == 0 ==> r matches Err(
            AsrError::EmptyResult,
        ),
        status_success && parsed is Ok && transcript(parsed_view(parsed)->Ok_0).len() > 0 ==> (r matches Ok(t)
            && t@ == transcript(parsed_view(parsed)->Ok_0)),
{
    if !status_success {
        let m = String::from_str("HTTP ").concat(status).concat(": ").concat(body);
        return Err(AsrError::ApiError(m));
    }
    match parsed {
        Err(why) => {
            let m = String::from_str("Failed to parse response: ").concat(why.as_str()).concat(
                ", body: ",
            ).concat(body);
            Err(AsrError::ParseError(m))
        },
        Ok(None) => Err(AsrError::EmptyResult),
        Ok(Some(sentences)) => {
            let text = join_sentences(sentences.as_slice());
            if text.as_str().is_empty() {
                Err(AsrError::EmptyResult)
            } else {
                Ok(text)
            }
        },
    }
}

/// The transcript keeps every sentence, in order: concatenating two lists of
/// sentences concatenates their transcripts, and one sentence is its own
/// transcript.
pub proof fn lemma_concat_strings_append(a: Seq<Seq<char>>, b: Seq<Seq<char>>)
    ensures
        concat_strings(a + b) == concat_strings(a) + concat_strings(b),
    decreases b.len(),
{
    if b.len() == 0 {
        assert(a + b =~= a);
        assert(concat_strings(a) + Seq::<char>::empty() =~= concat_strings(a));
    } else {
        assert((a + b).drop_last() =~= a + b.drop_last());
        assert((a + b).last() == b.last());
        lemma_concat_strings_append(a, b.drop_last());
        assert(concat_strings(a) + concat_strings(b.drop_last()) + b.last() =~= concat_strings(a) + (
        concat_strings(b.drop_last()) + b.last()));
    }
}

/// One sentence is its own transcript, and the transcript is as long as all
/// the sentences together.
pub proof fn lemma_concat_strings_single_and_len(x: Seq<char>, v: Seq<Seq<char>>, w: Seq<char>)
    ensures
        concat_strings(seq![x]) == x,
        concat_strings(v.push(w)).len() == concat_strings(v).len() + w.len(),
        concat_strings(v.push(w)).subrange(0, concat_strings(v).len() as int) == concat_strings(v),
        concat_strings(v.push(w)).subrange(
            concat_strings(v).len() as int,
            concat_strings(v.push(w)).len() as int,
        ) == w,
{
    assert(concat_strings(Seq::<Seq<char>>::empty()) == Seq::<char>::empty());
    assert(seq![x].drop_last() =~= Seq::<Seq<char>>::empty());
    assert(seq![x].last() == x);
    assert(Seq::<char>::empty() + x =~= x);
    lemma_concat_strings_append(v, seq![w]);
    assert(concat_strings(seq![w]) == w) by {
        assert(concat_strings(Seq::<Seq<char>>::empty()) == Seq::<char>::empty());
        assert(seq![w].drop_last() =~= Seq::<Seq<char>>::empty());
        assert(seq![w].last() == w);
        assert(Seq::<char>::empty() + w =~= w);
    }
    assert(v + seq![w] =~= v.push(w));
    let c = concat_strings(v.push(w));
    assert(c.subrange(0, concat_strings(v).len() as int) =~= concat_strings(v));
    assert(c.subrange(concat_strings(v).len() as int, c.len() as int) =~= w);
}

/// The audio's base64 text is four characters per started group of three
/// bytes.
pub proof fn lemma_base64_len(b: Seq<u8>)
    ensures
        base64_std(b).len() == 4 * ((b.len() + 2) / 3),
    decreases b.len(),
{
    if b.len() >= 3 {
        lemma_base64_len(b.subrange(3, b.len() as int));
    }
}

} // verus!
