//! The transcription engines: Groq's hosted Whisper and the local Moonshine
//! worker. The network and process I/O is the caller's; this module builds
//! the requests and reads the answers.

use vstd::prelude::*;
use base64::Engine;
use crate::text::{concat, concat3, contains, contains_str, owned, str_eq, trim, trim_str};

verus! {

/// A symbol of the standard base64 alphabet (RFC 4648).
pub open spec fn b64_symbol(v: int) -> char {
    if v < 26 {
        (65 + v) as char
    } else if v < 52 {
        (97 + v - 26) as char
    } else if v < 62 {
        (48 + v - 52) as char
    } else if v == 62 {
        '+'
    } else {
        '/'
    }
}

/// Standard base64 with padding (RFC 4648, section 4): every three bytes
/// become four symbols, and a last group of one or two bytes is padded
/// with `=`.
pub open spec fn base64_standard(b: Seq<u8>) -> Seq<char>
    decreases b.len(),
{
    let x = if b.len() > 0 {
        b[0] as int
    } else {
        0
    };
    let y = if b.len() > 1 {
        b[1] as int
    } else {
        0
    };
    let z = if b.len() > 2 {
        b[2] as int
    } else {
        0
    };
    if b.len() == 0 {
        seq![]
    } else if b.len() == 1 {
        seq![b64_symbol(x / 4), b64_symbol((x % 4) * 16), '=', '=']
    } else if b.len() == 2 {
        seq![b64_symbol(x / 4), b64_symbol((x % 4) * 16 + y / 16), b64_symbol((y % 16) * 4), '=']
    } else {
        seq![
            b64_symbol(x / 4),
            b64_symbol((x % 4) * 16 + y / 16),
            b64_symbol((y % 16) * 4 + z / 64),
            b64_symbol(z % 64),
        ] + base64_standard(b.subrange(3, b.len() as int))
    }
}

/// Calls `base64::engine::general_purpose::STANDARD.encode`: the crate
/// documents it as the RFC 4648 standard alphabet with padding.
#[verifier::external_body]
fn encode_base64(bytes: &[u8]) -> (r: String)
    ensures
        r@ == base64_standard(bytes@),
{
    base64::engine::general_purpose::STANDARD.encode(bytes)
}

/// The Groq engine: its API key and model.
pub struct GroqEngine {
    api_key: String,
    model: String,
}

/// The multipart upload to Groq's transcription endpoint: the WAV file, the
/// model, and JSON as the answer's format. No language is given, so Whisper
/// detects it.
pub struct GroqRequest {
    pub url: String,
    pub authorization: String,
    pub file_name: String,
    pub mime_type: String,
    pub model: String,
    pub response_format: String,
}

impl GroqEngine {
    /// The key this engine uses.
    pub closed spec fn key_view(&self) -> Seq<char> {
        self.api_key@
    }

    /// The model this engine uses.
    pub closed spec fn model_view(&self) -> Seq<char> {
        self.model@
    }

    /// An engine with the given key and model.
    pub fn new(api_key: String, model: String) -> (r: Self)
        ensures
            r.key_view() == api_key@,
            r.model_view() == model@,
    {
        GroqEngine { api_key, model }
    }

    /// The engine's name.
    pub fn name(&self) -> (r: String)
        ensures
            r@ == "Groq Whisper Turbo"@,
    {
        owned("Groq Whisper Turbo")
    }

    /// The upload for a recording: refused when the key is empty.
    pub fn transcribe(&self) -> (r: Result<GroqRequest, String>)
        ensures
            self.key_view().len() == 0 ==> (r matches Err(m) && m@
                == "Groq API key is missing. Set it with 'hadyx set-key <KEY>' or GROQ_API_KEY environment variable."@),
            self.key_view().len() != 0 ==> (r matches Ok(q) && q.url@
                == "https://api.groq.com/openai/v1/audio/transcriptions"@ && q.authorization@
                == "Bearer "@ + self.key_view() && q.file_name@ == "audio.wav"@ && q.mime_type@
                == "audio/wav"@ && q.model@ == self.model_view() && q.response_format@
                == "json"@),
    {
        if self.api_key.unicode_len() == 0 {
            return Err(
                owned(
                    "Groq API key is missing. Set it with 'hadyx set-key <KEY>' or GROQ_API_KEY environment variable.",
                ),
            );
        }
        Ok(
            GroqRequest {
                url: owned("https://api.groq.com/openai/v1/audio/transcriptions"),
                authorization: concat("Bearer ", self.api_key.as_str()),
                file_name: owned("audio.wav"),
                mime_type: owned("audio/wav"),
                model: owned(self.model.as_str()),
                response_format: owned("json"),
            },
        )
    }

    /// The error for an answer that is not a success, given the status as
    /// printed and the body.
    pub fn api_error(status: &str, body: &str) -> (r: String)
        ensures
            r@ == "Groq API error "@ + status@ + ": "@ + body@,
    {
        let a = concat3("Groq API error ", status, ": ");
        concat(a.as_str(), body)
    }

    /// The transcript in a successful answer: its `text`, trimmed.
    pub fn transcript(text: &str) -> (r: String)
        ensures
            r@ == trim(text@),
    {
        trim_str(text)
    }
}

/// The Moonshine engine for one language (`en` or `es`).
pub struct MoonshineEngine {
    language: String,
}

/// One request line to the Moonshine worker: the recording in base64 and the
/// language.
pub struct TranscribeRequest {
    pub audio_b64: String,
    pub language: String,
}

/// The Python interpreter of the project's virtual environment.
pub open spec fn venv_python() -> Seq<char> {
    "/home/jmendez/ramses/tmp/hadyX/.venv/bin/python3"@
}

/// The worker script.
pub open spec fn worker_script() -> Seq<char> {
    "/home/jmendez/ramses/tmp/hadyX/scripts/moonshine_worker.py"@
}

impl MoonshineEngine {
    /// The language this engine transcribes.
    pub closed spec fn language_view(&self) -> Seq<char> {
        self.language@
    }

    /// An engine for the given language.
    pub fn new(language: String) -> (r: Self)
        ensures
            r.language_view() == language@,
    {
        MoonshineEngine { language }
    }

    /// The engine's name: Spanish for `es`, English otherwise.
    pub fn name(&self) -> (r: String)
        ensures
            r@ == if self.language_view() == "es"@ {
                "Moonshine Base (Español)"@
            } else {
                "Moonshine Base (English)"@
            },
    {
        if str_eq(self.language.as_str(), "es") {
            owned("Moonshine Base (Español)")
        } else {
            owned("Moonshine Base (English)")
        }
    }

    /// The program and script that start the worker: the virtual
    /// environment's Python when it exists, else `python3` from the path.
    pub fn worker_command(venv_python_exists: bool) -> (r: (String, String))
        ensures
            r.0@ == if venv_python_exists {
                venv_python()
            } else {
                "python3"@
            },
            r.1@ == worker_script(),
    {
        let python = if venv_python_exists {
            owned("/home/jmendez/ramses/tmp/hadyX/.venv/bin/python3")
        } else {
            owned("python3")
        };
        (python, owned("/home/jmendez/ramses/tmp/hadyX/scripts/moonshine_worker.py"))
    }

    /// The worker is ready when its first line says `READY`.
    pub fn worker_ready(line: &str) -> (r: Result<(), String>)
        ensures
            contains(line@, "READY"@) ==> r is Ok,
            !contains(line@, "READY"@) ==> (r matches Err(m) && m@
                == "Unexpected worker init response: "@ + line@),
    {
        if contains_str(line, "READY") {
            Ok(())
        } else {
            Err(concat("Unexpected worker init response: ", line))
        }
    }

    /// The request for a recording: the WAV bytes in standard base64 and
    /// this engine's language.
    pub fn transcribe(&self, wav_bytes: &[u8]) -> (r: TranscribeRequest)
        ensures
            r.audio_b64@ == base64_standard(wav_bytes@),
            r.language@ == self.language_view(),
    {
        TranscribeRequest { audio_b64: encode_base64(wav_bytes), language: owned(self.language.as_str()) }
    }

    /// The worker's answer: the trimmed text (empty when absent) when the
    /// status is `ok`, else its error (a fixed message when absent).
    pub fn transcript(status: &str, text: Option<&str>, error: Option<&str>) -> (r: Result<
        String,
        String,
    >)
        ensures
            status@ == "ok"@ ==> (r matches Ok(t) && t@ == match text {
                Some(x) => trim(x@),
                None => Seq::empty(),
            }),
            status@ != "ok"@ ==> (r matches Err(e) && e@ == match error {
                Some(x) => x@,
                None => "Unknown Moonshine error"@,
            }),
    {
        if str_eq(status, "ok") {
            match text {
                Some(x) => Ok(trim_str(x)),
                None => Ok(String::new()),
            }
        } else {
            match error {
                Some(x) => Err(owned(x)),
                None => Err(owned("Unknown Moonshine error")),
            }
        }
    }
}

} // verus!
