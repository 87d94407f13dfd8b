use handyx::engines::{GroqEngine, MoonshineEngine};
use handyx::polish::OpenRouterPolisher;

#[test]
fn groq_request() {
    let e = GroqEngine::new("gsk_1".to_string(), "whisper-large-v3-turbo".to_string());
    assert_eq!(e.name(), "Groq Whisper Turbo");
    let q = e.transcribe().unwrap();
    assert_eq!(q.url, "https://api.groq.com/openai/v1/audio/transcriptions");
    assert_eq!(q.authorization, "Bearer gsk_1");
    assert_eq!(q.file_name, "audio.wav");
    assert_eq!(q.mime_type, "audio/wav");
    assert_eq!(q.model, "whisper-large-v3-turbo");
    assert_eq!(q.response_format, "json");
}

#[test]
fn groq_without_key_fails() {
    let e = GroqEngine::new(String::new(), "m".to_string());
    assert_eq!(
        e.transcribe().err().unwrap(),
        "Groq API key is missing. Set it with 'hadyx set-key <KEY>' or GROQ_API_KEY environment variable."
    );
}

#[test]
fn groq_answers() {
    assert_eq!(GroqEngine::api_error("401 Unauthorized", "bad key"), "Groq API error 401 Unauthorized: bad key");
    assert_eq!(GroqEngine::transcript("  Hola mundo \n"), "Hola mundo");
}

#[test]
fn moonshine_names_and_worker() {
    assert_eq!(MoonshineEngine::new("es".to_string()).name(), "Moonshine Base (Español)");
    assert_eq!(MoonshineEngine::new("en".to_string()).name(), "Moonshine Base (English)");
    let (py, script) = MoonshineEngine::worker_command(false);
    assert_eq!(py, "python3");
    assert!(script.ends_with("scripts/moonshine_worker.py"));
    assert!(MoonshineEngine::worker_command(true).0.ends_with(".venv/bin/python3"));
    assert!(MoonshineEngine::worker_ready("READY\n").is_ok());
    assert_eq!(
        MoonshineEngine::worker_ready("Traceback").unwrap_err(),
        "Unexpected worker init response: Traceback"
    );
}

#[test]
fn moonshine_request_is_base64() {
    let e = MoonshineEngine::new("en".to_string());
    assert_eq!(e.transcribe(b"Man").audio_b64, "TWFu");
    assert_eq!(e.transcribe(b"Ma").audio_b64, "TWE=");
    assert_eq!(e.transcribe(b"M").audio_b64, "TQ==");
    assert_eq!(e.transcribe(b"").audio_b64, "");
    assert_eq!(e.transcribe(&[0xfb, 0xff]).audio_b64, "+/8=");
    assert_eq!(e.transcribe(b"RIFF").language, "en");
}

#[test]
fn moonshine_answers() {
    assert_eq!(MoonshineEngine::transcript("ok", Some(" hola "), None), Ok("hola".to_string()));
    assert_eq!(MoonshineEngine::transcript("ok", None, None), Ok(String::new()));
    assert_eq!(MoonshineEngine::transcript("error", None, Some("oom")), Err("oom".to_string()));
    assert_eq!(
        MoonshineEngine::transcript("error", None, None),
        Err("Unknown Moonshine error".to_string())
    );
}

#[test]
fn polish_request() {
    let p = OpenRouterPolisher::new("sk-or-1".to_string(), "openai/gpt-5.6-luna".to_string());
    let q = p.polish("hola este mundo").unwrap();
    assert_eq!(q.url, "https://openrouter.ai/api/v1/chat/completions");
    assert_eq!(q.authorization, "Bearer sk-or-1");
    assert_eq!(q.referer, "https://github.com/jmendez/hadyx");
    assert_eq!(q.title, "HadyX Dictation");
    assert_eq!(q.model, "openai/gpt-5.6-luna");
    assert_eq!(q.user_content, "hola este mundo");
    assert_eq!(q.max_tokens, 1024);
    assert!(q.system_prompt.starts_with("You are a fast, high-precision speech-to-text post-processor."));
}

#[test]
fn polish_without_key_fails() {
    let p = OpenRouterPolisher::new("   ".to_string(), "m".to_string());
    assert_eq!(
        p.polish("x").err().unwrap(),
        "OpenRouter API key is missing. Set it with 'hadyx set-openrouter-key <KEY>' or OPENROUTER_API_KEY environment variable."
    );
}

#[test]
fn polished_answers() {
    assert_eq!(OpenRouterPolisher::polished_text("raw", Some("  Polished. ")), "Polished.");
    assert_eq!(OpenRouterPolisher::polished_text("raw", Some("   ")), "raw");
    assert_eq!(OpenRouterPolisher::polished_text("raw", None), "raw");
    assert_eq!(OpenRouterPolisher::api_error("500", "oops"), "OpenRouter API error 500: oops");
}
