use handyx::vocabulary::{
    apply_map, build_map, eq_ignore_ascii_case_exec, find_bytes, replace_round, Round, VocabItem,
    VocabularyData, VocabularyManager,
};

fn item(original: &str, corrected: &str) -> VocabItem {
    VocabItem {
        original: original.to_string(),
        corrected: corrected.to_string(),
        timestamp: "2024-01-01T00:00:00+00:00".to_string(),
    }
}

fn data(pairs: &[(&str, &str)]) -> Option<VocabularyData> {
    Some(VocabularyData { items: pairs.iter().map(|(o, c)| item(o, c)).collect() })
}

fn manager() -> VocabularyManager {
    VocabularyManager::new(Some("/home/ana"))
}

#[test]
fn vocabulary_file_lives_under_config_dir() {
    assert_eq!(manager().path(), "/home/ana/.config/handyx/vocabulary.json");
    assert_eq!(VocabularyManager::new(None).path(), "./.config/handyx/vocabulary.json");
}

#[test]
fn apply_replaces_whole_words_ignoring_case() {
    let m = manager();
    let d = data(&[("gpt", "GPT")]);
    assert_eq!(m.apply(&d, "use gpt now").unwrap(), "use GPT now");
    assert_eq!(m.apply(&d, "Gpt rocks").unwrap(), "GPT rocks");
    assert_eq!(m.apply(&d, "gpt, gpt and gpt").unwrap(), "GPT, GPT and GPT");
}

#[test]
fn apply_respects_word_boundaries() {
    let m = manager();
    let d = data(&[("gpt", "GPT")]);
    assert_eq!(m.apply(&d, "gpts and gpt").unwrap(), "gpts and GPT");
    assert_eq!(m.apply(&d, "chatgpt").unwrap(), "chatgpt");
    assert_eq!(m.apply(&d, "gpt4").unwrap(), "gpt4");
    assert_eq!(m.apply(&d, "(gpt)").unwrap(), "(GPT)");
}

#[test]
fn apply_handles_accented_words() {
    let m = manager();
    let d = data(&[("méxico", "México")]);
    assert_eq!(m.apply(&d, "Vivo en MÉXICO.").unwrap(), "Vivo en México.");
    assert_eq!(m.apply(&d, "vivo en méxico").unwrap(), "vivo en México");
}

#[test]
fn apply_with_empty_table_keeps_text() {
    let m = manager();
    assert_eq!(m.apply(&None, "nada cambia").unwrap(), "nada cambia");
    assert_eq!(m.apply(&data(&[]), "nada cambia").unwrap(), "nada cambia");
    assert_eq!(m.apply(&data(&[("gpt", "GPT")]), "").unwrap(), "");
}

#[test]
fn apply_uses_several_words() {
    let m = manager();
    let d = data(&[("handy x", "HandyX"), ("groq", "Groq")]);
    assert_eq!(m.apply(&d, "handy x usa groq").unwrap(), "HandyX usa Groq");
}

#[test]
fn load_map_lowercases_and_last_item_wins() {
    let m = manager();
    let map = m.load_map(&data(&[("Hola", "hola!"), ("GPT", "GPT"), ("hola", "¡Hola!")]));
    assert_eq!(map.entries.len(), 2);
    assert_eq!(map.entries[0], ("hola".to_string(), "¡Hola!".to_string()));
    assert_eq!(map.entries[1], ("gpt".to_string(), "GPT".to_string()));
    assert!(m.load_map(&None).entries.is_empty());
}

#[test]
fn build_map_then_apply_map() {
    let map = build_map(&vec![item("Verus", "Verus"), item("rust", "Rust")]);
    assert_eq!(map.entries[0].0, "verus");
    assert_eq!(apply_map(&map, "VERUS checks rust code").unwrap(), "Verus checks Rust code");
}

#[test]
fn learn_appends_trimmed_item() {
    let m = manager();
    let d = m.learn(None, "  gpt ", " GPT\n", "t1".to_string()).unwrap();
    assert_eq!(d.items.len(), 1);
    assert_eq!(d.items[0].original, "gpt");
    assert_eq!(d.items[0].corrected, "GPT");
    assert_eq!(d.items[0].timestamp, "t1");
}

#[test]
fn learn_replaces_same_word_up_to_ascii_case() {
    let m = manager();
    let before = data(&[("GPT", "Gpt"), ("groq", "Groq")]);
    let d = m.learn(before, "gpt", "GPT", "t2".to_string()).unwrap();
    assert_eq!(d.items.len(), 2);
    assert_eq!(d.items[0].original, "groq");
    assert_eq!(d.items[1].original, "gpt");
    assert_eq!(d.items[1].corrected, "GPT");
    assert_eq!(m.apply(&Some(d), "gpt y groq").unwrap(), "GPT y Groq");
}

#[test]
fn learn_ignores_blank_words() {
    let m = manager();
    assert!(m.learn(None, "   ", "GPT", "t".to_string()).is_none());
    assert!(m.learn(data(&[("a", "b")]), "gpt", "", "t".to_string()).is_none());
}

#[test]
fn list_and_clear() {
    let m = manager();
    assert_eq!(m.list_items(data(&[("a", "b"), ("c", "d")])).len(), 2);
    assert!(m.list_items(None).is_empty());
    assert!(m.clear().items.is_empty());
}

#[test]
fn byte_search_and_ascii_case() {
    assert_eq!(find_bytes(b"hello world", b"world"), Some(6));
    assert_eq!(find_bytes(b"hello", b"xyz"), None);
    assert_eq!(find_bytes(b"abc", b""), Some(0));
    assert!(eq_ignore_ascii_case_exec("GpT", "gPt"));
    assert!(!eq_ignore_ascii_case_exec("gpt", "gpts"));
    assert!(!eq_ignore_ascii_case_exec("É", "é"));
}

#[test]
fn apply_has_no_result_where_the_search_cannot_finish() {
    let m = manager();
    // An empty word matches everywhere: the search only ends on empty text.
    assert_eq!(m.apply(&data(&[("", "x")]), "ab"), None);
    assert_eq!(m.apply(&data(&[("", "x")]), "").unwrap(), "x");
    // Lower-casing `İ` takes one byte more, so the match lies past the end of the text.
    assert_eq!(m.apply(&data(&[("x", "y")]), "İ x"), None);
}

fn round(result: &str, idx: usize, lowered: &str, key: &str, corr: &str) -> Option<(String, Option<usize>)> {
    use_round(replace_round(result.as_bytes().to_vec(), idx, lowered.as_bytes(), key.as_bytes(), corr.as_bytes()))
}

fn use_round(r: Round) -> Option<(String, Option<usize>)> {
    match r {
        Round::Stuck => None,
        Round::Done(v) => Some((String::from_utf8(v).unwrap(), None)),
        Round::Next(v, i) => Some((String::from_utf8(v).unwrap(), Some(i))),
    }
}

#[test]
fn one_round_of_the_search() {
    assert_eq!(
        round("use gpt now", 0, "use gpt now", "gpt", "GPT"),
        Some(("use GPT now".to_string(), Some(7)))
    );
    assert_eq!(round("a gpt", 0, "a gpt", "gpt", "GPT"), Some(("a GPT".to_string(), None)));
    assert_eq!(round("gpts x", 0, "gpts x", "gpt", "GPT"), Some(("gpts x".to_string(), Some(3))));
    assert_eq!(round("gpts", 0, "gpts", "gpt", "GPT"), Some(("gpts".to_string(), Some(3))));
    assert_eq!(round("xgpt", 0, "xgpt", "gpt", "GPT"), Some(("xgpt".to_string(), None)));
    assert_eq!(round("hola", 0, "hola", "gpt", "GPT"), Some(("hola".to_string(), None)));
    assert_eq!(round("Gpt y gpt", 4, "y gpt", "gpt", "GPT"), Some(("Gpt y GPT".to_string(), None)));
    assert_eq!(round("İ x", 0, "i\u{307} x", "x", "y"), None);
}

#[test]
fn map_insert_replaces_in_place() {
    let mut map = build_map(&vec![item("a", "1"), item("b", "2")]);
    map.insert("a".to_string(), "3".to_string());
    map.insert("c".to_string(), "4".to_string());
    let keys: Vec<(String, String)> = map.entries.clone();
    assert_eq!(
        keys,
        vec![
            ("a".to_string(), "3".to_string()),
            ("b".to_string(), "2".to_string()),
            ("c".to_string(), "4".to_string())
        ]
    );
}

#[test]
fn learned_word_is_corrected() {
    let m = manager();
    let d = m.learn(None, "Ubuntu", "Ubuntu®", "t".to_string());
    assert_eq!(m.apply(&d, "UBUNTU").unwrap(), "Ubuntu®");
    assert_eq!(m.apply(&d, "ubuntu").unwrap(), "Ubuntu®");
}

#[test]
fn whole_words_only_and_the_search_ends() {
    let m = manager();
    let d = data(&[("jason", "JSON")]);
    assert_eq!(m.apply(&d, "jason y jasonette").unwrap(), "JSON y jasonette");
    let d = data(&[("ai", "AI")]);
    assert_eq!(m.apply(&d, "ai ai aid ai").unwrap(), "AI AI aid AI");
    // A byte of a non-ASCII character is no letter: the word after it is whole.
    let d = data(&[("ana", "Ana")]);
    assert_eq!(m.apply(&d, "hasta mañana").unwrap(), "hasta mañAna");
}
