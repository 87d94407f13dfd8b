//! The learned vocabulary: corrections that replace whole words of a
//! transcript, matched without regard to case.

use vstd::prelude::*;
use vstd::utf8::*;
use crate::text::{
    ascii_lower_text, concat, is_ascii_text, is_blank, is_blank_str, lowercase, to_lowercase, trim,
    trim_str,
};
use crate::paths::{home_dir, home_or_dot, join_path, path_join};

verus! {

broadcast use {vstd::utf8::encode_utf8_valid_utf8, vstd::utf8::encode_utf8_decode_utf8};

/// The bytes of `str::to_lowercase` applied to the text that `b` encodes.
pub open spec fn lower_bytes(b: Seq<u8>) -> Seq<u8> {
    encode_utf8(lowercase(decode_utf8(b)))
}

/// An ASCII letter or digit (`u8::is_ascii_alphanumeric`).
pub open spec fn is_word_byte(b: u8) -> bool {
    (48 <= b && b <= 57) || (65 <= b && b <= 90) || (97 <= b && b <= 122)
}

/// The first position at or after `from` where `needle` occurs in `hay`.
pub open spec fn first_match(hay: Seq<u8>, needle: Seq<u8>, from: int) -> Option<int>
    decreases hay.len() + 1 - from,
{
    if from < 0 || from + needle.len() > hay.len() {
        None
    } else if hay.subrange(from, from + needle.len()) == needle {
        Some(from)
    } else {
        first_match(hay, needle, from + 1)
    }
}

/// Where one round of the search for a vocabulary word leaves the text.
pub enum Step {
    /// The search stops abnormally here: a slice or an index falls outside the
    /// text or inside a character, which panics.
    Stuck,
    /// The search for this word is over; the text is final for it.
    Done(Seq<u8>),
    /// The search continues on the new text from the given byte position.
    Next(Seq<u8>, int),
}

/// One round on `result` from byte `idx`, given `lowered`, the lower-cased
/// rest of the text: look for `key` in it, and replace the match when it stands
/// between word boundaries.
pub open spec fn step_with(result: Seq<u8>, idx: int, lowered: Seq<u8>, key: Seq<u8>, corr: Seq<u8>) -> Step {
    match first_match(lowered, key, 0) {
        None => Step::Done(result),
        Some(pos) => {
            let start = idx + pos;
            let end = start + key.len();
            if end > result.len() {
                Step::Stuck
            } else {
                let at_start = start == 0 || !is_word_byte(result[start - 1]);
                let at_end = end == result.len() || !is_word_byte(result[end]);
                if at_start && at_end {
                    if !is_char_boundary(result, start) || !is_char_boundary(result, end) {
                        Step::Stuck
                    } else {
                        let next = result.subrange(0, start) + corr + result.subrange(
                            end,
                            result.len() as int,
                        );
                        let next_idx = start + corr.len();
                        if next_idx >= next.len() {
                            Step::Done(next)
                        } else {
                            Step::Next(next, next_idx)
                        }
                    }
                } else if end >= result.len() {
                    Step::Done(result)
                } else {
                    Step::Next(result, end)
                }
            }
        },
    }
}

/// One round: lower-case the rest of the text from `idx` with
/// `str::to_lowercase` and go on as `step_with` does.
pub open spec fn replace_step(result: Seq<u8>, idx: int, key: Seq<u8>, corr: Seq<u8>) -> Step {
    if !is_char_boundary(result, idx) {
        Step::Stuck
    } else {
        step_with(result, idx, lower_bytes(result.subrange(idx, result.len() as int)), key, corr)
    }
}

/// A match found from `from` starts there or later and lies within `hay`.
pub proof fn lemma_first_match_range(hay: Seq<u8>, needle: Seq<u8>, from: int)
    ensures
        first_match(hay, needle, from) matches Some(p) ==> from <= p && p + needle.len() <= hay.len(),
    decreases hay.len() + 1 - from,
{
    if from < 0 || from + needle.len() > hay.len() {
    } else if hay.subrange(from, from + needle.len()) == needle {
    } else {
        lemma_first_match_range(hay, needle, from + 1);
    }
}

/// A round that goes on leaves less text after its position than before.
proof fn lemma_step_with_progress(
    result: Seq<u8>,
    idx: int,
    lowered: Seq<u8>,
    key: Seq<u8>,
    corr: Seq<u8>,
)
    requires
        key.len() > 0,
        0 <= idx,
    ensures
        step_with(result, idx, lowered, key, corr) matches Step::Next(next, next_idx) ==> 0
            <= next_idx < next.len() && next.len() - next_idx < result.len() - idx,
{
    lemma_first_match_range(lowered, key, 0);
}

/// A round of the search that goes on leaves less text after its position.
pub proof fn lemma_step_progress(result: Seq<u8>, idx: int, key: Seq<u8>, corr: Seq<u8>)
    requires
        key.len() > 0,
        0 <= idx,
    ensures
        replace_step(result, idx, key, corr) matches Step::Next(next, next_idx) ==> 0 <= next_idx
            < next.len() && next.len() - next_idx < result.len() - idx,
{
    lemma_step_with_progress(
        result,
        idx,
        lower_bytes(result.subrange(idx, result.len() as int)),
        key,
        corr,
    );
}

/// Runs the search for one non-empty word from byte `idx` until it finishes;
/// `None` when the search stops abnormally on the way.
pub open spec fn run_key(result: Seq<u8>, idx: int, key: Seq<u8>, corr: Seq<u8>) -> Option<Seq<u8>>
    decreases result.len() - idx,
    when key.len() > 0 && idx >= 0
{
    match replace_step(result, idx, key, corr) {
        Step::Stuck => None,
        Step::Done(r) => Some(r),
        Step::Next(next, next_idx) => {
            proof {
                lemma_step_progress(result, idx, key, corr);
            }
            run_key(next, next_idx, key, corr)
        },
    }
}

/// The text after all occurrences of one word were handled. An empty word
/// matches everywhere: on empty text it is replaced once, on any other text the
/// search never ends (see `lemma_empty_key_never_finishes`), so there is no result.
pub open spec fn run_pair(text: Seq<u8>, key: Seq<u8>, corr: Seq<u8>) -> Option<Seq<u8>> {
    if key.len() == 0 {
        if text.len() == 0 {
            Some(corr)
        } else {
            None
        }
    } else {
        run_key(text, 0, key, corr)
    }
}

/// The text after every (word, correction) pair was applied, in order.
pub open spec fn apply_pairs(text: Seq<u8>, pairs: Seq<(Seq<u8>, Seq<u8>)>) -> Option<Seq<u8>>
    decreases pairs.len(),
{
    if pairs.len() == 0 {
        Some(text)
    } else {
        match run_pair(text, pairs[0].0, pairs[0].1) {
            None => None,
            Some(t) => apply_pairs(t, pairs.drop_first()),
        }
    }
}

/// With an empty word, every round on a non-empty text goes on from a position
/// inside the text: the search can never finish.
pub proof fn lemma_empty_key_never_finishes(result: Seq<u8>, idx: int, corr: Seq<u8>)
    requires
        valid_utf8(result),
        valid_utf8(corr),
        is_char_boundary(result, idx),
        0 <= idx < result.len(),
    ensures
        replace_step(result, idx, Seq::empty(), corr) matches Step::Next(next, next_idx) && 0
            <= next_idx < next.len() && valid_utf8(next) && is_char_boundary(next, next_idx),
{
    let key = Seq::<u8>::empty();
    let hay = lower_bytes(result.subrange(idx, result.len() as int));
    assert(hay.subrange(0, 0) =~= key);
    assert(first_match(hay, key, 0) == Some(0int));
    let at_start = idx == 0 || !is_word_byte(result[idx - 1]);
    let at_end = idx == result.len() || !is_word_byte(result[idx]);
    if at_start && at_end {
        let pre = result.subrange(0, idx);
        let post = result.subrange(idx, result.len() as int);
        valid_utf8_split(result, idx);
        valid_utf8_concat(pre, corr);
        valid_utf8_concat(pre + corr, post);
        let next = pre + corr + post;
        assert(next.subrange(0, idx + corr.len()) =~= pre + corr);
        lemma_char_boundary_after_prefix(next, pre + corr, post);
    }
}

proof fn lemma_char_boundary_after_prefix(whole: Seq<u8>, pre: Seq<u8>, post: Seq<u8>)
    requires
        whole == pre + post,
        valid_utf8(pre),
        valid_utf8(post),
    ensures
        is_char_boundary(whole, pre.len() as int),
    decreases pre.len(),
{
    if pre.len() == 0 {
    } else {
        valid_utf8_concat(pre, post);
        lemma_pop_first_scalar_concat(pre, post);
        let rest = pop_first_scalar(pre);
        lemma_char_boundary_after_prefix(pop_first_scalar(whole), rest, post);
    }
}

proof fn lemma_pop_first_scalar_concat(pre: Seq<u8>, post: Seq<u8>)
    requires
        valid_utf8(pre),
        pre.len() > 0,
    ensures
        length_of_first_scalar(pre + post) == length_of_first_scalar(pre),
        pop_first_scalar(pre + post) == pop_first_scalar(pre) + post,
        valid_utf8(pop_first_scalar(pre)),
        length_of_first_scalar(pre) <= pre.len(),
{
    reveal_with_fuel(valid_utf8, 2);
    assert(pop_first_scalar(pre + post) =~= pop_first_scalar(pre) + post);
}


/// Calls `std::str::from_utf8`; on valid UTF-8 it gives the text the bytes encode.
#[verifier::external_body]
fn utf8_as_str(bytes: &[u8]) -> (r: &str)
    requires
        valid_utf8(bytes@),
    ensures
        r@ == decode_utf8(bytes@),
{
    std::str::from_utf8(bytes).unwrap_or_default()
}

/// Calls `String::from_utf8`; on valid UTF-8 it gives the text the bytes encode.
#[verifier::external_body]
fn utf8_into_string(bytes: Vec<u8>) -> (r: String)
    requires
        valid_utf8(bytes@),
    ensures
        r@ == decode_utf8(bytes@),
{
    String::from_utf8(bytes).unwrap_or_default()
}

fn is_word_byte_exec(b: u8) -> (r: bool)
    ensures
        r == is_word_byte(b),
{
    (48 <= b && b <= 57) || (65 <= b && b <= 90) || (97 <= b && b <= 122)
}

fn char_boundary(b: &Vec<u8>, i: usize) -> (r: bool)
    requires
        valid_utf8(b@),
    ensures
        r == is_char_boundary(b@, i as int),
{
    proof {
        is_char_boundary_start_end_of_seq(b@);
    }
    if i == 0 || i == b.len() {
        true
    } else if i > b.len() {
        false
    } else {
        proof {
            is_char_boundary_iff_not_is_continuation_byte(b@, i as int);
        }
        !(0x80 <= b[i] && b[i] <= 0xbf)
    }
}

fn bytes_match_at(hay: &[u8], needle: &[u8], i: usize) -> (r: bool)
    requires
        i + needle@.len() <= hay@.len(),
    ensures
        r == (hay@.subrange(i as int, i + needle@.len()) == needle@),
{
    let n = hay.len();
    let mut k: usize = 0;
    while k < needle.len()
        invariant
            n == hay@.len(),
            i + needle@.len() <= hay@.len(),
            0 <= k <= needle@.len(),
            forall|m: int| 0 <= m < k ==> hay@[i + m] == needle@[m],
        decreases needle@.len() - k,
    {
        if hay[i + k] != needle[k] {
            assert(hay@.subrange(i as int, i + needle@.len())[k as int] != needle@[k as int]);
            return false;
        }
        k = k + 1;
    }
    assert(hay@.subrange(i as int, i + needle@.len()) =~= needle@);
    true
}

/// The first position where `needle` occurs in `hay` (as `str::find` gives on
/// UTF-8 text).
pub fn find_bytes(hay: &[u8], needle: &[u8]) -> (r: Option<usize>)
    ensures
        match r {
            None => first_match(hay@, needle@, 0) is None,
            Some(p) => first_match(hay@, needle@, 0) == Some(p as int),
        },
{
    let n = hay.len();
    let mut i: usize = 0;
    while i < n
        invariant
            i <= n,
            n == hay@.len(),
            first_match(hay@, needle@, 0) == first_match(hay@, needle@, i as int),
        decreases n - i,
    {
        if needle.len() > n - i {
            return None;
        }
        if bytes_match_at(hay, needle, i) {
            return Some(i);
        }
        i = i + 1;
    }
    if needle.len() == 0 {
        assert(hay@.subrange(n as int, n as int) =~= needle@);
        Some(n)
    } else {
        None
    }
}

fn push_range(dst: &mut Vec<u8>, src: &[u8], from: usize, to: usize)
    requires
        from <= to <= src@.len(),
    ensures
        final(dst)@ == old(dst)@ + src@.subrange(from as int, to as int),
{
    let mut k = from;
    while k < to
        invariant
            from <= k <= to <= src@.len(),
            dst@ == old(dst)@ + src@.subrange(from as int, k as int),
        decreases to - k,
    {
        dst.push(src[k]);
        assert(src@.subrange(from as int, k + 1) =~= src@.subrange(from as int, k as int).push(
            src@[k as int],
        ));
        k = k + 1;
    }
}

/// Where one round leaves the text, as `Step` describes it.
pub enum Round {
    Stuck,
    Done(Vec<u8>),
    Next(Vec<u8>, usize),
}

/// A round as plain values.
pub open spec fn round_view(r: Round) -> Step {
    match r {
        Round::Stuck => Step::Stuck,
        Round::Done(v) => Step::Done(v@),
        Round::Next(v, i) => Step::Next(v@, i as int),
    }
}

/// One round of the search for `key` in the UTF-8 text `result` from byte
/// `idx`, where `lowered` is the rest of the text from `idx`, lower-cased.
pub fn replace_round(result: Vec<u8>, idx: usize, lowered: &[u8], key: &[u8], corr: &[u8]) -> (r:
    Round)
    requires
        valid_utf8(result@),
        valid_utf8(corr@),
        idx <= result@.len(),
    ensures
        round_view(r) == step_with(result@, idx as int, lowered@, key@, corr@),
        r matches Round::Done(v) ==> valid_utf8(v@),
        r matches Round::Next(v, _) ==> valid_utf8(v@),
{
    let len = result.len();
    let pos = match find_bytes(lowered, key) {
        None => {
            return Round::Done(result);
        },
        Some(p) => p,
    };
    if pos > len - idx || key.len() > len - idx - pos {
        return Round::Stuck;
    }
    let start = idx + pos;
    let end = start + key.len();
    let at_start = start == 0 || !is_word_byte_exec(result[start - 1]);
    let at_end = end == len || !is_word_byte_exec(result[end]);
    if at_start && at_end {
        if !char_boundary(&result, start) || !char_boundary(&result, end) {
            return Round::Stuck;
        }
        let mut next: Vec<u8> = Vec::new();
        push_range(&mut next, result.as_slice(), 0, start);
        push_range(&mut next, corr, 0, corr.len());
        push_range(&mut next, result.as_slice(), end, len);
        proof {
            assert(corr@.subrange(0, corr@.len() as int) =~= corr@);
            valid_utf8_split(result@, start as int);
            valid_utf8_split(result@, end as int);
            valid_utf8_concat(result@.subrange(0, start as int), corr@);
            valid_utf8_concat(
                result@.subrange(0, start as int) + corr@,
                result@.subrange(end as int, len as int),
            );
        }
        let next_len = next.len();
        assert(start + corr@.len() <= next_len);
        let next_idx = start + corr.len();
        if next_idx >= next_len {
            Round::Done(next)
        } else {
            Round::Next(next, next_idx)
        }
    } else if end >= len {
        Round::Done(result)
    } else {
        Round::Next(result, end)
    }
}

/// Applies one (word, correction) pair to UTF-8 text; `None` where the
/// search stops abnormally or never finishes.
fn apply_pair_bytes(text: Vec<u8>, key: &[u8], corr: &[u8]) -> (r: Option<Vec<u8>>)
    requires
        valid_utf8(text@),
        valid_utf8(corr@),
    ensures
        match r {
            None => run_pair(text@, key@, corr@) is None,
            Some(t) => run_pair(text@, key@, corr@) == Some(t@) && valid_utf8(t@),
        },
{
    if key.len() == 0 {
        if text.len() == 0 {
            let mut out: Vec<u8> = Vec::new();
            push_range(&mut out, corr, 0, corr.len());
            assert(corr@.subrange(0, corr@.len() as int) =~= corr@);
            return Some(out);
        } else {
            return None;
        }
    }
    let mut result = text;
    let mut idx: usize = 0;
    loop
        invariant
            key@.len() > 0,
            valid_utf8(result@),
            valid_utf8(corr@),
            run_key(result@, idx as int, key@, corr@) == run_pair(text@, key@, corr@),
        decreases result@.len() - idx,
    {
        let len = result.len();
        if !char_boundary(&result, idx) {
            return None;
        }
        proof {
            valid_utf8_split(result@, idx as int);
            lemma_step_progress(result@, idx as int, key@, corr@);
        }
        let tail = utf8_as_str(&result.as_slice()[idx..len]);
        let lowered = to_lowercase(tail);
        match replace_round(result, idx, lowered.as_str().as_bytes(), key, corr) {
            Round::Stuck => {
                return None;
            },
            Round::Done(v) => {
                return Some(v);
            },
            Round::Next(v, i) => {
                result = v;
                idx = i;
            },
        }
    }
}


/// One learned correction, as stored in `vocabulary.json`.
pub struct VocabItem {
    pub original: String,
    pub corrected: String,
    pub timestamp: String,
}

/// The contents of `vocabulary.json`.
pub struct VocabularyData {
    pub items: Vec<VocabItem>,
}

/// A word, its correction and when it was learned, as plain text.
pub open spec fn item_view(i: VocabItem) -> (Seq<char>, Seq<char>, Seq<char>) {
    (i.original@, i.corrected@, i.timestamp@)
}

/// The items of a vocabulary file, as plain text.
pub open spec fn items_view(items: Seq<VocabItem>) -> Seq<(Seq<char>, Seq<char>, Seq<char>)> {
    items.map_values(|i: VocabItem| item_view(i))
}

/// The lookup table: lower-cased words with their corrections, each word once,
/// in the order in which words were first seen.
pub struct VocabularyMap {
    pub entries: Vec<(String, String)>,
}

/// The entries of a lookup table, as plain text.
pub open spec fn entries_view(e: Seq<(String, String)>) -> Seq<(Seq<char>, Seq<char>)> {
    e.map_values(|p: (String, String)| (p.0@, p.1@))
}

/// `pairs` with `k` bound to `v`: the entry for `k` is replaced where it
/// stands, or a new one is added at the end.
pub open spec fn upsert(pairs: Seq<(Seq<char>, Seq<char>)>, k: Seq<char>, v: Seq<char>) -> Seq<
    (Seq<char>, Seq<char>),
>
    decreases pairs.len(),
{
    if pairs.len() == 0 {
        seq![(k, v)]
    } else if pairs[0].0 == k {
        seq![(k, v)] + pairs.drop_first()
    } else {
        seq![pairs[0]] + upsert(pairs.drop_first(), k, v)
    }
}

/// The lookup table built from `items` in order: each word lower-cased, later
/// items overriding earlier ones with the same lower-cased word.
pub open spec fn vocab_pairs(items: Seq<(Seq<char>, Seq<char>, Seq<char>)>) -> Seq<
    (Seq<char>, Seq<char>),
>
    decreases items.len(),
{
    if items.len() == 0 {
        seq![]
    } else {
        upsert(vocab_pairs(items.drop_last()), lowercase(items.last().0), items.last().1)
    }
}

/// The table as a map from lower-cased word to correction.
pub open spec fn pairs_map(pairs: Seq<(Seq<char>, Seq<char>)>) -> Map<Seq<char>, Seq<char>>
    decreases pairs.len(),
{
    if pairs.len() == 0 {
        Map::empty()
    } else {
        pairs_map(pairs.drop_last()).insert(pairs.last().0, pairs.last().1)
    }
}

/// No word occurs twice in the table.
pub open spec fn keys_distinct(pairs: Seq<(Seq<char>, Seq<char>)>) -> bool {
    forall|i: int, j: int| 0 <= i < j < pairs.len() ==> pairs[i].0 != pairs[j].0
}

proof fn lemma_upsert_at(pairs: Seq<(Seq<char>, Seq<char>)>, k: Seq<char>, v: Seq<char>, j: int)
    requires
        0 <= j <= pairs.len(),
        forall|m: int| 0 <= m < j ==> pairs[m].0 != k,
        j < pairs.len() ==> pairs[j].0 == k,
    ensures
        upsert(pairs, k, v) == if j < pairs.len() {
            pairs.update(j, (k, v))
        } else {
            pairs.push((k, v))
        },
    decreases j,
{
    if pairs.len() == 0 {
        assert(seq![(k, v)] =~= pairs.push((k, v)));
    } else if j == 0 {
        assert(seq![(k, v)] + pairs.drop_first() =~= pairs.update(0, (k, v)));
    } else {
        let t = pairs.drop_first();
        lemma_upsert_at(t, k, v, j - 1);
        if j < pairs.len() {
            assert(seq![pairs[0]] + t.update(j - 1, (k, v)) =~= pairs.update(j, (k, v)));
        } else {
            assert(seq![pairs[0]] + t.push((k, v)) =~= pairs.push((k, v)));
        }
    }
}

fn upsert_exec(entries: &mut Vec<(String, String)>, k: String, v: String)
    ensures
        entries_view(final(entries)@) == upsert(entries_view(old(entries)@), k@, v@),
{
    let n = entries.len();
    let mut j: usize = 0;
    while j < n
        invariant
            entries@ == old(entries)@,
            n == entries@.len(),
            j <= n,
            forall|m: int| 0 <= m < j ==> entries@[m].0@ != k@,
        decreases n - j,
    {
        if entries[j].0 == k {
            proof {
                lemma_upsert_at(entries_view(entries@), k@, v@, j as int);
            }
            let ghost before = entries@;
            entries.set(j, (k, v));
            assert(entries_view(entries@) =~= entries_view(before).update(j as int, (k@, v@)));
            return;
        }
        j = j + 1;
    }
    proof {
        lemma_upsert_at(entries_view(entries@), k@, v@, n as int);
    }
    let ghost before = entries@;
    entries.push((k, v));
    assert(entries_view(entries@) =~= entries_view(before).push((k@, v@)));
}

/// The lookup table of a vocabulary file: the words lower-cased with
/// `str::to_lowercase`, the last correction of a word winning.
pub fn build_map(items: &Vec<VocabItem>) -> (m: VocabularyMap)
    ensures
        entries_view(m.entries@) == vocab_pairs(items_view(items@)),
{
    let mut map = VocabularyMap { entries: Vec::new() };
    let n = items.len();
    let mut i: usize = 0;
    while i < n
        invariant
            n == items@.len(),
            i <= n,
            entries_view(map.entries@) == vocab_pairs(items_view(items@.take(i as int))),
        decreases n - i,
    {
        let key = to_lowercase(items[i].original.as_str());
        let val = items[i].corrected.clone();
        map.insert(key, val);
        assert(items_view(items@.take(i + 1)).drop_last() =~= items_view(items@.take(i as int)));
        i = i + 1;
    }
    assert(items@.take(n as int) =~= items@);
    map
}

impl VocabularyMap {
    /// Binds the (already lower-cased) word `key` to `value`: its entry is
    /// replaced where it stands, or a new one goes at the end.
    pub fn insert(&mut self, key: String, value: String)
        ensures
            entries_view(final(self).entries@) == upsert(entries_view(old(self).entries@), key@, value@),
    {
        upsert_exec(&mut self.entries, key, value);
    }
}

/// The table as bytes, as the replacement works on it.
pub open spec fn pairs_bytes(pairs: Seq<(Seq<char>, Seq<char>)>) -> Seq<(Seq<u8>, Seq<u8>)> {
    pairs.map_values(|p: (Seq<char>, Seq<char>)| (encode_utf8(p.0), encode_utf8(p.1)))
}

/// The corrected text: every word of the table, in table order, replaced
/// wherever it stands between word boundaries; `None` where the search
/// stops abnormally or never finishes.
pub open spec fn applied(text: Seq<char>, pairs: Seq<(Seq<char>, Seq<char>)>) -> Option<Seq<char>> {
    match apply_pairs(encode_utf8(text), pairs_bytes(pairs)) {
        None => None,
        Some(b) => Some(decode_utf8(b)),
    }
}

/// Applies the whole table to `text`.
pub fn apply_map(map: &VocabularyMap, text: &str) -> (r: Option<String>)
    ensures
        match r {
            None => applied(text@, entries_view(map.entries@)) is None,
            Some(s) => applied(text@, entries_view(map.entries@)) == Some(s@),
        },
{
    let ghost all = pairs_bytes(entries_view(map.entries@));
    let tb = text.as_bytes();
    let mut cur: Vec<u8> = Vec::new();
    push_range(&mut cur, tb, 0, tb.len());
    assert(tb@.subrange(0, tb@.len() as int) =~= tb@);
    assert(all.skip(0) =~= all);
    let n = map.entries.len();
    let mut i: usize = 0;
    while i < n
        invariant
            n == map.entries@.len(),
            all == pairs_bytes(entries_view(map.entries@)),
            i <= n,
            valid_utf8(cur@),
            apply_pairs(encode_utf8(text@), all) == apply_pairs(cur@, all.skip(i as int)),
        decreases n - i,
    {
        let key = map.entries[i].0.as_str().as_bytes();
        let corr = map.entries[i].1.as_str().as_bytes();
        assert(all.skip(i as int)[0] == (key@, corr@));
        assert(all.skip(i as int).drop_first() =~= all.skip(i + 1));
        match apply_pair_bytes(cur, key, corr) {
            None => {
                return None;
            },
            Some(next) => {
                cur = next;
            },
        }
        i = i + 1;
    }
    assert(all.skip(n as int) =~= Seq::<(Seq<u8>, Seq<u8>)>::empty());
    let r = utf8_into_string(cur);
    Some(r)
}

/// ASCII case folding of one byte.
pub open spec fn ascii_lower(b: u8) -> u8 {
    if 65 <= b && b <= 90 {
        (b + 32) as u8
    } else {
        b
    }
}

/// `str::eq_ignore_ascii_case` on the bytes of two strings.
pub open spec fn eq_ignore_ascii_case(a: Seq<u8>, b: Seq<u8>) -> bool {
    a.len() == b.len() && forall|i: int| 0 <= i < a.len() ==> ascii_lower(a[i]) == ascii_lower(b[i])
}

/// Whether two strings are equal up to ASCII case (`str::eq_ignore_ascii_case`).
pub fn eq_ignore_ascii_case_exec(a: &str, b: &str) -> (r: bool)
    ensures
        r == eq_ignore_ascii_case(encode_utf8(a@), encode_utf8(b@)),
{
    let x = a.as_bytes();
    let y = b.as_bytes();
    assert(x@ == encode_utf8(a@) && y@ == encode_utf8(b@));
    if x.len() != y.len() {
        return false;
    }
    let mut i: usize = 0;
    while i < x.len()
        invariant
            x@ == encode_utf8(a@),
            y@ == encode_utf8(b@),
            x@.len() == y@.len(),
            i <= x@.len(),
            forall|m: int| 0 <= m < i ==> ascii_lower(x@[m]) == ascii_lower(y@[m]),
        decreases x@.len() - i,
    {
        let p = if 65 <= x[i] && x[i] <= 90 { x[i] + 32 } else { x[i] };
        let q = if 65 <= y[i] && y[i] <= 90 { y[i] + 32 } else { y[i] };
        if p != q {
            assert(ascii_lower(x@[i as int]) != ascii_lower(y@[i as int]));
            return false;
        }
        i = i + 1;
    }
    true
}

/// The items that survive learning `word`: those whose word differs from it
/// beyond ASCII case.
pub open spec fn kept_items(items: Seq<(Seq<char>, Seq<char>, Seq<char>)>, word: Seq<char>) -> Seq<
    (Seq<char>, Seq<char>, Seq<char>),
>
    decreases items.len(),
{
    if items.len() == 0 {
        seq![]
    } else if eq_ignore_ascii_case(encode_utf8(items.last().0), encode_utf8(word)) {
        kept_items(items.drop_last(), word)
    } else {
        kept_items(items.drop_last(), word).push(items.last())
    }
}

/// The vocabulary manager: where the vocabulary file lives.
pub struct VocabularyManager {
    path: String,
}

impl VocabularyManager {
    /// The file path this manager reads and writes.
    pub closed spec fn path_view(&self) -> Seq<char> {
        self.path@
    }

    /// The manager for the vocabulary file under `home` (or `.` when `HOME`
    /// is not set). Creating the directory is left to the caller.
    pub fn new(home: Option<&str>) -> (m: Self)
        ensures
            m.path_view() == join_path(
                home_or_dot(
                    match home {
                        Some(h) => Some(h@),
                        None => None,
                    },
                ) + "/.config/handyx"@,
                "vocabulary.json"@,
            ),
    {
        let h = home_dir(home);
        let dir = concat(h.as_str(), "/.config/handyx");
        let path = path_join(dir.as_str(), "vocabulary.json");
        VocabularyManager { path }
    }

    /// The vocabulary file.
    pub fn path(&self) -> (r: &str)
        ensures
            r@ == self.path_view(),
    {
        self.path.as_str()
    }

    /// The lookup table of the file's contents (`None`: the file could not be
    /// read or parsed, which gives an empty table).
    pub fn load_map(&self, data: &Option<VocabularyData>) -> (m: VocabularyMap)
        ensures
            entries_view(m.entries@) == match data {
                Some(d) => vocab_pairs(items_view(d.items@)),
                None => Seq::empty(),
            },
    {
        match data {
            Some(d) => build_map(&d.items),
            None => VocabularyMap { entries: Vec::new() },
        }
    }

    /// The learned items (none when the file could not be read or parsed).
    pub fn list_items(&self, data: Option<VocabularyData>) -> (r: Vec<VocabItem>)
        ensures
            items_view(r@) == match data {
                Some(d) => items_view(d.items@),
                None => Seq::empty(),
            },
    {
        match data {
            Some(d) => d.items,
            None => Vec::new(),
        }
    }

    /// The file contents after learning that `original` should read
    /// `corrected`, stamped with `timestamp`; `None` when either is blank and
    /// nothing is written. The new item replaces every item whose word equals
    /// the trimmed `original` up to ASCII case, and goes last.
    pub fn learn(
        &self,
        data: Option<VocabularyData>,
        original: &str,
        corrected: &str,
        timestamp: String,
    ) -> (r: Option<VocabularyData>)
        ensures
            is_blank(original@) || is_blank(corrected@) ==> r is None,
            !(is_blank(original@) || is_blank(corrected@)) ==> (r matches Some(d) && items_view(
                d.items@,
            ) == kept_items(
                match data {
                    Some(old) => items_view(old.items@),
                    None => Seq::empty(),
                },
                trim(original@),
            ).push((trim(original@), trim(corrected@), timestamp@))),
    {
        let orig = trim_str(original);
        let corr = trim_str(corrected);
        if is_blank_str(original) || is_blank_str(corrected) {
            return None;
        }
        let old_items = match data {
            Some(d) => d.items,
            None => Vec::new(),
        };
        let ghost old_view = items_view(old_items@);
        let mut items: Vec<VocabItem> = Vec::new();
        let n = old_items.len();
        let mut i: usize = 0;
        while i < n
            invariant
                n == old_items@.len(),
                i <= n,
                old_view == items_view(old_items@),
                orig@ == trim(original@),
                items_view(items@) == kept_items(old_view.take(i as int), orig@),
            decreases n - i,
        {
            let ghost before = items@;
            if !eq_ignore_ascii_case_exec(old_items[i].original.as_str(), orig.as_str()) {
                let it = VocabItem {
                    original: old_items[i].original.clone(),
                    corrected: old_items[i].corrected.clone(),
                    timestamp: old_items[i].timestamp.clone(),
                };
                items.push(it);
                assert(items_view(items@) =~= items_view(before).push(old_view[i as int]));
            }
            assert(old_view.take(i + 1).drop_last() =~= old_view.take(i as int));
            i = i + 1;
        }
        assert(old_view.take(n as int) =~= old_view);
        let ghost before = items@;
        items.push(VocabItem { original: orig, corrected: corr, timestamp });
        assert(items_view(items@) =~= items_view(before).push((trim(original@), trim(corrected@), timestamp@)));
        Some(VocabularyData { items })
    }

    /// The contents written by `clear`: no items.
    pub fn clear(&self) -> (r: VocabularyData)
        ensures
            r.items@.len() == 0,
    {
        VocabularyData { items: Vec::new() }
    }

    /// The corrected transcript: the table of the file's contents applied to
    /// `text` (unchanged when the table is empty). `None` where the search
    /// stops abnormally or never finishes (see `applied`).
    pub fn apply(&self, data: &Option<VocabularyData>, text: &str) -> (r: Option<String>)
        ensures
            ({
                let pairs = match data {
                    Some(d) => vocab_pairs(items_view(d.items@)),
                    None => Seq::empty(),
                };
                match r {
                    None => applied(text@, pairs) is None,
                    Some(s) => applied(text@, pairs) == Some(s@),
                }
            }),
    {
        let map = self.load_map(data);
        apply_map(&map, text)
    }
}


proof fn lemma_upsert_keys(pairs: Seq<(Seq<char>, Seq<char>)>, k: Seq<char>, v: Seq<char>)
    ensures
        upsert(pairs, k, v).contains((k, v)),
        forall|i: int|
            0 <= i < upsert(pairs, k, v).len() ==> (#[trigger] upsert(pairs, k, v)[i].0 == k
                || exists|j: int| 0 <= j < pairs.len() && pairs[j].0 == upsert(pairs, k, v)[i].0),
        keys_distinct(pairs) ==> keys_distinct(upsert(pairs, k, v)),
    decreases pairs.len(),
{
    let u = upsert(pairs, k, v);
    if pairs.len() == 0 {
        assert(u[0] == (k, v));
    } else if pairs[0].0 == k {
        assert(u[0] == (k, v));
        assert forall|i: int| 0 <= i < u.len() implies (#[trigger] u[i].0 == k || exists|j: int|
            0 <= j < pairs.len() && pairs[j].0 == u[i].0) by {
            if i > 0 {
                assert(u[i] == pairs[i]);
            }
        }
        if keys_distinct(pairs) {
            assert forall|i: int, j: int| 0 <= i < j < u.len() implies u[i].0 != u[j].0 by {
                assert(u[j] == pairs[j]);
                if i > 0 {
                    assert(u[i] == pairs[i]);
                }
            }
        }
    } else {
        let t = pairs.drop_first();
        lemma_upsert_keys(t, k, v);
        let ut = upsert(t, k, v);
        assert(u =~= seq![pairs[0]] + ut);
        let w = choose|w: int| 0 <= w < ut.len() && ut[w] == (k, v);
        assert(u[w + 1] == (k, v));
        assert forall|i: int| 0 <= i < u.len() implies (#[trigger] u[i].0 == k || exists|j: int|
            0 <= j < pairs.len() && pairs[j].0 == u[i].0) by {
            if i == 0 {
                assert(pairs[0].0 == u[0].0);
            } else {
                assert(u[i] == ut[i - 1]);
                if ut[i - 1].0 != k {
                    let j = choose|j: int| 0 <= j < t.len() && t[j].0 == ut[i - 1].0;
                    assert(pairs[j + 1].0 == u[i].0);
                }
            }
        }
        if keys_distinct(pairs) {
            assert(keys_distinct(t)) by {
                assert forall|i: int, j: int| 0 <= i < j < t.len() implies t[i].0 != t[j].0 by {
                    assert(t[i] == pairs[i + 1] && t[j] == pairs[j + 1]);
                }
            }
            assert forall|i: int, j: int| 0 <= i < j < u.len() implies u[i].0 != u[j].0 by {
                if i == 0 {
                    assert(u[j] == ut[j - 1]);
                    if ut[j - 1].0 != k {
                        let m = choose|m: int| 0 <= m < t.len() && t[m].0 == ut[j - 1].0;
                        assert(pairs[m + 1].0 == t[m].0);
                    }
                } else {
                    assert(u[i] == ut[i - 1] && u[j] == ut[j - 1]);
                }
            }
        }
    }
}

/// The lookup table never holds a word twice.
pub proof fn lemma_vocab_pairs_distinct(items: Seq<(Seq<char>, Seq<char>, Seq<char>)>)
    ensures
        keys_distinct(vocab_pairs(items)),
    decreases items.len(),
{
    if items.len() > 0 {
        lemma_vocab_pairs_distinct(items.drop_last());
        lemma_upsert_keys(
            vocab_pairs(items.drop_last()),
            lowercase(items.last().0),
            items.last().1,
        );
    }
}

/// The last item of a vocabulary file decides the correction of its word:
/// the table maps the lower-cased word to that item's correction, and to
/// nothing else. With `learn`, which puts the learned item last, the
/// learned correction is the one that applies to the word.
pub proof fn lemma_last_item_wins(
    items: Seq<(Seq<char>, Seq<char>, Seq<char>)>,
    item: (Seq<char>, Seq<char>, Seq<char>),
)
    ensures
        vocab_pairs(items.push(item)).contains((lowercase(item.0), item.1)),
        keys_distinct(vocab_pairs(items.push(item))),
        forall|i: int|
            0 <= i < vocab_pairs(items.push(item)).len() && #[trigger] vocab_pairs(
                items.push(item),
            )[i].0 == lowercase(item.0) ==> vocab_pairs(items.push(item))[i].1 == item.1,
{
    let all = items.push(item);
    assert(all.drop_last() =~= items);
    lemma_upsert_keys(vocab_pairs(items), lowercase(item.0), item.1);
    lemma_vocab_pairs_distinct(all);
    let p = vocab_pairs(all);
    let w = choose|w: int| 0 <= w < p.len() && p[w] == (lowercase(item.0), item.1);
    assert forall|i: int| 0 <= i < p.len() && #[trigger] p[i].0 == lowercase(item.0) implies p[i].1
        == item.1 by {
        if i != w {
            if i < w {
                assert(p[i].0 != p[w].0);
            } else {
                assert(p[w].0 != p[i].0);
            }
        }
    }
}

/// An empty table leaves every text as it is.
pub proof fn lemma_empty_table_keeps_text(text: Seq<char>)
    ensures
        applied(text, Seq::empty()) == Some(text),
{
    assert(pairs_bytes(Seq::<(Seq<char>, Seq<char>)>::empty()).len() == 0);
}

/// A learned word is corrected: with the table of a file holding one item, a
/// text that lower-cases to the item's lower-cased word (with as many bytes as
/// the text) becomes the item's correction.
pub proof fn lemma_learned_word_is_corrected(
    text: Seq<char>,
    item: (Seq<char>, Seq<char>, Seq<char>),
)
    requires
        lowercase(item.0).len() > 0,
        lowercase(text) == lowercase(item.0),
        encode_utf8(lowercase(text)).len() == encode_utf8(text).len(),
    ensures
        applied(text, vocab_pairs(seq![item])) == Some(item.1),
{
    let k = lowercase(item.0);
    let items = seq![item];
    assert(items.drop_last() =~= Seq::<(Seq<char>, Seq<char>, Seq<char>)>::empty());
    assert(items.last() == item);
    assert(vocab_pairs(items.drop_last()) =~= Seq::<(Seq<char>, Seq<char>)>::empty());
    assert(upsert(Seq::empty(), k, item.1) =~= seq![(k, item.1)]);
    assert(vocab_pairs(items) == seq![(k, item.1)]);
    let tb = encode_utf8(text);
    let key = encode_utf8(k);
    let corr = encode_utf8(item.1);
    let pb = pairs_bytes(seq![(k, item.1)]);
    assert(pb[0] == (key, corr));
    assert(pb.drop_first() =~= Seq::<(Seq<u8>, Seq<u8>)>::empty());
    assert(key.len() > 0) by {
        reveal_with_fuel(encode_utf8, 2);
    }
    assert(tb.subrange(0, tb.len() as int) =~= tb);
    assert(lower_bytes(tb.subrange(0, tb.len() as int)) == key);
    assert(key.subrange(0, key.len() as int) =~= key);
    assert(first_match(key, key, 0) == Some(0int));
    is_char_boundary_start_end_of_seq(tb);
    let next = tb.subrange(0, 0) + corr + tb.subrange(tb.len() as int, tb.len() as int);
    assert(next =~= corr);
    assert(replace_step(tb, 0, key, corr) == Step::Done(corr));
    assert(run_pair(tb, key, corr) == Some(corr));
    assert(apply_pairs(corr, pb.drop_first()) == Some(corr));
}

proof fn lemma_ascii_encoding_length(s: Seq<char>)
    requires
        is_ascii_text(s),
    ensures
        encode_utf8(s).len() == s.len(),
    decreases s.len(),
{
    if s.len() > 0 {
        assert(crate::text::is_ascii_char(s[0]));
        assert(is_ascii_text(s.drop_first())) by {
            assert forall|i: int| 0 <= i < s.drop_first().len() implies crate::text::is_ascii_char(
                #[trigger] s.drop_first()[i],
            ) by {
                assert(s.drop_first()[i] == s[i + 1]);
            }
        }
        lemma_ascii_encoding_length(s.drop_first());
    }
}

proof fn lemma_ascii_lower_is_ascii(s: Seq<char>)
    requires
        is_ascii_text(s),
    ensures
        is_ascii_text(ascii_lower_text(s)),
        ascii_lower_text(s).len() == s.len(),
{
    assert forall|i: int| 0 <= i < ascii_lower_text(s).len() implies crate::text::is_ascii_char(
        #[trigger] ascii_lower_text(s)[i],
    ) by {
        assert(crate::text::is_ascii_char(s[i]));
    }
}

/// A learned ASCII word is corrected: with the table of a file holding one
/// item, an ASCII text equal to the item's non-empty ASCII word up to letter
/// case becomes the item's correction.
pub proof fn lemma_learned_ascii_word_is_corrected(
    text: Seq<char>,
    item: (Seq<char>, Seq<char>, Seq<char>),
)
    requires
        is_ascii_text(text),
        is_ascii_text(item.0),
        item.0.len() > 0,
        ascii_lower_text(text) == ascii_lower_text(item.0),
    ensures
        applied(text, vocab_pairs(seq![item])) == Some(item.1),
{
    lemma_ascii_lower_is_ascii(text);
    lemma_ascii_lower_is_ascii(item.0);
    lemma_ascii_encoding_length(text);
    lemma_ascii_encoding_length(ascii_lower_text(text));
    lemma_learned_word_is_corrected(text, item);
}

/// A word byte is exactly an ASCII letter or digit: every other byte,
/// including punctuation such as `-` or `.`, white space and the bytes of
/// non-ASCII characters, is a word boundary.
pub proof fn lemma_word_bytes_are_alphanumeric(b: u8)
    ensures
        is_word_byte(b) <==> (('0' as u8) <= b <= ('9' as u8) || ('A' as u8) <= b <= ('Z' as u8)
            || ('a' as u8) <= b <= ('z' as u8)),
        !is_word_byte('-' as u8),
        !is_word_byte(' ' as u8),
        b >= 128 ==> !is_word_byte(b),
{
}

/// A match that stands between boundaries is replaced: when the first match of
/// `key` in the lower-cased text (here lower-casing kept byte positions) lies
/// at `pos`, and the bytes around it, where there are any, are not ASCII
/// letters or digits, the round replaces exactly that match with `corr`.
pub proof fn lemma_match_between_boundaries_is_replaced(
    result: Seq<u8>,
    lowered: Seq<u8>,
    key: Seq<u8>,
    corr: Seq<u8>,
    pos: int,
)
    requires
        valid_utf8(result),
        first_match(lowered, key, 0) == Some(pos),
        pos + key.len() <= result.len(),
        is_char_boundary(result, pos),
        is_char_boundary(result, pos + key.len()),
        pos == 0 || !(('0' as u8) <= result[pos - 1] <= ('9' as u8) || ('A' as u8) <= result[pos
            - 1] <= ('Z' as u8) || ('a' as u8) <= result[pos - 1] <= ('z' as u8)),
        pos + key.len() == result.len() || !(('0' as u8) <= result[pos + key.len()] <= ('9' as u8)
            || ('A' as u8) <= result[pos + key.len()] <= ('Z' as u8) || ('a' as u8) <= result[pos
            + key.len()] <= ('z' as u8)),
    ensures
        ({
            let next = result.subrange(0, pos) + corr + result.subrange(
                pos + key.len(),
                result.len() as int,
            );
            step_with(result, 0, lowered, key, corr) == Step::Done(next) || step_with(
                result,
                0,
                lowered,
                key,
                corr,
            ) == Step::Next(next, pos + corr.len())
        }),
{
    lemma_first_match_range(lowered, key, 0);
}

} // verus!
