//! Session parameters: defaults, per-category overrides, presets, and the
//! review ratings that qualities map to.
use vstd::prelude::*;
use crate::data::models::{Difficulty, MemoryQuality, Preset, Quality, SessionParams, difficulty_label, quality_label,
    difficulty_from_label, quality_from_label};
use crate::text::{chars_of, owned, push_decimal};

verus! {

/// The parameters of a session: each per-category default where the
/// category has one, else the global default; the completion rate is always
/// the global one.
pub fn resolve_params(
    global_defaults: &SessionParams,
    node_quality: Option<&Quality>,
    node_ud: Option<&Difficulty>,
    node_md: Option<&Difficulty>,
) -> (r: SessionParams)
    ensures
        r.quality == (match node_quality { Some(q) => *q, None => global_defaults.quality }),
        r.understanding_difficulty == (match node_ud { Some(d) => *d, None => global_defaults.understanding_difficulty }),
        r.memory_difficulty == (match node_md { Some(d) => *d, None => global_defaults.memory_difficulty }),
        r.completion_rate == global_defaults.completion_rate,
{
    SessionParams {
        quality: match node_quality { Some(q) => *q, None => global_defaults.quality },
        understanding_difficulty: match node_ud { Some(d) => *d, None => global_defaults.understanding_difficulty },
        memory_difficulty: match node_md { Some(d) => *d, None => global_defaults.memory_difficulty },
        completion_rate: global_defaults.completion_rate,
    }
}

/// Takes over all four parameters of a preset.
pub fn apply_preset(preset: &Preset, params: &mut SessionParams)
    ensures
        final(params).quality == preset.quality,
        final(params).understanding_difficulty == preset.understanding_difficulty,
        final(params).memory_difficulty == preset.memory_difficulty,
        final(params).completion_rate == preset.completion_rate,
{
    params.quality = preset.quality;
    params.understanding_difficulty = preset.understanding_difficulty;
    params.memory_difficulty = preset.memory_difficulty;
    params.completion_rate = preset.completion_rate;
}

pub open spec fn rating_of_quality(q: Quality) -> u32 {
    match q {
        Quality::VeryLow => 1,
        Quality::Low => 1,
        Quality::Medium => 2,
        Quality::High => 3,
        Quality::Complete => 4,
    }
}

/// The review rating (again 1, hard 2, good 3, easy 4) of a session quality.
pub fn quality_to_rating(quality: &Quality) -> (r: u32)
    ensures
        r == rating_of_quality(*quality),
{
    match quality {
        Quality::VeryLow => 1,
        Quality::Low => 1,
        Quality::Medium => 2,
        Quality::High => 3,
        Quality::Complete => 4,
    }
}

pub open spec fn rating_of_memory(q: MemoryQuality) -> u32 {
    match q {
        MemoryQuality::Relearn => 1,
        MemoryQuality::Hard => 2,
        MemoryQuality::Good => 3,
        MemoryQuality::Easy => 4,
    }
}

/// The review rating of a recalled card.
pub fn memory_quality_to_rating(quality: &MemoryQuality) -> (r: u32)
    ensures
        r == rating_of_memory(*quality),
{
    match quality {
        MemoryQuality::Relearn => 1,
        MemoryQuality::Hard => 2,
        MemoryQuality::Good => 3,
        MemoryQuality::Easy => 4,
    }
}

pub open spec fn digit_value(c: char) -> int {
    c as int - '0' as int
}

pub open spec fn is_digit(c: char) -> bool {
    '0' <= c <= '9'
}

/// The number the decimal digits stand for.
pub open spec fn digits_value(s: Seq<char>) -> int
    decreases s.len(),
{
    if s.len() == 0 { 0 } else { digits_value(s.drop_last()) * 10 + digit_value(s.last()) }
}

/// What `str::parse::<u8>` gives: an optional `+`, then at least one
/// decimal digit, standing for a number up to 255.
pub open spec fn parse_u8_spec(s: Seq<char>) -> Option<u8> {
    let body = sign_stripped(s);
    if body.len() > 0 && all_digits(body) && digits_value(body) <= 255 {
        Some(digits_value(body) as u8)
    } else {
        None
    }
}

/// `s` without a leading `+`.
pub open spec fn sign_stripped(s: Seq<char>) -> Seq<char> {
    if s.len() > 0 && s[0] == '+' { s.drop_first() } else { s }
}

pub open spec fn all_digits(s: Seq<char>) -> bool {
    forall|i: int| 0 <= i < s.len() ==> is_digit(#[trigger] s[i])
}

pub proof fn lemma_digits_value_nonneg(s: Seq<char>)
    requires
        forall|i: int| 0 <= i < s.len() ==> is_digit(#[trigger] s[i]),
    ensures
        digits_value(s) >= 0,
        s.len() > 0 ==> digits_value(s) >= digits_value(s.drop_last()),
    decreases s.len(),
{
    if s.len() > 0 {
        lemma_digits_value_nonneg(s.drop_last());
    }
}

/// Parses a completion rate as `str::parse::<u8>` does.
pub fn parse_u8(s: &str) -> (r: Option<u8>)
    ensures
        r == parse_u8_spec(s@),
{
    let cs = chars_of(s);
    let start: usize = if cs.len() > 0 && cs[0] == '+' { 1 } else { 0 };
    let ghost body = sign_stripped(s@);
    proof {
        assert(body =~= s@.subrange(start as int, s@.len() as int));
    }
    if start >= cs.len() {
        return None;
    }
    let mut v: u32 = 0;
    let mut i = start;
    while i < cs.len()
        invariant
            cs@ == s@,
            start <= i <= cs@.len(),
            body == cs@.subrange(start as int, cs@.len() as int),
            body == sign_stripped(s@),
            forall|j: int| start <= j < i ==> is_digit(#[trigger] cs@[j]),
            v as int == digits_value(cs@.subrange(start as int, i as int)),
            v <= 255,
        decreases cs@.len() - i,
    {
        let c = cs[i];
        let ghost pre = cs@.subrange(start as int, i as int);
        proof {
            assert(cs@.subrange(start as int, i + 1).drop_last() =~= pre);
        }
        if !('0' <= c && c <= '9') {
            proof {
                assert(body[i - start] == c);
                assert(!is_digit(body[i - start]));
                assert(!all_digits(body));
            }
            return None;
        }
        let d = (c as u32) - ('0' as u32);
        let nv = v * 10 + d;
        if nv > 255 {
            proof {
                let rest = cs@.subrange(start as int, i + 1);
                assert(body.take(i + 1 - start) =~= rest);
                assert(digits_value(rest) == nv);
                lemma_prefix_value_bound(body, i + 1 - start);
            }
            return None;
        }
        v = nv;
        i = i + 1;
    }
    proof {
        assert(cs@.subrange(start as int, i as int) =~= body);
    }
    Some(v as u8)
}

/// A prefix of digits never stands for more than the whole.
pub proof fn lemma_prefix_value_bound(s: Seq<char>, k: int)
    requires
        0 <= k <= s.len(),
    ensures
        (forall|i: int| 0 <= i < s.len() ==> is_digit(#[trigger] s[i])) ==> digits_value(s.take(k)) <= digits_value(s),
    decreases s.len() - k,
{
    if k < s.len() && (forall|i: int| 0 <= i < s.len() ==> is_digit(#[trigger] s[i])) {
        lemma_prefix_value_bound(s, k + 1);
        assert(s.take(k + 1).drop_last() =~= s.take(k));
        assert(s.take(k + 1).last() == s[k]);
        assert(is_digit(s[k]));
        let p = s.take(k);
        assert(forall|i: int| 0 <= i < p.len() ==> is_digit(#[trigger] p[i]));
        lemma_digits_value_nonneg(p);
    } else if k == s.len() {
        assert(s.take(k) =~= s);
    }
}

/// A digit character stands for its value.
pub proof fn lemma_digit_char(d: nat)
    requires
        d < 10,
    ensures
        is_digit(crate::text::digit_char(d)),
        digit_value(crate::text::digit_char(d)) == d,
{
}

/// The decimal digits of a number stand for it.
pub proof fn lemma_digits_roundtrip(n: nat)
    ensures
        crate::text::digits(n).len() > 0,
        all_digits(crate::text::digits(n)),
        digits_value(crate::text::digits(n)) == n,
    decreases n,
{
    let s = crate::text::digits(n);
    if n < 10 {
        lemma_digit_char(n);
        assert(s.drop_last() =~= Seq::<char>::empty());
        assert(digits_value(s) == digits_value(s.drop_last()) * 10 + digit_value(s.last()));
    } else {
        lemma_digits_roundtrip(n / 10);
        lemma_digit_char(n % 10);
        let p = crate::text::digits(n / 10);
        assert(s.drop_last() =~= p);
        assert(s.last() == crate::text::digit_char(n % 10));
        assert(digits_value(s) == digits_value(p) * 10 + (n % 10));
        assert((n / 10) * 10 + n % 10 == n);
        assert forall|i: int| 0 <= i < s.len() implies is_digit(#[trigger] s[i]) by {
            if i < p.len() {
                assert(s[i] == p[i]);
            }
        }
    }
}

/// The stored quality, or medium where none is stored or it names none.
pub open spec fn stored_quality(s: Option<Seq<char>>) -> Quality {
    match s {
        Some(t) => match quality_from_label(t) { Some(q) => q, None => Quality::Medium },
        None => Quality::Medium,
    }
}

/// The stored difficulty, or medium where none is stored or it names none.
pub open spec fn stored_difficulty(s: Option<Seq<char>>) -> Difficulty {
    match s {
        Some(t) => match difficulty_from_label(t) { Some(d) => d, None => Difficulty::Medium },
        None => Difficulty::Medium,
    }
}

/// The stored completion rate, or 100 where none is stored or it is no `u8`.
pub open spec fn stored_rate(s: Option<Seq<char>>) -> u8 {
    match s {
        Some(t) => match parse_u8_spec(t) { Some(v) => v, None => 100 },
        None => 100,
    }
}

pub open spec fn opt_view(s: Option<&str>) -> Option<Seq<char>> {
    match s { Some(t) => Some(t@), None => None }
}

/// The global session defaults from the stored settings `default_quality`,
/// `default_understanding_difficulty`, `default_memory_difficulty` and
/// `default_completion_rate`, each as read (absent where unset).
pub fn load_global_params(
    quality: Option<&str>,
    understanding_difficulty: Option<&str>,
    memory_difficulty: Option<&str>,
    completion_rate: Option<&str>,
) -> (r: SessionParams)
    ensures
        r.quality == stored_quality(opt_view(quality)),
        r.understanding_difficulty == stored_difficulty(opt_view(understanding_difficulty)),
        r.memory_difficulty == stored_difficulty(opt_view(memory_difficulty)),
        r.completion_rate == stored_rate(opt_view(completion_rate)),
{
    let q = match quality {
        Some(t) => match Quality::parse(t) { Some(q) => q, None => Quality::Medium },
        None => Quality::Medium,
    };
    let ud = match understanding_difficulty {
        Some(t) => match Difficulty::parse(t) { Some(d) => d, None => Difficulty::Medium },
        None => Difficulty::Medium,
    };
    let md = match memory_difficulty {
        Some(t) => match Difficulty::parse(t) { Some(d) => d, None => Difficulty::Medium },
        None => Difficulty::Medium,
    };
    let cr = match completion_rate {
        Some(t) => match parse_u8(t) { Some(v) => v, None => 100 },
        None => 100,
    };
    SessionParams { quality: q, understanding_difficulty: ud, memory_difficulty: md, completion_rate: cr }
}

/// The settings that keep the global session defaults, as key and value.
pub fn save_global_params(params: &SessionParams) -> (r: Vec<(String, String)>)
    ensures
        r@.len() == 4,
        r@[0].0@ == "default_quality"@ && r@[0].1@ == quality_label(params.quality),
        r@[1].0@ == "default_understanding_difficulty"@ && r@[1].1@ == difficulty_label(params.understanding_difficulty),
        r@[2].0@ == "default_memory_difficulty"@ && r@[2].1@ == difficulty_label(params.memory_difficulty),
        r@[3].0@ == "default_completion_rate"@ && r@[3].1@ == crate::text::decimal(params.completion_rate as int),
{
    let mut out: Vec<(String, String)> = Vec::new();
    out.push((owned("default_quality"), owned(params.quality.as_str())));
    out.push((owned("default_understanding_difficulty"), owned(params.understanding_difficulty.as_str())));
    out.push((owned("default_memory_difficulty"), owned(params.memory_difficulty.as_str())));
    let mut rate = String::new();
    push_decimal(&mut rate, params.completion_rate as i64);
    out.push((owned("default_completion_rate"), rate));
    out
}

} // verus!
