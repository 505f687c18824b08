//! Control-surface layout rules of the remote: which UI group a parameter
//! address belongs to, its order within the group, and its display label.

use vstd::prelude::*;
use vstd::string::*;
use crate::text::{
    chars_equal, chars_from, chars_range, decimal, find_char, first_index_of, has_prefix,
    last_index_of, lemma_first_index_of, lemma_last_index_of, parse_usize, parse_usize_chars, push_decimal, replace_all, replace_chars,
    rfind_char, starts_with_chars, str_chars, string_from_chars,
};

verus! {

/// Reverb segments, in display order.
pub open spec fn reverb_segments() -> Seq<Seq<char>> {
    seq!["size"@, "feedback"@, "balance"@, "pre_delay_ms"@, "hpf_hz"@, "lpf_hz"@, "chorus"@, "send"@]
}

/// Stereo delay segments, in display order.
pub open spec fn stereo_delay_segments() -> Seq<Seq<char>> {
    seq!["send"@, "fb_local"@, "fb_cross"@, "time_l_ms"@, "time_r_ms"@, "lpf_hz"@]
}

/// Tape delay segments, in display order.
pub open spec fn tape_delay_segments() -> Seq<Seq<char>> {
    seq![
        "send"@,
        "repeat_rate_ms"@,
        "intensity"@,
        "h1_level"@,
        "h2_level"@,
        "h3_level"@,
        "saturation_drive"@,
        "hf_rolloff_hz"@,
        "wow_depth"@,
        "wow_rate_hz"@,
        "flutter_depth"@,
        "flutter_rate_hz"@,
    ]
}

/// Compressor segments, in display order.
pub open spec fn compressor_segments() -> Seq<Seq<char>> {
    seq!["threshold_db"@, "ratio"@, "attack_ms"@, "release_ms"@, "knee_db"@, "makeup_db"@]
}

/// The position of `seg` in `list`, or the length of `list` when absent.
pub open spec fn position_of(list: Seq<Seq<char>>, seg: Seq<char>) -> nat
    decreases list.len(),
{
    if list.len() == 0 {
        0
    } else if list[0] == seg {
        0
    } else {
        1 + position_of(list.drop_first(), seg)
    }
}

/// Sort key of a mixer segment within its group.
pub open spec fn mixer_order(seg: Seq<char>) -> nat {
    if seg == "gain_db"@ {
        0
    } else if seg == "pan"@ {
        1
    } else if seg == "mute"@ {
        2
    } else if seg == "send_reverb"@ {
        3
    } else if seg == "send_stereo_delay"@ {
        4
    } else if seg == "send_tape_delay"@ {
        5
    } else if seg == "send_pre_fader"@ {
        6
    } else {
        99
    }
}

/// `s` after prefix `p`.
pub open spec fn after(s: Seq<char>, p: Seq<char>) -> Seq<char> {
    s.subrange(p.len() as int, s.len() as int)
}

/// The strip index of an input-strip address `/mixer/input/N/segment`.
pub open spec fn input_index(path: Seq<char>) -> Option<usize> {
    if has_prefix(path, "/mixer/input/"@) {
        let rest = after(path, "/mixer/input/"@);
        match first_index_of(rest, '/') {
            Some(k) => parse_usize(rest.subrange(0, k)),
            None => None,
        }
    } else {
        None
    }
}

/// UI group and in-group sort key of a parameter address.
pub open spec fn group_and_order_spec(path: Seq<char>) -> (Seq<char>, nat) {
    if has_prefix(path, "/reverb/"@) {
        ("Reverb"@, position_of(reverb_segments(), after(path, "/reverb/"@)))
    } else if has_prefix(path, "/stereo_delay/"@) {
        ("Stereo Delay"@, position_of(stereo_delay_segments(), after(path, "/stereo_delay/"@)))
    } else if has_prefix(path, "/tape_delay/"@) {
        ("Tape Delay"@, position_of(tape_delay_segments(), after(path, "/tape_delay/"@)))
    } else if has_prefix(path, "/compressor/"@) {
        ("Compressor"@, position_of(compressor_segments(), after(path, "/compressor/"@)))
    } else if has_prefix(path, "/mixer/master/"@) {
        ("Master"@, mixer_order(after(path, "/mixer/master/"@)))
    } else if has_prefix(path, "/mixer/reverb_return/"@) {
        ("Reverb Return"@, mixer_order(after(path, "/mixer/reverb_return/"@)))
    } else if has_prefix(path, "/mixer/stereo_delay_return/"@) {
        ("Stereo Delay Return"@, mixer_order(after(path, "/mixer/stereo_delay_return/"@)))
    } else if has_prefix(path, "/mixer/tape_delay_return/"@) {
        ("Tape Delay Return"@, mixer_order(after(path, "/mixer/tape_delay_return/"@)))
    } else {
        match input_index(path) {
            Some(idx) => {
                let rest = after(path, "/mixer/input/"@);
                let k = first_index_of(rest, '/')->0;
                ("Input "@ + decimal((idx + 1) as nat), mixer_order(rest.subrange(k + 1, rest.len() as int)))
            },
            None => ("Other"@, 999),
        }
    }
}

/// The characters of a string literal.
fn lit(s: &str) -> (r: Vec<char>)
    ensures
        r@ == s@,
{
    str_chars(s)
}

/// True when `seg` equals the string `s`.
fn seg_is(seg: &[char], s: &str) -> (r: bool)
    ensures
        r == (seg@ == s@),
{
    let v = str_chars(s);
    chars_equal(seg, v.as_slice())
}

/// The position of `seg` in `ordered`, or `ordered.len()` when absent.
fn order_of(seg: &[char], ordered: &[&str]) -> (r: usize)
    ensures
        r as nat == position_of(ordered@.map_values(|x: &str| x@), seg@),
{
    let ghost list = ordered@.map_values(|x: &str| x@);
    let mut i: usize = 0;
    assert(list.subrange(0, list.len() as int) =~= list);
    while i < ordered.len()
        invariant
            list == ordered@.map_values(|x: &str| x@),
            i <= ordered.len(),
            forall|j: int| 0 <= j < i ==> list[j] != seg@,
            position_of(list, seg@) == i + position_of(list.subrange(i as int, list.len() as int), seg@),
        decreases ordered.len() - i,
    {
        let ghost rest = list.subrange(i as int, list.len() as int);
        assert(rest[0] == list[i as int]);
        if seg_is(seg, ordered[i]) {
            return i;
        }
        assert(rest.drop_first() =~= list.subrange(i + 1, list.len() as int));
        i = i + 1;
    }
    i
}

/// Sort key of `seg` within a list of segments: its position, or the
/// list's length when absent.
pub fn reverb_echo_order(seg: &str, ordered: &[&str]) -> (r: usize)
    ensures
        r as nat == position_of(ordered@.map_values(|x: &str| x@), seg@),
{
    let v = str_chars(seg);
    order_of(v.as_slice(), ordered)
}

fn mixer_order_chars(seg: &[char]) -> (r: usize)
    ensures
        r as nat == mixer_order(seg@),
{
    if seg_is(seg, "gain_db") {
        0
    } else if seg_is(seg, "pan") {
        1
    } else if seg_is(seg, "mute") {
        2
    } else if seg_is(seg, "send_reverb") {
        3
    } else if seg_is(seg, "send_stereo_delay") {
        4
    } else if seg_is(seg, "send_tape_delay") {
        5
    } else if seg_is(seg, "send_pre_fader") {
        6
    } else {
        99
    }
}

/// Sort key of a mixer segment within its group.
pub fn mixer_segment_order(seg: &str) -> (r: usize)
    ensures
        r as nat == mixer_order(seg@),
{
    let v = str_chars(seg);
    mixer_order_chars(v.as_slice())
}

fn reverb_list() -> (r: Vec<&'static str>)
    ensures
        r@.map_values(|x: &str| x@) == reverb_segments(),
{
    let mut r: Vec<&'static str> = Vec::new();
    r.push("size");
    r.push("feedback");
    r.push("balance");
    r.push("pre_delay_ms");
    r.push("hpf_hz");
    r.push("lpf_hz");
    r.push("chorus");
    r.push("send");
    assert(r@.map_values(|x: &str| x@) =~= reverb_segments());
    r
}

fn stereo_delay_list() -> (r: Vec<&'static str>)
    ensures
        r@.map_values(|x: &str| x@) == stereo_delay_segments(),
{
    let mut r: Vec<&'static str> = Vec::new();
    r.push("send");
    r.push("fb_local");
    r.push("fb_cross");
    r.push("time_l_ms");
    r.push("time_r_ms");
    r.push("lpf_hz");
    assert(r@.map_values(|x: &str| x@) =~= stereo_delay_segments());
    r
}

fn tape_delay_list() -> (r: Vec<&'static str>)
    ensures
        r@.map_values(|x: &str| x@) == tape_delay_segments(),
{
    let mut r: Vec<&'static str> = Vec::new();
    r.push("send");
    r.push("repeat_rate_ms");
    r.push("intensity");
    r.push("h1_level");
    r.push("h2_level");
    r.push("h3_level");
    r.push("saturation_drive");
    r.push("hf_rolloff_hz");
    r.push("wow_depth");
    r.push("wow_rate_hz");
    r.push("flutter_depth");
    r.push("flutter_rate_hz");
    assert(r@.map_values(|x: &str| x@) =~= tape_delay_segments());
    r
}

fn compressor_list() -> (r: Vec<&'static str>)
    ensures
        r@.map_values(|x: &str| x@) == compressor_segments(),
{
    let mut r: Vec<&'static str> = Vec::new();
    r.push("threshold_db");
    r.push("ratio");
    r.push("attack_ms");
    r.push("release_ms");
    r.push("knee_db");
    r.push("makeup_db");
    assert(r@.map_values(|x: &str| x@) =~= compressor_segments());
    r
}

/// If `p` starts with `prefix`, the rest of `p`.
fn strip_prefix_chars(p: &[char], prefix: &str) -> (r: Option<Vec<char>>)
    ensures
        r is Some == has_prefix(p@, prefix@),
        r matches Some(rest) ==> rest@ == after(p@, prefix@),
{
    let pre = str_chars(prefix);
    if starts_with_chars(p, pre.as_slice()) {
        Some(chars_from(p, pre.len()))
    } else {
        None
    }
}

/// Buckets a parameter address into a UI group, with a stable per-group sort
/// key. Unknown addresses land in `Other` with key 999.
pub fn group_and_order(path: &str) -> (r: (String, usize))
    requires
        input_index(path@) != Some(usize::MAX),
    ensures
        (r.0@, r.1 as nat) == group_and_order_spec(path@),
{
    let p = str_chars(path);
    let ps = p.as_slice();
    if let Some(rest) = strip_prefix_chars(ps, "/reverb/") {
        let list = reverb_list();
        return (String::from_str("Reverb"), order_of(rest.as_slice(), list.as_slice()));
    }
    if let Some(rest) = strip_prefix_chars(ps, "/stereo_delay/") {
        let list = stereo_delay_list();
        return (String::from_str("Stereo Delay"), order_of(rest.as_slice(), list.as_slice()));
    }
    if let Some(rest) = strip_prefix_chars(ps, "/tape_delay/") {
        let list = tape_delay_list();
        return (String::from_str("Tape Delay"), order_of(rest.as_slice(), list.as_slice()));
    }
    if let Some(rest) = strip_prefix_chars(ps, "/compressor/") {
        let list = compressor_list();
        return (String::from_str("Compressor"), order_of(rest.as_slice(), list.as_slice()));
    }
    if let Some(rest) = strip_prefix_chars(ps, "/mixer/master/") {
        return (String::from_str("Master"), mixer_order_chars(rest.as_slice()));
    }
    if let Some(rest) = strip_prefix_chars(ps, "/mixer/reverb_return/") {
        return (String::from_str("Reverb Return"), mixer_order_chars(rest.as_slice()));
    }
    if let Some(rest) = strip_prefix_chars(ps, "/mixer/stereo_delay_return/") {
        return (String::from_str("Stereo Delay Return"), mixer_order_chars(rest.as_slice()));
    }
    if let Some(rest) = strip_prefix_chars(ps, "/mixer/tape_delay_return/") {
        return (String::from_str("Tape Delay Return"), mixer_order_chars(rest.as_slice()));
    }
    if let Some(rest) = strip_prefix_chars(ps, "/mixer/input/") {
        // /mixer/input/N/segment
        if let Some(k) = find_char(rest.as_slice(), '/') {
            proof {
                lemma_first_index_of(rest@, '/');
            }
            let n = chars_range(rest.as_slice(), 0, k);
            let seg = chars_from(rest.as_slice(), k + 1);
            if let Some(idx) = parse_usize_chars(n.as_slice()) {
                let mut group = String::from_str("Input ");
                push_decimal(&mut group, idx + 1);
                return (group, mixer_order_chars(seg.as_slice()));
            }
        }
    }
    (String::from_str("Other"), 999)
}

/// Uppercase mapping of a character, as `char::to_uppercase` yields it.
pub uninterp spec fn uppercase_of(c: char) -> Seq<char>;

/// The characters that `char::to_uppercase` yields for `c`.
///
/// Calls `char::to_uppercase` and collects its output. The contract claims
/// that the result is `uppercase_of(c)`, that an ASCII lowercase letter maps
/// to its uppercase letter, and that every other ASCII character maps to
/// itself; it says nothing of other characters' mappings.
#[verifier::external_body]
fn to_uppercase_chars(c: char) -> (r: Vec<char>)
    ensures
        r@ == uppercase_of(c),
        'a' <= c && c <= 'z' ==> r@ == seq![((c as u32) - 32) as char],
        (c as u32) < 128 && !('a' <= c && c <= 'z') ==> r@ == seq![c],
{
    c.to_uppercase().collect()
}

/// The part of `path` after its last `/` (all of it when there is none).
pub open spec fn last_segment(path: Seq<char>) -> Seq<char> {
    match last_index_of(path, '/') {
        Some(k) => path.subrange(k + 1, path.len() as int),
        None => path,
    }
}

/// Underscores become spaces, and the first character of each word is
/// uppercased (`upper` says whether the next character starts a word).
pub open spec fn capitalize(s: Seq<char>, upper: bool) -> Seq<char>
    decreases s.len(),
{
    if s.len() == 0 {
        s
    } else if s[0] == '_' {
        seq![' '] + capitalize(s.drop_first(), true)
    } else if upper {
        uppercase_of(s[0]) + capitalize(s.drop_first(), false)
    } else {
        seq![s[0]] + capitalize(s.drop_first(), false)
    }
}

/// Display label of a parameter address: its last segment with underscores
/// as spaces and words capitalized, and the units dB, Hz and ms in brackets.
pub open spec fn label_spec(path: Seq<char>) -> Seq<char> {
    replace_all(
        replace_all(replace_all(capitalize(last_segment(path), true), " Db"@, " (dB)"@), " Hz"@, " (Hz)"@),
        " Ms"@,
        " (ms)"@,
    )
}

/// Display label of a parameter address, such as `Pre Delay (ms)` for
/// `/reverb/pre_delay_ms`.
pub fn label_for(path: &str) -> (r: String)
    ensures
        r@ == label_spec(path@),
{
    let p = str_chars(path);
    proof {
        lemma_last_index_of(p@, '/');
    }
    let last = match rfind_char(p.as_slice(), '/') {
        Some(k) => chars_from(p.as_slice(), k + 1),
        None => p,
    };
    let ghost lseq = last@;
    assert(lseq == last_segment(path@));
    let mut out: Vec<char> = Vec::new();
    let mut next_upper = true;
    let mut i: usize = 0;
    assert(last@.subrange(0, last.len() as int) =~= last@);
    assert(out@ + last@ =~= last@);
    while i < last.len()
        invariant
            i <= last.len(),
            lseq == last@,
            out@ + capitalize(last@.subrange(i as int, last.len() as int), next_upper) == capitalize(
                lseq,
                true,
            ),
        decreases last.len() - i,
    {
        let ch = last[i];
        let ghost rest = last@.subrange(i as int, last.len() as int);
        let ghost before = out@;
        let ghost up = next_upper;
        assert(rest[0] == ch);
        assert(rest.drop_first() =~= last@.subrange(i + 1, last.len() as int));
        if ch == '_' {
            out.push(' ');
            next_upper = true;
        } else if next_upper {
            let u = to_uppercase_chars(ch);
            let mut k: usize = 0;
            while k < u.len()
                invariant
                    k <= u.len(),
                    out@ == before + u@.subrange(0, k as int),
                decreases u.len() - k,
            {
                out.push(u[k]);
                k = k + 1;
            }
            assert(u@.subrange(0, u.len() as int) =~= u@);
            next_upper = false;
        } else {
            out.push(ch);
        }
        assert(before + capitalize(rest, up) =~= out@ + capitalize(rest.drop_first(), next_upper));
        i = i + 1;
    }
    assert(last@.subrange(last.len() as int, last.len() as int) =~= Seq::<char>::empty());
    assert(out@ + Seq::<char>::empty() =~= out@);
    proof {
        reveal_strlit(" Db");
        reveal_strlit(" Hz");
        reveal_strlit(" Ms");
    }
    let db = lit(" Db");
    let db_r = lit(" (dB)");
    let hz = lit(" Hz");
    let hz_r = lit(" (Hz)");
    let ms = lit(" Ms");
    let ms_r = lit(" (ms)");
    let a = replace_chars(out.as_slice(), db.as_slice(), db_r.as_slice());
    let b = replace_chars(a.as_slice(), hz.as_slice(), hz_r.as_slice());
    let c = replace_chars(b.as_slice(), ms.as_slice(), ms_r.as_slice());
    string_from_chars(c.as_slice())
}

} // verus!
