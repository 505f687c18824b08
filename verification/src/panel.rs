//! The remote's parameter panel: reading the engine's `/list/item` replies,
//! bucketing the parameters into groups with the groups in panel order and
//! each group's parameters in their in-group order, finding the row of an
//! address, and reading the messages the engine pushes.

use vstd::prelude::*;
use vstd::string::*;
use crate::osc::{float_bits_at_least_half, list_item_args, strip_of, strip_suffix, target_path, ListedKind, RouteTarget};
use crate::wire::{datagram_messages, decoded_messages, messages_view, WireArg, WireArgView, WireMessageView};
use crate::remote::{after, group_and_order, group_and_order_spec, input_index, label_for, label_spec, mixer_order};
use crate::text::{
    all_digits, chars_equal, chars_from, decimal, first_index_of, has_prefix, is_digit, lemma_decimal_value, parse_usize,
    parse_usize_chars, starts_with_chars, str_chars, string_from_chars,
};

verus! {

/// Strict lexicographic order on character sequences, the order of `String`
/// (UTF-8 byte order and code-point order agree).
pub open spec fn lex_lt(a: Seq<char>, b: Seq<char>) -> bool
    decreases a.len(),
{
    if a.len() == 0 {
        b.len() > 0
    } else if b.len() == 0 {
        false
    } else if a[0] != b[0] {
        a[0] < b[0]
    } else {
        lex_lt(a.drop_first(), b.drop_first())
    }
}

/// No sequence precedes itself.
pub proof fn lemma_lex_irreflexive(a: Seq<char>)
    ensures
        !lex_lt(a, a),
    decreases a.len(),
{
    if a.len() > 0 {
        lemma_lex_irreflexive(a.drop_first());
    }
}

/// Of two distinct sequences, one precedes the other.
pub proof fn lemma_lex_total(a: Seq<char>, b: Seq<char>)
    requires
        a != b,
    ensures
        lex_lt(a, b) || lex_lt(b, a),
    decreases a.len(),
{
    if a.len() > 0 && b.len() > 0 && a[0] == b[0] {
        if a.drop_first() == b.drop_first() {
            assert(a =~= seq![a[0]] + a.drop_first());
            assert(b =~= seq![b[0]] + b.drop_first());
        }
        lemma_lex_total(a.drop_first(), b.drop_first());
    } else if a.len() == 0 && b.len() == 0 {
        assert(a =~= b);
    }
}

/// The order is transitive.
pub proof fn lemma_lex_transitive(a: Seq<char>, b: Seq<char>, c: Seq<char>)
    requires
        lex_lt(a, b),
        lex_lt(b, c),
    ensures
        lex_lt(a, c),
    decreases a.len(),
{
    if a.len() > 0 && a[0] == b[0] && b[0] == c[0] {
        lemma_lex_transitive(a.drop_first(), b.drop_first(), c.drop_first());
    }
}

/// Lexicographic comparison of two character slices.
pub fn lex_less(a: &[char], b: &[char]) -> (r: bool)
    ensures
        r == lex_lt(a@, b@),
{
    let mut i: usize = 0;
    assert(a@.skip(0) =~= a@);
    assert(b@.skip(0) =~= b@);
    while i < a.len() && i < b.len()
        invariant
            i <= a.len(),
            i <= b.len(),
            lex_lt(a@, b@) == lex_lt(a@.skip(i as int), b@.skip(i as int)),
        decreases a.len() - i,
    {
        let ghost sa = a@.skip(i as int);
        let ghost sb = b@.skip(i as int);
        assert(sa[0] == a[i as int]);
        assert(sb[0] == b[i as int]);
        if a[i] != b[i] {
            return a[i] < b[i];
        }
        assert(sa.drop_first() =~= a@.skip(i + 1));
        assert(sb.drop_first() =~= b@.skip(i + 1));
        i = i + 1;
    }
    i == a.len() && i < b.len()
}

/// `s` with every leading repetition of `p` removed (`str::trim_start_matches`).
pub open spec fn trim_start_all(s: Seq<char>, p: Seq<char>) -> Seq<char>
    decreases s.len(),
{
    if p.len() > 0 && has_prefix(s, p) {
        trim_start_all(s.subrange(p.len() as int, s.len() as int), p)
    } else {
        s
    }
}

/// Panel position of a group: the effects first, then the master and the
/// returns, then the input strips by number, then anything else.
pub open spec fn group_priority_spec(name: Seq<char>) -> int {
    if name == "Reverb"@ {
        0
    } else if name == "Stereo Delay"@ {
        1
    } else if name == "Tape Delay"@ {
        2
    } else if name == "Compressor"@ {
        3
    } else if name == "Master"@ {
        4
    } else if name == "Reverb Return"@ {
        5
    } else if name == "Stereo Delay Return"@ {
        6
    } else if name == "Tape Delay Return"@ {
        7
    } else if has_prefix(name, "Input "@) {
        10 + match parse_usize(trim_start_all(name, "Input "@)) {
            Some(n) => n as int,
            None => 0,
        }
    } else {
        100
    }
}

/// True when `s` holds exactly the characters of `lit`.
fn is_lit(s: &[char], lit: &str) -> (r: bool)
    ensures
        r == (s@ == lit@),
{
    let v = str_chars(lit);
    chars_equal(s, v.as_slice())
}

/// Panel position of a group. An input group's number must leave room for
/// the offset of the input groups.
pub fn group_priority(name: &[char]) -> (r: usize)
    requires
        group_priority_spec(name@) <= usize::MAX,
    ensures
        r == group_priority_spec(name@),
{
    if is_lit(name, "Reverb") {
        0
    } else if is_lit(name, "Stereo Delay") {
        1
    } else if is_lit(name, "Tape Delay") {
        2
    } else if is_lit(name, "Compressor") {
        3
    } else if is_lit(name, "Master") {
        4
    } else if is_lit(name, "Reverb Return") {
        5
    } else if is_lit(name, "Stereo Delay Return") {
        6
    } else if is_lit(name, "Tape Delay Return") {
        7
    } else {
        let pre = str_chars("Input ");
        proof {
            reveal_strlit("Input ");
        }
        if starts_with_chars(name, pre.as_slice()) {
            let mut rest: Vec<char> = chars_from(name, pre.len());
            assert(trim_start_all(name@, pre@) == trim_start_all(rest@, pre@));
            while starts_with_chars(rest.as_slice(), pre.as_slice())
                invariant
                    pre@ == "Input "@,
                    pre@.len() == 6,
                    trim_start_all(rest@, pre@) == trim_start_all(name@, pre@),
                decreases rest.len(),
            {
                rest = chars_from(rest.as_slice(), pre.len());
            }
            match parse_usize_chars(rest.as_slice()) {
                Some(n) => 10 + n,
                None => 10,
            }
        } else {
            100
        }
    }
}

/// Panel order of groups: by position, ties by name.
pub open spec fn group_lt(a: Seq<char>, b: Seq<char>) -> bool {
    group_priority_spec(a) < group_priority_spec(b) || (group_priority_spec(a) == group_priority_spec(b)
        && lex_lt(a, b))
}

/// Panel order is transitive.
proof fn lemma_group_lt_transitive(a: Seq<char>, b: Seq<char>, c: Seq<char>)
    requires
        group_lt(a, b),
        group_lt(b, c),
    ensures
        group_lt(a, c),
{
    if group_priority_spec(a) == group_priority_spec(b) && group_priority_spec(b) == group_priority_spec(c) {
        lemma_lex_transitive(a, b, c);
    }
}

/// Of two distinct names, one comes first in panel order.
proof fn lemma_group_lt_total(a: Seq<char>, b: Seq<char>)
    requires
        a != b,
    ensures
        group_lt(a, b) || group_lt(b, a),
{
    lemma_lex_total(a, b);
}

/// In-group order of two parameters, by sort key and then by their position
/// in the schema (the sort is stable).
pub open spec fn member_lt(orders: Seq<usize>, x: usize, y: usize) -> bool {
    orders[x as int] < orders[y as int] || (orders[x as int] == orders[y as int] && x < y)
}

/// One panel group: its title and the schema positions of its parameters,
/// in display order.
#[derive(Debug, Clone)]
pub struct GroupLayout {
    pub title: String,
    pub members: Vec<usize>,
}

/// `titles` lists the distinct group names in panel order and `members[g]`
/// the positions of the parameters of group `titles[g]` in in-group order:
/// every parameter occurs exactly once, under its own group.
pub open spec fn is_panel_layout(
    groups: Seq<Seq<char>>,
    orders: Seq<usize>,
    titles: Seq<Seq<char>>,
    members: Seq<Seq<usize>>,
) -> bool {
    &&& titles.len() == members.len()
    &&& forall|g: int, h: int| 0 <= g < h < titles.len() ==> group_lt(#[trigger] titles[g], #[trigger] titles[h])
    &&& forall|g: int| 0 <= g < titles.len() ==> (#[trigger] members[g]).len() > 0
    &&& forall|g: int, a: int, b: int|
        0 <= g < titles.len() && 0 <= a < b < members[g].len() ==> member_lt(
            orders,
            #[trigger] members[g][a],
            #[trigger] members[g][b],
        )
    &&& forall|g: int, a: int|
        0 <= g < titles.len() && 0 <= a < members[g].len() ==> (#[trigger] members[g][a]) < groups.len()
            && groups[members[g][a] as int] == titles[g]
    &&& forall|i: int| 0 <= i < groups.len() ==> titles.contains(#[trigger] groups[i])
    &&& forall|g: int, i: int|
        0 <= g < titles.len() && 0 <= i < groups.len() && #[trigger] titles[g] == #[trigger] groups[i]
            ==> members[g].contains(i as usize)
}

/// Where parameter `i` goes in the in-group-ordered `members`: after every
/// member whose sort key does not exceed its own.
fn member_slot(members: &Vec<usize>, orders: &[usize], i: usize) -> (p: usize)
    requires
        forall|a: int| 0 <= a < members.len() ==> (#[trigger] members@[a]) < orders.len(),
        i < orders.len(),
    ensures
        p <= members.len(),
        forall|a: int| 0 <= a < p ==> orders@[#[trigger] members@[a] as int] <= orders@[i as int],
        p < members.len() ==> orders@[i as int] < orders@[members@[p as int] as int],
{
    let mut k: usize = 0;
    while k < members.len()
        invariant
            k <= members.len(),
            forall|a: int| 0 <= a < members.len() ==> (#[trigger] members@[a]) < orders.len(),
            i < orders.len(),
            forall|a: int| 0 <= a < k ==> orders@[#[trigger] members@[a] as int] <= orders@[i as int],
        decreases members.len() - k,
    {
        if orders[i] < orders[members[k]] {
            return k;
        }
        k = k + 1;
    }
    k
}

/// The characters of each vector.
pub open spec fn char_views(v: Seq<Vec<char>>) -> Seq<Seq<char>> {
    v.map_values(|c: Vec<char>| c@)
}

/// Every name strictly precedes the next in panel order.
pub open spec fn panel_sorted(ts: Seq<Seq<char>>) -> bool {
    forall|g: int, h: int| 0 <= g < h < ts.len() ==> group_lt(#[trigger] ts[g], #[trigger] ts[h])
}

/// Where `t` goes in the panel-ordered `titles`: after every title before it.
fn title_slot(titles: &Vec<Vec<char>>, t: &[char], tp: usize) -> (p: usize)
    requires
        tp == group_priority_spec(t@),
        forall|k: int| 0 <= k < titles.len() ==> group_priority_spec(#[trigger] titles@[k]@) <= usize::MAX,
    ensures
        p <= titles.len(),
        forall|k: int| 0 <= k < p ==> !group_lt(t@, #[trigger] titles@[k]@),
        p < titles.len() ==> group_lt(t@, titles@[p as int]@),
{
    let mut k: usize = 0;
    while k < titles.len()
        invariant
            k <= titles.len(),
            tp == group_priority_spec(t@),
            forall|j: int| 0 <= j < titles.len() ==> group_priority_spec(#[trigger] titles@[j]@) <= usize::MAX,
            forall|j: int| 0 <= j < k ==> !group_lt(t@, #[trigger] titles@[j]@),
        decreases titles.len() - k,
    {
        let kp = group_priority(titles[k].as_slice());
        if tp < kp || (tp == kp && lex_less(t, titles[k].as_slice())) {
            return k;
        }
        k = k + 1;
    }
    k
}

/// Inserts a new name `t` into the panel-ordered `titles`.
fn insert_title(titles: &mut Vec<Vec<char>>, t: Vec<char>) -> (p: usize)
    requires
        panel_sorted(char_views(old(titles)@)),
        !char_views(old(titles)@).contains(t@),
        group_priority_spec(t@) <= usize::MAX,
        forall|k: int| 0 <= k < old(titles).len() ==> group_priority_spec(#[trigger] old(titles)@[k]@) <= usize::MAX,
    ensures
        panel_sorted(char_views(final(titles)@)),
        p <= old(titles).len(),
        char_views(final(titles)@) == char_views(old(titles)@).insert(p as int, t@),
{
    let tp = group_priority(t.as_slice());
    let p = title_slot(titles, t.as_slice(), tp);
    let ghost old_v = char_views(titles@);
    proof {
        assert forall|k: int| 0 <= k < p implies group_lt(#[trigger] old_v[k], t@) by {
            assert(old_v[k] == titles@[k]@);
            if old_v[k] == t@ {
                assert(old_v.contains(t@));
            }
            lemma_group_lt_total(t@, old_v[k]);
        }
        if p < old_v.len() {
            assert(old_v[p as int] == titles@[p as int]@);
        }
    }
    let ghost tv = t@;
    titles.insert(p, t);
    let ghost new_v = char_views(titles@);
    proof {
        assert(new_v =~= old_v.insert(p as int, tv));
        assert forall|g: int, h: int| 0 <= g < h < new_v.len() implies group_lt(
            #[trigger] new_v[g],
            #[trigger] new_v[h],
        ) by {
            if h < p {
            } else if h == p {
            } else if g == p {
                if h - 1 > p {
                    lemma_group_lt_transitive(tv, old_v[p as int], old_v[h - 1]);
                }
            } else if g < p {
                lemma_group_lt_transitive(old_v[g], tv, old_v[p as int]);
                if h - 1 > p {
                    lemma_group_lt_transitive(old_v[g], old_v[p as int], old_v[h - 1]);
                }
            }
        }
    }
    p
}

/// The distinct group names of `groups`, in panel order.
fn panel_titles(groups: &Vec<Vec<char>>) -> (titles: Vec<Vec<char>>)
    requires
        forall|i: int| 0 <= i < groups.len() ==> group_priority_spec(#[trigger] groups@[i]@) <= usize::MAX,
    ensures
        panel_sorted(char_views(titles@)),
        forall|x: Seq<char>| #[trigger] char_views(titles@).contains(x) <==> char_views(groups@).contains(x),
{
    let ghost gv = char_views(groups@);
    let mut titles: Vec<Vec<char>> = Vec::new();
    let mut i: usize = 0;
    while i < groups.len()
        invariant
            i <= groups.len(),
            gv == char_views(groups@),
            forall|j: int| 0 <= j < groups.len() ==> group_priority_spec(#[trigger] groups@[j]@) <= usize::MAX,
            panel_sorted(char_views(titles@)),
            forall|x: Seq<char>|
                #[trigger] char_views(titles@).contains(x) <==> gv.subrange(0, i as int).contains(x),
        decreases groups.len() - i,
    {
        let ghost before = char_views(titles@);
        let t = groups[i].clone();
        assert(t@ == gv[i as int]);
        let mut found = false;
        let mut k: usize = 0;
        while k < titles.len()
            invariant
                k <= titles.len(),
                before == char_views(titles@),
                found ==> before.contains(t@),
                !found ==> forall|g: int| 0 <= g < k ==> #[trigger] before[g] != t@,
            decreases titles.len() - k,
        {
            if chars_equal(titles[k].as_slice(), t.as_slice()) {
                found = true;
                assert(before[k as int] == t@);
            }
            k = k + 1;
        }
        proof {
            assert forall|k: int| 0 <= k < titles.len() implies group_priority_spec(#[trigger] titles@[k]@)
                <= usize::MAX by {
                assert(before.contains(before[k]));
                let j = choose|j: int| 0 <= j < i && gv.subrange(0, i as int)[j] == before[k];
                assert(gv[j] == groups@[j]@);
            }
        }
        let mut q: usize = 0;
        if !found {
            q = insert_title(&mut titles, t);
            proof {
                before.insert_ensures(q as int, gv[i as int]);
            }
        }
        proof {
            let after = char_views(titles@);
            assert forall|x: Seq<char>| #[trigger] after.contains(x) <==> gv.subrange(0, i + 1).contains(x) by {
                let prev = gv.subrange(0, i as int);
                let next = gv.subrange(0, i + 1);
                assert(next =~= prev.push(gv[i as int]));
                if !found {
                    assert(after[q as int] == gv[i as int]);
                    if after.contains(x) && x != gv[i as int] {
                        let g = choose|g: int| 0 <= g < after.len() && after[g] == x;
                        if g < q {
                            assert(before[g] == x);
                            assert(before.contains(x));
                        } else {
                            assert(before[g - 1] == x);
                            assert(before.contains(x));
                        }
                    }
                    if before.contains(x) {
                        let g = choose|g: int| 0 <= g < before.len() && before[g] == x;
                        if g < q {
                            assert(after[g] == x);
                        } else {
                            assert(after[g + 1] == x);
                        }
                    }
                }
                if prev.contains(x) {
                    let j = choose|j: int| 0 <= j < prev.len() && prev[j] == x;
                    assert(next[j] == x);
                }
                if next.contains(x) && x != gv[i as int] {
                    let j = choose|j: int| 0 <= j < next.len() && next[j] == x;
                    assert(prev[j] == x);
                }
                if x == gv[i as int] {
                    assert(next[i as int] == x);
                }
            }
        }
        i = i + 1;
    }
    assert(gv.subrange(0, groups.len() as int) =~= gv);
    titles
}

/// The positions of the entries of group `title`, in in-group order.
fn group_members(groups: &Vec<Vec<char>>, orders: &[usize], title: &[char]) -> (m: Vec<usize>)
    requires
        groups.len() == orders.len(),
    ensures
        forall|a: int, b: int| 0 <= a < b < m.len() ==> member_lt(orders@, #[trigger] m@[a], #[trigger] m@[b]),
        forall|a: int| 0 <= a < m.len() ==> (#[trigger] m@[a]) < groups.len() && groups@[m@[a] as int]@ == title@,
        forall|i: int| 0 <= i < groups.len() && (#[trigger] groups@[i])@ == title@ ==> m@.contains(i as usize),
{
    let mut m: Vec<usize> = Vec::new();
    let mut i: usize = 0;
    while i < groups.len()
        invariant
            i <= groups.len(),
            groups.len() == orders.len(),
            forall|a: int, b: int| 0 <= a < b < m.len() ==> member_lt(orders@, #[trigger] m@[a], #[trigger] m@[b]),
            forall|a: int| 0 <= a < m.len() ==> (#[trigger] m@[a]) < i && groups@[m@[a] as int]@ == title@,
            forall|j: int| 0 <= j < i && (#[trigger] groups@[j])@ == title@ ==> m@.contains(j as usize),
        decreases groups.len() - i,
    {
        if chars_equal(groups[i].as_slice(), title) {
            let p = member_slot(&m, orders, i);
            let ghost old_m = m@;
            m.insert(p, i);
            proof {
                old_m.insert_ensures(p as int, i);
                assert forall|a: int, b: int| 0 <= a < b < m.len() implies member_lt(
                    orders@,
                    #[trigger] m@[a],
                    #[trigger] m@[b],
                ) by {
                    if b < p {
                    } else if b == p {
                    } else if a == p {
                        if b - 1 > p {
                            assert(member_lt(orders@, old_m[p as int], old_m[b - 1]));
                        }
                    } else if a < p {
                    } else {
                        assert(m@[a] == old_m[a - 1]);
                        assert(m@[b] == old_m[b - 1]);
                    }
                }
                assert forall|a: int| 0 <= a < m.len() implies (#[trigger] m@[a]) < i + 1 && groups@[m@[a] as int]@
                    == title@ by {
                    if a > p {
                        assert(m@[a] == old_m[a - 1]);
                    }
                }
                assert forall|j: int| 0 <= j < i + 1 && (#[trigger] groups@[j])@ == title@ implies m@.contains(
                    j as usize,
                ) by {
                    if j == i {
                        assert(m@[p as int] == i);
                    } else {
                        assert(old_m.contains(j as usize));
                        let a = choose|a: int| 0 <= a < old_m.len() && old_m[a] == j as usize;
                        if a < p {
                            assert(m@[a] == j as usize);
                        } else {
                            assert(m@[a + 1] == j as usize);
                        }
                    }
                }
            }
        }
        i = i + 1;
    }
    m
}

/// Schema entry kind of one parameter, read from a `/list/item` reply;
/// `F` is the float type.
#[derive(Debug, Clone, Copy)]
pub enum ParamKind<F> {
    Float { min: F, max: F, default: F },
    Bool { default: bool },
}

/// Schema entry of one parameter, with its panel group and in-group key.
#[derive(Debug, Clone)]
pub struct Param<F> {
    pub path: String,
    pub kind: ParamKind<F>,
    pub label: String,
    pub group: String,
    pub order: usize,
}

/// One argument of a `/list/item` reply: text, a float (with whether it is
/// at least one half, which is how a bool default is sent), or anything else.
#[derive(Debug, Clone)]
pub enum ListArg<F> {
    Text(String),
    Float { value: F, at_least_half: bool },
    Other,
}

/// The address and kind that `/list/item` arguments
/// `[path, type, min, max, default]` describe; type `f` is a float
/// parameter, `b` a bool one. Further arguments are ignored.
pub open spec fn list_item_spec<F>(args: Seq<ListArg<F>>) -> Option<(Seq<char>, ParamKind<F>)> {
    if args.len() < 5 {
        None
    } else {
        match (args[0], args[1], args[2], args[3], args[4]) {
            (
                ListArg::Text(path),
                ListArg::Text(ty),
                ListArg::Float { value: min, .. },
                ListArg::Float { value: max, .. },
                ListArg::Float { value: default, at_least_half },
            ) => if ty@ == "f"@ {
                Some((path@, ParamKind::Float { min, max, default }))
            } else if ty@ == "b"@ {
                Some((path@, ParamKind::Bool { default: at_least_half }))
            } else {
                None
            },
            _ => None,
        }
    }
}

/// Reads one `/list/item` reply into a schema entry, with its group, sort
/// key and label; `None` when the arguments do not describe a parameter.
pub fn parse_list_item<F: Copy>(args: &[ListArg<F>]) -> (r: Option<Param<F>>)
    requires
        args@.len() > 0 ==> (args@[0] matches ListArg::Text(path) ==> input_index(path@) != Some(usize::MAX)),
    ensures
        r is Some <==> list_item_spec(args@) is Some,
        r matches Some(p) ==> (p.path@, p.kind) == list_item_spec(args@)->0 && (p.group@, p.order as nat)
            == group_and_order_spec(p.path@) && p.label@ == label_spec(p.path@),
{
    if args.len() < 5 {
        return None;
    }
    let path = match &args[0] {
        ListArg::Text(s) => s.clone(),
        _ => return None,
    };
    let ty = match &args[1] {
        ListArg::Text(s) => str_chars(s.as_str()),
        _ => return None,
    };
    let min = match &args[2] {
        ListArg::Float { value, .. } => *value,
        _ => return None,
    };
    let max = match &args[3] {
        ListArg::Float { value, .. } => *value,
        _ => return None,
    };
    let (default, at_least_half) = match &args[4] {
        ListArg::Float { value, at_least_half } => (*value, *at_least_half),
        _ => return None,
    };
    let kind = if is_lit(ty.as_slice(), "f") {
        ParamKind::Float { min, max, default }
    } else if is_lit(ty.as_slice(), "b") {
        ParamKind::Bool { default: at_least_half }
    } else {
        return None;
    };
    let (group, order) = group_and_order(path.as_str());
    let label = label_for(path.as_str());
    Some(Param { path, kind, label, group, order })
}

/// The group names of a schema.
pub open spec fn schema_groups<F>(schema: Seq<Param<F>>) -> Seq<Seq<char>> {
    schema.map_values(|p: Param<F>| p.group@)
}

/// The in-group sort keys of a schema.
pub open spec fn schema_orders<F>(schema: Seq<Param<F>>) -> Seq<usize> {
    schema.map_values(|p: Param<F>| p.order)
}

/// The titles of a layout.
pub open spec fn layout_titles(layout: Seq<GroupLayout>) -> Seq<Seq<char>> {
    layout.map_values(|g: GroupLayout| g.title@)
}

/// The member lists of a layout.
pub open spec fn layout_members(layout: Seq<GroupLayout>) -> Seq<Seq<usize>> {
    layout.map_values(|g: GroupLayout| g.members@)
}

/// Lays the schema out in panel groups: one group per distinct group name,
/// the groups in panel order (by position, ties by name), each listing the
/// positions of its parameters by sort key, ties in schema order.
pub fn group_layout<F>(schema: &[Param<F>]) -> (layout: Vec<GroupLayout>)
    requires
        forall|i: int| 0 <= i < schema@.len() ==> group_priority_spec((#[trigger] schema@[i]).group@) <= usize::MAX,
    ensures
        is_panel_layout(
            schema_groups(schema@),
            schema_orders(schema@),
            layout_titles(layout@),
            layout_members(layout@),
        ),
{
    let ghost sg = schema_groups(schema@);
    let ghost so = schema_orders(schema@);
    let mut groups: Vec<Vec<char>> = Vec::new();
    let mut orders: Vec<usize> = Vec::new();
    let mut i: usize = 0;
    while i < schema.len()
        invariant
            i <= schema.len(),
            sg == schema_groups(schema@),
            so == schema_orders(schema@),
            groups.len() == i,
            orders.len() == i,
            forall|j: int| 0 <= j < i ==> (#[trigger] groups@[j])@ == sg[j],
            forall|j: int| 0 <= j < i ==> #[trigger] orders@[j] == so[j],
        decreases schema.len() - i,
    {
        groups.push(str_chars(schema[i].group.as_str()));
        orders.push(schema[i].order);
        i = i + 1;
    }
    let ghost gv = char_views(groups@);
    assert(gv =~= sg);
    assert(orders@ =~= so);
    proof {
        assert forall|j: int| 0 <= j < groups.len() implies group_priority_spec(#[trigger] groups@[j]@)
            <= usize::MAX by {
            assert(groups@[j]@ == schema@[j].group@);
        }
    }
    let titles = panel_titles(&groups);
    let ghost tv = char_views(titles@);
    let mut layout: Vec<GroupLayout> = Vec::new();
    let mut g: usize = 0;
    while g < titles.len()
        invariant
            g <= titles.len(),
            tv == char_views(titles@),
            gv == char_views(groups@),
            gv == sg,
            orders@ == so,
            groups.len() == orders.len(),
            groups.len() == schema.len(),
            panel_sorted(tv),
            forall|x: Seq<char>| #[trigger] tv.contains(x) <==> gv.contains(x),
            layout.len() == g,
            forall|h: int| 0 <= h < g ==> (#[trigger] layout@[h]).title@ == tv[h],
            forall|h: int, a: int, b: int|
                0 <= h < g && 0 <= a < b < layout@[h].members.len() ==> member_lt(
                    so,
                    #[trigger] layout@[h].members@[a],
                    #[trigger] layout@[h].members@[b],
                ),
            forall|h: int, a: int|
                0 <= h < g && 0 <= a < layout@[h].members.len() ==> (#[trigger] layout@[h].members@[a]) < sg.len()
                    && sg[layout@[h].members@[a] as int] == tv[h],
            forall|h: int, i: int|
                #![trigger layout@[h], sg[i]]
                0 <= h < g && 0 <= i < sg.len() && sg[i] == tv[h] ==> layout@[h].members@.contains(i as usize),
        decreases titles.len() - g,
    {
        let members = group_members(&groups, orders.as_slice(), titles[g].as_slice());
        let title = string_from_chars(titles[g].as_slice());
        layout.push(GroupLayout { title, members });
        proof {
            assert(tv[g as int] == titles@[g as int]@);
            assert forall|i: int| 0 <= i < sg.len() && #[trigger] sg[i] == tv[g as int] implies layout@[g as int].members@.contains(
                i as usize,
            ) by {
                assert(groups@[i]@ == gv[i]);
            }
            assert forall|a: int| 0 <= a < layout@[g as int].members.len() implies (#[trigger] layout@[g as int].members@[a]) < sg.len()
                && sg[layout@[g as int].members@[a] as int] == tv[g as int] by {
                let k = layout@[g as int].members@[a] as int;
                assert(groups@[k]@ == gv[k]);
            }
        }
        g = g + 1;
    }
    proof {
        let lt = layout_titles(layout@);
        let lm = layout_members(layout@);
        assert(lt =~= tv);
        assert forall|h: int| 0 <= h < lt.len() implies (#[trigger] lm[h]).len() > 0 by {
            assert(tv.contains(tv[h]));
            assert(gv.contains(tv[h]));
            let i = choose|i: int| 0 <= i < gv.len() && gv[i] == tv[h];
            assert(sg[i] == tv[h]);
            let lh = layout@[h];
            assert(lh.members@.contains(i as usize));
        }
        assert forall|i: int| 0 <= i < sg.len() implies lt.contains(#[trigger] sg[i]) by {
            assert(gv.contains(gv[i]));
        }
        assert forall|h: int, i: int|
            0 <= h < lt.len() && 0 <= i < sg.len() && #[trigger] lt[h] == #[trigger] sg[i] implies lm[h].contains(
                i as usize,
            ) by {
            let lh = layout@[h];
            assert(lh.members@.contains(i as usize));
        }
        assert forall|h: int, a: int, b: int|
            0 <= h < lt.len() && 0 <= a < b < lm[h].len() implies member_lt(
                so,
                #[trigger] lm[h][a],
                #[trigger] lm[h][b],
            ) by {
            assert(lm[h] == layout@[h].members@);
        }
        assert forall|h: int, a: int| 0 <= h < lt.len() && 0 <= a < lm[h].len() implies (#[trigger] lm[h][a])
            < sg.len() && sg[lm[h][a] as int] == lt[h] by {
            assert(lm[h] == layout@[h].members@);
        }
        assert(lt.len() == lm.len());
        assert(panel_sorted(lt));
    }
    layout
}

/// True when `(g, p)` names a row of the layout: parameter `p` of group `g`.
pub open spec fn is_row(layout: Seq<GroupLayout>, g: int, p: int) -> bool {
    0 <= g < layout.len() && 0 <= p < layout[g].members.len()
}

/// The address of the parameter shown in row `(g, p)`.
pub open spec fn row_path<F>(layout: Seq<GroupLayout>, schema: Seq<Param<F>>, g: int, p: int) -> Seq<char> {
    schema[layout[g].members@[p] as int].path@
}

/// Row `(g, p)` comes before row `(h, q)` in panel order.
pub open spec fn row_before(g: int, p: int, h: int, q: int) -> bool {
    g < h || (g == h && p < q)
}

/// The row that shows the parameter at `path`, for applying pushed state
/// updates: the last row in panel order with that address (a later row
/// replaces an earlier one in the path index), or `None` if no row has it.
pub fn row_of<F>(layout: &[GroupLayout], schema: &[Param<F>], path: &str) -> (r: Option<(usize, usize)>)
    requires
        forall|g: int, a: int|
            0 <= g < layout@.len() && 0 <= a < layout@[g].members.len() ==> (#[trigger] layout@[g].members@[a])
                < schema@.len(),
    ensures
        r matches Some((g, p)) ==> is_row(layout@, g as int, p as int) && row_path(layout@, schema@, g as int, p as int)
            == path@ && forall|h: int, q: int|
            is_row(layout@, h, q) && row_before(g as int, p as int, h, q) ==> #[trigger] row_path(
                layout@,
                schema@,
                h,
                q,
            ) != path@,
        r is None ==> forall|h: int, q: int| is_row(layout@, h, q) ==> #[trigger] row_path(layout@, schema@, h, q) != path@,
{
    let target = str_chars(path);
    let mut best: Option<(usize, usize)> = None;
    let mut g: usize = 0;
    while g < layout.len()
        invariant
            g <= layout.len(),
            target@ == path@,
            forall|h: int, a: int|
                0 <= h < layout@.len() && 0 <= a < layout@[h].members.len() ==> (#[trigger] layout@[h].members@[a])
                    < schema@.len(),
            best matches Some((bg, bp)) ==> bg < g && is_row(layout@, bg as int, bp as int) && row_path(
                layout@,
                schema@,
                bg as int,
                bp as int,
            ) == path@ && forall|h: int, q: int|
                is_row(layout@, h, q) && h < g && row_before(bg as int, bp as int, h, q) ==> #[trigger] row_path(
                    layout@,
                    schema@,
                    h,
                    q,
                ) != path@,
            best is None ==> forall|h: int, q: int|
                is_row(layout@, h, q) && h < g ==> #[trigger] row_path(layout@, schema@, h, q) != path@,
        decreases layout.len() - g,
    {
        let ghost before = best;
        let mut p: usize = 0;
        while p < layout[g].members.len()
            invariant
                g < layout.len(),
                p <= layout@[g as int].members.len(),
                target@ == path@,
                forall|h: int, a: int|
                    0 <= h < layout@.len() && 0 <= a < layout@[h].members.len() ==> (#[trigger] layout@[h].members@[a])
                        < schema@.len(),
                best matches Some((bg, bp)) ==> bg <= g && (bg == g ==> bp < p) && is_row(layout@, bg as int, bp as int)
                    && row_path(layout@, schema@, bg as int, bp as int) == path@ && forall|h: int, q: int|
                    is_row(layout@, h, q) && (h < g || (h == g && q < p)) && row_before(bg as int, bp as int, h, q)
                        ==> #[trigger] row_path(layout@, schema@, h, q) != path@,
                best is None ==> forall|h: int, q: int|
                    is_row(layout@, h, q) && (h < g || (h == g && q < p)) ==> #[trigger] row_path(
                        layout@,
                        schema@,
                        h,
                        q,
                    ) != path@,
            decreases layout@[g as int].members.len() - p,
        {
            let k = layout[g].members[p];
            assert(k < schema@.len());
            let candidate = str_chars(schema[k].path.as_str());
            if chars_equal(candidate.as_slice(), target.as_slice()) {
                best = Some((g, p));
            }
            p = p + 1;
        }
        g = g + 1;
    }
    best
}

/// The first argument of a pushed message: a float, an integer, a bool, or
/// anything else.
#[derive(Debug, Clone, Copy)]
pub enum MsgArg<F> {
    Float(F),
    Int(i32),
    Bool(bool),
    Other,
}

/// One message pushed by the engine: its address and first argument, if any.
#[derive(Debug, Clone)]
pub struct InboundMessage<F> {
    pub addr: String,
    pub first: Option<MsgArg<F>>,
}

/// A change the panel shows: the DSP load, the xrun counters, or the state
/// of one parameter.
#[derive(Debug, Clone)]
pub enum UiUpdate<F> {
    DspLoad(F),
    OverrunCount(i32),
    UnderrunCount(i32),
    StateFloat { path: String, value: F },
    StateBool { path: String, value: bool },
}

/// Mathematical view of a panel change.
pub enum UiUpdateView<F> {
    DspLoad(F),
    OverrunCount(i32),
    UnderrunCount(i32),
    StateFloat { path: Seq<char>, value: F },
    StateBool { path: Seq<char>, value: bool },
}

impl<F> View for UiUpdate<F> {
    type V = UiUpdateView<F>;

    open spec fn view(&self) -> UiUpdateView<F> {
        match *self {
            UiUpdate::DspLoad(v) => UiUpdateView::DspLoad(v),
            UiUpdate::OverrunCount(v) => UiUpdateView::OverrunCount(v),
            UiUpdate::UnderrunCount(v) => UiUpdateView::UnderrunCount(v),
            UiUpdate::StateFloat { path, value } => UiUpdateView::StateFloat { path: path@, value },
            UiUpdate::StateBool { path, value } => UiUpdateView::StateBool { path: path@, value },
        }
    }
}

/// The panel change a pushed message asks for: telemetry by its fixed
/// addresses, parameter state under `/state`; meters and anything else
/// change nothing.
pub open spec fn update_spec<F>(addr: Seq<char>, first: Option<MsgArg<F>>) -> Option<UiUpdateView<F>> {
    if addr == "/telemetry/dsp_load"@ {
        match first {
            Some(MsgArg::Float(v)) => Some(UiUpdateView::DspLoad(v)),
            _ => None,
        }
    } else if addr == "/telemetry/xrun_overrun"@ {
        match first {
            Some(MsgArg::Int(v)) => Some(UiUpdateView::OverrunCount(v)),
            _ => None,
        }
    } else if addr == "/telemetry/xrun_underrun"@ {
        match first {
            Some(MsgArg::Int(v)) => Some(UiUpdateView::UnderrunCount(v)),
            _ => None,
        }
    } else if has_prefix(addr, "/meters/"@) {
        None
    } else if has_prefix(addr, "/state"@) {
        let path = addr.subrange(6, addr.len() as int);
        match first {
            Some(MsgArg::Float(v)) => Some(UiUpdateView::StateFloat { path, value: v }),
            Some(MsgArg::Bool(b)) => Some(UiUpdateView::StateBool { path, value: b }),
            _ => None,
        }
    } else {
        None
    }
}

/// The panel change one pushed message asks for, if any.
pub fn update_for<F: Copy>(addr: &str, first: Option<MsgArg<F>>) -> (r: Option<UiUpdate<F>>)
    ensures
        match r {
            Some(u) => update_spec(addr@, first) == Some(u@),
            None => update_spec(addr@, first) is None,
        },
{
    let a = str_chars(addr);
    if is_lit(a.as_slice(), "/telemetry/dsp_load") {
        match first {
            Some(MsgArg::Float(v)) => Some(UiUpdate::DspLoad(v)),
            _ => None,
        }
    } else if is_lit(a.as_slice(), "/telemetry/xrun_overrun") {
        match first {
            Some(MsgArg::Int(v)) => Some(UiUpdate::OverrunCount(v)),
            _ => None,
        }
    } else if is_lit(a.as_slice(), "/telemetry/xrun_underrun") {
        match first {
            Some(MsgArg::Int(v)) => Some(UiUpdate::UnderrunCount(v)),
            _ => None,
        }
    } else {
        let meters = str_chars("/meters/");
        let state = str_chars("/state");
        if starts_with_chars(a.as_slice(), meters.as_slice()) {
            None
        } else if starts_with_chars(a.as_slice(), state.as_slice()) {
            proof {
                reveal_strlit("/state");
            }
            let path = string_from_chars(chars_from(a.as_slice(), 6).as_slice());
            match first {
                Some(MsgArg::Float(v)) => Some(UiUpdate::StateFloat { path, value: v }),
                Some(MsgArg::Bool(b)) => Some(UiUpdate::StateBool { path, value: b }),
                _ => None,
            }
        } else {
            None
        }
    }
}

/// A `/list/item` argument as the remote reads it off the wire: text as it
/// is, a float by its bits (with whether it is at least one half), anything
/// else as `Other`.
pub fn list_arg(a: &WireArg) -> (r: ListArg<u32>)
    ensures
        reads_as(r, a@),
        match a@ {
            WireArgView::Text(s) => r matches ListArg::Text(t) && t@ == s,
            WireArgView::FloatBits(b) => r matches ListArg::Float { value, at_least_half }
                && value == b && at_least_half == float_bits_at_least_half(b),
            _ => r is Other,
        },
{
    match a {
        WireArg::Text(s) => ListArg::Text(s.clone()),
        WireArg::FloatBits(b) => ListArg::Float {
            value: *b,
            at_least_half: 0x3F00_0000u32 <= *b && *b <= 0x7F80_0000u32,
        },
        _ => ListArg::Other,
    }
}

/// The initial state of a switch from its pushed `/get_all` value: a bool as
/// it is, a non-zero integer as on, a float of at least one half as on;
/// `default` when nothing usable was pushed.
pub open spec fn initial_switch_spec(pushed: Option<WireArgView>, default: bool) -> bool {
    match pushed {
        Some(WireArgView::Bool(b)) => b,
        Some(WireArgView::Int(i)) => i != 0,
        Some(WireArgView::FloatBits(b)) => float_bits_at_least_half(b),
        _ => default,
    }
}

/// The initial state of a switch from its pushed `/get_all` value.
pub fn initial_switch(pushed: Option<&WireArg>, default: bool) -> (r: bool)
    ensures
        r == initial_switch_spec(
            match pushed {
                Some(a) => Some(a@),
                None => None,
            },
            default,
        ),
{
    match pushed {
        Some(WireArg::Bool(b)) => *b,
        Some(WireArg::Int(i)) => *i != 0,
        Some(WireArg::FloatBits(b)) => 0x3F00_0000u32 <= *b && *b <= 0x7F80_0000u32,
        _ => default,
    }
}

/// Whether `la` is how the remote reads the wire argument `a` (as
/// `list_arg` does): text as its characters, a float by its bits with
/// whether it is at least one half, anything else as `Other`.
pub open spec fn reads_as(la: ListArg<u32>, a: WireArgView) -> bool {
    match a {
        WireArgView::Text(s) => la matches ListArg::Text(t) && t@ == s,
        WireArgView::FloatBits(b) => la == ListArg::Float { value: b, at_least_half: float_bits_at_least_half(b) },
        _ => la is Other,
    }
}

/// The kind the remote should see for a parameter the server announces.
pub open spec fn announced_kind(kind: ListedKind) -> ParamKind<u32> {
    match kind {
        ListedKind::Float { min_bits, max_bits, default_bits } => ParamKind::Float {
            min: min_bits,
            max: max_bits,
            default: default_bits,
        },
        ListedKind::Bool { default } => ParamKind::Bool { default },
    }
}

/// Law: what the server announces in a `/list/item` reply the remote reads
/// back unchanged: the path, and for a float its minimum, maximum and default
/// in that order, for a bool its default.
pub proof fn lemma_list_item_reads_back(path: Seq<char>, kind: ListedKind, la: Seq<ListArg<u32>>)
    requires
        la.len() == list_item_args(path, kind).len(),
        forall|i: int| 0 <= i < la.len() ==> reads_as(#[trigger] la[i], list_item_args(path, kind)[i]),
    ensures
        list_item_spec(la) == Some((path, announced_kind(kind))),
{
    reveal_strlit("f");
    reveal_strlit("b");
    let args = list_item_args(path, kind);
    assert(reads_as(la[0], args[0]));
    assert(reads_as(la[1], args[1]));
    assert(reads_as(la[2], args[2]));
    assert(reads_as(la[3], args[3]));
    assert(reads_as(la[4], args[4]));
    assert("f"@ != "b"@) by {
        assert("f"@[0] != "b"@[0]);
    }
    match kind {
        ListedKind::Bool { default } => {
            assert(float_bits_at_least_half(crate::osc::ONE_BITS));
            assert(!float_bits_at_least_half(0));
        },
        _ => {},
    }
}

/// A pushed message's first argument as the panel reads it: floats by their
/// bits, integers, bools, anything else as `Other`.
pub open spec fn first_msg_arg(args: Seq<WireArgView>) -> Option<MsgArg<u32>> {
    if args.len() == 0 {
        None
    } else {
        Some(
            match args[0] {
                WireArgView::FloatBits(b) => MsgArg::Float(b),
                WireArgView::Int(v) => MsgArg::Int(v),
                WireArgView::Bool(b) => MsgArg::Bool(b),
                _ => MsgArg::Other,
            },
        )
    }
}

/// The panel changes that decoded messages ask for, in order.
pub open spec fn wire_updates_spec(ms: Seq<WireMessageView>) -> Seq<UiUpdateView<u32>>
    decreases ms.len(),
{
    if ms.len() == 0 {
        Seq::empty()
    } else {
        wire_updates_spec(ms.drop_last()) + match update_spec(ms.last().addr, first_msg_arg(ms.last().args)) {
            Some(u) => seq![u],
            None => Seq::empty(),
        }
    }
}

/// The panel changes a pushed datagram asks for: decoded, its messages in
/// visiting order (bundles flattened). `None` when the bytes are not an OSC
/// packet.
pub fn datagram_updates(bytes: &[u8]) -> (r: Option<Vec<UiUpdate<u32>>>)
    ensures
        match decoded_messages(bytes@) {
            Some(ms) => r matches Some(us) && us@.map_values(|u: UiUpdate<u32>| u@) == wire_updates_spec(ms),
            None => r is None,
        },
{
    let messages = match datagram_messages(bytes) {
        Some(ms) => ms,
        None => return None,
    };
    let ghost ms = messages_view(messages@);
    let mut out: Vec<UiUpdate<u32>> = Vec::new();
    let mut i: usize = 0;
    while i < messages.len()
        invariant
            i <= messages.len(),
            ms == messages_view(messages@),
            out@.map_values(|u: UiUpdate<u32>| u@) == wire_updates_spec(ms.take(i as int)),
        decreases messages.len() - i,
    {
        let m = &messages[i];
        let first = if m.args.len() == 0 {
            None
        } else {
            Some(
                match &m.args[0] {
                    WireArg::FloatBits(b) => MsgArg::Float(*b),
                    WireArg::Int(v) => MsgArg::Int(*v),
                    WireArg::Bool(b) => MsgArg::Bool(*b),
                    _ => MsgArg::Other,
                },
            )
        };
        proof {
            assert(ms[i as int] == messages@[i as int]@);
            assert(first == first_msg_arg(ms[i as int].args));
            assert(ms.take(i + 1).drop_last() =~= ms.take(i as int));
        }
        let ghost prev = out@;
        match update_for(m.addr.as_str(), first) {
            Some(u) => {
                out.push(u);
                assert(out@.map_values(|u: UiUpdate<u32>| u@) =~= prev.map_values(|u: UiUpdate<u32>| u@) + seq![u@]);
            },
            None => {},
        }
        i = i + 1;
    }
    proof {
        assert(ms.take(i as int) =~= ms);
    }
    Some(out)
}

/// The panel changes of `msgs`, in order.
pub open spec fn updates_spec<F>(msgs: Seq<InboundMessage<F>>) -> Seq<UiUpdateView<F>>
    decreases msgs.len(),
{
    if msgs.len() == 0 {
        Seq::empty()
    } else {
        updates_spec(msgs.drop_last()) + match update_spec(msgs.last().addr@, msgs.last().first) {
            Some(u) => seq![u],
            None => Seq::empty(),
        }
    }
}

/// The panel changes that a batch of pushed messages asks for, in order
/// (the messages of a bundle in the order it holds them).
pub fn extract_updates<F: Copy>(msgs: &[InboundMessage<F>]) -> (out: Vec<UiUpdate<F>>)
    ensures
        out@.map_values(|u: UiUpdate<F>| u@) == updates_spec(msgs@),
{
    let mut out: Vec<UiUpdate<F>> = Vec::new();
    let mut i: usize = 0;
    while i < msgs.len()
        invariant
            i <= msgs.len(),
            out@.map_values(|u: UiUpdate<F>| u@) == updates_spec(msgs@.subrange(0, i as int)),
        decreases msgs.len() - i,
    {
        let ghost prev = out@;
        let u = update_for(msgs[i].addr.as_str(), msgs[i].first);
        let ghost sub = msgs@.subrange(0, i + 1);
        assert(sub.drop_last() =~= msgs@.subrange(0, i as int));
        assert(sub.last() == msgs@[i as int]);
        match u {
            Some(x) => {
                out.push(x);
            },
            None => {},
        }
        assert(out@.map_values(|u: UiUpdate<F>| u@) =~= updates_spec(sub));
        i = i + 1;
    }
    assert(msgs@.subrange(0, msgs.len() as int) =~= msgs@);
    out
}

/// The first `/` of a digit run followed by a `/`-led suffix is the suffix's.
proof fn lemma_first_slash_after_digits(d: Seq<char>, rest: Seq<char>)
    requires
        all_digits(d),
        rest.len() > 0,
        rest[0] == '/',
    ensures
        first_index_of(d + rest, '/') == Some(d.len() as int),
    decreases d.len(),
{
    if d.len() == 0 {
        assert(d + rest =~= rest);
    } else {
        let tail = d.drop_first();
        assert(all_digits(tail)) by {
            assert forall|i: int| 0 <= i < tail.len() implies is_digit(#[trigger] tail[i]) by {
                assert(tail[i] == d[i + 1]);
            }
        }
        lemma_first_slash_after_digits(tail, rest);
        assert((d + rest).drop_first() =~= tail + rest);
        assert(is_digit(d[0]));
    }
}

/// Law: the remote reads back the strip number the engine writes into a
/// strip address, and files the parameter under that strip's panel group
/// `Input {i + 1}`, ordered by its segment.
pub proof fn lemma_strip_address_grouping(t: RouteTarget, i: usize)
    requires
        strip_of(t) == Some(i),
        i < usize::MAX,
    ensures
        input_index(target_path(t)) == Some(i),
        group_and_order_spec(target_path(t)) == ("Input "@ + decimal((i + 1) as nat), mixer_order(
            strip_suffix(t).drop_first(),
        )),
{
    let pre = "/mixer/input/"@;
    let d = decimal(i as nat);
    let suffix = strip_suffix(t);
    let path = target_path(t);
    reveal_strlit("/mixer/input/");
    reveal_strlit("/gain_db");
    reveal_strlit("/pan");
    reveal_strlit("/send_reverb");
    reveal_strlit("/send_echo");
    reveal_strlit("/mute");
    reveal_strlit("/send_pre_fader");
    assert(path == pre + (d + suffix)) by {
        assert(path =~= pre + (d + suffix));
    }
    assert(path.subrange(0, pre.len() as int) =~= pre);
    assert(has_prefix(path, pre));
    let rest = after(path, pre);
    assert(rest =~= d + suffix);
    lemma_decimal_value(i as nat);
    lemma_first_slash_after_digits(d, suffix);
    assert(rest.subrange(0, d.len() as int) =~= d);
    assert(d[0] != '+') by {
        assert(is_digit(d[0]));
    }
    assert(parse_usize(d) == Some(i));
    assert(rest.subrange(d.len() as int + 1, rest.len() as int) =~= suffix.drop_first());
    // No earlier prefix of the group rules matches: position 7 is `i`.
    reveal_strlit("/reverb/");
    reveal_strlit("/stereo_delay/");
    reveal_strlit("/tape_delay/");
    reveal_strlit("/compressor/");
    reveal_strlit("/mixer/master/");
    reveal_strlit("/mixer/reverb_return/");
    reveal_strlit("/mixer/stereo_delay_return/");
    reveal_strlit("/mixer/tape_delay_return/");
    assert(path[1] == 'm');
    assert(path[7] == 'i');
    assert(!has_prefix(path, "/reverb/"@)) by {
        if has_prefix(path, "/reverb/"@) {
            assert(path.subrange(0, 8)[1] == path[1]);
        }
    }
    assert(!has_prefix(path, "/stereo_delay/"@)) by {
        if has_prefix(path, "/stereo_delay/"@) {
            assert(path.subrange(0, 14)[1] == path[1]);
        }
    }
    assert(!has_prefix(path, "/tape_delay/"@)) by {
        if has_prefix(path, "/tape_delay/"@) {
            assert(path.subrange(0, 12)[1] == path[1]);
        }
    }
    assert(!has_prefix(path, "/compressor/"@)) by {
        if has_prefix(path, "/compressor/"@) {
            assert(path.subrange(0, 12)[1] == path[1]);
        }
    }
    assert(!has_prefix(path, "/mixer/master/"@)) by {
        if has_prefix(path, "/mixer/master/"@) {
            assert(path.subrange(0, 14)[7] == path[7]);
        }
    }
    assert(!has_prefix(path, "/mixer/reverb_return/"@)) by {
        if has_prefix(path, "/mixer/reverb_return/"@) {
            assert(path.subrange(0, 21)[7] == path[7]);
        }
    }
    assert(!has_prefix(path, "/mixer/stereo_delay_return/"@)) by {
        if has_prefix(path, "/mixer/stereo_delay_return/"@) {
            assert(path.subrange(0, 27)[7] == path[7]);
        }
    }
    assert(!has_prefix(path, "/mixer/tape_delay_return/"@)) by {
        if has_prefix(path, "/mixer/tape_delay_return/"@) {
            assert(path.subrange(0, 25)[7] == path[7]);
        }
    }
}

} // verus!
