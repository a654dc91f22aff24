//! The system's text tables and reports that the collector reads: their lines, the
//! white-space-separated words of each line, and what each table gives.
use vstd::prelude::*;
use crate::cli::{parse_unsigned, parse_unsigned_exec};
use crate::keys::{is_white_space, trim, trim_chars, white_space};
use crate::types::{DiskEntry, SmartHealth};
use crate::text::chars_eq;
use crate::text::{
    contains_chars, has_substring, occurs_at, push_chars, split_at_char, split_chars, starts_with, starts_with_lit,
    str_chars, string_from_chars,
};

verus! {

/// The words found so far in `s` and the word being read at its end.
pub open spec fn words_state(s: Seq<char>) -> (Seq<Seq<char>>, Seq<char>)
    decreases s.len(),
{
    if s.len() == 0 {
        (Seq::empty(), Seq::empty())
    } else {
        let (ws, cur) = words_state(s.drop_last());
        let c = s.last();
        if is_white_space(c) {
            if cur.len() > 0 { (ws.push(cur), Seq::empty()) } else { (ws, cur) }
        } else {
            (ws, cur.push(c))
        }
    }
}

/// The maximal runs of characters other than white space, in order (what
/// `str::split_whitespace` yields).
pub open spec fn words(s: Seq<char>) -> Seq<Seq<char>> {
    let (ws, cur) = words_state(s);
    if cur.len() > 0 { ws.push(cur) } else { ws }
}

/// The lines read so far in `s` and the line being read at its end.
pub open spec fn lines_state(s: Seq<char>) -> (Seq<Seq<char>>, Seq<char>)
    decreases s.len(),
{
    if s.len() == 0 {
        (Seq::empty(), Seq::empty())
    } else {
        let (ls, cur) = lines_state(s.drop_last());
        let c = s.last();
        if c == '\n' { (ls.push(cur), Seq::empty()) } else { (ls, cur.push(c)) }
    }
}

/// The pieces of `s` between line feeds, the last one included.
pub open spec fn pieces(s: Seq<char>) -> Seq<Seq<char>> {
    let (ls, cur) = lines_state(s);
    ls.push(cur)
}

/// The words of each line of `s`. Line ends and carriage returns are white space, so
/// the blank lines that `str::lines` leaves out give no words here.
pub open spec fn line_words(s: Seq<char>) -> Seq<Seq<Seq<char>>> {
    pieces(s).map_values(|l: Seq<char>| words(l))
}

/// The words of a line (see `words`).
pub fn split_words(s: &[char]) -> (r: Vec<Vec<char>>)
    ensures
        r@.map_values(|w: Vec<char>| w@) == words(s@),
{
    let mut ws: Vec<Vec<char>> = Vec::new();
    let mut cur: Vec<char> = Vec::new();
    let mut i: usize = 0;
    while i < s.len()
        invariant
            i <= s@.len(),
            (ws@.map_values(|w: Vec<char>| w@), cur@) == words_state(s@.subrange(0, i as int)),
        decreases s@.len() - i,
    {
        let c = s[i];
        let ghost pre = s@.subrange(0, i as int);
        assert(s@.subrange(0, i + 1).drop_last() == pre);
        let ghost before = ws@.map_values(|w: Vec<char>| w@);
        if white_space(c) {
            if cur.len() > 0 {
                let w = cur;
                ws.push(w);
                cur = Vec::new();
                assert(ws@.map_values(|w: Vec<char>| w@) =~= before.push(words_state(pre).1));
            }
        } else {
            cur.push(c);
        }
        i = i + 1;
    }
    assert(s@.subrange(0, s@.len() as int) =~= s@);
    if cur.len() > 0 {
        let ghost before = ws@.map_values(|w: Vec<char>| w@);
        ws.push(cur);
        assert(ws@.map_values(|w: Vec<char>| w@) =~= before.push(words_state(s@).1));
    }
    ws
}

/// The words of each line of `s` (see `line_words`).
pub fn split_line_words(s: &[char]) -> (r: Vec<Vec<Vec<char>>>)
    ensures
        r@.len() == line_words(s@).len(),
        forall|k: int| 0 <= k < r@.len() ==> (#[trigger] r@[k])@.map_values(|w: Vec<char>| w@)
            == line_words(s@)[k],
{
    let mut ls: Vec<Vec<Vec<char>>> = Vec::new();
    let mut cur: Vec<char> = Vec::new();
    let mut i: usize = 0;
    while i < s.len()
        invariant
            i <= s@.len(),
            ls@.len() == lines_state(s@.subrange(0, i as int)).0.len(),
            forall|k: int| 0 <= k < ls@.len() ==> (#[trigger] ls@[k])@.map_values(|w: Vec<char>| w@)
                == words(lines_state(s@.subrange(0, i as int)).0[k]),
            cur@ == lines_state(s@.subrange(0, i as int)).1,
        decreases s@.len() - i,
    {
        let c = s[i];
        let ghost pre = s@.subrange(0, i as int);
        assert(s@.subrange(0, i + 1).drop_last() == pre);
        if c == '\n' {
            let w = split_words(cur.as_slice());
            ls.push(w);
            cur = Vec::new();
        } else {
            cur.push(c);
        }
        i = i + 1;
    }
    assert(s@.subrange(0, s@.len() as int) =~= s@);
    let w = split_words(cur.as_slice());
    ls.push(w);
    ls
}

// ─── Tables keyed by name ───────────────────────────────────────────────────

/// No two entries share a key.
pub open spec fn keys_unique<V>(pairs: Seq<(String, V)>) -> bool {
    forall|i: int, j: int|
        0 <= i < pairs.len() && 0 <= j < pairs.len() && i != j ==> #[trigger] pairs[i].0@ != #[trigger] pairs[j].0@
}

/// The value stored under `key`: that of the last entry with the key.
pub open spec fn pair_value<V>(pairs: Seq<(String, V)>, key: Seq<char>) -> Option<V>
    decreases pairs.len(),
{
    if pairs.len() == 0 {
        None
    } else if pairs.last().0@ == key {
        Some(pairs.last().1)
    } else {
        pair_value(pairs.drop_last(), key)
    }
}

/// With no entry under `key`, nothing is stored under it.
proof fn lemma_pair_value_absent<V>(pairs: Seq<(String, V)>, key: Seq<char>)
    requires
        forall|i: int| 0 <= i < pairs.len() ==> (#[trigger] pairs[i]).0@ != key,
    ensures
        pair_value(pairs, key) is None,
    decreases pairs.len(),
{
    if pairs.len() > 0 {
        lemma_pair_value_absent(pairs.drop_last(), key);
    }
}

/// With keys all different, what an entry holds is stored under its key.
proof fn lemma_pair_value_at<V>(pairs: Seq<(String, V)>, j: int)
    requires
        keys_unique(pairs),
        0 <= j < pairs.len(),
    ensures
        pair_value(pairs, pairs[j].0@) == Some(pairs[j].1),
    decreases pairs.len(),
{
    if j < pairs.len() - 1 {
        assert(pairs.last().0@ != pairs[j].0@);
        lemma_pair_value_at(pairs.drop_last(), j);
    }
}

/// What is stored under `key` in a table with keys all different.
proof fn lemma_pair_value_unique<V>(pairs: Seq<(String, V)>, key: Seq<char>)
    requires
        keys_unique(pairs),
    ensures
        (exists|j: int| 0 <= j < pairs.len() && (#[trigger] pairs[j]).0@ == key) ==> (exists|j: int|
            0 <= j < pairs.len() && pairs[j].0@ == key && pair_value(pairs, key) == Some(pairs[j].1)),
        (forall|j: int| 0 <= j < pairs.len() ==> (#[trigger] pairs[j]).0@ != key) ==> pair_value(pairs, key) is None,
{
    if exists|j: int| 0 <= j < pairs.len() && (#[trigger] pairs[j]).0@ == key {
        let j = choose|j: int| 0 <= j < pairs.len() && (#[trigger] pairs[j]).0@ == key;
        lemma_pair_value_at(pairs, j);
    } else {
        lemma_pair_value_absent(pairs, key);
    }
}

/// Stores `v` under `key`, in place of what was stored under it (as inserting into a
/// map does).
pub fn pair_put<V>(pairs: &mut Vec<(String, V)>, key: String, v: V)
    requires
        keys_unique(old(pairs)@),
    ensures
        keys_unique(final(pairs)@),
        forall|k: Seq<char>|
            #[trigger] pair_value(final(pairs)@, k) == if k == key@ { Some(v) } else { pair_value(old(pairs)@, k) },
{
    let ghost before = pairs@;
    let ghost kv = key@;
    let mut i: usize = 0;
    while i < pairs.len()
        invariant
            before == pairs@,
            i <= pairs@.len(),
            forall|j: int| 0 <= j < i ==> (#[trigger] pairs@[j]).0@ != key@,
        ensures
            before == pairs@,
            i <= pairs@.len(),
            forall|j: int| 0 <= j < i ==> (#[trigger] pairs@[j]).0@ != key@,
            i < pairs@.len() ==> pairs@[i as int].0@ == key@,
        decreases pairs@.len() - i,
    {
        if pairs[i].0 == key {
            break;
        }
        i = i + 1;
    }
    if i < pairs.len() {
        pairs.set(i, (key, v));
    } else {
        pairs.push((key, v));
    }
    let ghost after = pairs@;
    assert(keys_unique(after)) by {
        assert forall|a: int, b: int|
            0 <= a < after.len() && 0 <= b < after.len() && a != b implies #[trigger] after[a].0@
            != #[trigger] after[b].0@ by {
            if a < before.len() && b < before.len() && a != i && b != i {
                assert(before[a].0@ != before[b].0@);
            } else if a == i || a >= before.len() {
                if b < before.len() && b != i {
                    if b < i {
                        assert(before[b].0@ != kv);
                    } else {
                        assert(before[b].0@ != before[i as int].0@);
                    }
                }
            } else {
                if a < i {
                    assert(before[a].0@ != kv);
                } else {
                    assert(before[a].0@ != before[i as int].0@);
                }
            }
        }
    }
    assert forall|k: Seq<char>|
        #[trigger] pair_value(after, k) == if k == kv { Some(v) } else { pair_value(before, k) } by {
        lemma_pair_value_unique(after, k);
        lemma_pair_value_unique(before, k);
        if k == kv {
            assert(after[i as int].0@ == k);
        } else {
            if exists|j: int| 0 <= j < before.len() && (#[trigger] before[j]).0@ == k {
                let j = choose|j: int| 0 <= j < before.len() && (#[trigger] before[j]).0@ == k;
                assert(after[j].0@ == k);
            }
            if exists|j: int| 0 <= j < after.len() && (#[trigger] after[j]).0@ == k {
                let j = choose|j: int| 0 <= j < after.len() && (#[trigger] after[j]).0@ == k;
                assert(before[j].0@ == k);
            }
        }
    }
}

/// Looks up the value stored under `key`.
pub fn pair_get<V: Copy>(pairs: &Vec<(String, V)>, key: &String) -> (r: Option<V>)
    requires
        keys_unique(pairs@),
    ensures
        r == pair_value(pairs@, key@),
{
    let mut i: usize = 0;
    while i < pairs.len()
        invariant
            keys_unique(pairs@),
            i <= pairs@.len(),
            forall|j: int| 0 <= j < i ==> (#[trigger] pairs@[j]).0@ != key@,
        decreases pairs@.len() - i,
    {
        if pairs[i].0 == *key {
            proof {
                lemma_pair_value_at(pairs@, i as int);
            }
            return Some(pairs[i].1);
        }
        i = i + 1;
    }
    proof {
        lemma_pair_value_absent(pairs@, key@);
    }
    None
}

/// The text stored under `key` in a table of texts.
pub open spec fn text_value(pairs: Seq<(String, String)>, key: Seq<char>) -> Option<Seq<char>> {
    match pair_value(pairs, key) {
        Some(v) => Some(v@),
        None => None,
    }
}

// ─── The mount table ────────────────────────────────────────────────────────

/// Whether `c` is an ASCII digit.
pub open spec fn ascii_digit(c: char) -> bool {
    '0' <= c && c <= '9'
}

/// `s` without its trailing ASCII digits.
pub open spec fn drop_trailing_digits(s: Seq<char>) -> Seq<char>
    decreases s.len(),
{
    if s.len() > 0 && ascii_digit(s.last()) { drop_trailing_digits(s.drop_last()) } else { s }
}

/// `s` without its trailing `p`s.
pub open spec fn drop_trailing_p(s: Seq<char>) -> Seq<char>
    decreases s.len(),
{
    if s.len() > 0 && s.last() == 'p' { drop_trailing_p(s.drop_last()) } else { s }
}

/// The whole-disk device of a partition's device name: its trailing digits dropped, then
/// its trailing `p`s (`sda1` gives `sda`, `nvme0n1p1` gives `nvme0n1`).
pub open spec fn device_base(dev: Seq<char>) -> Seq<char> {
    drop_trailing_p(drop_trailing_digits(dev))
}

/// The mount point and whole-disk device that a line of the mount table names: a line
/// of at least two words whose first word is a device under `/dev/` with a base name.
pub open spec fn mount_entry(ws: Seq<Seq<char>>) -> Option<(Seq<char>, Seq<char>)> {
    if ws.len() >= 2 && starts_with(ws[0], "/dev/"@) && device_base(ws[0].skip(5)).len() > 0 {
        Some((ws[1], device_base(ws[0].skip(5))))
    } else {
        None
    }
}

/// The whole-disk device of mount point `m` in a mount table with lines `ls`: the last
/// line that names `m` decides.
pub open spec fn device_of(ls: Seq<Seq<Seq<char>>>, m: Seq<char>) -> Option<Seq<char>>
    decreases ls.len(),
{
    if ls.len() == 0 {
        None
    } else {
        match mount_entry(ls.last()) {
            Some(e) => if e.0 == m { Some(e.1) } else { device_of(ls.drop_last(), m) },
            None => device_of(ls.drop_last(), m),
        }
    }
}

/// The whole-disk device of a partition's device name (see `device_base`).
fn base_device(dev: &[char]) -> (r: Vec<char>)
    ensures
        r@ == device_base(dev@),
{
    let mut n: usize = dev.len();
    assert(dev@.take(n as int) =~= dev@);
    while n > 0 && '0' <= dev[n - 1] && dev[n - 1] <= '9'
        invariant
            n <= dev@.len(),
            drop_trailing_digits(dev@) == drop_trailing_digits(dev@.take(n as int)),
        decreases n,
    {
        assert(dev@.take(n as int).drop_last() =~= dev@.take(n - 1));
        n = n - 1;
    }
    let ghost d = dev@.take(n as int);
    assert(drop_trailing_digits(d) == d);
    let m0 = n;
    assert(d.take(m0 as int) =~= d);
    while n > 0 && dev[n - 1] == 'p'
        invariant
            n <= m0,
            m0 <= dev@.len(),
            d == dev@.take(m0 as int),
            drop_trailing_p(d) == drop_trailing_p(d.take(n as int)),
        decreases n,
    {
        assert(d.take(n as int).drop_last() =~= d.take(n - 1));
        n = n - 1;
    }
    assert(drop_trailing_p(d.take(n as int)) == d.take(n as int));
    let mut r: Vec<char> = Vec::new();
    let mut k: usize = 0;
    while k < n
        invariant
            k <= n,
            n <= m0,
            m0 <= dev@.len(),
            d == dev@.take(m0 as int),
            r@ == d.take(k as int),
        decreases n - k,
    {
        r.push(dev[k]);
        k = k + 1;
        assert(r@ =~= d.take(k as int));
    }
    r
}

/// The mount point and device that one line of the mount table names (see
/// `mount_entry`).
fn mount_line(ws: &Vec<Vec<char>>) -> (r: Option<(String, String)>)
    ensures
        match mount_entry(ws@.map_values(|w: Vec<char>| w@)) {
            Some(e) => r matches Some(p) && p.0@ == e.0 && p.1@ == e.1,
            None => r is None,
        },
{
    let ghost v = ws@.map_values(|w: Vec<char>| w@);
    if ws.len() < 2 {
        return None;
    }
    assert(v[0] == ws@[0]@ && v[1] == ws@[1]@);
    let dev = ws[0].as_slice();
    if !starts_with_lit(dev, "/dev/") {
        return None;
    }
    proof {
        reveal_strlit("/dev/");
    }
    let mut rest: Vec<char> = Vec::new();
    let mut k: usize = 5;
    while k < dev.len()
        invariant
            5 <= k <= dev@.len(),
            rest@ == dev@.subrange(5, k as int),
        decreases dev@.len() - k,
    {
        rest.push(dev[k]);
        k = k + 1;
        assert(rest@ =~= dev@.subrange(5, k as int));
    }
    assert(rest@ =~= dev@.skip(5));
    let base = base_device(rest.as_slice());
    if base.len() == 0 {
        return None;
    }
    Some((string_from_chars(ws[1].as_slice()), string_from_chars(base.as_slice())))
}

/// The whole-disk device of each mount point, from the text of the mount table (see
/// `device_of`); each mount point appears once.
pub fn mount_to_device_map(content: &str) -> (r: Vec<(String, String)>)
    ensures
        keys_unique(r@),
        forall|m: Seq<char>| #[trigger] text_value(r@, m) == device_of(line_words(content@), m),
{
    let chars = str_chars(content);
    let ls = split_line_words(chars.as_slice());
    let ghost all = line_words(content@);
    let mut r: Vec<(String, String)> = Vec::new();
    let mut k: usize = 0;
    while k < ls.len()
        invariant
            chars@ == content@,
            ls@.len() == all.len(),
            forall|j: int| 0 <= j < ls@.len() ==> (#[trigger] ls@[j])@.map_values(|w: Vec<char>| w@) == all[j],
            k <= ls@.len(),
            keys_unique(r@),
            forall|m: Seq<char>| #[trigger] text_value(r@, m) == device_of(all.take(k as int), m),
        decreases ls@.len() - k,
    {
        let e = mount_line(&ls[k]);
        let ghost before = r@;
        assert(ls@[k as int]@.map_values(|w: Vec<char>| w@) == all[k as int]);
        assert(all.take(k + 1).drop_last() =~= all.take(k as int));
        assert(all.take(k + 1).last() == all[k as int]);
        match e {
            Some(p) => {
                let ghost mv = p.0@;
                pair_put(&mut r, p.0, p.1);
                assert forall|m: Seq<char>| #[trigger] text_value(r@, m) == device_of(all.take(k + 1), m) by {
                    assert(pair_value(r@, m) == if m == mv { Some(p.1) } else { pair_value(before, m) });
                    assert(text_value(before, m) == device_of(all.take(k as int), m));
                }
            },
            None => {},
        }
        k = k + 1;
    }
    assert(all.take(ls@.len() as int) =~= all);
    r
}

/// The mount point and file-system type that a line of the mount table names: its
/// second and third words, on a line of at least three.
pub open spec fn mounted_fs(ws: Seq<Seq<char>>) -> Option<(Seq<char>, Seq<char>)> {
    if ws.len() >= 3 { Some((ws[1], ws[2])) } else { None }
}

/// The mount points and file-system types that a mount table with lines `ls` lists, in
/// order.
pub open spec fn mounted_list(ls: Seq<Seq<Seq<char>>>) -> Seq<(Seq<char>, Seq<char>)>
    decreases ls.len(),
{
    if ls.len() == 0 {
        Seq::empty()
    } else {
        match mounted_fs(ls.last()) {
            Some(e) => mounted_list(ls.drop_last()).push(e),
            None => mounted_list(ls.drop_last()),
        }
    }
}

/// The mount point and file-system type of each mounted file system, in the order of
/// the mount table's text (see `mounted_list`).
pub fn mounted_file_systems(content: &str) -> (r: Vec<(String, String)>)
    ensures
        r@.map_values(|p: (String, String)| (p.0@, p.1@)) == mounted_list(line_words(content@)),
{
    let chars = str_chars(content);
    let ls = split_line_words(chars.as_slice());
    let ghost all = line_words(content@);
    let mut r: Vec<(String, String)> = Vec::new();
    let mut k: usize = 0;
    while k < ls.len()
        invariant
            chars@ == content@,
            ls@.len() == all.len(),
            forall|j: int| 0 <= j < ls@.len() ==> (#[trigger] ls@[j])@.map_values(|w: Vec<char>| w@) == all[j],
            k <= ls@.len(),
            r@.map_values(|p: (String, String)| (p.0@, p.1@)) == mounted_list(all.take(k as int)),
        decreases ls@.len() - k,
    {
        let ws = &ls[k];
        let ghost v = ws@.map_values(|w: Vec<char>| w@);
        assert(ls@[k as int]@.map_values(|w: Vec<char>| w@) == all[k as int]);
        assert(all.take(k + 1).drop_last() =~= all.take(k as int));
        assert(all.take(k + 1).last() == all[k as int]);
        if ws.len() >= 3 {
            assert(v[1] == ws@[1]@ && v[2] == ws@[2]@);
            let ghost before = r@.map_values(|p: (String, String)| (p.0@, p.1@));
            r.push((string_from_chars(ws[1].as_slice()), string_from_chars(ws[2].as_slice())));
            assert(r@.map_values(|p: (String, String)| (p.0@, p.1@)) =~= before.push((v[1], v[2])));
        }
        k = k + 1;
    }
    assert(all.take(ls@.len() as int) =~= all);
    r
}

// ─── The mount list of the BSD kernels ──────────────────────────────────────

/// Whether `c` is an ASCII letter or digit.
pub open spec fn ascii_alnum(c: char) -> bool {
    ('a' <= c && c <= 'z') || ('A' <= c && c <= 'Z') || ascii_digit(c)
}

/// The leading ASCII letters and digits of `w`.
pub open spec fn leading_alnum(w: Seq<char>) -> Seq<char>
    decreases w.len(),
{
    if w.len() > 0 && ascii_alnum(w[0]) { seq![w[0]] + leading_alnum(w.drop_first()) } else { Seq::empty() }
}

/// The leading letters and digits of `w` are its first `n` characters when those are
/// letters or digits and the next is not.
proof fn lemma_leading_alnum(w: Seq<char>, n: int)
    requires
        0 <= n <= w.len(),
        forall|j: int| 0 <= j < n ==> ascii_alnum(#[trigger] w[j]),
        n == w.len() || !ascii_alnum(w[n]),
    ensures
        leading_alnum(w) == w.take(n),
    decreases n,
{
    if n == 0 {
        assert(w.take(0) =~= Seq::<char>::empty());
    } else {
        assert forall|j: int| 0 <= j < n - 1 implies ascii_alnum(#[trigger] w.drop_first()[j]) by {
            assert(w.drop_first()[j] == w[j + 1]);
        }
        if n - 1 < w.drop_first().len() {
            assert(w.drop_first()[n - 1] == w[n]);
        }
        lemma_leading_alnum(w.drop_first(), n - 1);
        assert(w.take(n) =~= seq![w[0]] + w.drop_first().take(n - 1));
    }
}

/// The device that a mounted file system's source names: the letters and digits that
/// follow `/dev/` (`/dev/disk3s1` gives `disk3s1`); none for a source outside `/dev/`
/// or with no letter or digit there.
pub open spec fn listed_device(from: Seq<char>) -> Option<Seq<char>> {
    if starts_with(from, "/dev/"@) && leading_alnum(from.skip(5)).len() > 0 {
        Some(leading_alnum(from.skip(5)))
    } else {
        None
    }
}

/// The device of mount point `m` in a list `ms` of mount points and their sources: the
/// last entry for `m` whose source names a device decides.
pub open spec fn listed_device_of(ms: Seq<(String, String)>, m: Seq<char>) -> Option<Seq<char>>
    decreases ms.len(),
{
    if ms.len() == 0 {
        None
    } else if ms.last().0@ == m && listed_device(ms.last().1@) is Some {
        listed_device(ms.last().1@)
    } else {
        listed_device_of(ms.drop_last(), m)
    }
}

/// The device that a mount source names (see `listed_device`).
fn listed_device_exec(from: &[char]) -> (r: Option<Vec<char>>)
    ensures
        match listed_device(from@) {
            Some(b) => r matches Some(v) && v@ == b,
            None => r is None,
        },
{
    if !starts_with_lit(from, "/dev/") {
        return None;
    }
    proof {
        reveal_strlit("/dev/");
    }
    let mut v: Vec<char> = Vec::new();
    let mut i: usize = 5;
    while i < from.len() && (('a' <= from[i] && from[i] <= 'z') || ('A' <= from[i] && from[i] <= 'Z') || ('0'
        <= from[i] && from[i] <= '9'))
        invariant
            5 <= i <= from@.len(),
            v@ == from@.subrange(5, i as int),
            forall|j: int| 5 <= j < i ==> ascii_alnum(#[trigger] from@[j]),
        decreases from@.len() - i,
    {
        v.push(from[i]);
        i = i + 1;
        assert(v@ =~= from@.subrange(5, i as int));
    }
    proof {
        let w = from@.skip(5);
        let n = i - 5;
        assert forall|j: int| 0 <= j < n implies ascii_alnum(#[trigger] w[j]) by {
            assert(w[j] == from@[5 + j]);
        }
        if n < w.len() {
            assert(w[n] == from@[i as int]);
        }
        lemma_leading_alnum(w, n);
        assert(w.take(n) =~= v@);
    }
    if v.len() == 0 {
        None
    } else {
        Some(v)
    }
}

/// The device of each mount point, from a list of mount points and the sources mounted
/// on them (see `listed_device_of`); each mount point appears once.
pub fn mount_devices_from_list(list: &Vec<(String, String)>) -> (r: Vec<(String, String)>)
    ensures
        keys_unique(r@),
        forall|m: Seq<char>| #[trigger] text_value(r@, m) == listed_device_of(list@, m),
{
    let mut r: Vec<(String, String)> = Vec::new();
    let mut k: usize = 0;
    while k < list.len()
        invariant
            k <= list@.len(),
            keys_unique(r@),
            forall|m: Seq<char>| #[trigger] text_value(r@, m) == listed_device_of(list@.take(k as int), m),
        decreases list@.len() - k,
    {
        let ghost before = r@;
        assert(list@.take(k + 1).drop_last() =~= list@.take(k as int));
        assert(list@.take(k + 1).last() == list@[k as int]);
        let from = str_chars(list[k].1.as_str());
        match listed_device_exec(from.as_slice()) {
            Some(b) => {
                let mount = list[k].0.clone();
                let ghost mv = mount@;
                let dev = string_from_chars(b.as_slice());
                pair_put(&mut r, mount, dev);
                assert forall|m: Seq<char>| #[trigger] text_value(r@, m) == listed_device_of(list@.take(k + 1), m) by {
                    assert(pair_value(r@, m) == if m == mv { Some(dev) } else { pair_value(before, m) });
                    assert(text_value(before, m) == listed_device_of(list@.take(k as int), m));
                }
            },
            None => {},
        }
        k = k + 1;
    }
    assert(list@.take(list@.len() as int) =~= list@);
    r
}

// ─── The disk statistics ────────────────────────────────────────────────────

/// Bytes in `w` sectors of 512 bytes, a count that is not a number counting as zero
/// (the product wraps around at 2^64).
pub open spec fn sector_bytes(w: Seq<char>) -> u64 {
    let n: u64 = match parse_unsigned(w) {
        Some(n) => n as u64,
        None => 0,
    };
    n.wrapping_mul(512)
}

/// The device and its read and written bytes that a line of the disk statistics gives:
/// a line of at least ten words names the device third and counts the sectors read
/// sixth and written tenth.
pub open spec fn stat_entry(ws: Seq<Seq<char>>) -> Option<(Seq<char>, (u64, u64))> {
    if ws.len() >= 10 {
        Some((ws[2], (sector_bytes(ws[5]), sector_bytes(ws[9]))))
    } else {
        None
    }
}

/// The byte counts of device `dev` in disk statistics with lines `ls`: the last line
/// that names it decides.
pub open spec fn counters_of(ls: Seq<Seq<Seq<char>>>, dev: Seq<char>) -> Option<(u64, u64)>
    decreases ls.len(),
{
    if ls.len() == 0 {
        None
    } else {
        match stat_entry(ls.last()) {
            Some(e) => if e.0 == dev { Some(e.1) } else { counters_of(ls.drop_last(), dev) },
            None => counters_of(ls.drop_last(), dev),
        }
    }
}

/// Bytes in the sectors counted by `w` (see `sector_bytes`).
fn sectors_to_bytes(w: &Vec<char>) -> (r: u64)
    ensures
        r == sector_bytes(w@),
{
    let n: u64 = match parse_unsigned_exec(w.as_slice()) {
        Some(n) => n,
        None => 0,
    };
    n.wrapping_mul(512)
}

/// The read and written bytes of each device, from the text of the disk statistics
/// (see `counters_of`); each device appears once.
pub fn read_io_counters(content: &str) -> (r: Vec<(String, (u64, u64))>)
    ensures
        keys_unique(r@),
        forall|d: Seq<char>| #[trigger] pair_value(r@, d) == counters_of(line_words(content@), d),
{
    let chars = str_chars(content);
    let ls = split_line_words(chars.as_slice());
    let ghost all = line_words(content@);
    let mut r: Vec<(String, (u64, u64))> = Vec::new();
    let mut k: usize = 0;
    while k < ls.len()
        invariant
            chars@ == content@,
            ls@.len() == all.len(),
            forall|j: int| 0 <= j < ls@.len() ==> (#[trigger] ls@[j])@.map_values(|w: Vec<char>| w@) == all[j],
            k <= ls@.len(),
            keys_unique(r@),
            forall|d: Seq<char>| #[trigger] pair_value(r@, d) == counters_of(all.take(k as int), d),
        decreases ls@.len() - k,
    {
        let ws = &ls[k];
        let ghost v = ws@.map_values(|w: Vec<char>| w@);
        assert(all.take(k + 1).drop_last() =~= all.take(k as int));
        assert(all.take(k + 1).last() == all[k as int]);
        if ws.len() >= 10 {
            assert(v[2] == ws@[2]@ && v[5] == ws@[5]@ && v[9] == ws@[9]@);
            let rd = sectors_to_bytes(&ws[5]);
            let wr = sectors_to_bytes(&ws[9]);
            let name = string_from_chars(ws[2].as_slice());
            let ghost nv = name@;
            let ghost before = r@;
            pair_put(&mut r, name, (rd, wr));
            assert forall|d: Seq<char>| #[trigger] pair_value(r@, d) == counters_of(all.take(k + 1), d) by {
                assert(pair_value(r@, d) == if d == nv { Some((rd, wr)) } else { pair_value(before, d) });
            }
        }
        k = k + 1;
    }
    assert(all.take(ls@.len() as int) =~= all);
    r
}

// ─── The block-storage statistics of ioreg ─────────────────────────────────

/// Where `pat` first occurs in `s` at or after position `i`, if it does.
pub open spec fn find_from(s: Seq<char>, pat: Seq<char>, i: int) -> Option<int>
    decreases s.len() + 1 - i,
{
    if i < 0 || i + pat.len() > s.len() {
        None
    } else if s.subrange(i, i + pat.len()) == pat {
        Some(i)
    } else {
        find_from(s, pat, i + 1)
    }
}

/// An occurrence found from position `i` lies in `s`, at or after `i`.
proof fn lemma_find_from(s: Seq<char>, pat: Seq<char>, i: int)
    ensures
        find_from(s, pat, i) matches Some(p) ==> i <= p && p + pat.len() <= s.len()
            && s.subrange(p, p + pat.len()) == pat,
    decreases s.len() + 1 - i,
{
    if !(i < 0 || i + pat.len() > s.len()) && s.subrange(i, i + pat.len()) != pat {
        lemma_find_from(s, pat, i + 1);
    }
}

/// Where `pat` first occurs in `s` (see `find_from`).
fn find_chars(s: &[char], pat: &[char]) -> (r: Option<usize>)
    ensures
        match find_from(s@, pat@, 0) {
            Some(p) => r == Some(p as usize),
            None => r is None,
        },
{
    proof {
        lemma_find_from(s@, pat@, 0);
    }
    if pat.len() > s.len() {
        return None;
    }
    let last = s.len() - pat.len();
    let mut at: usize = 0;
    while at <= last
        invariant
            last == s@.len() - pat@.len(),
            at <= last + 1,
            find_from(s@, pat@, 0) == find_from(s@, pat@, at as int),
        decreases last + 1 - at,
    {
        if occurs_at(s, pat, at) {
            return Some(at);
        }
        if at == last {
            assert(find_from(s@, pat@, at + 1) is None);
            return None;
        }
        at = at + 1;
    }
    None
}

/// A key of ioreg's output as it stands before its value: quoted and followed by `=`.
pub open spec fn ioreg_key(key: Seq<char>) -> Seq<char> {
    seq!['"'] + key + seq!['"', '=']
}

/// The number that a line of ioreg's output gives for `key`: the ASCII digits right
/// after the first `"key"=`, read as an unsigned 64-bit number (none where there are no
/// digits or they do not fit).
pub open spec fn ioreg_number(line: Seq<char>, key: Seq<char>) -> Option<u64> {
    match find_from(line, ioreg_key(key), 0) {
        Some(p) => match parse_unsigned(leading_digits(line.skip(p + ioreg_key(key).len()))) {
            Some(n) => Some(n as u64),
            None => None,
        },
        None => None,
    }
}

/// The leading ASCII digits of `s` from position `start` on.
fn digits_from(s: &[char], start: usize) -> (r: Vec<char>)
    requires
        start <= s@.len(),
    ensures
        r@ == leading_digits(s@.skip(start as int)),
{
    let mut r: Vec<char> = Vec::new();
    let mut i: usize = start;
    while i < s.len() && '0' <= s[i] && s[i] <= '9'
        invariant
            start <= i <= s@.len(),
            r@ == s@.subrange(start as int, i as int),
            forall|j: int| start <= j < i ==> ascii_digit(#[trigger] s@[j]),
        decreases s@.len() - i,
    {
        r.push(s[i]);
        i = i + 1;
        assert(r@ =~= s@.subrange(start as int, i as int));
    }
    proof {
        let w = s@.skip(start as int);
        let n = i - start;
        assert forall|j: int| 0 <= j < n implies ascii_digit(#[trigger] w[j]) by {
            assert(w[j] == s@[start + j]);
        }
        if n < w.len() {
            assert(w[n] == s@[i as int]);
        }
        lemma_leading_digits(w, n);
        assert(w.take(n) =~= r@);
    }
    r
}

/// The number that `line` gives for `key` (see `ioreg_number`).
fn ioreg_number_of(line: &[char], key: &[char]) -> (r: Option<u64>)
    ensures
        r == ioreg_number(line@, key@),
{
    let mut pat: Vec<char> = Vec::new();
    pat.push('"');
    push_chars(&mut pat, key);
    pat.push('"');
    pat.push('=');
    assert(pat@ =~= ioreg_key(key@));
    proof {
        lemma_find_from(line@, pat@, 0);
    }
    let n = line.len();
    let found = find_chars(line, pat.as_slice());
    match found {
        Some(p) => {
            assert(find_from(line@, pat@, 0) is Some);
            let ghost q = find_from(line@, pat@, 0)->0;
            assert(0 <= q && q + pat@.len() <= n);
            assert(p == q);
            let digits = digits_from(line, p + pat.len());
            parse_unsigned_exec(digits.as_slice())
        },
        None => None,
    }
}

/// The number that a line of ioreg's output gives for `key` (see `ioreg_number`).
pub fn extract_ioreg_number(line: &str, key: &str) -> (r: Option<u64>)
    ensures
        r == ioreg_number(line@, key@),
{
    let l = str_chars(line);
    let k = str_chars(key);
    ioreg_number_of(l.as_slice(), k.as_slice())
}

/// The device name that a line of ioreg's output declares: on a line that holds
/// `"BSD Name"`, the fourth of its pieces between double quotes.
pub open spec fn bsd_name(line: Seq<char>) -> Option<Seq<char>> {
    if has_substring(line, "\"BSD Name\""@) && split_at_char(line, '"').len() > 3 {
        Some(split_at_char(line, '"')[3])
    } else {
        None
    }
}

/// The device name that `line` declares (see `bsd_name`).
fn bsd_name_of(line: &[char]) -> (r: Option<Vec<char>>)
    ensures
        match bsd_name(line@) {
            Some(n) => r matches Some(v) && v@ == n,
            None => r is None,
        },
{
    let marker = str_chars("\"BSD Name\"");
    if !contains_chars(line, marker.as_slice()) {
        return None;
    }
    let mut ps = split_chars(line, '"');
    if ps.len() > 3 {
        assert(ps@.map_values(|p: Vec<char>| p@)[3] == ps@[3]@);
        Some(ps.remove(3))
    } else {
        None
    }
}

/// Whether `c` is an ASCII letter.
pub open spec fn ascii_letter(c: char) -> bool {
    ('a' <= c && c <= 'z') || ('A' <= c && c <= 'Z')
}

/// The leading ASCII letters of `w`.
pub open spec fn leading_letters(w: Seq<char>) -> Seq<char>
    decreases w.len(),
{
    if w.len() > 0 && ascii_letter(w[0]) { seq![w[0]] + leading_letters(w.drop_first()) } else { Seq::empty() }
}

/// The first run of ASCII digits in `w` (empty where there is none).
pub open spec fn first_digit_run(w: Seq<char>) -> Seq<char>
    decreases w.len(),
{
    if w.len() == 0 {
        Seq::empty()
    } else if ascii_digit(w[0]) {
        leading_digits(w)
    } else {
        first_digit_run(w.drop_first())
    }
}

/// The whole disk that a device name stands for: its leading letters followed by its
/// first run of digits (`disk0s1` gives `disk0`).
pub open spec fn bsd_base(name: Seq<char>) -> Seq<char> {
    leading_letters(name) + first_digit_run(name)
}

/// The leading letters of `w` are its first `n` characters when those are letters and
/// the next is not.
proof fn lemma_leading_letters(w: Seq<char>, n: int)
    requires
        0 <= n <= w.len(),
        forall|j: int| 0 <= j < n ==> ascii_letter(#[trigger] w[j]),
        n == w.len() || !ascii_letter(w[n]),
    ensures
        leading_letters(w) == w.take(n),
    decreases n,
{
    if n == 0 {
        assert(w.take(0) =~= Seq::<char>::empty());
    } else {
        assert forall|j: int| 0 <= j < n - 1 implies ascii_letter(#[trigger] w.drop_first()[j]) by {
            assert(w.drop_first()[j] == w[j + 1]);
        }
        if n - 1 < w.drop_first().len() {
            assert(w.drop_first()[n - 1] == w[n]);
        }
        lemma_leading_letters(w.drop_first(), n - 1);
        assert(w.take(n) =~= seq![w[0]] + w.drop_first().take(n - 1));
    }
}

/// The first run of digits of `w` starts at `n` when no character before `n` is a
/// digit and the one at `n` is.
proof fn lemma_first_digit_run(w: Seq<char>, n: int)
    requires
        0 <= n <= w.len(),
        forall|j: int| 0 <= j < n ==> !ascii_digit(#[trigger] w[j]),
        n == w.len() || ascii_digit(w[n]),
    ensures
        first_digit_run(w) == leading_digits(w.skip(n)),
    decreases n,
{
    if n == 0 {
        assert(w.skip(0) =~= w);
    } else {
        assert forall|j: int| 0 <= j < n - 1 implies !ascii_digit(#[trigger] w.drop_first()[j]) by {
            assert(w.drop_first()[j] == w[j + 1]);
        }
        if n - 1 < w.drop_first().len() {
            assert(w.drop_first()[n - 1] == w[n]);
        }
        assert(!ascii_digit(w[0]));
        lemma_first_digit_run(w.drop_first(), n - 1);
        assert(w.drop_first().skip(n - 1) =~= w.skip(n));
    }
}

/// The whole disk that `name` stands for (see `bsd_base`).
fn bsd_base_of(name: &[char]) -> (r: Vec<char>)
    ensures
        r@ == bsd_base(name@),
{
    let mut r: Vec<char> = Vec::new();
    let mut i: usize = 0;
    while i < name.len() && (('a' <= name[i] && name[i] <= 'z') || ('A' <= name[i] && name[i] <= 'Z'))
        invariant
            i <= name@.len(),
            r@ == name@.take(i as int),
            forall|j: int| 0 <= j < i ==> ascii_letter(#[trigger] name@[j]),
        decreases name@.len() - i,
    {
        r.push(name[i]);
        i = i + 1;
        assert(r@ =~= name@.take(i as int));
    }
    proof {
        lemma_leading_letters(name@, i as int);
    }
    let mut j: usize = 0;
    while j < name.len() && !('0' <= name[j] && name[j] <= '9')
        invariant
            j <= name@.len(),
            forall|k: int| 0 <= k < j ==> !ascii_digit(#[trigger] name@[k]),
        decreases name@.len() - j,
    {
        j = j + 1;
    }
    proof {
        lemma_first_digit_run(name@, j as int);
    }
    let ds = digits_from(name, j);
    push_chars(&mut r, ds.as_slice());
    r
}

/// The device that the lines `ls` of ioreg's output declared last (empty before any).
pub open spec fn ioreg_current(ls: Seq<Seq<char>>) -> Seq<char>
    decreases ls.len(),
{
    if ls.len() == 0 {
        Seq::empty()
    } else {
        match bsd_name(ls.last()) {
            Some(n) => bsd_base(n),
            None => ioreg_current(ls.drop_last()),
        }
    }
}

/// A pair of counts, zeros where there is none.
pub open spec fn or_zeros(o: Option<(u64, u64)>) -> (u64, u64) {
    match o {
        Some(v) => v,
        None => (0, 0),
    }
}

/// The bytes read and written of device `dev` by the lines `ls` of ioreg's output: a
/// line that gives `"Bytes (Read)"` or `"Bytes (Write)"` sets that count of the device
/// declared last, the other count staying as it was (zero at first).
pub open spec fn ioreg_counters_of(ls: Seq<Seq<char>>, dev: Seq<char>) -> Option<(u64, u64)>
    decreases ls.len(),
{
    if ls.len() == 0 {
        None
    } else {
        let prev = ioreg_counters_of(ls.drop_last(), dev);
        if ioreg_current(ls) != dev {
            prev
        } else {
            let line = ls.last();
            let rd = match ioreg_number(line, "Bytes (Read)"@) {
                Some(a) => Some((a, or_zeros(prev).1)),
                None => prev,
            };
            match ioreg_number(line, "Bytes (Write)"@) {
                Some(b) => Some((or_zeros(rd).0, b)),
                None => rd,
            }
        }
    }
}

/// Sets one count of what is stored under `key`, the other staying as it was (zero
/// where nothing was stored).
fn put_count(pairs: &mut Vec<(String, (u64, u64))>, key: &Vec<char>, v: u64, write: bool)
    requires
        keys_unique(old(pairs)@),
    ensures
        keys_unique(final(pairs)@),
        forall|k: Seq<char>| #[trigger] pair_value(final(pairs)@, k) == if k == key@ {
            let was = or_zeros(pair_value(old(pairs)@, key@));
            Some(if write { (was.0, v) } else { (v, was.1) })
        } else {
            pair_value(old(pairs)@, k)
        },
{
    let name = string_from_chars(key.as_slice());
    let was = match pair_get(pairs, &name) {
        Some(p) => p,
        None => (0, 0),
    };
    let now = if write { (was.0, v) } else { (v, was.1) };
    pair_put(pairs, name, now);
}

/// The read and written bytes of each whole disk, from the output of
/// `ioreg -c IOBlockStorageDriver -r -d 1` (see `ioreg_counters_of`); each device
/// appears once. White space around a line, and a carriage return before its line
/// feed, change nothing in what the line gives, so the lines are read as they stand.
pub fn read_ioreg_counters(output: &str) -> (r: Vec<(String, (u64, u64))>)
    ensures
        keys_unique(r@),
        forall|d: Seq<char>| #[trigger] pair_value(r@, d) == ioreg_counters_of(pieces(output@), d),
{
    let chars = str_chars(output);
    let ls = split_pieces(chars.as_slice());
    let ghost all = pieces(output@);
    let rd_key = str_chars("Bytes (Read)");
    let wr_key = str_chars("Bytes (Write)");
    let mut r: Vec<(String, (u64, u64))> = Vec::new();
    let mut cur: Vec<char> = Vec::new();
    let mut k: usize = 0;
    while k < ls.len()
        invariant
            chars@ == output@,
            ls@.len() == all.len(),
            forall|j: int| 0 <= j < ls@.len() ==> (#[trigger] ls@[j])@ == all[j],
            rd_key@ == "Bytes (Read)"@,
            wr_key@ == "Bytes (Write)"@,
            k <= ls@.len(),
            cur@ == ioreg_current(all.take(k as int)),
            keys_unique(r@),
            forall|d: Seq<char>| #[trigger] pair_value(r@, d) == ioreg_counters_of(all.take(k as int), d),
        decreases ls@.len() - k,
    {
        let line = ls[k].as_slice();
        let ghost pre = all.take(k as int);
        let ghost now = all.take(k + 1);
        assert(now.drop_last() =~= pre);
        assert(now.last() == all[k as int]);
        if let Some(n) = bsd_name_of(line) {
            cur = bsd_base_of(n.as_slice());
        }
        assert(cur@ == ioreg_current(now));
        let ghost before = r@;
        let rd = ioreg_number_of(line, rd_key.as_slice());
        if let Some(a) = rd {
            put_count(&mut r, &cur, a, false);
        }
        let ghost mid = r@;
        let wr = ioreg_number_of(line, wr_key.as_slice());
        if let Some(b) = wr {
            put_count(&mut r, &cur, b, true);
        }
        assert forall|d: Seq<char>| #[trigger] pair_value(r@, d) == ioreg_counters_of(now, d) by {
            assert(pair_value(before, d) == ioreg_counters_of(pre, d));
            if d == cur@ {
                assert(pair_value(mid, d) == match ioreg_number(all[k as int], "Bytes (Read)"@) {
                    Some(a) => Some((a, or_zeros(pair_value(before, d)).1)),
                    None => pair_value(before, d),
                });
            } else {
                assert(pair_value(mid, d) == pair_value(before, d));
            }
        }
        k = k + 1;
    }
    assert(all.take(ls@.len() as int) =~= all);
    r
}

// ─── Drive health ───────────────────────────────────────────────────────────

/// The health that the kernel's device state names: `running` is sound; `offline`,
/// `dead` and `blocked` are failing; anything else is unknown. White space around the
/// state does not count.
pub open spec fn state_health(s: Seq<char>) -> SmartHealth {
    let t = trim(s);
    if t == "running"@ {
        SmartHealth::Verified
    } else if t == "offline"@ || t == "dead"@ || t == "blocked"@ {
        SmartHealth::Failing
    } else {
        SmartHealth::Unknown
    }
}

/// The health named by the text of a device's state file (see `state_health`).
pub fn health_from_state(s: &str) -> (r: SmartHealth)
    ensures
        r == state_health(s@),
{
    let c = str_chars(s);
    let t = trim_chars(&c);
    if chars_eq(t.as_slice(), "running") {
        SmartHealth::Verified
    } else if chars_eq(t.as_slice(), "offline") || chars_eq(t.as_slice(), "dead") || chars_eq(
        t.as_slice(),
        "blocked",
    ) {
        SmartHealth::Failing
    } else {
        SmartHealth::Unknown
    }
}

/// `s` with every leading copy of `p` dropped.
pub open spec fn drop_leading(s: Seq<char>, p: Seq<char>) -> Seq<char>
    decreases s.len(),
{
    if p.len() > 0 && starts_with(s, p) { drop_leading(s.skip(p.len() as int), p) } else { s }
}

/// The health that a report of `diskutil info` states: the first line that starts,
/// past its white space, with `SMART Status:` decides, by the word after it
/// (`Verified`, `Failing`, anything else unknown); without such a line, unknown.
pub open spec fn report_health(ls: Seq<Seq<char>>) -> SmartHealth
    decreases ls.len(),
{
    if ls.len() == 0 {
        SmartHealth::Unknown
    } else {
        let t = trim(ls[0]);
        if starts_with(t, "SMART Status:"@) {
            let v = trim(drop_leading(t, "SMART Status:"@));
            if v == "Verified"@ {
                SmartHealth::Verified
            } else if v == "Failing"@ {
                SmartHealth::Failing
            } else {
                SmartHealth::Unknown
            }
        } else {
            report_health(ls.drop_first())
        }
    }
}

/// `s` with every leading `SMART Status:` dropped (see `drop_leading`).
fn drop_status_prefix(s: &Vec<char>) -> (r: Vec<char>)
    ensures
        r@ == drop_leading(s@, "SMART Status:"@),
{
    proof {
        reveal_strlit("SMART Status:");
    }
    let mut k: usize = 0;
    assert(s@.skip(0) =~= s@);
    loop
        invariant
            "SMART Status:"@.len() == 13,
            k <= s@.len(),
            drop_leading(s@, "SMART Status:"@) == drop_leading(s@.skip(k as int), "SMART Status:"@),
        ensures
            k <= s@.len(),
            drop_leading(s@, "SMART Status:"@) == s@.skip(k as int),
        decreases s@.len() - k,
    {
        if s.len() - k < 13 {
            break;
        }
        let rest = crate::cli::slice_skip(s.as_slice(), k);
        if !starts_with_lit(rest, "SMART Status:") {
            break;
        }
        assert(s@.skip(k as int).skip(13) =~= s@.skip(k + 13));
        k = k + 13;
    }
    let mut r: Vec<char> = Vec::new();
    let mut j: usize = k;
    while j < s.len()
        invariant
            k <= j <= s@.len(),
            r@ == s@.subrange(k as int, j as int),
        decreases s@.len() - j,
    {
        r.push(s[j]);
        j = j + 1;
        assert(r@ =~= s@.subrange(k as int, j as int));
    }
    assert(r@ =~= s@.skip(k as int));
    r
}

/// The health stated by a report of `diskutil info` (see `report_health`).
pub fn health_from_report(out: &str) -> (r: SmartHealth)
    ensures
        r == report_health(pieces(out@)),
{
    let c = str_chars(out);
    let ls = split_pieces(c.as_slice());
    let ghost all = pieces(out@);
    let mut k: usize = 0;
    assert(all.skip(0) =~= all);
    while k < ls.len()
        invariant
            c@ == out@,
            all == pieces(out@),
            ls@.len() == all.len(),
            forall|j: int| 0 <= j < ls@.len() ==> (#[trigger] ls@[j])@ == all[j],
            k <= ls@.len(),
            report_health(all) == report_health(all.skip(k as int)),
        decreases ls@.len() - k,
    {
        assert(all.skip(k as int)[0] == all[k as int]);
        assert(all.skip(k as int).drop_first() =~= all.skip(k + 1));
        assert(ls@[k as int]@ == all[k as int]);
        let t = trim_chars(&ls[k]);
        if starts_with_lit(t.as_slice(), "SMART Status:") {
            let rest = drop_status_prefix(&t);
            let v = trim_chars(&rest);
            proof {
                reveal_strlit("Verified");
                reveal_strlit("Failing");
            }
            if chars_eq(v.as_slice(), "Verified") {
                return SmartHealth::Verified;
            } else if chars_eq(v.as_slice(), "Failing") {
                return SmartHealth::Failing;
            } else {
                return SmartHealth::Unknown;
            }
        }
        k = k + 1;
    }
    SmartHealth::Unknown
}

/// The pieces of `s` between line feeds (see `pieces`).
pub fn split_pieces(s: &[char]) -> (r: Vec<Vec<char>>)
    ensures
        r@.len() == pieces(s@).len(),
        forall|k: int| 0 <= k < r@.len() ==> (#[trigger] r@[k])@ == pieces(s@)[k],
{
    let mut ls: Vec<Vec<char>> = Vec::new();
    let mut cur: Vec<char> = Vec::new();
    let mut i: usize = 0;
    while i < s.len()
        invariant
            i <= s@.len(),
            ls@.len() == lines_state(s@.subrange(0, i as int)).0.len(),
            forall|k: int| 0 <= k < ls@.len() ==> (#[trigger] ls@[k])@ == lines_state(s@.subrange(0, i as int)).0[k],
            cur@ == lines_state(s@.subrange(0, i as int)).1,
        decreases s@.len() - i,
    {
        let c = s[i];
        let ghost pre = s@.subrange(0, i as int);
        assert(s@.subrange(0, i + 1).drop_last() == pre);
        if c == '\n' {
            ls.push(cur);
            cur = Vec::new();
        } else {
            cur.push(c);
        }
        i = i + 1;
    }
    assert(s@.subrange(0, s@.len() as int) =~= s@);
    ls.push(cur);
    ls
}

/// Marks each mount with the health recorded for it, if one is; the mounts are
/// otherwise unchanged.
pub fn apply_smart_status(entries: &mut Vec<DiskEntry>, smart: &Vec<(String, SmartHealth)>)
    requires
        keys_unique(smart@),
    ensures
        final(entries)@.len() == old(entries)@.len(),
        forall|i: int| 0 <= i < old(entries)@.len() ==> #[trigger] final(entries)@[i] == match pair_value(
            smart@,
            old(entries)@[i].mount@,
        ) {
            Some(h) => DiskEntry { smart_status: Some(h), ..old(entries)@[i] },
            None => old(entries)@[i],
        },
{
    let ghost start = entries@;
    let mut i: usize = 0;
    while i < entries.len()
        invariant
            keys_unique(smart@),
            entries@.len() == start.len(),
            i <= entries@.len(),
            forall|j: int| i <= j < entries@.len() ==> #[trigger] entries@[j] == start[j],
            forall|j: int| 0 <= j < i ==> #[trigger] entries@[j] == match pair_value(smart@, start[j].mount@) {
                Some(h) => DiskEntry { smart_status: Some(h), ..start[j] },
                None => start[j],
            },
        decreases entries@.len() - i,
    {
        let h = pair_get(smart, &entries[i].mount);
        if let Some(h) = h {
            let mut e = entries[i].clone();
            e.smart_status = Some(h);
            entries.set(i, e);
        }
        i = i + 1;
    }
}

/// What each mount's device read and wrote between two readings of the counters: for
/// every mount whose device is in both readings, the growth of each count (zero where
/// a count went down).
pub open spec fn io_delta(
    prev: Seq<(String, (u64, u64))>,
    curr: Seq<(String, (u64, u64))>,
    mount_dev: Seq<(String, String)>,
    m: Seq<char>,
) -> Option<(u64, u64)> {
    match text_value(mount_dev, m) {
        Some(d) => match (pair_value(prev, d), pair_value(curr, d)) {
            (Some(p), Some(c)) => Some(
                (
                    (if c.0 >= p.0 { c.0 - p.0 } else { 0 }) as u64,
                    (if c.1 >= p.1 { c.1 - p.1 } else { 0 }) as u64,
                ),
            ),
            _ => None,
        },
        None => None,
    }
}

/// The bytes each mount's device read and wrote between two readings (see `io_delta`);
/// each mount appears once.
pub fn io_deltas(
    prev: &Vec<(String, (u64, u64))>,
    curr: &Vec<(String, (u64, u64))>,
    mount_dev: &Vec<(String, String)>,
) -> (r: Vec<(String, (u64, u64))>)
    requires
        keys_unique(prev@),
        keys_unique(curr@),
        keys_unique(mount_dev@),
    ensures
        keys_unique(r@),
        forall|m: Seq<char>| #[trigger] pair_value(r@, m) == io_delta(prev@, curr@, mount_dev@, m),
{
    let mut r: Vec<(String, (u64, u64))> = Vec::new();
    let mut k: usize = 0;
    while k < mount_dev.len()
        invariant
            keys_unique(prev@),
            keys_unique(curr@),
            keys_unique(mount_dev@),
            k <= mount_dev@.len(),
            keys_unique(r@),
            forall|m: Seq<char>| #[trigger] pair_value(r@, m) == io_delta(prev@, curr@, mount_dev@.take(k as int), m),
        decreases mount_dev@.len() - k,
    {
        let m = &mount_dev[k].0;
        let d = &mount_dev[k].1;
        let p = pair_get(prev, d);
        let c = pair_get(curr, d);
        let ghost before = r@;
        let ghost md = mount_dev@.take(k + 1);
        assert(md.drop_last() =~= mount_dev@.take(k as int));
        assert(md.last() == mount_dev@[k as int]);
        let ghost mv = m@;
        assert(mount_dev@[k as int].0@ == mv && mount_dev@[k as int].1@ == d@);
        assert forall|j: int| 0 <= j < mount_dev@.take(k as int).len() implies (#[trigger] mount_dev@.take(
            k as int,
        )[j]).0@ != mv by {
            assert(mount_dev@[j].0@ != mount_dev@[k as int].0@);
        }
        proof {
            lemma_pair_value_absent(mount_dev@.take(k as int), mv);
        }
        if let (Some(p), Some(c)) = (p, c) {
            let rd: u64 = if c.0 >= p.0 { c.0 - p.0 } else { 0 };
            let wr: u64 = if c.1 >= p.1 { c.1 - p.1 } else { 0 };
            pair_put(&mut r, m.clone(), (rd, wr));
            assert forall|x: Seq<char>| #[trigger] pair_value(r@, x) == io_delta(prev@, curr@, md, x) by {
                assert(pair_value(r@, x) == if x == mv { Some((rd, wr)) } else { pair_value(before, x) });
                assert(pair_value(before, x) == io_delta(prev@, curr@, mount_dev@.take(k as int), x));
                if x != mv {
                    assert(text_value(md, x) == text_value(mount_dev@.take(k as int), x));
                }
            }
        } else {
            assert forall|x: Seq<char>| #[trigger] pair_value(r@, x) == io_delta(prev@, curr@, md, x) by {
                assert(pair_value(before, x) == io_delta(prev@, curr@, mount_dev@.take(k as int), x));
                if x != mv {
                    assert(text_value(md, x) == text_value(mount_dev@.take(k as int), x));
                }
            }
        }
        k = k + 1;
    }
    assert(mount_dev@.take(mount_dev@.len() as int) =~= mount_dev@);
    r
}

/// Records each mount's read and write rates (as the bits of the floating-point
/// numbers) where a rate is given for it; the mounts are otherwise unchanged.
pub fn apply_io_rates(entries: &mut Vec<DiskEntry>, rates: &Vec<(String, (u64, u64))>)
    requires
        keys_unique(rates@),
    ensures
        final(entries)@.len() == old(entries)@.len(),
        forall|i: int| 0 <= i < old(entries)@.len() ==> #[trigger] final(entries)@[i] == match pair_value(
            rates@,
            old(entries)@[i].mount@,
        ) {
            Some(r) => DiskEntry { io_read_bits: Some(r.0), io_write_bits: Some(r.1), ..old(entries)@[i] },
            None => old(entries)@[i],
        },
{
    let ghost start = entries@;
    let mut i: usize = 0;
    while i < entries.len()
        invariant
            keys_unique(rates@),
            entries@.len() == start.len(),
            i <= entries@.len(),
            forall|j: int| i <= j < entries@.len() ==> #[trigger] entries@[j] == start[j],
            forall|j: int| 0 <= j < i ==> #[trigger] entries@[j] == match pair_value(rates@, start[j].mount@) {
                Some(r) => DiskEntry { io_read_bits: Some(r.0), io_write_bits: Some(r.1), ..start[j] },
                None => start[j],
            },
        decreases entries@.len() - i,
    {
        let r = pair_get(rates, &entries[i].mount);
        if let Some(r) = r {
            let mut e = entries[i].clone();
            e.io_read_bits = Some(r.0);
            e.io_write_bits = Some(r.1);
            entries.set(i, e);
        }
        i = i + 1;
    }
}

// ─── The battery ────────────────────────────────────────────────────────────

/// A charge percentage as `u8::from_str` reads one: an optional `+` and at least one
/// decimal digit, of value at most 255.
pub open spec fn charge_value(s: Seq<char>) -> Option<u8> {
    match parse_unsigned(s) {
        Some(n) => if n <= 255 { Some(n as u8) } else { None },
        None => None,
    }
}

/// The charge that the kernel's battery capacity file gives: its text, white space
/// around it aside, read as a percentage.
pub fn battery_from_capacity(s: &str) -> (r: Option<u8>)
    ensures
        r == charge_value(trim(s@)),
{
    let c = str_chars(s);
    let t = trim_chars(&c);
    match parse_unsigned_exec(t.as_slice()) {
        Some(n) => if n <= 255 { Some(n as u8) } else { None },
        None => None,
    }
}

/// The leading ASCII digits of `w`.
pub open spec fn leading_digits(w: Seq<char>) -> Seq<char>
    decreases w.len(),
{
    if w.len() > 0 && ascii_digit(w[0]) { seq![w[0]] + leading_digits(w.drop_first()) } else { Seq::empty() }
}

/// Whether `w` ends with `suffix`.
pub open spec fn ends_with(w: Seq<char>, suffix: Seq<char>) -> bool {
    w.len() >= suffix.len() && w.subrange(w.len() - suffix.len(), w.len() as int) == suffix
}

/// The charge that a report of `pmset -g batt` gives: the first word ending in `%` or
/// `%;` whose leading digits read as a percentage.
pub open spec fn pmset_charge(ws: Seq<Seq<char>>) -> Option<u8>
    decreases ws.len(),
{
    if ws.len() == 0 {
        None
    } else {
        let w = ws[0];
        if (ends_with(w, "%;"@) || ends_with(w, "%"@)) && charge_value(leading_digits(w)) is Some {
            charge_value(leading_digits(w))
        } else {
            pmset_charge(ws.drop_first())
        }
    }
}

/// The leading ASCII digits of `w` (see `leading_digits`).
fn leading_digits_of(w: &Vec<char>) -> (r: Vec<char>)
    ensures
        r@ == leading_digits(w@),
{
    let mut n: usize = 0;
    while n < w.len() && '0' <= w[n] && w[n] <= '9'
        invariant
            n <= w@.len(),
            forall|j: int| 0 <= j < n ==> ascii_digit(#[trigger] w@[j]),
        decreases w@.len() - n,
    {
        n = n + 1;
    }
    let mut r: Vec<char> = Vec::new();
    let mut k: usize = 0;
    while k < n
        invariant
            k <= n,
            n <= w@.len(),
            r@ == w@.take(k as int),
        decreases n - k,
    {
        r.push(w[k]);
        k = k + 1;
        assert(r@ =~= w@.take(k as int));
    }
    proof {
        lemma_leading_digits(w@, n as int);
    }
    r
}

/// The leading digits of `w` are its first `n` characters when those are digits and the
/// next is not.
proof fn lemma_leading_digits(w: Seq<char>, n: int)
    requires
        0 <= n <= w.len(),
        forall|j: int| 0 <= j < n ==> ascii_digit(#[trigger] w[j]),
        n == w.len() || !ascii_digit(w[n]),
    ensures
        leading_digits(w) == w.take(n),
    decreases n,
{
    if n == 0 {
        assert(w.take(0) =~= Seq::<char>::empty());
    } else {
        assert forall|j: int| 0 <= j < n - 1 implies ascii_digit(#[trigger] w.drop_first()[j]) by {
            assert(w.drop_first()[j] == w[j + 1]);
        }
        if n - 1 < w.drop_first().len() {
            assert(w.drop_first()[n - 1] == w[n]);
        }
        lemma_leading_digits(w.drop_first(), n - 1);
        assert(w.take(n) =~= seq![w[0]] + w.drop_first().take(n - 1));
    }
}

/// Whether `w` ends with the characters of `lit`.
fn ends_with_lit(w: &Vec<char>, lit: &str) -> (r: bool)
    ensures
        r == ends_with(w@, lit@),
{
    let n = lit.unicode_len();
    if w.len() < n {
        return false;
    }
    let start = w.len() - n;
    let mut i: usize = 0;
    while i < n
        invariant
            n == lit@.len(),
            start + n == w@.len(),
            w@.len() == w.len(),
            i <= n,
            forall|j: int| 0 <= j < i ==> w@[start + j] == lit@[j],
        decreases n - i,
    {
        if w[start + i] != lit.get_char(i) {
            assert(w@.subrange(start as int, w@.len() as int)[i as int] != lit@[i as int]);
            return false;
        }
        i = i + 1;
    }
    assert(w@.subrange(start as int, w@.len() as int) =~= lit@);
    true
}

/// The charge that a report of `pmset -g batt` gives (see `pmset_charge`).
pub fn battery_from_pmset(out: &str) -> (r: Option<u8>)
    ensures
        r == pmset_charge(words(out@)),
{
    let c = str_chars(out);
    let ws = split_words(c.as_slice());
    let ghost all = words(out@);
    let mut k: usize = 0;
    assert(all.skip(0) =~= all);
    while k < ws.len()
        invariant
            all == words(out@),
            ws@.map_values(|w: Vec<char>| w@) == all,
            k <= ws@.len(),
            pmset_charge(all) == pmset_charge(all.skip(k as int)),
        decreases ws@.len() - k,
    {
        assert(all.skip(k as int)[0] == all[k as int]);
        assert(all.skip(k as int).drop_first() =~= all.skip(k + 1));
        assert(ws@[k as int]@ == all[k as int]);
        let w = &ws[k];
        if ends_with_lit(w, "%;") || ends_with_lit(w, "%") {
            let d = leading_digits_of(w);
            let v = match parse_unsigned_exec(d.as_slice()) {
                Some(n) => if n <= 255 { Some(n as u8) } else { None },
                None => None,
            };
            if v.is_some() {
                return v;
            }
        }
        k = k + 1;
    }
    None
}

} // verus!
