//! The plain-text report of the disk listing that the export key writes.
use vstd::prelude::*;
use crate::helpers::{bytes_text, format_bytes};
use crate::text::{push_chars, push_str, str_chars, string_from_chars};
use crate::types::{DiskEntry, UnitMode};

verus! {

/// `n` spaces.
pub open spec fn spaces(n: nat) -> Seq<char> {
    Seq::new(n, |i: int| ' ')
}

/// `s` left-aligned in a field of `w` characters (as `{:<w}` formats it).
pub open spec fn pad_right(s: Seq<char>, w: nat) -> Seq<char> {
    if s.len() >= w { s } else { s + spaces((w - s.len()) as nat) }
}

/// `s` right-aligned in a field of `w` characters (as `{:>w}` formats it).
pub open spec fn pad_left(s: Seq<char>, w: nat) -> Seq<char> {
    if s.len() >= w { s } else { spaces((w - s.len()) as nat) + s }
}

/// One line of the report: the mount point, its usage percentage (as `pct` renders
/// it), and its used and total sizes.
pub open spec fn report_row(d: DiskEntry, pct: Seq<char>, mode: UnitMode) -> Seq<char> {
    pad_right(d.mount@, 30) + " "@ + pad_left(pct, 4) + "% "@ + pad_left(bytes_text(d.used as nat, mode), 10)
        + " "@ + pad_left(bytes_text(d.total as nat, mode), 10) + "\n"@
}

/// The lines of the report for the mounts `ds`, whose percentages render as `pcts`.
pub open spec fn report_rows(ds: Seq<DiskEntry>, pcts: Seq<Seq<char>>, mode: UnitMode) -> Seq<char>
    decreases ds.len(),
{
    if ds.len() == 0 || pcts.len() == 0 {
        Seq::empty()
    } else {
        report_rows(ds.drop_last(), pcts.drop_last(), mode) + report_row(ds.last(), pcts.last(), mode)
    }
}

/// The report: a title, the host and the time, a header and a rule, and a line per
/// mount.
pub open spec fn report_text(
    host: Seq<char>,
    date: Seq<char>,
    time: Seq<char>,
    ds: Seq<DiskEntry>,
    pcts: Seq<Seq<char>>,
    mode: UnitMode,
) -> Seq<char> {
    "DISK MATRIX EXPORT\n"@ + "Host: "@ + host + "  Date: "@ + date + " "@ + time + "\n\n"@ + pad_right(
        "MOUNT"@,
        30,
    ) + " "@ + pad_left("PCT"@, 5) + " "@ + pad_left("USED"@, 10) + " "@ + pad_left("TOTAL"@, 10) + "\n"@
        + Seq::new(60, |i: int| '-') + "\n"@ + report_rows(ds, pcts, mode)
}

/// Appends `n` copies of `c`.
fn push_repeat(v: &mut Vec<char>, c: char, n: usize)
    ensures
        final(v)@ == old(v)@ + Seq::new(n as nat, |i: int| c),
{
    let ghost start = v@;
    let mut k: usize = 0;
    while k < n
        invariant
            k <= n,
            v@ == start + Seq::new(k as nat, |i: int| c),
        decreases n - k,
    {
        v.push(c);
        k = k + 1;
        assert(v@ =~= start + Seq::new(k as nat, |i: int| c));
    }
}

/// Appends `s` left-aligned in a field of `w` characters.
pub(crate) fn push_pad_right(v: &mut Vec<char>, s: &[char], w: usize)
    ensures
        final(v)@ == old(v)@ + pad_right(s@, w as nat),
{
    push_chars(v, s);
    if s.len() < w {
        push_repeat(v, ' ', w - s.len());
    }
    assert(v@ =~= old(v)@ + pad_right(s@, w as nat));
}

/// Appends `s` right-aligned in a field of `w` characters.
fn push_pad_left(v: &mut Vec<char>, s: &[char], w: usize)
    ensures
        final(v)@ == old(v)@ + pad_left(s@, w as nat),
{
    if s.len() < w {
        push_repeat(v, ' ', w - s.len());
    }
    push_chars(v, s);
    assert(v@ =~= old(v)@ + pad_left(s@, w as nat));
}

/// Appends the report line of `d` (see `report_row`).
fn push_row(v: &mut Vec<char>, d: &DiskEntry, pct: &String, mode: UnitMode)
    ensures
        final(v)@ == old(v)@ + report_row(*d, pct@, mode),
{
    let ghost start = v@;
    let m = str_chars(d.mount.as_str());
    push_pad_right(v, m.as_slice(), 30);
    push_str(v, " ");
    let p = str_chars(pct.as_str());
    push_pad_left(v, p.as_slice(), 4);
    push_str(v, "% ");
    let u = format_bytes(d.used, mode);
    let uc = str_chars(u.as_str());
    push_pad_left(v, uc.as_slice(), 10);
    push_str(v, " ");
    let t = format_bytes(d.total, mode);
    let tc = str_chars(t.as_str());
    push_pad_left(v, tc.as_slice(), 10);
    push_str(v, "\n");
    assert(v@ =~= start + report_row(*d, pct@, mode));
}

/// The report of the listing `disks`, written on `host` at `date` and `time`;
/// `pct_texts` holds each mount's usage percentage as rendered for the report.
pub fn export_report(
    host: &str,
    date: &str,
    time: &str,
    disks: &[DiskEntry],
    pct_texts: &[String],
    mode: UnitMode,
) -> (r: String)
    requires
        pct_texts@.len() == disks@.len(),
    ensures
        r@ == report_text(host@, date@, time@, disks@, pct_texts@.map_values(|p: String| p@), mode),
{
    let mut v: Vec<char> = Vec::new();
    push_str(&mut v, "DISK MATRIX EXPORT\n");
    push_str(&mut v, "Host: ");
    push_str(&mut v, host);
    push_str(&mut v, "  Date: ");
    push_str(&mut v, date);
    push_str(&mut v, " ");
    push_str(&mut v, time);
    push_str(&mut v, "\n\n");
    let mc = str_chars("MOUNT");
    push_pad_right(&mut v, mc.as_slice(), 30);
    push_str(&mut v, " ");
    let pc = str_chars("PCT");
    push_pad_left(&mut v, pc.as_slice(), 5);
    push_str(&mut v, " ");
    let uc = str_chars("USED");
    push_pad_left(&mut v, uc.as_slice(), 10);
    push_str(&mut v, " ");
    let tc = str_chars("TOTAL");
    push_pad_left(&mut v, tc.as_slice(), 10);
    push_str(&mut v, "\n");
    push_repeat(&mut v, '-', 60);
    push_str(&mut v, "\n");
    let ghost head = v@;
    let ghost pcts = pct_texts@.map_values(|p: String| p@);
    let mut i: usize = 0;
    while i < disks.len()
        invariant
            pct_texts@.len() == disks@.len(),
            pcts == pct_texts@.map_values(|p: String| p@),
            i <= disks@.len(),
            v@ == head + report_rows(disks@.subrange(0, i as int), pcts.subrange(0, i as int), mode),
        decreases disks@.len() - i,
    {
        push_row(&mut v, &disks[i], &pct_texts[i], mode);
        i = i + 1;
        assert(disks@.subrange(0, i as int).drop_last() =~= disks@.subrange(0, i - 1));
        assert(pcts.subrange(0, i as int).drop_last() =~= pcts.subrange(0, i - 1));
    }
    assert(disks@.subrange(0, disks@.len() as int) =~= disks@);
    assert(pcts.subrange(0, disks@.len() as int) =~= pcts);
    assert(v@ =~= report_text(host@, date@, time@, disks@, pcts, mode));
    string_from_chars(v.as_slice())
}

} // verus!
