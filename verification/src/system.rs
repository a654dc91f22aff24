//! Calendar arithmetic and the parsing of what the system reports.
use vstd::prelude::*;
use crate::app::{is_drill_order, sorted_entries};
use crate::types::{DirEntry, DiskKind, DrillSortMode};
use crate::text::{chars_eq, push_zero_padded, str_chars, string_from_chars, zero_padded};
use core::time::Duration;
use std::time::{SystemTime, SystemTimeError};

verus! {

/// Whether `y` is a leap year of the Gregorian calendar.
pub open spec fn is_leap(y: int) -> bool {
    (y % 4 == 0 && y % 100 != 0) || y % 400 == 0
}

/// Number of days in year `y`.
pub open spec fn year_len(y: int) -> int {
    if is_leap(y) { 366 } else { 365 }
}

/// Number of days in month `m` (1 to 12) of year `y`.
pub open spec fn month_len(y: int, m: int) -> int {
    if m == 2 {
        if is_leap(y) { 29 } else { 28 }
    } else if m == 4 || m == 6 || m == 9 || m == 11 {
        30
    } else {
        31
    }
}

/// Counting whole years from `y` on: the year that day `days` (from the start of `y`)
/// falls in, and the day within that year.
pub open spec fn year_of(days: int, y: int) -> (int, int)
    decreases days,
{
    if days < year_len(y) {
        (y, days)
    } else {
        year_of(days - year_len(y), y + 1)
    }
}

/// Counting whole months from month `m` of year `y` on: the month that day `days` falls
/// in and the day within it; past December the count gives up and reports January.
pub open spec fn month_of(days: int, y: int, m: int) -> (int, int)
    decreases 13 - m,
{
    if m > 12 {
        (1, days)
    } else if days < month_len(y, m) {
        (m, days)
    } else {
        month_of(days - month_len(y, m), y, m + 1)
    }
}

/// Quotient of integer division rounded toward zero, as Rust computes it.
pub open spec fn quot(a: int, b: int) -> int {
    if a >= 0 { a / b } else { -((-a) / b) }
}

/// Remainder of integer division rounded toward zero, as Rust computes it.
pub open spec fn rem(a: int, b: int) -> int {
    a - b * quot(a, b)
}

/// `x` reduced modulo 2^32, as a cast to `u32` does.
pub open spec fn wrap32(x: int) -> int {
    x % 0x1_0000_0000
}

/// Date and time of an epoch second in UTC: year, month, day, hour, minute, second.
/// Before 1970 the fields are what the arithmetic gives: year 1970, January, and the
/// day and time of day wrapped to 32 bits.
pub open spec fn utc_fields(epoch: int) -> (int, int, int, int, int, int) {
    let days = quot(epoch, 86400);
    let secs = wrap32(rem(epoch, 86400));
    let (y, rest) = if days >= 0 { year_of(days, 1970) } else { (1970, days) };
    let (m, d) = month_of(rest, y, 1);
    (y, m, wrap32(d) + 1, secs / 3600, (secs % 3600) / 60, secs % 60)
}

/// Whether `epoch_to_local` stays within its integer types for `epoch`: the year fits in
/// an `i32` and the day of the month does not wrap.
pub open spec fn epoch_in_range(epoch: int) -> bool {
    let days = quot(epoch, 86400);
    &&& days >= 0 ==> year_of(days, 1970).0 < 0x7fff_ffff
    &&& days < 0 ==> wrap32(days) != 0xffff_ffff
}

proof fn lemma_year_of_ge(days: int, y: int)
    requires
        days >= 0,
    ensures
        year_of(days, y).0 >= y,
        0 <= year_of(days, y).1 < year_len(year_of(days, y).0),
    decreases days,
{
    if days >= year_len(y) {
        lemma_year_of_ge(days - year_len(y), y + 1);
    }
}

proof fn lemma_month_of_range(days: int, y: int, m: int)
    requires
        m >= 1,
        days >= 0,
    ensures
        1 <= month_of(days, y, m).0 <= 12,
        month_of(days, y, m).1 <= days,
        month_of(days, y, m).1 >= 0,
    decreases 13 - m,
{
    if m <= 12 && days >= month_len(y, m) {
        lemma_month_of_range(days - month_len(y, m), y, m + 1);
    }
}

/// Days left in year `y` from the start of month `m` on.
pub open spec fn rem_days(y: int, m: int) -> int
    decreases 13 - m,
{
    if m > 12 { 0 } else { month_len(y, m) + rem_days(y, m + 1) }
}

proof fn lemma_rem_days_year(y: int)
    ensures
        rem_days(y, 1) == year_len(y),
{
    reveal_with_fuel(rem_days, 13);
}

proof fn lemma_month_of_small(days: int, y: int, m: int)
    requires
        1 <= m,
        0 <= days < rem_days(y, m),
    ensures
        month_of(days, y, m).1 < month_len(y, month_of(days, y, m).0),
        month_of(days, y, m).1 < 31,
        m <= 12,
    decreases 13 - m,
{
    if m > 12 {
    } else if days < month_len(y, m) {
    } else {
        lemma_month_of_small(days - month_len(y, m), y, m + 1);
    }
}

fn days_in_year(y: i32) -> (r: i64)
    requires
        y >= 1970,
    ensures
        r == year_len(y as int),
{
    if (y % 4 == 0 && y % 100 != 0) || y % 400 == 0 { 366 } else { 365 }
}

fn days_in_month(y: i32, m: u32) -> (r: i64)
    requires
        y >= 1970,
    ensures
        r == month_len(y as int, m as int),
{
    let leap = (y % 4 == 0 && y % 100 != 0) || y % 400 == 0;
    if m == 2 {
        if leap { 29 } else { 28 }
    } else if m == 4 || m == 6 || m == 9 || m == 11 {
        30
    } else {
        31
    }
}

/// Splits an epoch second into UTC year, month, day, hour, minute and second, counting
/// whole years and then whole months from 1970.
pub fn epoch_to_local(epoch: i64) -> (r: (i32, u32, u32, u32, u32, u32))
    requires
        epoch_in_range(epoch as int),
    ensures
        r.0 as int == utc_fields(epoch as int).0,
        r.1 as int == utc_fields(epoch as int).1,
        r.2 as int == utc_fields(epoch as int).2,
        r.3 as int == utc_fields(epoch as int).3,
        r.4 as int == utc_fields(epoch as int).4,
        r.5 as int == utc_fields(epoch as int).5,
{
    let secs_per_day: i64 = 86400;
    let mut days: i64 = epoch / secs_per_day;
    assert(days == quot(epoch as int, 86400));
    let r64: i64 = epoch % secs_per_day;
    assert(r64 == rem(epoch as int, 86400));
    let day_secs: u32 = if r64 >= 0 { r64 as u32 } else { (0x1_0000_0000i64 + r64) as u32 };
    assert(day_secs == wrap32(rem(epoch as int, 86400)));
    let hh = day_secs / 3600;
    let mm = (day_secs % 3600) / 60;
    let ss = day_secs % 60;
    let mut y: i32 = 1970;
    let ghost d0 = days as int;
    if days >= 0 {
        proof {
            lemma_year_of_ge(d0, 1970);
        }
        while days >= days_in_year(y)
            invariant
                y >= 1970,
                days >= 0,
                d0 >= 0,
                year_of(d0, 1970) == year_of(days as int, y as int),
                year_of(d0, 1970).0 < 0x7fff_ffff,
            decreases days,
        {
            proof {
                lemma_year_of_ge(days as int - year_len(y as int), y as int + 1);
            }
            days = days - days_in_year(y);
            y = y + 1;
        }
    }
    let ghost y0 = y as int;
    let ghost rest0 = days as int;
    let mut mo: u32 = 1;
    let mut i: u32 = 1;
    let mut found = false;
    if days >= 0 {
        proof {
            lemma_month_of_range(rest0, y0, 1);
            lemma_rem_days_year(y0);
            lemma_month_of_small(rest0, y0, 1);
        }
    }
    while i <= 12 && !found
        invariant
            1 <= i <= 13,
            y as int == y0,
            y >= 1970,
            !found ==> mo == 1 && month_of(rest0, y0, 1) == month_of(days as int, y0, i as int),
            found ==> mo as int == month_of(rest0, y0, 1).0 && days as int == month_of(rest0, y0, 1).1,
            days <= rest0,
            rest0 >= 0 ==> days >= 0,
        decreases 13 - i + (if found { 0int } else { 1int }),
    {
        if days < days_in_month(y, i) {
            mo = i;
            found = true;
        } else {
            days = days - days_in_month(y, i);
            i = i + 1;
        }
    }
    let ghost mres = month_of(rest0, y0, 1);
    assert(mo as int == mres.0 && days as int == mres.1);
    let dm: i64 = days % 0x1_0000_0000i64;
    let de: i64 = if dm < 0 { dm + 0x1_0000_0000i64 } else { dm };
    assert(de as int == wrap32(days as int));
    let day: u32 = de as u32;
    (y, mo, day + 1, hh, mm, ss)
}

/// What `format_date_time` prints for a year: at least four digits, a minus sign
/// counting toward the width.
pub open spec fn year_text(y: int) -> Seq<char> {
    if y >= 0 {
        zero_padded(y as nat, 4)
    } else {
        seq!['-'] + zero_padded((-y) as nat, 3)
    }
}

/// Renders a date as `YYYY.MM.DD` and a time as `HH:MM:SS`.
pub fn format_date_time(y: i32, mo: u32, d: u32, h: u32, mi: u32, s: u32) -> (r: (String, String))
    ensures
        r.0@ == year_text(y as int) + seq!['.'] + zero_padded(mo as nat, 2) + seq!['.'] + zero_padded(d as nat, 2),
        r.1@ == zero_padded(h as nat, 2) + seq![':'] + zero_padded(mi as nat, 2) + seq![':'] + zero_padded(s as nat, 2),
{
    let mut date: Vec<char> = Vec::new();
    if y >= 0 {
        push_zero_padded(&mut date, y as u64, 4);
    } else {
        date.push('-');
        let a: i64 = -(y as i64);
        push_zero_padded(&mut date, a as u64, 3);
    }
    date.push('.');
    push_zero_padded(&mut date, mo as u64, 2);
    date.push('.');
    push_zero_padded(&mut date, d as u64, 2);
    let mut time: Vec<char> = Vec::new();
    push_zero_padded(&mut time, h as u64, 2);
    time.push(':');
    push_zero_padded(&mut time, mi as u64, 2);
    time.push(':');
    push_zero_padded(&mut time, s as u64, 2);
    assert(date@ =~= year_text(y as int) + seq!['.'] + zero_padded(mo as nat, 2) + seq!['.'] + zero_padded(d as nat, 2));
    assert(time@ =~= zero_padded(h as nat, 2) + seq![':'] + zero_padded(mi as nat, 2) + seq![':'] + zero_padded(s as nat, 2));
    (string_from_chars(date.as_slice()), string_from_chars(time.as_slice()))
}

/// The network file-system types.
pub open spec fn network_fs(fs: Seq<char>) -> bool {
    ||| fs == "nfs"@
    ||| fs == "nfs4"@
    ||| fs == "cifs"@
    ||| fs == "smbfs"@
    ||| fs == "afp"@
    ||| fs == "ncp"@
    ||| fs == "fuse.sshfs"@
    ||| fs == "fuse.rclone"@
    ||| fs == "fuse.s3fs"@
    ||| fs == "9p"@
    ||| fs == "afs"@
}

/// Whether a file-system type is a network file system (whose latency is worth showing).
pub fn is_network_fs(fs: &str) -> (r: bool)
    ensures
        r == network_fs(fs@),
{
    let c = str_chars(fs);
    let s = c.as_slice();
    chars_eq(s, "nfs") || chars_eq(s, "nfs4") || chars_eq(s, "cifs") || chars_eq(s, "smbfs")
        || chars_eq(s, "afp") || chars_eq(s, "ncp") || chars_eq(s, "fuse.sshfs")
        || chars_eq(s, "fuse.rclone") || chars_eq(s, "fuse.s3fs") || chars_eq(s, "9p")
        || chars_eq(s, "afs")
}

/// The kind of device that a file-system type is kept on where the mount list says no
/// more: Apple's file systems are on flash storage, others unknown.
pub open spec fn fs_kind_of(fs: Seq<char>) -> DiskKind {
    if fs == "apfs"@ || fs == "hfs"@ { DiskKind::SSD } else { DiskKind::Unknown(-1i64) }
}

/// The kind of device behind a file system of type `fs` (see `fs_kind_of`).
pub fn fs_kind(fs: &str) -> (r: DiskKind)
    ensures
        r == fs_kind_of(fs@),
{
    let c = str_chars(fs);
    if chars_eq(c.as_slice(), "apfs") || chars_eq(c.as_slice(), "hfs") {
        DiskKind::SSD
    } else {
        DiskKind::Unknown(-1)
    }
}

/// The size and the used space of a file system of `blocks` blocks of `unit` bytes, of
/// which `avail` are free to users: the products wrap around at 2^64, and what is not
/// free counts as used (none where more is free than there is).
pub fn space_figures(blocks: u64, avail: u64, unit: u64) -> (r: (u64, u64))
    ensures
        r.0 == blocks.wrapping_mul(unit),
        r.1 == if avail.wrapping_mul(unit) <= r.0 { r.0 - avail.wrapping_mul(unit) } else { 0 },
{
    let total = blocks.wrapping_mul(unit);
    let free = avail.wrapping_mul(unit);
    (total, total.saturating_sub(free))
}

// ─── The clock ──────────────────────────────────────────────────────────────

#[verifier::external_type_specification]
#[verifier::external_body]
pub struct ExSystemTime(std::time::SystemTime);

#[verifier::external_type_specification]
#[verifier::external_body]
pub struct ExSystemTimeError(std::time::SystemTimeError);

/// The system clock's current reading (`SystemTime::now`). Nothing is stated of it: it
/// is whatever the clock says.
#[verifier::external_body]
fn system_now() -> SystemTime {
    SystemTime::now()
}

/// How long after the Unix epoch `t` lies (`SystemTime::duration_since` with
/// `UNIX_EPOCH`), or the error when `t` lies before it. Nothing is stated of the
/// result, which depends on the reading.
#[verifier::external_body]
fn since_unix_epoch(t: &SystemTime) -> Result<Duration, SystemTimeError> {
    t.duration_since(std::time::UNIX_EPOCH)
}

/// The whole seconds of a duration (`Duration::as_secs`). The duration is opaque here,
/// so nothing is stated of the result.
#[verifier::external_body]
fn whole_secs(d: &Duration) -> u64 {
    d.as_secs()
}

/// Whether `epoch_to_local` can split `epoch` (see `epoch_in_range`): its count of years
/// from 1970 stays below the largest `i32`, and before 1970 the day of the month does
/// not wrap.
pub fn epoch_fits(epoch: i64) -> (r: bool)
    ensures
        r == epoch_in_range(epoch as int),
{
    let days: i64 = epoch / 86400;
    assert(days == quot(epoch as int, 86400));
    if days < 0 {
        let dm: i64 = days % 0x1_0000_0000i64;
        let de: i64 = if dm < 0 { dm + 0x1_0000_0000i64 } else { dm };
        assert(de as int == wrap32(days as int));
        return de != 0xffff_ffff;
    }
    let ghost d0 = days as int;
    let mut d: i64 = days;
    let mut y: i32 = 1970;
    while d >= days_in_year(y)
        invariant
            1970 <= y <= 0x7fff_fffe,
            d >= 0,
            d0 >= 0,
            d0 == quot(epoch as int, 86400),
            year_of(d0, 1970) == year_of(d as int, y as int),
        decreases d,
    {
        if y == 0x7fff_fffe {
            proof {
                assert(year_of(d as int, y as int) == year_of(d as int - year_len(y as int), y as int + 1));
                lemma_year_of_ge(d as int - year_len(y as int), y as int + 1);
            }
            return false;
        }
        d = d - days_in_year(y);
        y = y + 1;
    }
    true
}

/// The date `YYYY.MM.DD` and time `HH:MM:SS` of an epoch second, in UTC.
pub open spec fn clock_text(epoch: int) -> (Seq<char>, Seq<char>) {
    let (y, mo, d, h, mi, s) = utc_fields(epoch);
    (
        year_text(y) + seq!['.'] + zero_padded(mo as nat, 2) + seq!['.'] + zero_padded(d as nat, 2),
        zero_padded(h as nat, 2) + seq![':'] + zero_padded(mi as nat, 2) + seq![':'] + zero_padded(s as nat, 2),
    )
}

/// The date and time, in UTC, of a clock reading of `secs` whole seconds since 1970,
/// taken as a signed 64-bit epoch second (a reading past its range wraps, as a cast
/// does): `YYYY.MM.DD` and `HH:MM:SS`. None where `epoch_to_local` cannot split that
/// second (see `epoch_in_range`).
pub fn clock_at(secs: u64) -> (r: Option<(String, String)>)
    ensures
        r is Some <==> epoch_in_range((secs as i64) as int),
        r matches Some(t) ==> (t.0@, t.1@) == clock_text((secs as i64) as int),
{
    let epoch: i64 = secs as i64;
    if !epoch_fits(epoch) {
        return None;
    }
    let (y, mo, d, h, mi, s) = epoch_to_local(epoch);
    let r = format_date_time(y, mo, d, h, mi, s);
    assert((r.0@, r.1@) == clock_text(epoch as int));
    Some(r)
}

/// What the clock shows for a reading of `secs` whole seconds since 1970: its date and
/// time (see `clock_at`), or question marks in their places where they cannot be
/// counted.
pub open spec fn reading_text(secs: u64) -> (Seq<char>, Seq<char>) {
    if epoch_in_range((secs as i64) as int) {
        clock_text((secs as i64) as int)
    } else {
        ("????.??.??"@, "??:??:??"@)
    }
}

/// The date and time of the clock's reading, in UTC (see `reading_text`): the whole
/// seconds since 1970 that the system clock reads, a clock before 1970 reading as 0.
pub fn chrono_now() -> (r: (String, String))
    ensures
        exists|secs: u64| (r.0@, r.1@) == reading_text(secs),
{
    let secs: u64 = match since_unix_epoch(&system_now()) {
        Ok(d) => whole_secs(&d),
        Err(_) => 0,
    };
    let r = match clock_at(secs) {
        Some(t) => t,
        None => (String::from_str("????.??.??"), String::from_str("??:??:??")),
    };
    assert((r.0@, r.1@) == reading_text(secs));
    r
}

/// The terminal on standard input, where the platform can name it; this portable form
/// names none.
pub fn get_tty() -> (r: Option<String>)
    ensures
        r is None,
{
    None
}

/// The listing of a directory from the entries that a scan read: largest first, entries
/// of equal size in the order in which they were read.
pub fn scan_directory(read: &Vec<DirEntry>) -> (r: Vec<DirEntry>)
    ensures
        is_drill_order(read@, DrillSortMode::Size, false, r@),
{
    sorted_entries(read, DrillSortMode::Size, false)
}

} // verus!
