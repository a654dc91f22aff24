//! Human-readable renderings of sizes, durations and mount paths.
use vstd::prelude::*;
use crate::text::{decimal, digit, digit_char, push_decimal, str_chars, string_from_chars};
use crate::types::UnitMode;

verus! {

pub open spec fn pow2(e: nat) -> nat
    decreases e,
{
    if e == 0 { 1 } else { 2 * pow2((e - 1) as nat) }
}

/// Spacing between consecutive doubles around `b` (for `b` below 2^64): one below
/// 2^53, doubling with every further bit of `b`.
pub open spec fn spacing(b: nat) -> nat {
    if b < 0x20_0000_0000_0000 { 1 }
    else if b < 0x40_0000_0000_0000 { 2 }
    else if b < 0x80_0000_0000_0000 { 4 }
    else if b < 0x100_0000_0000_0000 { 8 }
    else if b < 0x200_0000_0000_0000 { 16 }
    else if b < 0x400_0000_0000_0000 { 32 }
    else if b < 0x800_0000_0000_0000 { 64 }
    else if b < 0x1000_0000_0000_0000 { 128 }
    else if b < 0x2000_0000_0000_0000 { 256 }
    else if b < 0x4000_0000_0000_0000 { 512 }
    else if b < 0x8000_0000_0000_0000 { 1024 }
    else { 2048 }
}

/// `n / d` rounded to the nearest integer, ties to the even one.
pub open spec fn div_round_even(n: nat, d: nat) -> nat {
    let q = n / d;
    let r = n % d;
    if 2 * r > d || (2 * r == d && q % 2 == 1) { q + 1 } else { q }
}

/// The value that `b as f64` takes: `b` rounded to the nearest multiple of the
/// double spacing at `b`, ties to the even multiple.
pub open spec fn as_double(b: nat) -> nat {
    let u = spacing(b);
    div_round_even(b, u) * u
}

/// `b / 2^k` (as a double) rounded to one decimal place, in tenths.
pub open spec fn tenths(b: nat, k: nat) -> nat {
    div_round_even(10 * as_double(b), pow2(k))
}

/// `b / 2^k` printed with one decimal place.
pub open spec fn one_decimal(b: nat, k: nat) -> Seq<char> {
    let t = tenths(b, k);
    decimal(t / 10).push('.').push(digit_char(t % 10))
}

/// What `format_bytes` prints.
pub open spec fn bytes_text(b: nat, mode: UnitMode) -> Seq<char> {
    match mode {
        UnitMode::Bytes => decimal(b).push('B'),
        UnitMode::MiB => one_decimal(b, 20).push('M'),
        UnitMode::GiB => one_decimal(b, 30).push('G'),
        UnitMode::Human => {
            if b >= 1_099_511_627_776 {
                one_decimal(b, 40).push('T')
            } else if b >= 1_073_741_824 {
                one_decimal(b, 30).push('G')
            } else if b >= 1_048_576 {
                one_decimal(b, 20).push('M')
            } else if b >= 1024 {
                one_decimal(b, 10).push('K')
            } else {
                decimal(b).push('B')
            }
        },
    }
}

/// `b` rounded to the nearest multiple of the double spacing at `b`.
fn round_to_double(b: u64) -> (r: u128)
    ensures
        r as nat == as_double(b as nat),
        r <= 0x1_0000_0000_0000_0800u128,
{
    let bb = b as u128;
    let u: u128 = if bb < 0x20_0000_0000_0000 { 1 }
        else if bb < 0x40_0000_0000_0000 { 2 }
        else if bb < 0x80_0000_0000_0000 { 4 }
        else if bb < 0x100_0000_0000_0000 { 8 }
        else if bb < 0x200_0000_0000_0000 { 16 }
        else if bb < 0x400_0000_0000_0000 { 32 }
        else if bb < 0x800_0000_0000_0000 { 64 }
        else if bb < 0x1000_0000_0000_0000 { 128 }
        else if bb < 0x2000_0000_0000_0000 { 256 }
        else if bb < 0x4000_0000_0000_0000 { 512 }
        else if bb < 0x8000_0000_0000_0000 { 1024 }
        else { 2048 };
    assert(u as nat == spacing(b as nat));
    let q = bb / u;
    let rem = bb % u;
    let rq = if 2 * rem > u || (2 * rem == u && q % 2 == 1) { q + 1 } else { q };
    proof {
        assert(q * u <= bb) by (nonlinear_arith)
            requires q == bb / u, u > 0;
        assert(rq * u <= bb + u) by (nonlinear_arith)
            requires q * u <= bb, rq <= q + 1;
    }
    rq * u
}

/// Appends `b / 2^k` (as a double) with one decimal place.
fn push_one_decimal(v: &mut Vec<char>, b: u64, k: u32, unit: u128)
    requires
        unit as nat == pow2(k as nat),
        1024 <= unit <= 0x100_0000_0000,
    ensures
        final(v)@ == old(v)@ + one_decimal(b as nat, k as nat),
{
    let x = round_to_double(b);
    let n = 10 * x;
    let q = n / unit;
    let rem = n % unit;
    let t = if 2 * rem > unit || (2 * rem == unit && q % 2 == 1) { q + 1 } else { q };
    assert(t as nat == tenths(b as nat, k as nat));
    proof {
        assert(q <= n / 1024) by (nonlinear_arith)
            requires q == n / unit, unit >= 1024;
    }
    let whole = (t / 10) as u64;
    push_decimal(v, whole);
    v.push('.');
    v.push(digit((t % 10) as u64));
}

proof fn lemma_unit_powers()
    ensures
        pow2(10) == 1024,
        pow2(20) == 1_048_576,
        pow2(30) == 1_073_741_824,
        pow2(40) == 1_099_511_627_776,
{
    reveal_with_fuel(pow2, 41);
}

/// Renders a byte count in the given unit mode: plain bytes as `123B`, the binary
/// units with one decimal place (`1.5K`, `10.0M`, `1024.0G`, `2.0T`), `Human` choosing
/// the largest unit not above the count.
pub fn format_bytes(b: u64, mode: UnitMode) -> (r: String)
    ensures
        r@ == bytes_text(b as nat, mode),
{
    proof {
        lemma_unit_powers();
    }
    let mut v: Vec<char> = Vec::new();
    match mode {
        UnitMode::Bytes => {
            push_decimal(&mut v, b);
            v.push('B');
        },
        UnitMode::MiB => {
            push_one_decimal(&mut v, b, 20, 1_048_576);
            v.push('M');
        },
        UnitMode::GiB => {
            push_one_decimal(&mut v, b, 30, 1_073_741_824);
            v.push('G');
        },
        UnitMode::Human => {
            if b >= 1_099_511_627_776 {
                push_one_decimal(&mut v, b, 40, 1_099_511_627_776);
                v.push('T');
            } else if b >= 1_073_741_824 {
                push_one_decimal(&mut v, b, 30, 1_073_741_824);
                v.push('G');
            } else if b >= 1_048_576 {
                push_one_decimal(&mut v, b, 20, 1_048_576);
                v.push('M');
            } else if b >= 1024 {
                push_one_decimal(&mut v, b, 10, 1024);
                v.push('K');
            } else {
                push_decimal(&mut v, b);
                v.push('B');
            }
        },
    }
    assert(v@ =~= bytes_text(b as nat, mode));
    string_from_chars(v.as_slice())
}

/// What `format_uptime` prints: days, hours and minutes, leading zero units left out.
pub open spec fn uptime_text(secs: nat) -> Seq<char> {
    let d = secs / 86400;
    let h = (secs % 86400) / 3600;
    let m = (secs % 3600) / 60;
    if d > 0 {
        decimal(d).push('d') + decimal(h).push('h') + decimal(m).push('m')
    } else if h > 0 {
        decimal(h).push('h') + decimal(m).push('m')
    } else {
        decimal(m).push('m')
    }
}

/// Renders an uptime in seconds as `2d3h15m`, `1h0m` or `5m`.
pub fn format_uptime(secs: u64) -> (r: String)
    ensures
        r@ == uptime_text(secs as nat),
{
    let d = secs / 86400;
    let h = (secs % 86400) / 3600;
    let m = (secs % 3600) / 60;
    let mut v: Vec<char> = Vec::new();
    if d > 0 {
        push_decimal(&mut v, d);
        v.push('d');
    }
    if d > 0 || h > 0 {
        push_decimal(&mut v, h);
        v.push('h');
    }
    push_decimal(&mut v, m);
    v.push('m');
    assert(v@ =~= uptime_text(secs as nat));
    string_from_chars(v.as_slice())
}

/// What `truncate_mount` prints: the path padded with spaces to `width` characters,
/// or, when longer, its first `width - 1` characters and an ellipsis.
pub open spec fn truncated_text(mount: Seq<char>, width: nat) -> Seq<char> {
    if mount.len() <= width {
        mount + Seq::new((width - mount.len()) as nat, |i: int| ' ')
    } else {
        let keep: nat = if width == 0 { 0 } else { (width - 1) as nat };
        mount.take(keep as int).push('\u{2026}')
    }
}

/// Fits a mount path into a column of `width` characters.
pub fn truncate_mount(mount: &str, width: usize) -> (r: String)
    ensures
        r@ == truncated_text(mount@, width as nat),
{
    let cs = str_chars(mount);
    let mut v: Vec<char> = Vec::new();
    if cs.len() <= width {
        let mut i: usize = 0;
        while i < cs.len()
            invariant
                i <= cs@.len(),
                v@ == cs@.take(i as int),
            decreases cs@.len() - i,
        {
            v.push(cs[i]);
            i = i + 1;
            assert(v@ =~= cs@.take(i as int));
        }
        let mut k: usize = cs.len();
        while k < width
            invariant
                cs@.len() <= k <= width,
                v@ == cs@ + Seq::new((k - cs@.len()) as nat, |j: int| ' '),
            decreases width - k,
        {
            v.push(' ');
            k = k + 1;
            assert(v@ =~= cs@ + Seq::new((k - cs@.len()) as nat, |j: int| ' '));
        }
    } else {
        let keep: usize = if width == 0 { 0 } else { width - 1 };
        let mut i: usize = 0;
        while i < keep
            invariant
                keep < cs@.len(),
                i <= keep,
                v@ == cs@.take(i as int),
            decreases keep - i,
        {
            v.push(cs[i]);
            i = i + 1;
            assert(v@ =~= cs@.take(i as int));
        }
        v.push('\u{2026}');
    }
    assert(v@ =~= truncated_text(mount@, width as nat));
    string_from_chars(v.as_slice())
}

/// `10^k`.
pub open spec fn pow10(k: nat) -> nat
    decreases k,
{
    if k == 0 { 1 } else { 10 * pow10((k - 1) as nat) }
}

/// A number below `10^k` has at most `k` decimal digits.
proof fn lemma_decimal_len(n: nat, k: nat)
    requires
        1 <= k,
        n < pow10(k),
    ensures
        decimal(n).len() <= k,
    decreases n,
{
    if n >= 10 {
        if k == 1 {
            assert(pow10(1) == 10) by {
                reveal_with_fuel(pow10, 2);
            }
        }
        assert(n / 10 < pow10((k - 1) as nat));
        lemma_decimal_len(n / 10, (k - 1) as nat);
    }
}

/// Rounding a quotient gives at most one more than the quotient, and a multiple of
/// `d` near `n` is at most `n + d`.
proof fn lemma_div_round_even(n: nat, d: nat)
    requires
        d > 0,
    ensures
        div_round_even(n, d) <= n / d + 1,
        div_round_even(n, d) * d <= n + d,
{
    assert((n / d + 1) * d <= n + d) by (nonlinear_arith)
        requires
            d > 0,
    ;
    assert(div_round_even(n, d) * d <= (n / d + 1) * d) by (nonlinear_arith)
        requires
            div_round_even(n, d) <= n / d + 1,
    ;
}

/// A size below 2^64 printed in any unit takes at most 21 characters.
pub proof fn lemma_bytes_text_len(b: nat, mode: UnitMode)
    requires
        b < 0x1_0000_0000_0000_0000,
    ensures
        bytes_text(b, mode).len() <= 21,
{
    lemma_unit_powers();
    assert(pow10(20) == 100_000_000_000_000_000_000) by {
        reveal_with_fuel(pow10, 21);
    }
    assert(pow10(17) == 100_000_000_000_000_000) by {
        reveal_with_fuel(pow10, 18);
    }
    lemma_decimal_len(b, 20);
    let u = spacing(b);
    lemma_div_round_even(b, u);
    let ad = as_double(b);
    assert(ad <= 0x1_0000_0000_0000_0800);
    assert forall|k: nat| k == 10 || k == 20 || k == 30 || k == 40 implies #[trigger] one_decimal(b, k).len() <= 19 by {
        let p = pow2(k);
        assert(p >= 1024);
        lemma_div_round_even(10 * ad, p);
        let t = tenths(b, k);
        assert(t / 10 < 100_000_000_000_000_000) by (nonlinear_arith)
            requires
                t <= (10 * ad) / p + 1,
                ad <= 0x1_0000_0000_0000_0800,
                p >= 1024,
        ;
        lemma_decimal_len(t / 10, 17);
    }
}

} // verus!
