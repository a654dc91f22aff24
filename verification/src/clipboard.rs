//! Clipboard writes for the copy key: the OSC 52 escape, and the order in which the
//! external helpers are tried.
use vstd::prelude::*;
use crate::text::{push_chars, push_str, str_chars, string_from_chars};
use vstd::string::StringSliceAdditionalSpecFns;

verus! {

/// Number of external clipboard helpers.
pub const CLIPBOARD_CMD_COUNT: usize = 7;

/// Program name of the `i`-th external clipboard helper, in the order they are tried.
pub open spec fn clipboard_cmd_name(i: int) -> Seq<char> {
    if i == 0 { "pbcopy"@ }
    else if i == 1 { "/usr/bin/pbcopy"@ }
    else if i == 2 { "wl-copy"@ }
    else if i == 3 { "xclip"@ }
    else if i == 4 { "xsel"@ }
    else if i == 5 { "clip.exe"@ }
    else { "termux-clipboard-set"@ }
}

/// Program name of the `i`-th external clipboard helper. `pbcopy` is also tried by
/// absolute path so that a stripped `PATH` still copies.
pub fn clipboard_cmd(i: usize) -> (r: &'static str)
    requires
        i < CLIPBOARD_CMD_COUNT,
    ensures
        r@ == clipboard_cmd_name(i as int),
{
    if i == 0 { "pbcopy" }
    else if i == 1 { "/usr/bin/pbcopy" }
    else if i == 2 { "wl-copy" }
    else if i == 3 { "xclip" }
    else if i == 4 { "xsel" }
    else if i == 5 { "clip.exe" }
    else { "termux-clipboard-set" }
}

/// Arguments of the `i`-th external clipboard helper.
pub fn clipboard_cmd_args(i: usize) -> (r: Vec<&'static str>)
    requires
        i < CLIPBOARD_CMD_COUNT,
    ensures
        i == 3 ==> r@.len() == 2 && r@[0]@ == "-selection"@ && r@[1]@ == "clipboard"@,
        i == 4 ==> r@.len() == 2 && r@[0]@ == "--clipboard"@ && r@[1]@ == "--input"@,
        i != 3 && i != 4 ==> r@.len() == 0,
{
    let mut v: Vec<&'static str> = Vec::new();
    if i == 3 {
        v.push("-selection");
        v.push("clipboard");
    } else if i == 4 {
        v.push("--clipboard");
        v.push("--input");
    }
    v
}

/// The base64 digit for a six-bit value (standard alphabet).
pub open spec fn b64_digit(n: nat) -> char {
    if n < 26 {
        (65 + n) as char
    } else if n < 52 {
        (97 + (n - 26)) as char
    } else if n < 62 {
        (48 + (n - 52)) as char
    } else if n == 62 {
        '+'
    } else {
        '/'
    }
}

/// Standard base64 (RFC 4648) of `data`, with `=` padding.
pub open spec fn base64(data: Seq<u8>) -> Seq<char>
    decreases data.len(),
{
    if data.len() == 0 {
        Seq::empty()
    } else {
        let b0 = data[0] as nat;
        let b1 = if data.len() > 1 { data[1] as nat } else { 0 };
        let b2 = if data.len() > 2 { data[2] as nat } else { 0 };
        let n = b0 * 65536 + b1 * 256 + b2;
        let quad = seq![
            b64_digit(n / 262144),
            b64_digit((n / 4096) % 64),
            if data.len() > 1 { b64_digit((n / 64) % 64) } else { '=' },
            if data.len() > 2 { b64_digit(n % 64) } else { '=' },
        ];
        if data.len() <= 3 {
            quad
        } else {
            quad + base64(data.skip(3))
        }
    }
}

/// Whether `c` is a digit of the standard base64 alphabet.
pub open spec fn b64_alphabet(c: char) -> bool {
    ('A' <= c && c <= 'Z') || ('a' <= c && c <= 'z') || ('0' <= c && c <= '9') || c == '+' || c == '/'
}

/// The six-bit value of a base64 digit.
pub open spec fn b64_value(c: char) -> nat {
    if 'A' <= c && c <= 'Z' {
        (c as int - 65) as nat
    } else if 'a' <= c && c <= 'z' {
        (c as int - 97 + 26) as nat
    } else if '0' <= c && c <= '9' {
        (c as int - 48 + 52) as nat
    } else if c == '+' {
        62
    } else {
        63
    }
}

/// The bytes that a group of four base64 characters stands for: three, or one or two
/// where the group ends in `==` or `=`.
pub open spec fn group_bytes(c0: char, c1: char, c2: char, c3: char) -> Seq<u8> {
    let n = b64_value(c0) * 262144 + b64_value(c1) * 4096 + b64_value(c2) * 64 + b64_value(c3);
    if c2 == '=' {
        seq![(n / 65536) as u8]
    } else if c3 == '=' {
        seq![(n / 65536) as u8, ((n / 256) % 256) as u8]
    } else {
        seq![(n / 65536) as u8, ((n / 256) % 256) as u8, (n % 256) as u8]
    }
}

/// The bytes that standard base64 text stands for (RFC 4648), group by group.
pub open spec fn unbase64(s: Seq<char>) -> Seq<u8>
    decreases s.len(),
{
    if s.len() < 4 {
        Seq::empty()
    } else {
        group_bytes(s[0], s[1], s[2], s[3]) + unbase64(s.skip(4))
    }
}

/// The four characters that base64 writes for the group of `k` bytes `b0`, `b1`, `b2`
/// (the missing ones zero).
#[verifier::opaque]
pub open spec fn b64_quad(b0: nat, b1: nat, b2: nat, k: nat) -> Seq<char> {
    let n = b0 * 65536 + b1 * 256 + b2;
    seq![
        b64_digit(n / 262144),
        b64_digit((n / 4096) % 64),
        if k > 1 { b64_digit((n / 64) % 64) } else { '=' },
        if k > 2 { b64_digit(n % 64) } else { '=' },
    ]
}

/// A group's four characters end in as many `=` as it lacks bytes, are digits
/// otherwise, and decode back to its bytes.
proof fn lemma_b64_quad(b0: u8, b1: u8, b2: u8, k: nat)
    requires
        1 <= k <= 3,
        k < 2 ==> b1 == 0,
        k < 3 ==> b2 == 0,
    ensures
        ({
            let q = b64_quad(b0 as nat, b1 as nat, b2 as nat, k);
            &&& q.len() == 4
            &&& forall|i: int| 0 <= i < 4 ==> (#[trigger] q[i] == '=' <==> i >= k + 1)
            &&& forall|i: int| 0 <= i < 4 && q[i] != '=' ==> b64_alphabet(#[trigger] q[i])
            &&& group_bytes(q[0], q[1], q[2], q[3]) == seq![b0, b1, b2].take(k as int)
        }),
{
    let n = b0 as nat * 65536 + b1 as nat * 256 + b2 as nat;
    lemma_b64_group(b0 as nat, b1 as nat, b2 as nat);
    lemma_b64_digit(n / 262144);
    lemma_b64_digit((n / 4096) % 64);
    lemma_b64_digit((n / 64) % 64);
    lemma_b64_digit(n % 64);
    reveal(b64_quad);
    let q = b64_quad(b0 as nat, b1 as nat, b2 as nat, k);
    assert(b64_value('=') == 63);
    if k == 1 {
        assert(group_bytes(q[0], q[1], q[2], q[3]) =~= seq![b0, b1, b2].take(1));
    } else if k == 2 {
        assert(group_bytes(q[0], q[1], q[2], q[3]) =~= seq![b0, b1, b2].take(2));
    } else {
        assert(group_bytes(q[0], q[1], q[2], q[3]) =~= seq![b0, b1, b2].take(3));
    }
}

/// How many `=` end the base64 text of `n` bytes.
pub open spec fn b64_padding(n: nat) -> nat {
    ((3 - n % 3) % 3) as nat
}

/// Each six-bit value's digit is in the alphabet and stands for it.
pub proof fn lemma_b64_digit(k: nat)
    requires
        k < 64,
    ensures
        b64_alphabet(b64_digit(k)),
        b64_value(b64_digit(k)) == k,
        b64_digit(k) != '=',
{
}

/// The quotients and remainders that base64 takes of a group of three bytes.
proof fn lemma_b64_group(b0: nat, b1: nat, b2: nat)
    requires
        b0 < 256,
        b1 < 256,
        b2 < 256,
    ensures
        ({
            let n = b0 * 65536 + b1 * 256 + b2;
            &&& n / 262144 < 64
            &&& (n / 262144) * 262144 + ((n / 4096) % 64) * 4096 + ((n / 64) % 64) * 64 + n % 64 == n
            &&& n / 65536 == b0
            &&& (n / 256) % 256 == b1
            &&& n % 256 == b2
            &&& b2 == 0 ==> (n + 63) / 65536 == b0 && ((n + 63) / 256) % 256 == b1 && n % 64 == 0
            &&& b1 == 0 && b2 == 0 ==> (n + 4095) / 65536 == b0
            &&& b1 == 0 && b2 == 0 ==> (n / 64) % 64 == 0 && n % 4096 == 0
        }),
{
    let n = b0 * 65536 + b1 * 256 + b2;
    assert(n / 262144 < 64) by (nonlinear_arith)
        requires
            n == b0 * 65536 + b1 * 256 + b2,
            b0 < 256,
            b1 < 256,
            b2 < 256,
    ;
    assert((n / 262144) * 262144 + ((n / 4096) % 64) * 4096 + ((n / 64) % 64) * 64 + n % 64 == n)
        by (nonlinear_arith)
        requires
            n >= 0,
    ;
    assert(n / 65536 == b0 && (n / 256) % 256 == b1 && n % 256 == b2) by (nonlinear_arith)
        requires
            n == b0 * 65536 + b1 * 256 + b2,
            b0 < 256,
            b1 < 256,
            b2 < 256,
    ;
    if b2 == 0 {
        assert((n + 63) / 65536 == b0 && ((n + 63) / 256) % 256 == b1 && n % 64 == 0) by (nonlinear_arith)
            requires
                n == b0 * 65536 + b1 * 256,
                b0 < 256,
                b1 < 256,
        ;
    }
    if b1 == 0 && b2 == 0 {
        assert((n + 4095) / 65536 == b0 && (n / 64) % 64 == 0 && n % 4096 == 0) by (nonlinear_arith)
            requires
                n == b0 * 65536,
                b0 < 256,
        ;
    }
}

/// The first group of base64 text, and the text of the bytes after it.
proof fn lemma_base64_unfold(data: Seq<u8>)
    requires
        data.len() > 0,
    ensures
        ({
            let k: nat = if data.len() >= 3 { 3 } else { data.len() };
            let b1: u8 = if data.len() > 1 { data[1] } else { 0 };
            let b2: u8 = if data.len() > 2 { data[2] } else { 0 };
            let q = b64_quad(data[0] as nat, b1 as nat, b2 as nat, k);
            base64(data) == if data.len() <= 3 { q } else { q + base64(data.skip(3)) }
        }),
{
    reveal(b64_quad);
}

/// Whether `s` has the shape of the base64 text of `n` bytes: four characters for every
/// three bytes or part of three, ending in as many `=` as the last group lacks bytes,
/// and digits of the standard alphabet elsewhere.
#[verifier::opaque]
pub open spec fn b64_shaped(s: Seq<char>, n: nat) -> bool {
    &&& s.len() == 4 * ((n + 2) / 3)
    &&& forall|i: int| 0 <= i < s.len() ==> (#[trigger] s[i] == '=' <==> i >= s.len() - b64_padding(n))
    &&& forall|i: int| 0 <= i < s.len() && s[i] != '=' ==> b64_alphabet(#[trigger] s[i])
}

/// The group of a last one, two or three bytes has the shape of their base64 text.
proof fn lemma_shaped_last(q: Seq<char>, k: nat)
    requires
        1 <= k <= 3,
        q.len() == 4,
        forall|i: int| 0 <= i < 4 ==> (#[trigger] q[i] == '=' <==> i >= k + 1),
        forall|i: int| 0 <= i < 4 && q[i] != '=' ==> b64_alphabet(#[trigger] q[i]),
    ensures
        b64_shaped(q, k),
{
    reveal(b64_shaped);
    assert(4 * ((k + 2) / 3) == 4);
    assert(b64_padding(k) + k == 3);
}

/// A full group of digits followed by the text of `n` bytes has the shape of the text
/// of `n + 3` bytes.
proof fn lemma_shaped_concat(q: Seq<char>, t: Seq<char>, n: nat)
    requires
        q.len() == 4,
        forall|i: int| 0 <= i < 4 ==> #[trigger] q[i] != '=' && b64_alphabet(q[i]),
        n > 0,
        b64_shaped(t, n),
    ensures
        b64_shaped(q + t, n + 3),
{
    reveal(b64_shaped);
    let s = q + t;
    let p = b64_padding(n);
    assert(b64_padding(n + 3) == p);
    assert(4 * ((n + 3 + 2) / 3) == 4 + 4 * ((n + 2) / 3));
    assert(t.len() >= 4);
    assert forall|i: int| 0 <= i < s.len() implies (#[trigger] s[i] == '=' <==> i >= s.len() - p) by {
        if i >= 4 {
            assert(s[i] == t[i - 4]);
        } else {
            assert(s[i] == q[i]);
        }
    }
    assert forall|i: int| 0 <= i < s.len() && s[i] != '=' implies b64_alphabet(#[trigger] s[i]) by {
        if i >= 4 {
            assert(s[i] == t[i - 4]);
        } else {
            assert(s[i] == q[i]);
        }
    }
}

/// Base64 text has the shape that `b64_shaped` describes.
proof fn lemma_base64_shape(data: Seq<u8>)
    requires
        data.len() > 0,
    ensures
        b64_shaped(base64(data), data.len()),
    decreases data.len(),
{
    let k: nat = if data.len() >= 3 { 3 } else { data.len() };
    let b1: u8 = if data.len() > 1 { data[1] } else { 0 };
    let b2: u8 = if data.len() > 2 { data[2] } else { 0 };
    lemma_b64_quad(data[0], b1, b2, k);
    lemma_base64_unfold(data);
    let q = b64_quad(data[0] as nat, b1 as nat, b2 as nat, k);
    if data.len() <= 3 {
        lemma_shaped_last(q, k);
    } else {
        let rest = data.skip(3);
        lemma_base64_shape(rest);
        lemma_shaped_concat(q, base64(rest), rest.len());
    }
}

/// Decoding base64 text gives back the bytes.
proof fn lemma_base64_decodes(data: Seq<u8>)
    ensures
        unbase64(base64(data)) == data,
    decreases data.len(),
{
    if data.len() == 0 {
        return;
    }
    let k: nat = if data.len() >= 3 { 3 } else { data.len() };
    let b0 = data[0];
    let b1: u8 = if data.len() > 1 { data[1] } else { 0 };
    let b2: u8 = if data.len() > 2 { data[2] } else { 0 };
    lemma_b64_quad(b0, b1, b2, k);
    lemma_base64_unfold(data);
    let q = b64_quad(b0 as nat, b1 as nat, b2 as nat, k);
    let s = base64(data);
    if data.len() <= 3 {
        assert(q.skip(4) =~= Seq::<char>::empty());
        assert(unbase64(s) == group_bytes(q[0], q[1], q[2], q[3]) + unbase64(q.skip(4)));
        assert(seq![b0, b1, b2].take(k as int) =~= data);
        assert(unbase64(s) =~= data);
    } else {
        let rest = data.skip(3);
        lemma_base64_decodes(rest);
        let t = base64(rest);
        assert(s.skip(4) =~= t);
        assert(s[0] == q[0] && s[1] == q[1] && s[2] == q[2] && s[3] == q[3]);
        assert(unbase64(s) == group_bytes(s[0], s[1], s[2], s[3]) + unbase64(s.skip(4)));
        assert(seq![b0, b1, b2].take(3) + rest =~= data);
        assert(unbase64(s) =~= data);
    }
}

/// Base64 text has four characters for every three bytes or part of three; it ends in
/// as many `=` as the last group lacks bytes, every other character is a digit of the
/// standard alphabet, and decoding it gives back the bytes.
pub proof fn law_base64(data: Seq<u8>)
    ensures
        base64(data).len() == 4 * ((data.len() + 2) / 3),
        forall|i: int|
            0 <= i < base64(data).len() ==> (#[trigger] base64(data)[i] == '=' <==> i >= base64(data).len()
                - b64_padding(data.len())),
        forall|i: int|
            0 <= i < base64(data).len() && base64(data)[i] != '=' ==> b64_alphabet(#[trigger] base64(data)[i]),
        unbase64(base64(data)) == data,
{
    if data.len() > 0 {
        lemma_base64_shape(data);
        reveal(b64_shaped);
    }
    lemma_base64_decodes(data);
}

fn b64_char(n: u32) -> (c: char)
    requires
        n < 64,
    ensures
        c == b64_digit(n as nat),
{
    if n < 26 {
        let b: u8 = (65 + n) as u8;
        b as char
    } else if n < 52 {
        let b: u8 = (97 + (n - 26)) as u8;
        b as char
    } else if n < 62 {
        let b: u8 = (48 + (n - 52)) as u8;
        b as char
    } else if n == 62 {
        '+'
    } else {
        '/'
    }
}

/// Encodes `data` as standard base64 (RFC 4648, with `=` padding).
pub fn base64_encode(data: &[u8]) -> (r: String)
    ensures
        r@ == base64(data@),
{
    let mut out: Vec<char> = Vec::new();
    let mut i: usize = 0;
    assert(data@.skip(0) =~= data@);
    while i < data.len()
        invariant
            i <= data@.len(),
            base64(data@) == out@ + base64(data@.skip(i as int)),
        decreases data@.len() - i,
    {
        let ghost rest = data@.skip(i as int);
        let left = data.len() - i;
        let b0 = data[i] as u32;
        let b1 = if left > 1 { data[i + 1] as u32 } else { 0 };
        let b2 = if left > 2 { data[i + 2] as u32 } else { 0 };
        let n = b0 * 65536 + b1 * 256 + b2;
        let c0 = b64_char(n / 262144);
        let c1 = b64_char((n / 4096) % 64);
        let c2 = if left > 1 { b64_char((n / 64) % 64) } else { '=' };
        let c3 = if left > 2 { b64_char(n % 64) } else { '=' };
        let ghost quad = seq![c0, c1, c2, c3];
        out.push(c0);
        out.push(c1);
        out.push(c2);
        out.push(c3);
        if left <= 3 {
            assert(base64(rest) == quad);
            assert(base64(data@) == out@);
            i = data.len();
            assert(data@.skip(i as int) =~= Seq::<u8>::empty());
        } else {
            assert(rest.skip(3) =~= data@.skip(i + 3));
            assert(base64(rest) == quad + base64(rest.skip(3)));
            i = i + 3;
        }
    }
    assert(data@.skip(data@.len() as int) =~= Seq::<u8>::empty());
    assert(out@ =~= base64(data@));
    string_from_chars(out.as_slice())
}

/// `s` with every escape character doubled, as tmux passthrough wants it.
pub open spec fn double_escapes(s: Seq<char>) -> Seq<char>
    decreases s.len(),
{
    if s.len() == 0 {
        Seq::empty()
    } else {
        (if s[0] == '\x1b' { seq!['\x1b', '\x1b'] } else { seq![s[0]] }) + double_escapes(s.drop_first())
    }
}

/// The OSC 52 escape that hands `text` to the terminal's clipboard.
pub open spec fn osc52_payload(text: &str) -> Seq<char> {
    "\x1b]52;c;"@ + base64(text.spec_bytes()) + "\x07"@
}

/// What `osc52_sequence` returns.
pub open spec fn osc52_text(text: &str, tmux: bool) -> Seq<char> {
    if tmux {
        "\x1bPtmux;"@ + double_escapes(osc52_payload(text)) + "\x1b\\"@
    } else {
        osc52_payload(text)
    }
}

/// Doubling the escapes of two texts one after the other doubles those of each.
proof fn lemma_double_concat(a: Seq<char>, b: Seq<char>)
    ensures
        double_escapes(a + b) == double_escapes(a) + double_escapes(b),
    decreases a.len(),
{
    if a.len() == 0 {
        assert(a + b =~= b);
    } else {
        assert((a + b).drop_first() =~= a.drop_first() + b);
        lemma_double_concat(a.drop_first(), b);
        assert((a + b)[0] == a[0]);
    }
}

/// A text with no escape character is left as it is.
proof fn lemma_double_plain(s: Seq<char>)
    requires
        forall|i: int| 0 <= i < s.len() ==> s[i] != '\x1b',
    ensures
        double_escapes(s) == s,
    decreases s.len(),
{
    if s.len() > 0 {
        lemma_double_plain(s.drop_first());
        assert(seq![s[0]] + s.drop_first() =~= s);
    }
}

/// Base64 text holds no escape character.
proof fn lemma_base64_no_escape(data: Seq<u8>)
    ensures
        forall|i: int| 0 <= i < base64(data).len() ==> base64(data)[i] != '\x1b',
{
    law_base64(data);
    assert forall|i: int| 0 <= i < base64(data).len() implies base64(data)[i] != '\x1b' by {
        if base64(data)[i] != '=' {
            assert(b64_alphabet(base64(data)[i]));
        }
    }
}

/// The tmux passthrough of an OSC 52 escape whose body has no escape character.
proof fn lemma_tmux_wrap(b: Seq<char>)
    requires
        forall|i: int| 0 <= i < b.len() ==> b[i] != '\x1b',
    ensures
        "\x1bPtmux;"@ + double_escapes("\x1b]52;c;"@ + b + "\x07"@) + "\x1b\\"@
            == "\x1bPtmux;\x1b\x1b]52;c;"@ + b + "\x07\x1b\\"@,
{
    reveal_strlit("\x1b]52;c;");
    reveal_strlit("\x07");
    reveal_strlit("\x1bPtmux;");
    reveal_strlit("\x1b\\");
    reveal_strlit("\x1bPtmux;\x1b\x1b]52;c;");
    reveal_strlit("\x07\x1b\\");
    let head = "\x1b]52;c;"@;
    let tail = "\x07"@;
    lemma_double_concat(head + b, tail);
    lemma_double_concat(head, b);
    lemma_double_plain(b);
    lemma_double_plain(head.drop_first());
    assert(double_escapes(head) == seq!['\x1b', '\x1b'] + double_escapes(head.drop_first()));
    lemma_double_plain(tail);
    assert("\x1bPtmux;"@ + double_escapes(head + b + tail) + "\x1b\\"@ =~= "\x1bPtmux;\x1b\x1b]52;c;"@ + b
        + "\x07\x1b\\"@);
}

/// The OSC 52 escape is `ESC ] 52 ; c ;`, the base64 text of the bytes and `BEL`; inside
/// tmux it is that escape with its escape character doubled (base64 text has none),
/// between `ESC P tmux ;` and `ESC \`.
pub proof fn law_osc52(text: &str)
    ensures
        osc52_text(text, false) == "\x1b]52;c;"@ + base64(text.spec_bytes()) + "\x07"@,
        osc52_text(text, true) == "\x1bPtmux;\x1b\x1b]52;c;"@ + base64(text.spec_bytes()) + "\x07\x1b\\"@,
{
    lemma_base64_no_escape(text.spec_bytes());
    lemma_tmux_wrap(base64(text.spec_bytes()));
}

/// Builds the OSC 52 clipboard escape, wrapped in the tmux passthrough sequence
/// (escapes doubled) when running inside tmux.
pub fn osc52_sequence(text: &str, tmux: bool) -> (r: String)
    ensures
        r@ == osc52_text(text, tmux),
{
    let encoded = str_chars(base64_encode(text.as_bytes()).as_str());
    let mut payload: Vec<char> = Vec::new();
    push_str(&mut payload, "\x1b]52;c;");
    push_chars(&mut payload, encoded.as_slice());
    push_str(&mut payload, "\x07");
    assert(payload@ =~= osc52_payload(text));
    if !tmux {
        return string_from_chars(payload.as_slice());
    }
    let mut out: Vec<char> = Vec::new();
    push_str(&mut out, "\x1bPtmux;");
    let ghost start = out@;
    let mut i: usize = 0;
    assert(payload@.skip(0) =~= payload@);
    while i < payload.len()
        invariant
            i <= payload@.len(),
            start + double_escapes(payload@) == out@ + double_escapes(payload@.skip(i as int)),
        decreases payload@.len() - i,
    {
        let ghost rest = payload@.skip(i as int);
        assert(rest.drop_first() =~= payload@.skip(i + 1));
        if payload[i] == '\x1b' {
            out.push('\x1b');
            out.push('\x1b');
        } else {
            out.push(payload[i]);
        }
        assert(double_escapes(rest) == (if rest[0] == '\x1b' { seq!['\x1b', '\x1b'] } else { seq![rest[0]] }) + double_escapes(rest.drop_first()));
        i = i + 1;
    }
    assert(payload@.skip(payload@.len() as int) =~= Seq::<char>::empty());
    push_str(&mut out, "\x1b\\");
    assert(out@ =~= osc52_text(text, tmux));
    string_from_chars(out.as_slice())
}

/// The helpers that the copy key tries, in order, as indices into the helper table:
/// `pbcopy` on macOS; `wl-copy`, `xclip` and `xsel` on Linux; none elsewhere. The first
/// one that takes the text ends the copy.
pub fn copy_key_helpers(macos: bool, linux: bool) -> (r: Vec<usize>)
    ensures
        r@ == (if macos { seq![0usize] } else if linux { seq![2usize, 3, 4] } else { Seq::empty() }),
        forall|i: int| 0 <= i < r@.len() ==> r@[i] < CLIPBOARD_CMD_COUNT,
{
    let mut v: Vec<usize> = Vec::new();
    if macos {
        v.push(0);
    } else if linux {
        v.push(2);
        v.push(3);
        v.push(4);
    }
    v
}

/// Why the copy key copied nothing: no helper took the text.
pub fn copy_key_failure() -> (r: String)
    ensures
        r@ == "no clipboard tool found (pbcopy/wl-copy/xclip/xsel)"@,
{
    String::from_str("no clipboard tool found (pbcopy/wl-copy/xclip/xsel)")
}

/// What became of one clipboard helper.
#[derive(Clone, Debug)]
pub enum HelperOutcome {
    /// The helper took the text.
    Copied,
    /// No such program: the next one is tried without comment.
    NotFound,
    /// The helper failed; the text says how.
    Failed(String),
}

/// The next thing to do while copying.
#[derive(Debug)]
pub enum ClipboardAction {
    /// Pipe the text into the helper with this index.
    RunHelper(usize),
    /// Write the OSC 52 escape to the terminal.
    WriteOsc52,
    /// Copying is over: the mechanism that took the text, or why none did.
    Finish(Result<String, String>),
}

/// Progress through the clipboard helpers: the next one to try and the last failure seen.
pub struct ClipboardChain {
    pub next: usize,
    pub last_err: String,
}

impl ClipboardChain {
    /// Before any helper was tried.
    pub fn new() -> (r: ClipboardChain)
        ensures
            r.next == 0,
            r.last_err@ == Seq::<char>::empty(),
    {
        ClipboardChain { next: 0, last_err: String::new() }
    }

    /// Records what the current helper did and says what comes next: success ends the
    /// chain with the helper's name; a missing helper moves on silently; any other failure
    /// is remembered as `"<helper>: <error>"` and the chain moves on; after the last helper
    /// the OSC 52 escape is tried.
    pub fn on_helper(&mut self, outcome: HelperOutcome) -> (r: ClipboardAction)
        requires
            old(self).next < CLIPBOARD_CMD_COUNT,
        ensures
            match outcome {
                HelperOutcome::Copied => r matches ClipboardAction::Finish(Ok(m))
                    && m@ == clipboard_cmd_name(old(self).next as int),
                HelperOutcome::NotFound => final(self).last_err == old(self).last_err,
                HelperOutcome::Failed(e) => final(self).last_err@ == clipboard_cmd_name(old(self).next as int)
                    + ": "@ + e@,
            },
            !(outcome is Copied) ==> final(self).next == old(self).next + 1 && (
                if final(self).next < CLIPBOARD_CMD_COUNT {
                    r matches ClipboardAction::RunHelper(i) && i == final(self).next
                } else {
                    r is WriteOsc52
                }),
    {
        let cmd = clipboard_cmd(self.next);
        match outcome {
            HelperOutcome::Copied => {
                return ClipboardAction::Finish(Ok(string_from_chars(str_chars(cmd).as_slice())));
            },
            HelperOutcome::NotFound => {},
            HelperOutcome::Failed(e) => {
                let mut msg: Vec<char> = Vec::new();
                push_str(&mut msg, cmd);
                push_str(&mut msg, ": ");
                push_str(&mut msg, e.as_str());
                self.last_err = string_from_chars(msg.as_slice());
            },
        }
        self.next = self.next + 1;
        if self.next < CLIPBOARD_CMD_COUNT {
            ClipboardAction::RunHelper(self.next)
        } else {
            ClipboardAction::WriteOsc52
        }
    }

    /// The end of the chain, once the OSC 52 escape was written or failed: success names
    /// `osc52`; a failure reports the last helper failure, or, when every helper was
    /// missing, that none was found together with the escape's own error.
    pub fn on_osc52(&self, outcome: Result<(), String>) -> (r: Result<String, String>)
        ensures
            match outcome {
                Ok(()) => r matches Ok(m) && m@ == "osc52"@,
                Err(e) => if self.last_err@.len() == 0 {
                    r matches Err(m) && m@ == "no clipboard helper found; osc52: "@ + e@
                } else {
                    r matches Err(m) && m@ == self.last_err@
                },
            },
    {
        match outcome {
            Ok(()) => Ok(string_from_chars(str_chars("osc52").as_slice())),
            Err(e) => {
                if self.last_err.as_str().unicode_len() == 0 {
                    let mut msg: Vec<char> = Vec::new();
                    push_str(&mut msg, "no clipboard helper found; osc52: ");
                    push_str(&mut msg, e.as_str());
                    Err(string_from_chars(msg.as_slice()))
                } else {
                    Err(string_from_chars(str_chars(self.last_err.as_str()).as_slice()))
                }
            },
        }
    }
}

/// Begins copying text to the clipboard: the chain starts before its first helper and
/// asks for that helper to be run. The caller runs each action with the text, reports
/// with `ClipboardChain::on_helper` and `ClipboardChain::on_osc52`, and stops at
/// `ClipboardAction::Finish`.
pub fn copy_to_clipboard() -> (r: (ClipboardChain, ClipboardAction))
    ensures
        r.0.next == 0,
        r.0.last_err@.len() == 0,
        r.1 matches ClipboardAction::RunHelper(i) && i == 0,
{
    (ClipboardChain::new(), ClipboardAction::RunHelper(0))
}

} // verus!
