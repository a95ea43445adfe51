//! Verified text helpers: whitespace trimming, JSON string escaping, decimal
//! rendering and last-occurrence substring search.  The protocol layer builds
//! its wire payloads from these.

use vstd::prelude::*;

verus! {

// ---------------------------------------------------------------------------
// Whitespace and trimming
// ---------------------------------------------------------------------------

/// The Unicode `White_Space` set, the one `char::is_whitespace` documents.
pub open spec fn is_white_space(c: char) -> bool {
    let u = c as u32;
    u == 0x20 || (0x09 <= u && u <= 0x0d) || u == 0x85 || u == 0xa0 || u == 0x1680 || (0x2000
        <= u && u <= 0x200a) || u == 0x2028 || u == 0x2029 || u == 0x202f || u == 0x205f || u
        == 0x3000
}

pub fn white_space(c: char) -> (r: bool)
    ensures
        r == is_white_space(c),
{
    let u = c as u32;
    u == 0x20 || (0x09 <= u && u <= 0x0d) || u == 0x85 || u == 0xa0 || u == 0x1680 || (0x2000
        <= u && u <= 0x200a) || u == 0x2028 || u == 0x2029 || u == 0x202f || u == 0x205f || u
        == 0x3000
}

pub open spec fn trim_front(s: Seq<char>) -> Seq<char>
    decreases s.len(),
{
    if s.len() > 0 && is_white_space(s[0]) {
        trim_front(s.drop_first())
    } else {
        s
    }
}

pub open spec fn trim_back(s: Seq<char>) -> Seq<char>
    decreases s.len(),
{
    if s.len() > 0 && is_white_space(s.last()) {
        trim_back(s.drop_last())
    } else {
        s
    }
}

/// The sequence with surrounding whitespace removed.
pub open spec fn trimmed(s: Seq<char>) -> Seq<char> {
    trim_back(trim_front(s))
}

proof fn lemma_trim_front_skip(s: Seq<char>, i: int)
    requires
        0 <= i <= s.len(),
        forall|k: int| 0 <= k < i ==> is_white_space(s[k]),
        i < s.len() ==> !is_white_space(s[i]),
    ensures
        trim_front(s) == s.skip(i),
    decreases i,
{
    if i == 0 {
        assert(s.skip(0) =~= s);
    } else {
        assert(is_white_space(s[0]));
        lemma_trim_front_skip(s.drop_first(), i - 1);
        assert(s.drop_first().skip(i - 1) =~= s.skip(i));
    }
}

proof fn lemma_trim_back_take(s: Seq<char>, i: int)
    requires
        0 <= i <= s.len(),
        forall|k: int| i <= k < s.len() ==> is_white_space(s[k]),
        i > 0 ==> !is_white_space(s[i - 1]),
    ensures
        trim_back(s) == s.take(i),
    decreases s.len(),
{
    if i == s.len() {
        assert(s.take(i) =~= s);
    } else {
        assert(is_white_space(s.last()));
        lemma_trim_back_take(s.drop_last(), i);
        assert(s.drop_last().take(i) =~= s.take(i));
    }
}

/// The string with surrounding whitespace removed.
pub fn trim_chars(s: &str) -> (r: String)
    ensures
        r@ == trimmed(s@),
{
    let n = s.unicode_len();
    let mut lo: usize = 0;
    while lo < n && white_space(s.get_char(lo))
        invariant
            n == s@.len(),
            0 <= lo <= n,
            forall|k: int| 0 <= k < lo ==> is_white_space(s@[k]),
        decreases n - lo,
    {
        lo += 1;
    }
    if lo == n {
        proof {
            lemma_trim_front_skip(s@, lo as int);
            assert(s@.skip(n as int) =~= Seq::<char>::empty());
        }
        return String::new();
    }
    let mut hi: usize = n;
    while hi > lo && white_space(s.get_char(hi - 1))
        invariant
            n == s@.len(),
            lo <= hi <= n,
            lo < n,
            forall|k: int| hi <= k < n ==> is_white_space(s@[k]),
        decreases hi,
    {
        hi -= 1;
    }
    proof {
        if hi == lo {
            assert(is_white_space(s@[lo as int]));
            assert(false);
        }
    }
    let sub = s.substring_char(lo, hi);
    proof {
        lemma_trim_front_skip(s@, lo as int);
        let t = s@.skip(lo as int);
        lemma_trim_back_take(t, hi - lo);
        assert(t.take(hi - lo) =~= s@.subrange(lo as int, hi as int));
    }
    sub.to_owned()
}

// ---------------------------------------------------------------------------
// JSON string escaping
// ---------------------------------------------------------------------------

/// Escape for a control character placed in a JSON string.
pub open spec fn control_escape(u: u32) -> Seq<char> {
    if u == 0x00 {
        "\\u0000"@
    } else if u == 0x01 {
        "\\u0001"@
    } else if u == 0x02 {
        "\\u0002"@
    } else if u == 0x03 {
        "\\u0003"@
    } else if u == 0x04 {
        "\\u0004"@
    } else if u == 0x05 {
        "\\u0005"@
    } else if u == 0x06 {
        "\\u0006"@
    } else if u == 0x07 {
        "\\u0007"@
    } else if u == 0x0b {
        "\\u000b"@
    } else if u == 0x0e {
        "\\u000e"@
    } else if u == 0x0f {
        "\\u000f"@
    } else if u == 0x10 {
        "\\u0010"@
    } else if u == 0x11 {
        "\\u0011"@
    } else if u == 0x12 {
        "\\u0012"@
    } else if u == 0x13 {
        "\\u0013"@
    } else if u == 0x14 {
        "\\u0014"@
    } else if u == 0x15 {
        "\\u0015"@
    } else if u == 0x16 {
        "\\u0016"@
    } else if u == 0x17 {
        "\\u0017"@
    } else if u == 0x18 {
        "\\u0018"@
    } else if u == 0x19 {
        "\\u0019"@
    } else if u == 0x1a {
        "\\u001a"@
    } else if u == 0x1b {
        "\\u001b"@
    } else if u == 0x1c {
        "\\u001c"@
    } else if u == 0x1d {
        "\\u001d"@
    } else if u == 0x1e {
        "\\u001e"@
    } else {
        "\\u001f"@
    }
}

/// What one character contributes to a JSON string body.
pub open spec fn json_escape_char(c: char) -> Seq<char> {
    let u = c as u32;
    if u == 0x22 {
        "\\\""@
    } else if u == 0x5c {
        "\\\\"@
    } else if u == 0x08 {
        "\\b"@
    } else if u == 0x0c {
        "\\f"@
    } else if u == 0x0a {
        "\\n"@
    } else if u == 0x0d {
        "\\r"@
    } else if u == 0x09 {
        "\\t"@
    } else if u < 0x20 {
        control_escape(u)
    } else {
        seq![c]
    }
}

/// The body of the JSON string literal that denotes `s`.
pub open spec fn json_escaped(s: Seq<char>) -> Seq<char>
    decreases s.len(),
{
    if s.len() == 0 {
        Seq::<char>::empty()
    } else {
        json_escaped(s.drop_last()) + json_escape_char(s.last())
    }
}

fn append_control(out: &mut String, u: u32)
    requires
        u < 0x20,
        u != 0x08 && u != 0x09 && u != 0x0a && u != 0x0c && u != 0x0d,
    ensures
        final(out)@ == old(out)@ + control_escape(u),
{
    if u == 0x00 {
        out.append("\\u0000");
    } else if u == 0x01 {
        out.append("\\u0001");
    } else if u == 0x02 {
        out.append("\\u0002");
    } else if u == 0x03 {
        out.append("\\u0003");
    } else if u == 0x04 {
        out.append("\\u0004");
    } else if u == 0x05 {
        out.append("\\u0005");
    } else if u == 0x06 {
        out.append("\\u0006");
    } else if u == 0x07 {
        out.append("\\u0007");
    } else if u == 0x0b {
        out.append("\\u000b");
    } else if u == 0x0e {
        out.append("\\u000e");
    } else if u == 0x0f {
        out.append("\\u000f");
    } else if u == 0x10 {
        out.append("\\u0010");
    } else if u == 0x11 {
        out.append("\\u0011");
    } else if u == 0x12 {
        out.append("\\u0012");
    } else if u == 0x13 {
        out.append("\\u0013");
    } else if u == 0x14 {
        out.append("\\u0014");
    } else if u == 0x15 {
        out.append("\\u0015");
    } else if u == 0x16 {
        out.append("\\u0016");
    } else if u == 0x17 {
        out.append("\\u0017");
    } else if u == 0x18 {
        out.append("\\u0018");
    } else if u == 0x19 {
        out.append("\\u0019");
    } else if u == 0x1a {
        out.append("\\u001a");
    } else if u == 0x1b {
        out.append("\\u001b");
    } else if u == 0x1c {
        out.append("\\u001c");
    } else if u == 0x1d {
        out.append("\\u001d");
    } else if u == 0x1e {
        out.append("\\u001e");
    } else {
        out.append("\\u001f");
    }
}

/// Append the escaped form of `s` to `out`.
pub fn append_escaped(out: &mut String, s: &str)
    ensures
        final(out)@ == old(out)@ + json_escaped(s@),
{
    let n = s.unicode_len();
    let mut i: usize = 0;
    while i < n
        invariant
            n == s@.len(),
            0 <= i <= n,
            out@ == old(out)@ + json_escaped(s@.take(i as int)),
        decreases n - i,
    {
        let c = s.get_char(i);
        proof {
            assert(s@.take(i + 1).drop_last() =~= s@.take(i as int));
            assert(s@.take(i + 1).last() == s@[i as int]);
        }
        let u = c as u32;
        if u == 0x22 {
            out.append("\\\"");
        } else if u == 0x5c {
            out.append("\\\\");
        } else if u == 0x08 {
            out.append("\\b");
        } else if u == 0x0c {
            out.append("\\f");
        } else if u == 0x0a {
            out.append("\\n");
        } else if u == 0x0d {
            out.append("\\r");
        } else if u == 0x09 {
            out.append("\\t");
        } else if u < 0x20 {
            append_control(out, u);
        } else {
            let piece = s.substring_char(i, i + 1);
            proof {
                assert(s@.subrange(i as int, i + 1) =~= seq![s@[i as int]]);
            }
            out.append(piece);
        }
        proof {
            assert(out@ =~= old(out)@ + json_escaped(s@.take(i + 1)));
        }
        i += 1;
    }
    proof {
        assert(s@.take(n as int) =~= s@);
    }
}

// ---------------------------------------------------------------------------
// Decimal rendering
// ---------------------------------------------------------------------------

/// The character for one decimal digit.
pub open spec fn dec_digit_str(d: nat) -> Seq<char> {
    if d == 0 {
        "0"@
    } else if d == 1 {
        "1"@
    } else if d == 2 {
        "2"@
    } else if d == 3 {
        "3"@
    } else if d == 4 {
        "4"@
    } else if d == 5 {
        "5"@
    } else if d == 6 {
        "6"@
    } else if d == 7 {
        "7"@
    } else if d == 8 {
        "8"@
    } else {
        "9"@
    }
}

/// The decimal rendering of a natural number, most significant digit first.
pub open spec fn dec_digits(n: nat) -> Seq<char>
    decreases n,
{
    if n < 10 {
        dec_digit_str(n)
    } else {
        dec_digits(n / 10) + dec_digit_str(n % 10)
    }
}

/// The decimal rendering of an integer, with a sign when negative.
pub open spec fn dec_int(n: int) -> Seq<char> {
    if n < 0 {
        "-"@ + dec_digits((-n) as nat)
    } else {
        dec_digits(n as nat)
    }
}

fn append_digit(out: &mut String, d: u64)
    requires
        d < 10,
    ensures
        final(out)@ == old(out)@ + dec_digit_str(d as nat),
{
    if d == 0 {
        out.append("0");
    } else if d == 1 {
        out.append("1");
    } else if d == 2 {
        out.append("2");
    } else if d == 3 {
        out.append("3");
    } else if d == 4 {
        out.append("4");
    } else if d == 5 {
        out.append("5");
    } else if d == 6 {
        out.append("6");
    } else if d == 7 {
        out.append("7");
    } else if d == 8 {
        out.append("8");
    } else {
        out.append("9");
    }
}

/// Append the decimal rendering of `n` to `out`.
pub fn append_u64(out: &mut String, n: u64)
    ensures
        final(out)@ == old(out)@ + dec_digits(n as nat),
    decreases n,
{
    if n >= 10 {
        append_u64(out, n / 10);
        append_digit(out, n % 10);
    } else {
        append_digit(out, n);
    }
}

/// Append the decimal rendering of `n` to `out`, with a sign when negative.
pub fn append_i32(out: &mut String, n: i32)
    ensures
        final(out)@ == old(out)@ + dec_int(n as int),
{
    if n < 0 {
        out.append("-");
        let m: u64 = (-(n as i64)) as u64;
        append_u64(out, m);
    } else {
        append_u64(out, n as u64);
    }
}

// ---------------------------------------------------------------------------
// Substring search
// ---------------------------------------------------------------------------

/// `m` occurs in `s` at position `i`.
pub open spec fn occurs_at(s: Seq<char>, m: Seq<char>, i: int) -> bool {
    0 <= i && i + m.len() <= s.len() && s.subrange(i, i + m.len() as int) == m
}

fn match_at(s: &str, m: &str, i: usize) -> (r: bool)
    requires
        i + m@.len() <= s@.len(),
        s@.len() <= usize::MAX,
    ensures
        r == occurs_at(s@, m@, i as int),
{
    let mn = m.unicode_len();
    let mut k: usize = 0;
    while k < mn
        invariant
            mn == m@.len(),
            0 <= k <= mn,
            i + mn <= s@.len(),
            s@.len() <= usize::MAX,
            forall|t: int| 0 <= t < k ==> s@[i + t] == m@[t],
        decreases mn - k,
    {
        if s.get_char(i + k) != m.get_char(k) {
            proof {
                if occurs_at(s@, m@, i as int) {
                    assert(s@.subrange(i as int, i + mn as int)[k as int] == s@[i + k]);
                }
            }
            return false;
        }
        k += 1;
    }
    proof {
        assert(s@.subrange(i as int, i + mn as int) =~= m@);
    }
    true
}

/// The position of the last occurrence of `m` in `s`, if any.
pub fn rfind_str(s: &str, m: &str) -> (r: Option<usize>)
    requires
        m@.len() >= 1,
    ensures
        match r {
            Some(i) => occurs_at(s@, m@, i as int) && (forall|j: int|
                i < j ==> !occurs_at(s@, m@, j)),
            None => forall|j: int| !occurs_at(s@, m@, j),
        },
{
    let n = s.unicode_len();
    let mn = m.unicode_len();
    if n < mn {
        return None;
    }
    let mut p: usize = n - mn + 1;
    while p > 0
        invariant
            n == s@.len(),
            mn == m@.len(),
            1 <= mn <= n,
            p <= n - mn + 1,
            forall|j: int| p <= j ==> !occurs_at(s@, m@, j),
        decreases p,
    {
        p -= 1;
        if match_at(s, m, p) {
            return Some(p);
        }
    }
    None
}

// ---------------------------------------------------------------------------
// Joining and comparison
// ---------------------------------------------------------------------------

/// The elements joined with commas between them.
pub open spec fn comma_join(elems: Seq<Seq<char>>) -> Seq<char>
    decreases elems.len(),
{
    if elems.len() == 0 {
        Seq::<char>::empty()
    } else if elems.len() == 1 {
        elems[0]
    } else {
        comma_join(elems.drop_last()) + ","@ + elems.last()
    }
}

pub proof fn lemma_comma_join_push(elems: Seq<Seq<char>>, x: Seq<char>)
    ensures
        comma_join(elems.push(x)) == if elems.len() == 0 {
            x
        } else {
            comma_join(elems) + ","@ + x
        },
{
    assert(elems.push(x).drop_last() =~= elems);
    assert(elems.push(x).last() == x);
    if elems.len() == 0 {
        assert(elems.push(x)[0] == x);
    }
}

/// Character-wise string equality.
pub fn str_eq(a: &str, b: &str) -> (r: bool)
    ensures
        r == (a@ == b@),
{
    let n = a.unicode_len();
    if n != b.unicode_len() {
        return false;
    }
    let mut i: usize = 0;
    while i < n
        invariant
            n == a@.len(),
            n == b@.len(),
            0 <= i <= n,
            forall|k: int| 0 <= k < i ==> a@[k] == b@[k],
        decreases n - i,
    {
        if a.get_char(i) != b.get_char(i) {
            return false;
        }
        i += 1;
    }
    proof {
        assert(a@ =~= b@);
    }
    true
}

} // verus!
