use vstd::prelude::*;
use vstd::string::*;
use vstd::utf8::*;

verus! {

/// `c` is an ASCII decimal digit.
pub open spec fn is_digit(c: char) -> bool {
    '0' <= c && c <= '9'
}

/// Numeric value of a decimal digit.
pub open spec fn digit_value(c: char) -> nat {
    (c as int - '0' as int) as nat
}

/// Value of a sequence of decimal digits, most significant first.
pub open spec fn decimal_value(s: Seq<char>) -> nat
    decreases s.len(),
{
    if s.len() == 0 {
        0
    } else {
        decimal_value(s.drop_last()) * 10 + digit_value(s.last())
    }
}

/// The digits that `u32::from_str` reads: an optional leading `+` is skipped.
pub open spec fn unsigned_digits(s: Seq<char>) -> Seq<char> {
    if s.len() > 0 && s[0] == '+' {
        s.drop_first()
    } else {
        s
    }
}

/// What `u32::from_str` accepts: one or more decimal digits, optionally behind
/// a `+`, whose value fits in 32 bits.
pub open spec fn spec_parse_u32(s: Seq<char>) -> Option<u32> {
    let d = unsigned_digits(s);
    if d.len() > 0 && (forall|i: int| 0 <= i < d.len() ==> is_digit(#[trigger] d[i]))
        && decimal_value(d) <= u32::MAX {
        Some(decimal_value(d) as u32)
    } else {
        None
    }
}

/// Parses a decimal `u32` with the rules of `u32::from_str`.
pub fn parse_u32(s: &str) -> (res: Option<u32>)
    ensures
        res == spec_parse_u32(s@),
{
    let len = s.unicode_len();
    let mut start: usize = 0;
    if len > 0 && s.get_char(0) == '+' {
        start = 1;
    }
    let ghost d = unsigned_digits(s@);
    assert(d =~= s@.subrange(start as int, len as int));
    if start == len {
        return None;
    }
    let cap: u64 = 0x1_0000_0000;
    let mut acc: u64 = 0;
    let mut i: usize = start;
    while i < len
        invariant
            start <= i <= len,
            len == s@.len(),
            d =~= s@.subrange(start as int, len as int),
            d == unsigned_digits(s@),
            cap == 0x1_0000_0000,
            forall|k: int| 0 <= k < i - start ==> is_digit(#[trigger] d[k]),
            acc == (if decimal_value(d.take(i - start)) > u32::MAX {
                cap as nat
            } else {
                decimal_value(d.take(i - start))
            }),
        decreases len - i,
    {
        let c = s.get_char(i);
        assert(d[i - start] == c);
        if !('0' <= c && c <= '9') {
            assert(!is_digit(d[i - start]));
            assert(!(forall|k: int| 0 <= k < d.len() ==> is_digit(#[trigger] d[k])));
            return None;
        }
        let ghost prev = d.take(i - start);
        assert(d.take(i - start + 1).drop_last() =~= prev);
        assert(d.take(i - start + 1).last() == c);
        let digit: u64 = (c as u64) - ('0' as u64);
        assert(digit == digit_value(c));
        assert(decimal_value(d.take(i - start + 1)) == decimal_value(prev) * 10 + digit);
        let next: u64 = if acc >= cap {
            cap
        } else {
            acc * 10 + digit
        };
        acc = if next >= cap {
            cap
        } else {
            next
        };
        i = i + 1;
    }
    assert(d.take(len - start) =~= d);
    if acc >= cap {
        None
    } else {
        Some(acc as u32)
    }
}


/// How `u32::from_str` reads decimal text: a leading `+` changes nothing,
/// the empty text and a lone `+` are refused, any character that is not a
/// decimal digit (other than that leading `+`) makes the text refused, and
/// appending a digit `c` to a number `v` gives `10 * v + c`, or a refusal
/// when that does not fit in 32 bits.
pub proof fn lemma_parse_u32_reads_decimal(d: Seq<char>, c: char)
    requires
        d.len() > 0,
        d[0] != '+',
    ensures
        spec_parse_u32(seq!['+'] + d) == spec_parse_u32(d),
        spec_parse_u32(Seq::<char>::empty()) is None,
        spec_parse_u32(seq!['+']) is None,
        (exists|i: int| 0 <= i < d.len() && !('0' <= #[trigger] d[i] && d[i] <= '9'))
            ==> spec_parse_u32(d) is None,
        spec_parse_u32(d) is Some && '0' <= c && c <= '9' ==> spec_parse_u32(d.push(c))
            == if 10 * spec_parse_u32(d)->0 + (c as int - 48) <= 0xffff_ffff {
            Some((10 * spec_parse_u32(d)->0 + (c as int - 48)) as u32)
        } else {
            None
        },
{
    assert((seq!['+'] + d).drop_first() =~= d);
    assert(seq!['+'].drop_first() =~= Seq::<char>::empty());
    let e = d.push(c);
    assert(unsigned_digits(e) == e);
    assert(e.drop_last() =~= d);
    if spec_parse_u32(d) is Some && '0' <= c && c <= '9' {
        assert forall|i: int| 0 <= i < e.len() implies is_digit(#[trigger] e[i]) by {
            if i < d.len() {
                assert(e[i] == d[i]);
                assert(is_digit(d[i]));
            }
        }
    }
}

/// The character of a decimal digit `d < 10`.
pub open spec fn digit_char(d: nat) -> char {
    ('0' as int + d) as char
}

/// Decimal representation of `n`, as `Display` writes it for unsigned integers.
pub open spec fn decimal_digits(n: nat) -> Seq<char>
    decreases n,
{
    if n < 10 {
        seq![digit_char(n)]
    } else {
        decimal_digits(n / 10).push(digit_char(n % 10))
    }
}

fn digit_text(d: u32) -> (s: &'static str)
    requires
        d < 10,
    ensures
        s@ == seq![digit_char(d as nat)],
{
    proof {
        reveal_strlit("0");
        reveal_strlit("1");
        reveal_strlit("2");
        reveal_strlit("3");
        reveal_strlit("4");
        reveal_strlit("5");
        reveal_strlit("6");
        reveal_strlit("7");
        reveal_strlit("8");
        reveal_strlit("9");
    }
    match d {
        0 => "0",
        1 => "1",
        2 => "2",
        3 => "3",
        4 => "4",
        5 => "5",
        6 => "6",
        7 => "7",
        8 => "8",
        _ => "9",
    }
}

/// Writes `n` in decimal, as `n.to_string()` does.
pub fn decimal_string(n: u32) -> (res: String)
    ensures
        res@ == decimal_digits(n as nat),
    decreases n,
{
    if n < 10 {
        String::from_str(digit_text(n))
    } else {
        let mut res = decimal_string(n / 10);
        res.append(digit_text(n % 10));
        res
    }
}

proof fn lemma_decimal_digits_shape(n: nat)
    ensures
        decimal_digits(n).len() > 0,
        forall|i: int| 0 <= i < decimal_digits(n).len() ==> is_digit(#[trigger] decimal_digits(n)[i]),
        decimal_value(decimal_digits(n)) == n,
    decreases n,
{
    if n < 10 {
        assert(digit_value(digit_char(n)) == n);
        assert(decimal_digits(n).drop_last() =~= Seq::<char>::empty());
        assert(decimal_value(Seq::<char>::empty()) == 0);
        assert(decimal_value(decimal_digits(n)) == n);
    } else {
        lemma_decimal_digits_shape(n / 10);
        let d = decimal_digits(n);
        assert(d.drop_last() =~= decimal_digits(n / 10));
        assert(digit_value(digit_char(n % 10)) == n % 10);
        assert((n / 10) * 10 + n % 10 == n) by (nonlinear_arith);
        assert(d.last() == digit_char(n % 10));
        assert(decimal_value(d) == decimal_value(d.drop_last()) * 10 + digit_value(d.last()));
        assert(decimal_value(d) == n);
        assert forall|i: int| 0 <= i < d.len() implies is_digit(#[trigger] d[i]) by {
            if i < d.len() - 1 {
                assert(d[i] == decimal_digits(n / 10)[i]);
            }
        }
    }
}

/// Parsing what `decimal_string` writes gives the number back.
pub proof fn lemma_parse_decimal_round_trip(n: u32)
    ensures
        spec_parse_u32(decimal_digits(n as nat)) == Some(n),
{
    lemma_decimal_digits_shape(n as nat);
    let d = decimal_digits(n as nat);
    assert(is_digit(d[0]));
    assert(unsigned_digits(d) == d);
}


/// Compares two texts character by character.
pub fn same_text(a: &str, b: &str) -> (res: bool)
    ensures
        res == (a@ == b@),
{
    let n = a.unicode_len();
    if n != b.unicode_len() {
        return false;
    }
    let mut i: usize = 0;
    while i < n
        invariant
            i <= n,
            n == a@.len(),
            n == b@.len(),
            forall|k: int| 0 <= k < i ==> a@[k] == b@[k],
        decreases n - i,
    {
        if a.get_char(i) != b.get_char(i) {
            return false;
        }
        i = i + 1;
    }
    assert(a@ =~= b@);
    true
}

/// The characters that `char::is_whitespace` accepts (Unicode `White_Space`).
pub open spec fn is_whitespace(c: char) -> bool {
    ||| ('\u{9}' <= c && c <= '\u{d}')
    ||| c == ' '
    ||| c == '\u{85}'
    ||| c == '\u{a0}'
    ||| c == '\u{1680}'
    ||| ('\u{2000}' <= c && c <= '\u{200a}')
    ||| c == '\u{2028}'
    ||| c == '\u{2029}'
    ||| c == '\u{202f}'
    ||| c == '\u{205f}'
    ||| c == '\u{3000}'
}

fn whitespace(c: char) -> (res: bool)
    ensures
        res == is_whitespace(c),
{
    ('\u{9}' <= c && c <= '\u{d}') || c == ' ' || c == '\u{85}' || c == '\u{a0}' || c
        == '\u{1680}' || ('\u{2000}' <= c && c <= '\u{200a}') || c == '\u{2028}' || c
        == '\u{2029}' || c == '\u{202f}' || c == '\u{205f}' || c == '\u{3000}'
}

/// `s` without its leading whitespace.
pub open spec fn trim_start(s: Seq<char>) -> Seq<char>
    decreases s.len(),
{
    if s.len() > 0 && is_whitespace(s[0]) {
        trim_start(s.drop_first())
    } else {
        s
    }
}

/// `s` without its trailing whitespace.
pub open spec fn trim_end(s: Seq<char>) -> Seq<char>
    decreases s.len(),
{
    if s.len() > 0 && is_whitespace(s.last()) {
        trim_end(s.drop_last())
    } else {
        s
    }
}

/// `s` without leading and trailing whitespace, as `str::trim` gives it.
pub open spec fn trimmed(s: Seq<char>) -> Seq<char> {
    trim_end(trim_start(s))
}

/// Removes leading and trailing whitespace, as `str::trim` does.
pub fn trim(s: &str) -> (res: String)
    ensures
        res@ == trimmed(s@),
{
    let len = s.unicode_len();
    let mut i: usize = 0;
    assert(s@.subrange(0, len as int) =~= s@);
    while i < len && whitespace(s.get_char(i))
        invariant
            i <= len,
            len == s@.len(),
            trim_start(s@) == trim_start(s@.subrange(i as int, len as int)),
        decreases len - i,
    {
        assert(s@.subrange(i as int, len as int).drop_first() =~= s@.subrange(i + 1, len as int));
        i = i + 1;
    }
    assert(trim_start(s@) == s@.subrange(i as int, len as int));
    let mut j: usize = len;
    while j > i && whitespace(s.get_char(j - 1))
        invariant
            i <= j <= len,
            len == s@.len(),
            trim_end(s@.subrange(i as int, len as int)) == trim_end(
                s@.subrange(i as int, j as int),
            ),
        decreases j,
    {
        assert(s@.subrange(i as int, j as int).drop_last() =~= s@.subrange(i as int, j - 1));
        j = j - 1;
    }
    let kept = s.substring_char(i, j);
    String::from_str(kept)
}

proof fn lemma_trim_start_shape(s: Seq<char>)
    ensures
        exists|k: int| 0 <= k <= s.len() && trim_start(s) == s.subrange(k, s.len() as int),
        trim_start(s).len() > 0 ==> !is_whitespace(trim_start(s)[0]),
    decreases s.len(),
{
    if s.len() > 0 && is_whitespace(s[0]) {
        lemma_trim_start_shape(s.drop_first());
        let k = choose|k: int|
            0 <= k <= s.drop_first().len() && trim_start(s.drop_first()) == s.drop_first().subrange(
                k,
                s.drop_first().len() as int,
            );
        assert(s.drop_first().subrange(k, s.drop_first().len() as int) =~= s.subrange(
            k + 1,
            s.len() as int,
        ));
    } else {
        assert(s.subrange(0, s.len() as int) =~= s);
    }
}

proof fn lemma_trim_end_shape(s: Seq<char>)
    ensures
        exists|k: int| 0 <= k <= s.len() && trim_end(s) == s.subrange(0, k),
        trim_end(s).len() > 0 ==> !is_whitespace(trim_end(s).last()),
    decreases s.len(),
{
    if s.len() > 0 && is_whitespace(s.last()) {
        lemma_trim_end_shape(s.drop_last());
        let k = choose|k: int|
            0 <= k <= s.drop_last().len() && trim_end(s.drop_last()) == s.drop_last().subrange(
                0,
                k,
            );
        assert(s.drop_last().subrange(0, k) =~= s.subrange(0, k));
    } else {
        assert(s.subrange(0, s.len() as int) =~= s);
    }
}

/// `trim` removes whitespace at both ends and nothing else: its result is a
/// contiguous part of the text that neither starts nor ends with whitespace,
/// so trimming it again changes nothing.
pub proof fn lemma_trimmed_shape(s: Seq<char>)
    ensures
        exists|i: int, j: int| 0 <= i <= j <= s.len() && trimmed(s) == s.subrange(i, j),
        trimmed(s).len() > 0 ==> !is_whitespace(trimmed(s)[0]) && !is_whitespace(
            trimmed(s).last(),
        ),
        trimmed(trimmed(s)) == trimmed(s),
{
    lemma_trim_start_shape(s);
    let t = trim_start(s);
    let i = choose|k: int| 0 <= k <= s.len() && t == s.subrange(k, s.len() as int);
    lemma_trim_end_shape(t);
    let j = choose|k: int| 0 <= k <= t.len() && trim_end(t) == t.subrange(0, k);
    assert(t.subrange(0, j) =~= s.subrange(i, i + j));
    let r = trimmed(s);
    if r.len() > 0 {
        assert(r[0] == t[0]);
        assert(trim_start(r) == r);
        assert(trim_end(r) == r);
    } else {
        assert(trim_start(r) == r);
        assert(trim_end(r) == r);
    }
}

proof fn lemma_trim_start_index(s: Seq<char>) -> (k: int)
    ensures
        0 <= k <= s.len(),
        trim_start(s) == s.subrange(k, s.len() as int),
        forall|m: int| 0 <= m < k ==> is_whitespace(#[trigger] s[m]),
        k < s.len() ==> !is_whitespace(s[k]),
    decreases s.len(),
{
    if s.len() > 0 && is_whitespace(s[0]) {
        let k = lemma_trim_start_index(s.drop_first());
        assert(s.drop_first().subrange(k, s.drop_first().len() as int) =~= s.subrange(
            k + 1,
            s.len() as int,
        ));
        assert forall|m: int| 0 <= m < k + 1 implies is_whitespace(#[trigger] s[m]) by {
            if m > 0 {
                assert(s[m] == s.drop_first()[m - 1]);
            }
        }
        assert(k + 1 < s.len() ==> s[k + 1] == s.drop_first()[k]);
        k + 1
    } else {
        assert(s.subrange(0, s.len() as int) =~= s);
        0
    }
}

proof fn lemma_trim_end_index(s: Seq<char>) -> (k: int)
    ensures
        0 <= k <= s.len(),
        trim_end(s) == s.subrange(0, k),
        forall|m: int| k <= m < s.len() ==> is_whitespace(#[trigger] s[m]),
        k > 0 ==> !is_whitespace(s[k - 1]),
    decreases s.len(),
{
    if s.len() > 0 && is_whitespace(s.last()) {
        let k = lemma_trim_end_index(s.drop_last());
        assert(s.drop_last().subrange(0, k) =~= s.subrange(0, k));
        assert forall|m: int| k <= m < s.len() implies is_whitespace(#[trigger] s[m]) by {
            if m < s.len() - 1 {
                assert(s[m] == s.drop_last()[m]);
            }
        }
        assert(k > 0 ==> s[k - 1] == s.drop_last()[k - 1]);
        k
    } else {
        assert(s.subrange(0, s.len() as int) =~= s);
        s.len() as int
    }
}

/// `trim` removes exactly the whitespace at both ends: what it keeps is the
/// part between the first and the last character that is not whitespace, and
/// everything before and after that part is whitespace.
pub proof fn lemma_trim_removes_only_outer_whitespace(s: Seq<char>)
    ensures
        exists|i: int, j: int|
            {
                &&& 0 <= i <= j <= s.len()
                &&& trimmed(s) == s.subrange(i, j)
                &&& forall|m: int| 0 <= m < i ==> is_whitespace(#[trigger] s[m])
                &&& forall|m: int| j <= m < s.len() ==> is_whitespace(#[trigger] s[m])
                &&& i < j ==> !is_whitespace(s[i]) && !is_whitespace(s[j - 1])
            },
{
    let i = lemma_trim_start_index(s);
    let t = trim_start(s);
    let k = lemma_trim_end_index(t);
    let j = i + k;
    assert(t.subrange(0, k) =~= s.subrange(i, j));
    assert forall|m: int| j <= m < s.len() implies is_whitespace(#[trigger] s[m]) by {
        assert(s[m] == t[m - i]);
    }
    if i < j {
        assert(t[0] == s[i]);
        assert(t[k - 1] == s[j - 1]);
    }
}

/// The digit `d < 16` in lower-case hexadecimal, as an ASCII byte.
pub open spec fn hex_digit(d: nat) -> u8 {
    if d < 10 {
        (48 + d) as u8
    } else {
        (87 + d) as u8
    }
}

/// What `std::ascii::escape_default` gives for one byte.
pub open spec fn escape_byte(b: u8) -> Seq<u8> {
    if b == 0x09 {
        seq![0x5cu8, 0x74u8]
    } else if b == 0x0d {
        seq![0x5cu8, 0x72u8]
    } else if b == 0x0a {
        seq![0x5cu8, 0x6eu8]
    } else if b == 0x5c {
        seq![0x5cu8, 0x5cu8]
    } else if b == 0x27 {
        seq![0x5cu8, 0x27u8]
    } else if b == 0x22 {
        seq![0x5cu8, 0x22u8]
    } else if 0x20 <= b && b <= 0x7e {
        seq![b]
    } else {
        seq![0x5cu8, 0x78u8, hex_digit((b / 16) as nat), hex_digit((b % 16) as nat)]
    }
}

/// Every byte of `s`, escaped with `escape_byte`, in order.
pub open spec fn escape_bytes(s: Seq<u8>) -> Seq<u8>
    decreases s.len(),
{
    if s.len() == 0 {
        Seq::empty()
    } else {
        escape_bytes(s.drop_last()) + escape_byte(s.last())
    }
}

/// A printable ASCII byte.
pub open spec fn is_printable_ascii(b: u8) -> bool {
    0x20 <= b && b <= 0x7e
}

fn hex_byte(d: u8) -> (res: u8)
    requires
        d < 16,
    ensures
        res == hex_digit(d as nat),
{
    if d < 10 {
        48 + d
    } else {
        87 + d
    }
}

fn push_escaped(out: &mut Vec<u8>, b: u8)
    ensures
        final(out)@ == old(out)@ + escape_byte(b),
{
    let ghost before = out@;
    if b == 0x09 {
        out.push(0x5c);
        out.push(0x74);
    } else if b == 0x0d {
        out.push(0x5c);
        out.push(0x72);
    } else if b == 0x0a {
        out.push(0x5c);
        out.push(0x6e);
    } else if b == 0x5c {
        out.push(0x5c);
        out.push(0x5c);
    } else if b == 0x27 {
        out.push(0x5c);
        out.push(0x27);
    } else if b == 0x22 {
        out.push(0x5c);
        out.push(0x22);
    } else if 0x20 <= b && b <= 0x7e {
        out.push(b);
    } else {
        out.push(0x5c);
        out.push(0x78);
        out.push(hex_byte(b / 16));
        out.push(hex_byte(b % 16));
    }
    assert(out@ =~= before + escape_byte(b));
}

/// Escapes every byte of `payload` as `std::ascii::escape_default` does.
pub fn escape_payload(payload: &[u8]) -> (res: Vec<u8>)
    ensures
        res@ == escape_bytes(payload@),
{
    let mut out: Vec<u8> = Vec::new();
    let mut i: usize = 0;
    while i < payload.len()
        invariant
            i <= payload@.len(),
            out@ == escape_bytes(payload@.take(i as int)),
        decreases payload@.len() - i,
    {
        assert(payload@.take(i + 1).drop_last() =~= payload@.take(i as int));
        push_escaped(&mut out, payload[i]);
        i = i + 1;
    }
    assert(payload@.take(payload@.len() as int) =~= payload@);
    out
}

/// The value of a lower-case hexadecimal digit.
pub open spec fn hex_value(h: u8) -> int {
    if '0' as u8 <= h && h <= '9' as u8 {
        h - ('0' as u8)
    } else {
        h - ('a' as u8) + 10
    }
}

/// How one byte is escaped: a printable byte other than `'`, `"` and `\` is
/// kept as it is; tab, carriage return, newline, `'`, `"` and `\` become a
/// backslash and one letter; every other byte becomes `\x` and two lower-case
/// hexadecimal digits that give the byte back.
pub proof fn lemma_escape_byte_meaning(b: u8)
    ensures
        0x20 <= b <= 0x7e && b != 0x27 && b != 0x22 && b != 0x5c ==> escape_byte(b) == seq![b],
        b == 0x09 ==> escape_byte(b) == seq!['\\' as u8, 't' as u8],
        b == 0x0d ==> escape_byte(b) == seq!['\\' as u8, 'r' as u8],
        b == 0x0a ==> escape_byte(b) == seq!['\\' as u8, 'n' as u8],
        b == 0x27 || b == 0x22 || b == 0x5c ==> escape_byte(b) == seq!['\\' as u8, b],
        (b < 0x20 && b != 0x09 && b != 0x0d && b != 0x0a) || b > 0x7e ==> {
            let e = escape_byte(b);
            &&& e.len() == 4
            &&& e[0] == '\\' as u8
            &&& e[1] == 'x' as u8
            &&& ('0' as u8 <= e[2] <= '9' as u8 || 'a' as u8 <= e[2] <= 'f' as u8)
            &&& ('0' as u8 <= e[3] <= '9' as u8 || 'a' as u8 <= e[3] <= 'f' as u8)
            &&& hex_value(e[2]) * 16 + hex_value(e[3]) == b
        },
{
    assert(b == (b / 16) * 16 + b % 16);
}

/// Escaping a concatenation escapes each part: every byte is escaped on its
/// own, in order.
pub proof fn lemma_escape_concat(a: Seq<u8>, b: Seq<u8>)
    ensures
        escape_bytes(a + b) == escape_bytes(a) + escape_bytes(b),
    decreases b.len(),
{
    if b.len() == 0 {
        assert(a + b =~= a);
        assert(escape_bytes(a) + escape_bytes(b) =~= escape_bytes(a));
    } else {
        lemma_escape_concat(a, b.drop_last());
        assert((a + b).drop_last() =~= a + b.drop_last());
        assert((a + b).last() == b.last());
        assert(escape_bytes(a) + escape_bytes(b.drop_last()) + escape_byte(b.last())
            =~= escape_bytes(a) + (escape_bytes(b.drop_last()) + escape_byte(b.last())));
    }
}

/// Escaping leaves only printable ASCII bytes.
pub proof fn lemma_escape_is_printable(s: Seq<u8>)
    ensures
        forall|i: int|
            0 <= i < escape_bytes(s).len() ==> is_printable_ascii(#[trigger] escape_bytes(s)[i]),
    decreases s.len(),
{
    if s.len() > 0 {
        lemma_escape_is_printable(s.drop_last());
        let prev = escape_bytes(s.drop_last());
        let last = escape_byte(s.last());
        let b = s.last();
        assert(b / 16 < 16 && b % 16 < 16);
        assert forall|i: int| 0 <= i < last.len() implies is_printable_ascii(#[trigger] last[i]) by {}
        assert forall|i: int|
            0 <= i < escape_bytes(s).len() implies is_printable_ascii(
            #[trigger] escape_bytes(s)[i],
        ) by {
            if i < prev.len() {
                assert(escape_bytes(s)[i] == prev[i]);
            } else {
                assert(escape_bytes(s)[i] == last[i - prev.len()]);
            }
        }
    }
}

/// Escaped bytes always form valid UTF-8.
pub proof fn lemma_escape_is_utf8(s: Seq<u8>)
    ensures
        valid_utf8(escape_bytes(s)),
{
    let e = escape_bytes(s);
    lemma_escape_is_printable(s);
    assert forall|i: int| 0 <= 0 <= i < e.len() <= e.len() implies #[trigger] is_leading_byte_width_1(e[i]) by {
        assert(is_printable_ascii(e[i]));
    }
    assert(e.subrange(0, 0) =~= Seq::<u8>::empty());
    partial_valid_utf8_extend_ascii_block(e, 0, e.len() as int);
    assert(e.subrange(0, e.len() as int) =~= e);
}

/// Decodes `bytes` as UTF-8, as `String::from_utf8` does; `None` when they are
/// not valid UTF-8.
#[verifier::external_body]
pub(crate) fn utf8_to_string(bytes: Vec<u8>) -> (res: Option<String>)
    ensures
        res is Some <==> valid_utf8(bytes@),
        res matches Some(s) ==> s@ == decode_utf8(bytes@),
{
    String::from_utf8(bytes).ok()
}


/// What `String::from_utf8_lossy` makes of `bytes`: their text, with each
/// invalid sequence replaced by U+FFFD.
pub uninterp spec fn lossy_utf8(bytes: Seq<u8>) -> Seq<char>;

/// Calls `String::from_utf8_lossy`. Its result is named `lossy_utf8`; on valid
/// UTF-8 it is the decoded text, as the documentation says that only invalid
/// sequences are replaced.
#[verifier::external_body]
pub(crate) fn utf8_lossy(bytes: &[u8]) -> (res: String)
    ensures
        res@ == lossy_utf8(bytes@),
        valid_utf8(bytes@) ==> res@ == decode_utf8(bytes@),
{
    String::from_utf8_lossy(bytes).into_owned()
}

/// The first `n` bytes of `buffer`, copied.
pub fn copy_prefix(buffer: &[u8], n: usize) -> (res: Vec<u8>)
    requires
        n <= buffer@.len(),
    ensures
        res@ == buffer@.take(n as int),
{
    let mut data: Vec<u8> = Vec::new();
    let mut i: usize = 0;
    while i < n
        invariant
            i <= n <= buffer@.len(),
            data@ == buffer@.take(i as int),
        decreases n - i,
    {
        data.push(buffer[i]);
        assert(buffer@.take(i + 1) =~= buffer@.take(i as int).push(buffer@[i as int]));
        i = i + 1;
    }
    data
}

} // verus!
