//! Text helpers: whitespace trimming, ASCII case folding, decimal numbers.

use vstd::prelude::*;

verus! {

/// Whether `c` has the Unicode `White_Space` property, the set that
/// `char::is_whitespace` tests for: U+0009 to U+000D, U+0020, U+0085,
/// U+00A0, U+1680, U+2000 to U+200A, U+2028, U+2029, U+202F, U+205F and
/// U+3000.
pub open spec fn unicode_white_space(c: char) -> bool {
    let u = c as u32;
    ||| 0x09 <= u <= 0x0D
    ||| u == 0x20
    ||| u == 0x85
    ||| u == 0xA0
    ||| u == 0x1680
    ||| 0x2000 <= u <= 0x200A
    ||| u == 0x2028
    ||| u == 0x2029
    ||| u == 0x202F
    ||| u == 0x205F
    ||| u == 0x3000
}

/// Whether `c` is Unicode white space.
pub(crate) fn is_whitespace(c: char) -> (b: bool)
    ensures
        b == unicode_white_space(c),
{
    match c {
        '\u{9}'..='\u{d}' | ' ' | '\u{85}' | '\u{a0}' | '\u{1680}' | '\u{2000}'..='\u{200a}'
        | '\u{2028}' | '\u{2029}' | '\u{202f}' | '\u{205f}' | '\u{3000}' => true,
        _ => false,
    }
}

/// Whether `c` is alphabetic or numeric in the Unicode sense, as
/// `char::is_alphanumeric` reports it.
pub uninterp spec fn unicode_alphanumeric(c: char) -> bool;

/// Calls `char::is_alphanumeric`, which tests for the Unicode `Alphabetic`
/// property or a numeric general category. Its result is taken to be
/// `unicode_alphanumeric(c)`; of the property, only what it says of ASCII
/// is stated: among ASCII characters exactly the letters and digits have
/// it.
#[verifier::external_body]
pub(crate) fn is_alphanumeric(c: char) -> (b: bool)
    ensures
        b == unicode_alphanumeric(c),
        (c as u32) < 128 ==> (b <==> ('a' <= c <= 'z' || 'A' <= c <= 'Z' || '0' <= c <= '9')),
{
    c.is_alphanumeric()
}

/// The text `String::from_utf8_lossy` makes of `bytes`.
pub uninterp spec fn utf8_lossy(bytes: Seq<u8>) -> Seq<char>;

/// Calls `String::from_utf8_lossy`, which decodes UTF-8 and replaces each
/// invalid sequence with U+FFFD. Its result is taken to be
/// `utf8_lossy(bytes@)`; of that, only what plain ASCII decodes to is
/// stated: each byte below 128 is the character with that code.
#[verifier::external_body]
pub(crate) fn decode_utf8_lossy(bytes: &[u8]) -> (text: String)
    ensures
        text@ == utf8_lossy(bytes@),
        (forall|i: int| 0 <= i < bytes@.len() ==> #[trigger] bytes@[i] < 128) ==> text@.len()
            == bytes@.len() && forall|i: int|
            0 <= i < bytes@.len() ==> #[trigger] text@[i] == bytes@[i] as char,
{
    String::from_utf8_lossy(bytes).into_owned()
}

/// Whether `a` and `b` hold the same characters.
pub fn same_text(a: &str, b: &str) -> (r: bool)
    ensures
        r == (a@ == b@),
{
    let n = a.unicode_len();
    if n != b.unicode_len() {
        return false;
    }
    let mut i: usize = 0;
    while i < n
        invariant
            n == a@.len(),
            n == b@.len(),
            i <= n,
            forall|k: int| 0 <= k < i ==> a@[k] == b@[k],
        decreases n - i,
    {
        if a.get_char(i) != b.get_char(i) {
            return false;
        }
        i = i + 1;
    }
    proof {
        assert(a@ =~= b@);
    }
    true
}

/// `s` without its leading whitespace.
pub open spec fn trim_start(s: Seq<char>) -> Seq<char>
    decreases s.len(),
{
    if s.len() > 0 && unicode_white_space(s[0]) {
        trim_start(s.drop_first())
    } else {
        s
    }
}

/// `s` without its trailing whitespace.
pub open spec fn trim_end(s: Seq<char>) -> Seq<char>
    decreases s.len(),
{
    if s.len() > 0 && unicode_white_space(s.last()) {
        trim_end(s.drop_last())
    } else {
        s
    }
}

/// `s` without leading and trailing whitespace, as `str::trim` returns it.
pub open spec fn trimmed(s: Seq<char>) -> Seq<char> {
    trim_end(trim_start(s))
}

/// `s` with leading and trailing whitespace removed.
pub fn trim(s: &str) -> (t: &str)
    ensures
        t@ == trimmed(s@),
{
    let n = s.unicode_len();
    let mut lo: usize = 0;
    proof {
        assert(s@.subrange(0, n as int) =~= s@);
    }
    while lo < n && is_whitespace(s.get_char(lo))
        invariant
            n == s@.len(),
            lo <= n,
            trim_start(s@) == trim_start(s@.subrange(lo as int, n as int)),
        decreases n - lo,
    {
        proof {
            assert(s@.subrange(lo as int, n as int).drop_first() =~= s@.subrange(
                lo + 1,
                n as int,
            ));
        }
        lo = lo + 1;
    }
    let ghost start = s@.subrange(lo as int, n as int);
    proof {
        assert(trim_start(s@) == start);
    }
    let mut hi: usize = n;
    while hi > lo && is_whitespace(s.get_char(hi - 1))
        invariant
            n == s@.len(),
            lo <= hi <= n,
            start == s@.subrange(lo as int, n as int),
            trim_end(start) == trim_end(s@.subrange(lo as int, hi as int)),
        decreases hi,
    {
        proof {
            assert(s@.subrange(lo as int, hi as int).drop_last() =~= s@.subrange(
                lo as int,
                hi - 1,
            ));
        }
        hi = hi - 1;
    }
    s.substring_char(lo, hi)
}

/// The code of `c` after ASCII lowercasing.
pub open spec fn ascii_folded(c: char) -> int {
    if 'A' <= c && c <= 'Z' {
        (c as int) + 32
    } else {
        c as int
    }
}

/// `a` and `b` are equal up to ASCII case.
pub open spec fn equal_ignoring_ascii_case(a: Seq<char>, b: Seq<char>) -> bool {
    &&& a.len() == b.len()
    &&& forall|i: int| 0 <= i < a.len() ==> ascii_folded(#[trigger] a[i]) == ascii_folded(b[i])
}

fn fold_ascii(c: char) -> (code: u32)
    ensures
        code == ascii_folded(c),
{
    if 'A' <= c && c <= 'Z' {
        (c as u32) + 32
    } else {
        c as u32
    }
}

/// Whether `a` and `b` are equal up to ASCII case.
pub fn eq_ignore_ascii_case(a: &str, b: &str) -> (r: bool)
    ensures
        r == equal_ignoring_ascii_case(a@, b@),
{
    let n = a.unicode_len();
    if n != b.unicode_len() {
        return false;
    }
    let mut i: usize = 0;
    while i < n
        invariant
            n == a@.len(),
            n == b@.len(),
            i <= n,
            forall|k: int| 0 <= k < i ==> ascii_folded(#[trigger] a@[k]) == ascii_folded(b@[k]),
        decreases n - i,
    {
        if fold_ascii(a.get_char(i)) != fold_ascii(b.get_char(i)) {
            return false;
        }
        i = i + 1;
    }
    true
}

/// The decimal digits of `n`, most significant first.
pub open spec fn decimal(n: nat) -> Seq<char>
    decreases n,
{
    if n < 10 {
        seq![digit_char(n)]
    } else {
        decimal(n / 10) + seq![digit_char(n % 10)]
    }
}

/// The ASCII digit for `d` (`0` to `9`).
pub open spec fn digit_char(d: nat) -> char {
    if d == 0 {
        '0'
    } else if d == 1 {
        '1'
    } else if d == 2 {
        '2'
    } else if d == 3 {
        '3'
    } else if d == 4 {
        '4'
    } else if d == 5 {
        '5'
    } else if d == 6 {
        '6'
    } else if d == 7 {
        '7'
    } else if d == 8 {
        '8'
    } else {
        '9'
    }
}

fn digit_str(d: u64) -> (s: &'static str)
    requires
        d < 10,
    ensures
        s@ == seq![digit_char(d as nat)],
{
    proof {
        reveal_strlit("0");
        reveal_strlit("1");
        reveal_strlit("2");
        reveal_strlit("3");
        reveal_strlit("4");
        reveal_strlit("5");
        reveal_strlit("6");
        reveal_strlit("7");
        reveal_strlit("8");
        reveal_strlit("9");
    }
    if d == 0 {
        "0"
    } else if d == 1 {
        "1"
    } else if d == 2 {
        "2"
    } else if d == 3 {
        "3"
    } else if d == 4 {
        "4"
    } else if d == 5 {
        "5"
    } else if d == 6 {
        "6"
    } else if d == 7 {
        "7"
    } else if d == 8 {
        "8"
    } else {
        "9"
    }
}

/// Appends the decimal digits of `n` to `out`.
pub fn push_decimal(out: &mut String, n: u64)
    ensures
        final(out)@ == old(out)@ + decimal(n as nat),
    decreases n,
{
    if n >= 10 {
        push_decimal(out, n / 10);
    }
    out.append(digit_str(n % 10));
    proof {
        if n >= 10 {
            assert(decimal(n as nat) == decimal((n / 10) as nat) + seq![digit_char((n % 10) as nat)]);
        }
    }
}

/// The decimal representation of `n`.
pub fn format_decimal(n: u64) -> (s: String)
    ensures
        s@ == decimal(n as nat),
{
    let mut s = String::new();
    push_decimal(&mut s, n);
    proof {
        assert(Seq::<char>::empty() + decimal(n as nat) =~= decimal(n as nat));
    }
    s
}

/// `c` is an ASCII digit.
pub open spec fn is_digit(c: char) -> bool {
    '0' <= c && c <= '9'
}

/// The value of the ASCII digits `s`.
pub open spec fn digits_value(s: Seq<char>) -> nat
    decreases s.len(),
{
    if s.len() == 0 {
        0
    } else {
        digits_value(s.drop_last()) * 10 + ((s.last() as u32) - ('0' as u32)) as nat
    }
}

/// `s` is one or more ASCII digits.
pub open spec fn all_digits(s: Seq<char>) -> bool {
    s.len() > 0 && forall|i: int| 0 <= i < s.len() ==> is_digit(#[trigger] s[i])
}

/// The magnitude `s` denotes as `u64::from_str` reads it (an optional `+`
/// followed by ASCII digits), if it has that shape.
pub open spec fn unsigned_text(s: Seq<char>) -> Option<nat> {
    let body = if s.len() > 0 && s[0] == '+' {
        s.drop_first()
    } else {
        s
    };
    if all_digits(body) {
        Some(digits_value(body))
    } else {
        None
    }
}

/// The value `i64::from_str` reads from `s` (an optional `+` or `-` followed
/// by ASCII digits), if it has that shape; the range is not checked here.
pub open spec fn signed_text(s: Seq<char>) -> Option<int> {
    if s.len() > 0 && s[0] == '-' {
        if all_digits(s.drop_first()) {
            Some(-digits_value(s.drop_first()))
        } else {
            None
        }
    } else {
        match unsigned_text(s) {
            Some(v) => Some(v as int),
            None => None,
        }
    }
}

/// What `s.parse::<u64>()` gives: the value, when `s` has the shape and
/// the value fits.
pub open spec fn parsed_u64(s: Seq<char>) -> Option<u64> {
    match unsigned_text(s) {
        Some(v) => if v <= u64::MAX {
            Some(v as u64)
        } else {
            None
        },
        None => None,
    }
}

/// What `s.parse::<i64>()` gives: the value, when `s` has the shape and
/// the value fits.
pub open spec fn parsed_i64(s: Seq<char>) -> Option<i64> {
    match signed_text(s) {
        Some(v) => if i64::MIN <= v <= i64::MAX {
            Some(v as i64)
        } else {
            None
        },
        None => None,
    }
}

/// What `s.parse::<u32>()` gives: the value, when `s` has the shape and
/// the value fits.
pub open spec fn parsed_u32(s: Seq<char>) -> Option<u32> {
    match unsigned_text(s) {
        Some(v) => if v <= u32::MAX {
            Some(v as u32)
        } else {
            None
        },
        None => None,
    }
}

/// Parses `s` as `s.parse::<u32>().ok()` does.
pub fn parse_u32(s: &str) -> (r: Option<u32>)
    ensures
        r == parsed_u32(s@),
{
    let n = s.unicode_len();
    let from: usize = if n > 0 && s.get_char(0) == '+' {
        1
    } else {
        0
    };
    proof {
        if from == 1 {
            assert(s@.subrange(1, n as int) =~= s@.drop_first());
        } else {
            assert(s@.subrange(0, n as int) =~= s@);
        }
    }
    match read_digits(s, from, 4_294_967_295u64) {
        Some(v) => Some(v as u32),
        None => None,
    }
}

/// The decimal digits of `n`, padded on the left with `0` to at least
/// `width` characters, as `format!("{n:0width$}")` writes them.
pub open spec fn zero_padded(n: nat, width: nat) -> Seq<char> {
    let digits = decimal(n);
    if digits.len() < width {
        Seq::new((width - digits.len()) as nat, |_i: int| '0') + digits
    } else {
        digits
    }
}

/// Appends the decimal digits of `n` to `out`, padded on the left with `0`
/// to at least `width` characters.
pub fn push_zero_padded(out: &mut String, n: u64, width: usize)
    ensures
        final(out)@ == old(out)@ + zero_padded(n as nat, width as nat),
{
    let digits = format_decimal(n);
    let len = digits.as_str().unicode_len();
    let mut k: usize = len;
    let ghost start = out@;
    while k < width
        invariant
            len == decimal(n as nat).len(),
            len <= k,
            k == len || k <= width,
            out@ == start + Seq::new((k - len) as nat, |_i: int| '0'),
        decreases width - k,
    {
        proof {
            reveal_strlit("0");
            assert(Seq::new((k + 1 - len) as nat, |_i: int| '0') =~= Seq::new(
                (k - len) as nat,
                |_i: int| '0',
            ) + seq!['0']);
        }
        out.append("0");
        k = k + 1;
    }
    out.append(digits.as_str());
    proof {
        if len < width {
            assert(out@ =~= start + zero_padded(n as nat, width as nat));
        } else {
            assert(Seq::new((k - len) as nat, |_i: int| '0') =~= Seq::<char>::empty());
            assert(out@ =~= start + zero_padded(n as nat, width as nat));
        }
    }
}

/// Parses `s` as `s.parse::<u64>().ok()` does.
pub fn parse_u64(s: &str) -> (r: Option<u64>)
    ensures
        r == parsed_u64(s@),
{
    let n = s.unicode_len();
    let from: usize = if n > 0 && s.get_char(0) == '+' {
        1
    } else {
        0
    };
    proof {
        if from == 1 {
            assert(s@.subrange(1, n as int) =~= s@.drop_first());
        } else {
            assert(s@.subrange(0, n as int) =~= s@);
        }
    }
    read_digits(s, from, u64::MAX)
}

/// Parses `s` as `s.parse::<i64>().ok()` does.
pub fn parse_i64(s: &str) -> (r: Option<i64>)
    ensures
        r == parsed_i64(s@),
{
    let n = s.unicode_len();
    if n > 0 && s.get_char(0) == '-' {
        proof {
            assert(s@.subrange(1, n as int) =~= s@.drop_first());
        }
        match read_digits(s, 1, 9_223_372_036_854_775_808u64) {
            Some(v) => {
                if v == 9_223_372_036_854_775_808u64 {
                    Some(i64::MIN)
                } else {
                    let m = v as i64;
                    Some(-m)
                }
            },
            None => None,
        }
    } else {
        let from: usize = if n > 0 && s.get_char(0) == '+' {
            1
        } else {
            0
        };
        proof {
            if from == 1 {
                assert(s@.subrange(1, n as int) =~= s@.drop_first());
            } else {
                assert(s@.subrange(0, n as int) =~= s@);
            }
        }
        match read_digits(s, from, 9_223_372_036_854_775_807u64) {
            Some(v) => Some(v as i64),
            None => None,
        }
    }
}

proof fn lemma_digit_char(k: nat)
    requires
        k < 10,
    ensures
        is_digit(digit_char(k)),
        ((digit_char(k) as u32) - ('0' as u32)) as nat == k,
{
}

proof fn lemma_decimal_digits(n: nat)
    ensures
        all_digits(decimal(n)),
        digits_value(decimal(n)) == n,
    decreases n,
{
    lemma_digit_char(n % 10);
    assert(n == (n / 10) * 10 + n % 10) by (nonlinear_arith);
    if n < 10 {
        let d = decimal(n);
        assert(d.drop_last() =~= Seq::<char>::empty());
        assert(digits_value(Seq::<char>::empty()) == 0);
        assert(n % 10 == n);
        assert(d.last() == digit_char(n));
        assert(digits_value(d) == digits_value(d.drop_last()) * 10 + ((d.last() as u32) - (
        '0' as u32)) as nat);
    } else {
        lemma_decimal_digits(n / 10);
        let d = decimal(n);
        assert(d.drop_last() =~= decimal(n / 10));
        assert(d.last() == digit_char(n % 10));
        assert(digits_value(d) == digits_value(d.drop_last()) * 10 + ((d.last() as u32) - (
        '0' as u32)) as nat);
        assert forall|i: int| 0 <= i < d.len() implies is_digit(#[trigger] d[i]) by {
            if i < d.len() - 1 {
                assert(d[i] == decimal(n / 10)[i]);
            }
        }
    }
}

/// Reading back the decimal digits of a number gives the number: the text
/// `format_decimal` writes is parsed by `parse_u64` into the value it came
/// from.
pub proof fn lemma_decimal_reads_back(n: u64)
    ensures
        parsed_u64(decimal(n as nat)) == Some(n),
{
    lemma_decimal_digits(n as nat);
    let d = decimal(n as nat);
    assert(!(d.len() > 0 && d[0] == '+'));
}

/// A prefix of a digit string never denotes more than the whole string.
proof fn lemma_digits_prefix_le(s: Seq<char>, k: int)
    requires
        0 <= k <= s.len(),
        forall|i: int| 0 <= i < s.len() ==> is_digit(#[trigger] s[i]),
    ensures
        digits_value(s.take(k)) <= digits_value(s),
    decreases s.len(),
{
    if k < s.len() {
        let t = s.drop_last();
        assert(t.take(k) =~= s.take(k));
        assert forall|i: int| 0 <= i < t.len() implies is_digit(#[trigger] t[i]) by {
            assert(t[i] == s[i]);
        }
        lemma_digits_prefix_le(t, k);
        assert(is_digit(s[s.len() - 1]));
    } else {
        assert(s.take(k) =~= s);
    }
}

/// Reads the ASCII digits `s[from..]`, failing on any other character or
/// once the value exceeds `max`.
fn read_digits(s: &str, from: usize, max: u64) -> (r: Option<u64>)
    requires
        from <= s@.len(),
    ensures
        ({
            let tail = s@.subrange(from as int, s@.len() as int);
            match r {
                Some(v) => all_digits(tail) && v == digits_value(tail) && v <= max,
                None => !all_digits(tail) || digits_value(tail) > max,
            }
        }),
{
    let n = s.unicode_len();
    let ghost tail = s@.subrange(from as int, n as int);
    if from >= n {
        return None;
    }
    let mut value: u64 = 0;
    let mut i: usize = from;
    while i < n
        invariant
            n == s@.len(),
            tail == s@.subrange(from as int, n as int),
            from <= i <= n,
            from < n,
            value <= max,
            forall|k: int| from <= k < i ==> is_digit(#[trigger] s@[k]),
            value == digits_value(s@.subrange(from as int, i as int)),
        decreases n - i,
    {
        let c = s.get_char(i);
        let ghost prefix = s@.subrange(from as int, i + 1);
        proof {
            assert(prefix.drop_last() =~= s@.subrange(from as int, i as int));
            assert(tail[i - from] == c);
        }
        if !('0' <= c && c <= '9') {
            return None;
        }
        let d = (c as u32 - '0' as u32) as u64;
        if d > max || value > (max - d) / 10 {
            proof {
                assert(value * 10 + d > max) by (nonlinear_arith)
                    requires
                        d > max || value > (max - d) / 10,
                ;
                if all_digits(tail) {
                    assert(tail.take(i - from + 1) =~= prefix);
                    lemma_digits_prefix_le(tail, i - from + 1);
                }
            }
            return None;
        }
        proof {
            assert(value * 10 + d <= max) by (nonlinear_arith)
                requires
                    value <= (max - d) / 10,
                    d <= max,
            ;
        }
        value = value * 10 + d;
        i = i + 1;
    }
    proof {
        assert(s@.subrange(from as int, i as int) =~= tail);
        assert forall|k: int| 0 <= k < tail.len() implies is_digit(#[trigger] tail[k]) by {
            assert(tail[k] == s@[from + k]);
        }
    }
    Some(value)
}

} // verus!
