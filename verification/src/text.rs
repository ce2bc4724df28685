use vstd::prelude::*;

verus! {

/// Appends one character to a string.
///
/// Trusted: calls `String::push`, whose documentation says it appends the character to the end
/// of the string; the contract claims exactly that of the character sequence.
#[verifier::external_body]
pub(crate) fn push_char(s: &mut String, c: char)
    ensures
        final(s)@ == old(s)@.push(c),
{
    s.push(c);
}

/// Character-wise equality of two string slices.
pub fn str_eq(a: &str, b: &str) -> (r: bool)
    ensures
        r == (a@ == b@),
{
    let n = a.unicode_len();
    if n != b.unicode_len() {
        return false;
    }
    let mut i: usize = 0;
    while i < n
        invariant
            n == a@.len(),
            n == b@.len(),
            i <= n,
            forall|j: int| 0 <= j < i ==> a@[j] == b@[j],
        decreases n - i,
    {
        if a.get_char(i) != b.get_char(i) {
            return false;
        }
        i += 1;
    }
    assert(a@ =~= b@);
    true
}

/// The ASCII digit for a value below ten.
pub open spec fn digit_char(d: nat) -> char {
    if d == 0 {
        '0'
    } else if d == 1 {
        '1'
    } else if d == 2 {
        '2'
    } else if d == 3 {
        '3'
    } else if d == 4 {
        '4'
    } else if d == 5 {
        '5'
    } else if d == 6 {
        '6'
    } else if d == 7 {
        '7'
    } else if d == 8 {
        '8'
    } else {
        '9'
    }
}

/// The decimal digits of a natural number, most significant first, without leading zeros.
pub open spec fn decimal_digits(n: nat) -> Seq<char>
    decreases n,
{
    if n < 10 {
        seq![digit_char(n)]
    } else {
        decimal_digits(n / 10).push(digit_char(n % 10))
    }
}

/// The decimal representation of an integer, with a leading minus sign when it is negative.
pub open spec fn decimal_int(n: int) -> Seq<char> {
    if n < 0 {
        seq!['-'] + decimal_digits((-n) as nat)
    } else {
        decimal_digits(n as nat)
    }
}

fn digit(d: u64) -> (c: char)
    requires
        d < 10,
    ensures
        c == digit_char(d as nat),
{
    if d == 0 {
        '0'
    } else if d == 1 {
        '1'
    } else if d == 2 {
        '2'
    } else if d == 3 {
        '3'
    } else if d == 4 {
        '4'
    } else if d == 5 {
        '5'
    } else if d == 6 {
        '6'
    } else if d == 7 {
        '7'
    } else if d == 8 {
        '8'
    } else {
        '9'
    }
}

/// Appends the decimal digits of `n` to `out`.
pub fn append_decimal_u64(out: &mut String, n: u64)
    ensures
        final(out)@ == old(out)@ + decimal_digits(n as nat),
    decreases n,
{
    if n < 10 {
        push_char(out, digit(n));
        assert(decimal_digits(n as nat) =~= seq![digit_char(n as nat)]);
    } else {
        append_decimal_u64(out, n / 10);
        push_char(out, digit(n % 10));
        assert(old(out)@ + decimal_digits((n / 10) as nat) + seq![digit_char((n % 10) as nat)]
            =~= old(out)@ + decimal_digits(n as nat));
    }
}

/// Appends the decimal representation of `n` to `out`.
pub fn append_decimal_i64(out: &mut String, n: i64)
    ensures
        final(out)@ == old(out)@ + decimal_int(n as int),
{
    if n < 0 {
        push_char(out, '-');
        let magnitude: u64 = if n == i64::MIN {
            9_223_372_036_854_775_808u64
        } else {
            (-n) as u64
        };
        append_decimal_u64(out, magnitude);
        assert(old(out)@.push('-') + decimal_digits(magnitude as nat) =~= old(out)@ + decimal_int(
            n as int,
        ));
    } else {
        append_decimal_u64(out, n as u64);
    }
}

/// The decimal representation of an unsigned integer.
pub fn u64_to_decimal(n: u64) -> (r: String)
    ensures
        r@ == decimal_digits(n as nat),
{
    let mut out = String::new();
    append_decimal_u64(&mut out, n);
    assert(out@ =~= decimal_digits(n as nat));
    out
}

/// The decimal representation of a signed integer.
pub fn i64_to_decimal(n: i64) -> (r: String)
    ensures
        r@ == decimal_int(n as int),
{
    let mut out = String::new();
    append_decimal_i64(&mut out, n);
    assert(out@ =~= decimal_int(n as int));
    out
}

/// Whether a character has the Unicode `White_Space` property, the test that `char::is_whitespace`
/// makes: the ASCII tab, line feed, vertical tab, form feed, carriage return and space, next line,
/// no-break space, the Ogham space mark, the spaces U+2000 to U+200A, the line and paragraph
/// separators, the narrow no-break space, the medium mathematical space and the ideographic space.
pub open spec fn is_whitespace_char(c: char) -> bool {
    let u = c as u32;
    ||| 0x09 <= u <= 0x0D
    ||| u == 0x20
    ||| u == 0x85
    ||| u == 0xA0
    ||| u == 0x1680
    ||| 0x2000 <= u <= 0x200A
    ||| u == 0x2028
    ||| u == 0x2029
    ||| u == 0x202F
    ||| u == 0x205F
    ||| u == 0x3000
}

/// Whether a character is whitespace.
pub fn is_whitespace(c: char) -> (r: bool)
    ensures
        r == is_whitespace_char(c),
{
    let u = c as u32;
    (0x09 <= u && u <= 0x0D) || u == 0x20 || u == 0x85 || u == 0xA0 || u == 0x1680 || (0x2000 <= u
        && u <= 0x200A) || u == 0x2028 || u == 0x2029 || u == 0x202F || u == 0x205F || u == 0x3000
}

/// The number of leading whitespace characters.
pub open spec fn leading_whitespace(s: Seq<char>) -> nat
    decreases s.len(),
{
    if s.len() > 0 && is_whitespace_char(s[0]) {
        1 + leading_whitespace(s.drop_first())
    } else {
        0
    }
}

/// The number of trailing whitespace characters.
pub open spec fn trailing_whitespace(s: Seq<char>) -> nat
    decreases s.len(),
{
    if s.len() > 0 && is_whitespace_char(s.last()) {
        1 + trailing_whitespace(s.drop_last())
    } else {
        0
    }
}

proof fn lemma_leading_whitespace_bound(s: Seq<char>)
    ensures
        leading_whitespace(s) <= s.len(),
        forall|i: int| 0 <= i < leading_whitespace(s) ==> is_whitespace_char(s[i]),
        leading_whitespace(s) < s.len() ==> !is_whitespace_char(s[leading_whitespace(s) as int]),
    decreases s.len(),
{
    if s.len() > 0 && is_whitespace_char(s[0]) {
        lemma_leading_whitespace_bound(s.drop_first());
        assert forall|i: int| 0 <= i < leading_whitespace(s) implies is_whitespace_char(s[i]) by {
            if i > 0 {
                assert(s[i] == s.drop_first()[i - 1]);
            }
        }
    }
}

proof fn lemma_trailing_whitespace_bound(s: Seq<char>)
    ensures
        trailing_whitespace(s) <= s.len(),
        forall|i: int| s.len() - trailing_whitespace(s) <= i < s.len() ==> is_whitespace_char(s[i]),
        trailing_whitespace(s) < s.len() ==> !is_whitespace_char(
            s[s.len() - trailing_whitespace(s) - 1],
        ),
    decreases s.len(),
{
    if s.len() > 0 && is_whitespace_char(s.last()) {
        let d = s.drop_last();
        lemma_trailing_whitespace_bound(d);
        assert forall|i: int| s.len() - trailing_whitespace(s) <= i < s.len() implies is_whitespace_char(s[i]) by {
            if i < s.len() - 1 {
                assert(s[i] == d[i]);
            }
        }
        if trailing_whitespace(s) < s.len() {
            assert(s[s.len() - trailing_whitespace(s) - 1] == d[d.len() - trailing_whitespace(d) - 1]);
        }
    }
}

/// The text with leading and trailing whitespace removed.
pub open spec fn trimmed(s: Seq<char>) -> Seq<char> {
    let start = leading_whitespace(s);
    if start == s.len() {
        Seq::empty()
    } else {
        s.subrange(start as int, s.len() - trailing_whitespace(s))
    }
}

/// Removes leading and trailing whitespace.
pub fn trim(s: &str) -> (r: String)
    ensures
        r@ == trimmed(s@),
{
    let n = s.unicode_len();
    proof {
        lemma_leading_whitespace_bound(s@);
        lemma_trailing_whitespace_bound(s@);
    }
    let mut start: usize = 0;
    while start < n && is_whitespace(s.get_char(start))
        invariant
            n == s@.len(),
            start <= leading_whitespace(s@),
            leading_whitespace(s@) <= n,
            forall|i: int| 0 <= i < leading_whitespace(s@) ==> is_whitespace_char(s@[i]),
            leading_whitespace(s@) < n ==> !is_whitespace_char(s@[leading_whitespace(s@) as int]),
        decreases n - start,
    {
        start += 1;
    }
    assert(start == leading_whitespace(s@));
    if start == n {
        return String::new();
    }
    let mut end: usize = n;
    while end > start && is_whitespace(s.get_char(end - 1))
        invariant
            n == s@.len(),
            start < n,
            start == leading_whitespace(s@),
            start <= end,
            end <= n,
            n - end <= trailing_whitespace(s@),
            trailing_whitespace(s@) <= n,
            !is_whitespace_char(s@[start as int]),
            forall|i: int| n - trailing_whitespace(s@) <= i < n ==> is_whitespace_char(s@[i]),
            trailing_whitespace(s@) < n ==> !is_whitespace_char(s@[n - trailing_whitespace(s@) - 1]),
        decreases end,
    {
        end -= 1;
    }
    assert(end == n - trailing_whitespace(s@)) by {
        if start >= n - trailing_whitespace(s@) {
            assert(is_whitespace_char(s@[start as int]));
        }
        if end > start && n - end < trailing_whitespace(s@) {
            assert(is_whitespace_char(s@[end - 1]));
        }
    }
    let part = s.substring_char(start, end);
    part.to_owned()
}

/// The ASCII lowercase form of a character; other characters are unchanged.
pub open spec fn to_ascii_lower(c: char) -> char {
    if 'A' <= c && c <= 'Z' {
        ((c as u32) + 32) as char
    } else {
        c
    }
}

/// Equality of two texts when ASCII letters are compared without regard to case.
pub open spec fn eq_ignore_ascii_case_spec(a: Seq<char>, b: Seq<char>) -> bool {
    a.len() == b.len() && forall|i: int| 0 <= i < a.len() ==> to_ascii_lower(a[i]) == to_ascii_lower(b[i])
}

fn lower_char(c: char) -> (r: char)
    ensures
        r == to_ascii_lower(c),
{
    if 'A' <= c && c <= 'Z' {
        let v: u32 = c as u32 + 32;
        assert(0x61 <= v <= 0x7a);
        char_from_ascii(v)
    } else {
        c
    }
}

fn char_from_ascii(v: u32) -> (r: char)
    requires
        0x61 <= v <= 0x7a,
    ensures
        r == v as char,
{
    let b: u8 = v as u8;
    b as char
}

pub fn eq_ignore_ascii_case(a: &str, b: &str) -> (r: bool)
    ensures
        r == eq_ignore_ascii_case_spec(a@, b@),
{
    let n = a.unicode_len();
    if n != b.unicode_len() {
        return false;
    }
    let mut i: usize = 0;
    while i < n
        invariant
            n == a@.len(),
            n == b@.len(),
            i <= n,
            forall|j: int| 0 <= j < i ==> to_ascii_lower(a@[j]) == to_ascii_lower(b@[j]),
        decreases n - i,
    {
        if lower_char(a.get_char(i)) != lower_char(b.get_char(i)) {
            return false;
        }
        i += 1;
    }
    true
}

/// The position of the first occurrence of a character at or after `from`.
pub open spec fn find_char_from(s: Seq<char>, c: char, from: int) -> Option<int> {
    if exists|i: int| from <= i < s.len() && s[i] == c {
        Some(choose|i: int| from <= i < s.len() && s[i] == c && forall|j: int| from <= j < i ==> s[j] != c)
    } else {
        None
    }
}

pub fn find_char(s: &str, c: char, from: usize) -> (r: Option<usize>)
    ensures
        match r {
            Some(i) => from <= i < s@.len() && find_char_from(s@, c, from as int) == Some(i as int),
            None => find_char_from(s@, c, from as int) is None,
        },
{
    let n = s.unicode_len();
    let mut i: usize = from;
    while i < n
        invariant
            n == s@.len(),
            from <= i || i == from,
            from <= i,
            forall|j: int| from <= j < i ==> s@[j] != c,
        decreases n - i,
    {
        if s.get_char(i) == c {
            proof {
                let k = choose|k: int| from <= k < s@.len() && s@[k] == c && forall|j: int| from <= j < k ==> s@[j] != c;
                assert(from <= i < s@.len() && s@[i as int] == c);
                if k < i {
                } else if k > i {
                }
            }
            return Some(i);
        }
        i += 1;
    }
    None
}

/// Whether a character is an ASCII decimal digit.
pub open spec fn is_digit_char(c: char) -> bool {
    '0' <= c && c <= '9'
}

/// The value of a nonempty sequence of decimal digits.
pub open spec fn digits_value(s: Seq<char>) -> int
    decreases s.len(),
{
    if s.len() == 0 {
        0
    } else {
        10 * digits_value(s.drop_last()) + ((s.last() as u32) - ('0' as u32))
    }
}

/// Whether a text starts with a sign character.
pub open spec fn has_sign(s: Seq<char>) -> bool {
    s.len() > 0 && (s[0] == '-' || s[0] == '+')
}

/// The text after an optional leading sign.
pub open spec fn unsigned_part(s: Seq<char>) -> Seq<char> {
    if has_sign(s) {
        s.drop_first()
    } else {
        s
    }
}

/// Whether every character of a text is a decimal digit.
pub open spec fn all_digits(s: Seq<char>) -> bool {
    forall|i: int| 0 <= i < s.len() ==> #[trigger] is_digit_char(s[i])
}

/// The integer that `i32`'s parser reads from a text: an optional `+` or `-` followed by at least
/// one decimal digit and nothing else, whose value fits in `i32`.
pub open spec fn parse_i32_spec(s: Seq<char>) -> Option<i32> {
    let digits = unsigned_part(s);
    if digits.len() == 0 || !all_digits(digits) {
        None
    } else {
        let v = if s[0] == '-' {
            -digits_value(digits)
        } else {
            digits_value(digits)
        };
        if i32::MIN <= v <= i32::MAX {
            Some(v as i32)
        } else {
            None
        }
    }
}

proof fn lemma_digits_value_nonneg(s: Seq<char>)
    requires
        forall|i: int| 0 <= i < s.len() ==> is_digit_char(s[i]),
    ensures
        digits_value(s) >= 0,
    decreases s.len(),
{
    if s.len() > 0 {
        lemma_digits_value_nonneg(s.drop_last());
    }
}

proof fn lemma_digits_value_monotone(s: Seq<char>, k: int)
    requires
        0 <= k <= s.len(),
        forall|i: int| 0 <= i < s.len() ==> is_digit_char(s[i]),
    ensures
        digits_value(s.take(k)) <= digits_value(s),
    decreases s.len() - k,
{
    if k < s.len() {
        lemma_digits_value_monotone(s, k + 1);
        assert(s.take(k + 1).drop_last() =~= s.take(k));
        lemma_digits_value_nonneg(s.take(k));
    } else {
        assert(s.take(k) =~= s);
    }
}

proof fn lemma_unsigned_part_skip(s: Seq<char>, start: int)
    requires
        start == (if has_sign(s) { 1int } else { 0int }),
    ensures
        unsigned_part(s) == s.skip(start),
{
    if start == 1 {
        assert(s.skip(1) =~= s.drop_first());
    } else {
        assert(s.skip(0) =~= s);
    }
}

/// Parses a decimal `i32` the way `str::parse::<i32>` does.
pub fn parse_i32(s: &str) -> (r: Option<i32>)
    ensures
        r == parse_i32_spec(s@),
{
    let n = s.unicode_len();
    let mut start: usize = 0;
    let mut negative = false;
    if n > 0 {
        let first = s.get_char(0);
        if first == '-' {
            negative = true;
            start = 1;
        } else if first == '+' {
            start = 1;
        }
    }
    let ghost digits = unsigned_part(s@);
    proof {
        lemma_unsigned_part_skip(s@, start as int);
    }
    if start == n {
        return None;
    }
    let mut value: i64 = 0;
    let mut i: usize = start;
    while i < n
        invariant
            n == s@.len(),
            start <= i <= n,
            start < n,
            digits == unsigned_part(s@),
            digits == s@.skip(start as int),
            negative == (s@[0] == '-'),
            forall|j: int| 0 <= j < i - start ==> is_digit_char(#[trigger] digits[j]),
            value == digits_value(digits.take(i - start)),
            0 <= value <= 0x8000_0000,
        decreases n - i,
    {
        let c = s.get_char(i);
        if !('0' <= c && c <= '9') {
            proof {
                assert(digits[i - start] == c);
                assert(!is_digit_char(digits[i - start]));
                assert(!all_digits(digits));
            }
            return None;
        }
        let d: i64 = (c as u32 - '0' as u32) as i64;
        proof {
            assert(digits.take(i - start + 1).drop_last() =~= digits.take(i - start));
            assert(digits.take(i - start + 1).last() == c);
        }
        let next: i64 = value * 10 + d;
        if next > 0x8000_0000 {
            proof {
                assert(digits_value(digits.take(i - start + 1)) == next);
                if all_digits(digits) {
                    lemma_digits_value_monotone(digits, i - start + 1);
                }
            }
            return None;
        }
        value = next;
        i += 1;
    }
    proof {
        assert(digits.take(n - start) =~= digits);
        assert(all_digits(digits));
    }
    let signed: i64 = if negative { -value } else { value };
    if signed < i32::MIN as i64 || signed > i32::MAX as i64 {
        None
    } else {
        Some(signed as i32)
    }
}

proof fn lemma_digit_char_value(d: nat)
    requires
        d < 10,
    ensures
        is_digit_char(digit_char(d)),
        (digit_char(d) as u32) - ('0' as u32) == d,
{
}

/// The decimal digits of a number are a nonempty run of digits whose value is the number.
pub proof fn lemma_decimal_digits_value(n: nat)
    ensures
        decimal_digits(n).len() >= 1,
        all_digits(decimal_digits(n)),
        digits_value(decimal_digits(n)) == n,
    decreases n,
{
    if n < 10 {
        lemma_digit_char_value(n);
        let s = decimal_digits(n);
        assert(s.drop_last() =~= Seq::<char>::empty());
        assert(digits_value(s) == 10 * digits_value(s.drop_last()) + ((s.last() as u32) - ('0' as u32)));
    } else {
        lemma_decimal_digits_value(n / 10);
        lemma_digit_char_value(n % 10);
        let s = decimal_digits(n);
        let p = decimal_digits(n / 10);
        assert(s.drop_last() =~= p);
        assert forall|i: int| 0 <= i < s.len() implies #[trigger] is_digit_char(s[i]) by {
            if i < p.len() {
                assert(s[i] == p[i]);
            }
        }
    }
}

/// Reading back the decimal representation of an `i32` gives the value.
pub proof fn lemma_parse_decimal_round_trip(v: i32)
    ensures
        parse_i32_spec(decimal_int(v as int)) == Some(v),
{
    let s = decimal_int(v as int);
    if v < 0 {
        let d = decimal_digits((-v) as nat);
        lemma_decimal_digits_value((-v) as nat);
        assert(s == seq!['-'] + d);
        assert(s[0] == '-');
        assert(unsigned_part(s) =~= d);
    } else {
        let d = decimal_digits(v as nat);
        lemma_decimal_digits_value(v as nat);
        assert(is_digit_char(d[0]));
        assert(unsigned_part(s) == d);
    }
}

} // verus!
