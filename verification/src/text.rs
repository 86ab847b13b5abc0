use vstd::prelude::*;
use vstd::std_specs::iter::IteratorSpec;
use vstd::string::*;
use vstd::utf8::*;

verus! {

/// Two texts hold the same characters exactly when their UTF-8 encodings agree.
pub proof fn lemma_same_bytes_same_text(a: Seq<char>, b: Seq<char>)
    requires
        encode_utf8(a) == encode_utf8(b),
    ensures
        a == b,
{
    encode_utf8_decode_utf8(a);
    encode_utf8_decode_utf8(b);
}

/// Compares two texts character by character.
pub fn text_eq(a: &str, b: &str) -> (same: bool)
    ensures
        same == (a@ == b@),
{
    let x = a.as_bytes();
    let y = b.as_bytes();
    if x.len() != y.len() {
        return false;
    }
    let mut i: usize = 0;
    while i < x.len()
        invariant
            x@ == a.spec_bytes(),
            y@ == b.spec_bytes(),
            x@.len() == y@.len(),
            i <= x@.len(),
            forall|j: int| 0 <= j < i ==> x@[j] == y@[j],
        decreases x@.len() - i,
    {
        if x[i] != y[i] {
            return false;
        }
        i += 1;
    }
    proof {
        assert(x@ =~= y@);
        lemma_same_bytes_same_text(a@, b@);
    }
    true
}

/// The characters of a text, one for one.
pub fn chars_of(s: &str) -> (chars: Vec<char>)
    ensures
        chars@ == s@,
{
    let mut chars: Vec<char> = Vec::new();
    let mut rest = s.chars();
    loop
        invariant
            chars@ + rest.remaining() == s@,
            rest.decrease() is Some,
        decreases rest.decrease()->0,
    {
        match rest.next() {
            Some(c) => {
                chars.push(c);
                assert(chars@ + rest.remaining() =~= s@);
            },
            None => {
                assert(chars@ =~= s@);
                return chars;
            },
        }
    }
}

/// `String::push` of std: the text grows by the one character given,
/// at its end.
#[verifier::external_body]
fn push_char(s: &mut String, c: char)
    ensures
        final(s)@ == old(s)@.push(c),
{
    s.push(c);
}

/// The text made of the characters given, one for one.
pub fn text_of(chars: &Vec<char>) -> (s: String)
    ensures
        s@ == chars@,
{
    let mut s = String::new();
    let mut i: usize = 0;
    while i < chars.len()
        invariant
            i <= chars@.len(),
            s@ == chars@.take(i as int),
        decreases chars@.len() - i,
    {
        push_char(&mut s, chars[i]);
        assert(s@ =~= chars@.take(i + 1));
        i += 1;
    }
    assert(s@ =~= chars@);
    s
}

/// An integer as a sign and a magnitude, so that every value of every
/// integer type of 128 bits or less fits.
#[derive(Clone, Copy, Debug)]
pub struct Whole {
    pub negative: bool,
    pub magnitude: u128,
}

impl Whole {
    /// The integer that the sign and the magnitude stand for.
    pub open spec fn value(self) -> int {
        if self.negative {
            -(self.magnitude as int)
        } else {
            self.magnitude as int
        }
    }
}

/// Whether the character is one of the ten decimal digits.
pub open spec fn is_digit(c: char) -> bool {
    '0' <= c <= '9'
}

/// The decimal digit for a number below ten.
pub open spec fn digit_char(d: int) -> char {
    (48 + d) as u8 as char
}

/// The number that a run of decimal digits denotes.
pub open spec fn digits_value(s: Seq<char>) -> nat
    decreases s.len(),
{
    if s.len() == 0 {
        0
    } else {
        (digits_value(s.drop_last()) * 10 + (s.last() as u8 - 48)) as nat
    }
}

/// Whether every character is a decimal digit.
pub open spec fn all_digits(s: Seq<char>) -> bool {
    forall|i: int| 0 <= i < s.len() ==> is_digit(#[trigger] s[i])
}

/// The integer that a text denotes in the decimal grammar of the integer
/// types: an optional `+`, for a signed type alternatively a `-`, then at
/// least one digit and nothing else.
pub open spec fn parse_integer(s: Seq<char>, signed: bool) -> Option<int> {
    let has_sign = s.len() > 0 && (s[0] == '+' || (signed && s[0] == '-'));
    let digits = if has_sign {
        s.subrange(1, s.len() as int)
    } else {
        s
    };
    if digits.len() == 0 || !all_digits(digits) {
        None
    } else if has_sign && s[0] == '-' {
        Some(-(digits_value(digits) as int))
    } else {
        Some(digits_value(digits) as int)
    }
}

/// The digits of a natural number, most significant first, without
/// leading zeros.
pub open spec fn decimal_digits(n: nat) -> Seq<char>
    decreases n,
{
    if n < 10 {
        seq![digit_char(n as int)]
    } else {
        decimal_digits(n / 10).push(digit_char((n % 10) as int))
    }
}

/// The decimal text of an integer: a `-` before the digits of a negative one.
pub open spec fn decimal_text(n: int) -> Seq<char> {
    if n < 0 {
        seq!['-'] + decimal_digits((-n) as nat)
    } else {
        decimal_digits(n as nat)
    }
}

/// Reads a text as a decimal integer. `None` where the text is no integer
/// in that grammar or its magnitude is beyond 128 bits.
pub fn parse_decimal(s: &str, signed: bool) -> (r: Option<Whole>)
    ensures
        match parse_integer(s@, signed) {
            Some(n) => if -(u128::MAX as int) <= n <= u128::MAX as int {
                r is Some && r->Some_0.value() == n
            } else {
                r is None
            },
            None => r is None,
        },
{
    let chars = chars_of(s);
    let n = chars.len();
    if n == 0 {
        return None;
    }
    let negative = signed && chars[0] == '-';
    let start: usize = if chars[0] == '+' || negative {
        1
    } else {
        0
    };
    if start == n {
        return None;
    }
    let ghost digits = s@.subrange(start as int, n as int);
    proof {
        assert(s@.subrange(0, n as int) =~= s@);
        assert(digits.take(0) =~= Seq::<char>::empty());
    }
    let mut magnitude: u128 = 0;
    let mut overflow = false;
    let mut i: usize = start;
    while i < n
        invariant
            start <= i <= n,
            start <= 1,
            n == chars@.len(),
            chars@ == s@,
            (start == 1) == (s@[0] == '+' || (signed && s@[0] == '-')),
            negative == (signed && s@[0] == '-'),
            digits == s@.subrange(start as int, n as int),
            all_digits(digits.take(i - start)),
            overflow ==> digits_value(digits.take(i - start)) > u128::MAX,
            !overflow ==> digits_value(digits.take(i - start)) == magnitude,
        decreases n - i,
    {
        let c = chars[i];
        if c < '0' || c > '9' {
            assert(digits[i - start] == c);
            assert(s@[i as int] == c);
            assert(!is_digit(digits[i - start]));
            assert(!all_digits(digits));
            assert(start == 0 ==> digits =~= s@);
            return None;
        }
        let d: u128 = (c as u8 - 48) as u128;
        proof {
            assert(digits.take(i - start + 1).drop_last() =~= digits.take(i - start));
            assert(digits.take(i - start + 1).last() == c);
            assert forall|j: int| 0 <= j < i - start + 1 implies is_digit(
                #[trigger] digits.take(i - start + 1)[j],
            ) by {
                if j < i - start {
                    assert(digits.take(i - start)[j] == digits[j]);
                }
            }
        }
        if !overflow {
            if magnitude > (u128::MAX - d) / 10 {
                overflow = true;
            } else {
                magnitude = magnitude * 10 + d;
            }
        }
        i += 1;
    }
    assert(digits.take(n - start) =~= digits);
    if overflow {
        None
    } else {
        Some(Whole { negative, magnitude })
    }
}

/// Appends the digits of `n` to a text.
fn push_digits(out: &mut String, n: u128)
    ensures
        final(out)@ == old(out)@ + decimal_digits(n as nat),
    decreases n,
{
    if n >= 10 {
        push_digits(out, n / 10);
    }
    let d: u8 = (n % 10) as u8;
    push_char(out, (48 + d) as char);
    assert(out@ =~= old(out)@ + decimal_digits(n as nat));
}

/// The decimal text of an integer.
pub fn render_decimal(n: Whole) -> (s: String)
    ensures
        s@ == decimal_text(n.value()),
{
    let mut s = String::new();
    if n.negative && n.magnitude > 0 {
        push_char(&mut s, '-');
    }
    push_digits(&mut s, n.magnitude);
    assert(s@ =~= decimal_text(n.value()));
    s
}

/// The lower-case form of an upper-case Latin letter; any other character
/// is kept.
pub open spec fn ascii_lower(c: char) -> char {
    if 'A' <= c <= 'Z' {
        (c as u8 + 32) as char
    } else {
        c
    }
}

/// Whether a text is `word` but for the case of its Latin letters.
pub open spec fn reads_as(s: Seq<char>, word: Seq<char>) -> bool {
    s.len() == word.len() && forall|i: int| 0 <= i < s.len() ==> ascii_lower(#[trigger] s[i]) == word[i]
}

/// Compares a text with a word, taking upper-case Latin letters for their
/// lower-case forms.
pub fn matches_word(chars: &Vec<char>, word: &str) -> (yes: bool)
    ensures
        yes == reads_as(chars@, word@),
{
    let letters = chars_of(word);
    if chars.len() != letters.len() {
        return false;
    }
    let mut i: usize = 0;
    while i < chars.len()
        invariant
            i <= chars@.len(),
            chars@.len() == letters@.len(),
            letters@ == word@,
            forall|j: int| 0 <= j < i ==> ascii_lower(#[trigger] chars@[j]) == word@[j],
        decreases chars@.len() - i,
    {
        let c = chars[i];
        let lower = if 'A' <= c && c <= 'Z' {
            (c as u8 + 32) as char
        } else {
            c
        };
        if lower != letters[i] {
            return false;
        }
        i += 1;
    }
    true
}

/// Whether the character is white space: the characters with the Unicode
/// property `White_Space`.
pub open spec fn is_space(c: char) -> bool {
    let code = c as u32;
    (0x09 <= code <= 0x0d) || code == 0x20 || code == 0x85 || code == 0xa0 || code == 0x1680 || (
    0x2000 <= code <= 0x200a) || code == 0x2028 || code == 0x2029 || code == 0x202f || code
        == 0x205f || code == 0x3000
}

/// The first place from `from` on that holds no white space; the length of
/// the text where there is none.
pub open spec fn skip_spaces(s: Seq<char>, from: int) -> int
    decreases s.len() - from,
{
    if 0 <= from < s.len() && is_space(s[from]) {
        skip_spaces(s, from + 1)
    } else {
        from
    }
}

/// The place behind the last character before `to` that is no white space,
/// not going below `floor`.
pub open spec fn skip_spaces_back(s: Seq<char>, to: int, floor: int) -> int
    decreases to,
{
    if 0 <= floor < to <= s.len() && is_space(s[to - 1]) {
        skip_spaces_back(s, to - 1, floor)
    } else {
        to
    }
}

/// The text without the white space at its two ends.
pub open spec fn trimmed(s: Seq<char>) -> Seq<char> {
    let start = skip_spaces(s, 0);
    s.subrange(start, skip_spaces_back(s, s.len() as int, start))
}

/// Whether a text begins with another.
pub open spec fn starts_with(s: Seq<char>, prefix: Seq<char>) -> bool {
    prefix.len() <= s.len() && s.subrange(0, prefix.len() as int) == prefix
}

/// The text without the prefix at its start, as often as it stands there.
/// An empty prefix takes nothing away.
pub open spec fn strip_all(s: Seq<char>, prefix: Seq<char>) -> Seq<char>
    decreases s.len(),
{
    if prefix.len() > 0 && starts_with(s, prefix) {
        strip_all(s.subrange(prefix.len() as int, s.len() as int), prefix)
    } else {
        s
    }
}

/// Whether the character is white space.
pub fn is_whitespace(c: char) -> (yes: bool)
    ensures
        yes == is_space(c),
{
    let code = c as u32;
    (0x09 <= code && code <= 0x0d) || code == 0x20 || code == 0x85 || code == 0xa0 || code
        == 0x1680 || (0x2000 <= code && code <= 0x200a) || code == 0x2028 || code == 0x2029
        || code == 0x202f || code == 0x205f || code == 0x3000
}

/// Where the text without the white space at its ends starts and stops.
pub fn trim_bounds(chars: &Vec<char>) -> (bounds: (usize, usize))
    ensures
        bounds.0 == skip_spaces(chars@, 0),
        bounds.1 == skip_spaces_back(chars@, chars@.len() as int, bounds.0 as int),
        bounds.0 <= bounds.1 <= chars@.len(),
{
    let mut start: usize = 0;
    while start < chars.len() && is_whitespace(chars[start])
        invariant
            start <= chars@.len(),
            skip_spaces(chars@, 0) == skip_spaces(chars@, start as int),
        decreases chars@.len() - start,
    {
        start += 1;
    }
    let mut end: usize = chars.len();
    while end > start && is_whitespace(chars[end - 1])
        invariant
            start <= end <= chars@.len(),
            skip_spaces_back(chars@, chars@.len() as int, start as int) == skip_spaces_back(
                chars@,
                end as int,
                start as int,
            ),
        decreases end,
    {
        end -= 1;
    }
    (start, end)
}

/// The text without the white space at its two ends.
pub fn trim<'a>(s: &'a str) -> (t: &'a str)
    ensures
        t@ == trimmed(s@),
{
    let chars = chars_of(s);
    let (start, end) = trim_bounds(&chars);
    s.substring_char(start, end)
}

/// Whether the characters from `at` on begin with the prefix.
pub fn has_prefix_at(chars: &Vec<char>, at: usize, prefix: &Vec<char>) -> (yes: bool)
    requires
        at <= chars@.len(),
    ensures
        yes == starts_with(chars@.subrange(at as int, chars@.len() as int), prefix@),
{
    let ghost rest = chars@.subrange(at as int, chars@.len() as int);
    if prefix.len() > chars.len() - at {
        return false;
    }
    let mut i: usize = 0;
    while i < prefix.len()
        invariant
            i <= prefix@.len(),
            at + prefix@.len() <= chars@.len(),
            chars@.len() <= usize::MAX,
            rest == chars@.subrange(at as int, chars@.len() as int),
            forall|j: int| 0 <= j < i ==> rest[j] == prefix@[j],
        decreases prefix@.len() - i,
    {
        if chars[at + i] != prefix[i] {
            assert(rest.subrange(0, prefix@.len() as int)[i as int] != prefix@[i as int]);
            return false;
        }
        i += 1;
    }
    assert(rest.subrange(0, prefix@.len() as int) =~= prefix@);
    true
}

/// The characters from `from` up to `to` as a text.
pub fn text_between(chars: &Vec<char>, from: usize, to: usize) -> (s: String)
    requires
        from <= to <= chars@.len(),
    ensures
        s@ == chars@.subrange(from as int, to as int),
{
    let mut s = String::new();
    let mut i: usize = from;
    while i < to
        invariant
            from <= i <= to <= chars@.len(),
            s@ == chars@.subrange(from as int, i as int),
        decreases to - i,
    {
        push_char(&mut s, chars[i]);
        assert(s@ =~= chars@.subrange(from as int, i + 1));
        i += 1;
    }
    s
}

/// The key that a variable gives under a prefix: its name without the white
/// space at its ends and without the prefix at its start, as often as it
/// stands there. None where the name does not begin with the prefix.
pub open spec fn key_under(name: Seq<char>, prefix: Seq<char>) -> Option<Seq<char>> {
    if starts_with(trimmed(name), prefix) {
        Some(strip_all(trimmed(name), prefix))
    } else {
        None
    }
}

/// The key that a variable gives under a prefix.
pub fn strip_key(name: &str, prefix: &str) -> (key: Option<String>)
    ensures
        match key_under(name@, prefix@) {
            Some(k) => key is Some && key->Some_0@ == k,
            None => key is None,
        },
{
    let chars = chars_of(name);
    let (start, end) = trim_bounds(&chars);
    let kept = text_between(&chars, start, end);
    let body = chars_of(kept.as_str());
    let lead = chars_of(prefix);
    assert(body@.subrange(0, body@.len() as int) =~= body@);
    if !has_prefix_at(&body, 0, &lead) {
        return None;
    }
    if lead.len() == 0 {
        return Some(kept);
    }
    let mut at: usize = 0;
    while has_prefix_at(&body, at, &lead)
        invariant
            at <= body@.len(),
            lead@ == prefix@,
            lead@.len() > 0,
            strip_all(body@, lead@) == strip_all(
                body@.subrange(at as int, body@.len() as int),
                lead@,
            ),
        decreases body@.len() - at,
    {
        proof {
            let rest = body@.subrange(at as int, body@.len() as int);
            assert(starts_with(rest, lead@));
            assert(at + lead@.len() <= body@.len());
            assert(rest.subrange(lead@.len() as int, rest.len() as int) =~= body@.subrange(
                at + lead@.len(),
                body@.len() as int,
            ));
        }
        let size = body.len();
        assert(at + lead.len() <= size);
        at += lead.len();
    }
    Some(text_between(&body, at, body.len()))
}

} // verus!
