//! Text as sequences of characters: the conversions from and to strings, and
//! the few string operations that the command protocol needs.
use vstd::prelude::*;

verus! {

broadcast use vstd::string::axiom_spec_iter;

/// Whether `c` is white space in the sense of Unicode's `White_Space`
/// property.
pub open spec fn is_space(c: char) -> bool {
    let code = c as u32;
    ||| 0x09 <= code <= 0x0d
    ||| code == 0x20
    ||| code == 0x85
    ||| code == 0xa0
    ||| code == 0x1680
    ||| 0x2000 <= code <= 0x200a
    ||| code == 0x2028
    ||| code == 0x2029
    ||| code == 0x202f
    ||| code == 0x205f
    ||| code == 0x3000
}

/// Length of `text` without the white space at its end.
pub open spec fn trimmed_len(text: Seq<char>) -> int
    decreases text.len(),
{
    if text.len() > 0 && is_space(text.last()) {
        trimmed_len(text.drop_last())
    } else {
        text.len() as int
    }
}

/// `text` without the white space at its end.
pub open spec fn trimmed(text: Seq<char>) -> Seq<char> {
    text.subrange(0, trimmed_len(text))
}

/// The decimal digit `d` as a character.
pub open spec fn digit(d: nat) -> char {
    (0x30 + d) as u8 as char
}

/// `n` in decimal, without sign or leading zeros.
pub open spec fn decimal(n: nat) -> Seq<char>
    decreases n,
{
    if n < 10 {
        seq![digit(n)]
    } else {
        decimal(n / 10).push(digit(n % 10))
    }
}

/// The value of the decimal digit `c`, if it is one.
pub open spec fn digit_value(c: char) -> Option<nat> {
    if 0x30 <= c as u32 <= 0x39 {
        Some((c as u32 - 0x30) as nat)
    } else {
        None
    }
}

/// The number that the digits of `text` denote, if `text` holds digits only.
/// No digits denote zero.
pub open spec fn digits_value(text: Seq<char>) -> Option<nat>
    decreases text.len(),
{
    if text.len() == 0 {
        Some(0)
    } else {
        match (digits_value(text.drop_last()), digit_value(text.last())) {
            (Some(front), Some(last)) => Some(front * 10 + last),
            _ => None,
        }
    }
}

/// The digits of a number written with an optional plus sign in front.
pub open spec fn unsigned_digits(text: Seq<char>) -> Seq<char> {
    if text.len() > 0 && text[0] == '+' {
        text.subrange(1, text.len() as int)
    } else {
        text
    }
}

/// `text` read as an unsigned 64-bit number: an optional plus sign and then
/// one digit or more, nothing else, denoting a number within range.
pub open spec fn parsed_u64(text: Seq<char>) -> Option<u64> {
    let digits = unsigned_digits(text);
    if digits.len() == 0 {
        None
    } else {
        match digits_value(digits) {
            Some(value) => if value <= u64::MAX {
                Some(value as u64)
            } else {
                None
            },
            None => None,
        }
    }
}

/// Position of the first space in `text`, or the length of `text` if it
/// holds none.
pub open spec fn first_space(text: Seq<char>) -> int
    decreases text.len(),
{
    if text.len() == 0 || text[0] == ' ' {
        0
    } else {
        1 + first_space(text.subrange(1, text.len() as int))
    }
}

/// What follows the first space of `text`, if it holds a space.
pub open spec fn after_first_space(text: Seq<char>) -> Option<Seq<char>> {
    if first_space(text) < text.len() {
        Some(text.subrange(first_space(text) + 1, text.len() as int))
    } else {
        None
    }
}

/// The characters of a string.
pub fn chars_of(s: &str) -> (chars: Vec<char>)
    ensures
        chars@ == s@,
{
    let mut chars: Vec<char> = Vec::new();
    for c in it: s.chars()
        invariant
            it.seq() == s@,
            chars@ == s@.subrange(0, it.index() as int),
    {
        chars.push(c);
        assert(chars@ =~= s@.subrange(0, it.index() + 1));
    }
    assert(chars@ =~= s@);
    chars
}

/// `String::push` of the standard library: appends one character to the end
/// of the string.
#[verifier::external_body]
fn push_char(s: &mut String, c: char)
    ensures
        final(s)@ == old(s)@.push(c),
{
    s.push(c)
}

/// The string made of the characters `chars[from..to]`.
pub fn string_of(chars: &Vec<char>, from: usize, to: usize) -> (s: String)
    requires
        from <= to <= chars@.len(),
    ensures
        s@ == chars@.subrange(from as int, to as int),
{
    let mut s = String::new();
    let mut i: usize = from;
    while i < to
        invariant
            from <= i <= to <= chars@.len(),
            s@ == chars@.subrange(from as int, i as int),
        decreases to - i,
    {
        push_char(&mut s, chars[i]);
        i = i + 1;
        assert(s@ =~= chars@.subrange(from as int, i as int));
    }
    s
}

/// Appends the characters of `s` to `out`.
pub fn append(out: &mut Vec<char>, s: &str)
    ensures
        final(out)@ == old(out)@ + s@,
{
    let tail = chars_of(s);
    let mut i: usize = 0;
    while i < tail.len()
        invariant
            i <= tail@.len(),
            out@ == old(out)@ + tail@.subrange(0, i as int),
        decreases tail@.len() - i,
    {
        out.push(tail[i]);
        i = i + 1;
        assert(out@ =~= old(out)@ + tail@.subrange(0, i as int));
    }
    assert(tail@.subrange(0, i as int) =~= tail@);
}

/// Whether `c` is white space.
pub fn is_whitespace(c: char) -> (space: bool)
    ensures
        space == is_space(c),
{
    let code = c as u32;
    (0x09 <= code && code <= 0x0d) || code == 0x20 || code == 0x85 || code == 0xa0 || code
        == 0x1680 || (0x2000 <= code && code <= 0x200a) || code == 0x2028 || code == 0x2029
        || code == 0x202f || code == 0x205f || code == 0x3000
}

/// The length of `chars` without the white space at its end.
pub fn trim_end(chars: &Vec<char>) -> (end: usize)
    ensures
        end == trimmed_len(chars@),
        end <= chars@.len(),
{
    let mut end: usize = chars.len();
    assert(chars@.subrange(0, end as int) =~= chars@);
    while end > 0 && is_whitespace(chars[end - 1])
        invariant
            end <= chars@.len(),
            trimmed_len(chars@) == trimmed_len(chars@.subrange(0, end as int)),
        decreases end,
    {
        assert(chars@.subrange(0, end as int).drop_last() =~= chars@.subrange(0, end - 1));
        end = end - 1;
    }
    end
}

/// `n` in decimal, appended to `out`.
pub fn append_decimal(out: &mut Vec<char>, n: u64)
    ensures
        final(out)@ == old(out)@ + decimal(n as nat),
    decreases n,
{
    if n >= 10 {
        append_decimal(out, n / 10);
    }
    let d: u8 = (n % 10) as u8;
    out.push((0x30 + d) as char);
    assert(out@ =~= old(out)@ + decimal(n as nat));
}

/// Reads `chars[from..]` as an unsigned 64-bit number.
pub fn parse_u64(chars: &Vec<char>, from: usize) -> (value: Option<u64>)
    requires
        from <= chars@.len(),
    ensures
        value == parsed_u64(chars@.subrange(from as int, chars@.len() as int)),
{
    let ghost text = chars@.subrange(from as int, chars@.len() as int);
    let n = chars.len();
    let start: usize = if from < n && chars[from] == '+' {
        from + 1
    } else {
        from
    };
    let ghost digits = unsigned_digits(text);
    assert(digits =~= chars@.subrange(start as int, n as int));
    if start == n {
        return None;
    }
    let mut value: u64 = 0;
    let mut i: usize = start;
    assert(digits.subrange(0, 0) =~= Seq::<char>::empty());
    while i < n
        invariant
            start <= i <= n == chars@.len(),
            from <= start < n,
            text == chars@.subrange(from as int, n as int),
            digits == unsigned_digits(text),
            digits == chars@.subrange(start as int, n as int),
            digits_value(digits.subrange(0, i - start)) == Some(value as nat),
        decreases n - i,
    {
        let c = chars[i];
        let code = c as u32;
        let ghost seen = digits.subrange(0, i - start);
        let ghost next = digits.subrange(0, i + 1 - start);
        proof {
            assert(next.drop_last() =~= seen);
            assert(next.last() == c);
            assert(digits_value(next) == match digit_value(c) {
                Some(last) => Some(value as nat * 10 + last),
                None => None::<nat>,
            });
            if digits_value(next) is None || digits_value(next)->0 > u64::MAX {
                lemma_digits_value_grows(digits, i + 1 - start);
            }
        }
        if code < 0x30 || code > 0x39 {
            assert(digit_value(c) is None);
            return None;
        }
        let d: u64 = (code - 0x30) as u64;
        assert(digit_value(c) == Some(d as nat));
        if value > (u64::MAX - d) / 10 {
            assert(value as nat * 10 + d > u64::MAX);
            return None;
        }
        value = value * 10 + d;
        i = i + 1;
    }
    assert(digits.subrange(0, i - start) =~= digits);
    Some(value)
}

/// Once a prefix of `text` fails to denote a number within range, so does
/// `text`: reading further digits never makes the number smaller, and never
/// mends a character that is no digit.
proof fn lemma_digits_value_grows(text: Seq<char>, k: int)
    requires
        0 <= k <= text.len(),
        digits_value(text.subrange(0, k)) is None || digits_value(text.subrange(0, k))->0
            > u64::MAX,
    ensures
        digits_value(text) is None || digits_value(text)->0 > u64::MAX,
    decreases text.len() - k,
{
    if k == text.len() {
        assert(text.subrange(0, k) =~= text);
    } else {
        let shorter = text.subrange(0, k);
        let longer = text.subrange(0, k + 1);
        assert(longer.drop_last() =~= shorter);
        lemma_digits_value_grows(text, k + 1);
    }
}

/// Position of the first space in `chars`, or the length of `chars` if it
/// holds none.
pub fn find_space(chars: &Vec<char>) -> (at: usize)
    ensures
        at == first_space(chars@),
        at <= chars@.len(),
{
    let mut at: usize = 0;
    assert(chars@.subrange(0, chars@.len() as int) =~= chars@);
    while at < chars.len() && chars[at] != ' '
        invariant
            at <= chars@.len(),
            first_space(chars@) == at + first_space(chars@.subrange(at as int, chars@.len() as int)),
        decreases chars@.len() - at,
    {
        let ghost rest = chars@.subrange(at as int, chars@.len() as int);
        assert(rest.subrange(1, rest.len() as int) =~= chars@.subrange(
            at + 1,
            chars@.len() as int,
        ));
        at = at + 1;
    }
    at
}

/// Whether `chars[..end]` is exactly the text of `s`.
pub fn is_text(chars: &Vec<char>, end: usize, s: &str) -> (same: bool)
    requires
        end <= chars@.len(),
    ensures
        same == (chars@.subrange(0, end as int) == s@),
{
    let word = chars_of(s);
    if word.len() != end {
        return false;
    }
    let mut i: usize = 0;
    while i < end
        invariant
            i <= end == word@.len(),
            end <= chars@.len(),
            word@ == s@,
            forall|j: int| 0 <= j < i ==> chars@[j] == word@[j],
        decreases end - i,
    {
        if chars[i] != word[i] {
            assert(chars@.subrange(0, end as int)[i as int] != s@[i as int]);
            return false;
        }
        i = i + 1;
    }
    assert(chars@.subrange(0, end as int) =~= word@);
    true
}

/// Whether `chars[..end]` starts with the text of `s`.
pub fn starts_with(chars: &Vec<char>, end: usize, s: &str) -> (starts: bool)
    requires
        end <= chars@.len(),
    ensures
        starts == s@.is_prefix_of(chars@.subrange(0, end as int)),
{
    let word = chars_of(s);
    if word.len() > end {
        return false;
    }
    let mut i: usize = 0;
    while i < word.len()
        invariant
            i <= word@.len() <= end <= chars@.len(),
            word@ == s@,
            forall|j: int| 0 <= j < i ==> chars@[j] == word@[j],
        decreases word@.len() - i,
    {
        if chars[i] != word[i] {
            assert(chars@.subrange(0, end as int).subrange(0, s@.len() as int)[i as int]
                != s@[i as int]);
            return false;
        }
        i = i + 1;
    }
    assert(word@ =~= chars@.subrange(0, end as int).subrange(0, word@.len() as int));
    true
}

} // verus!
