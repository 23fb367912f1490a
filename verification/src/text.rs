use vstd::prelude::*;

verus! {

/// The characters of `s`, in order.
pub fn chars_of(s: &str) -> (out: Vec<char>)
    ensures
        out@ == s@,
{
    let mut out: Vec<char> = Vec::new();
    for ch in it: s.chars()
        invariant
            out@ == it.seq().take(it.index() as int),
            it.seq() == s@,
    {
        out.push(ch);
        proof {
            assert(it.seq().take(it.index() as int + 1) =~= out@);
        }
    }
    assert(out@ =~= s@);
    out
}

/// Whether two character sequences are equal.
pub fn chars_equal(a: &Vec<char>, b: &Vec<char>) -> (equal: bool)
    ensures
        equal == (a@ == b@),
{
    if a.len() != b.len() {
        return false;
    }
    let mut i: usize = 0;
    while i < a.len()
        invariant
            a.len() == b.len(),
            i <= a.len(),
            forall|j: int| 0 <= j < i ==> a@[j] == b@[j],
        decreases a.len() - i,
    {
        if a[i] != b[i] {
            return false;
        }
        i += 1;
    }
    assert(a@ =~= b@);
    true
}

/// Unicode `White_Space`, as `char::is_whitespace` documents it.
pub open spec fn is_white_space(c: char) -> bool {
    ||| ('\u{9}' <= c && c <= '\u{d}')
    ||| c == ' '
    ||| c == '\u{85}'
    ||| c == '\u{a0}'
    ||| c == '\u{1680}'
    ||| ('\u{2000}' <= c && c <= '\u{200a}')
    ||| c == '\u{2028}'
    ||| c == '\u{2029}'
    ||| c == '\u{202f}'
    ||| c == '\u{205f}'
    ||| c == '\u{3000}'
}

/// Whether `c` is Unicode white space.
pub fn is_whitespace(c: char) -> (white: bool)
    ensures
        white == is_white_space(c),
{
    ('\u{9}' <= c && c <= '\u{d}') || c == ' ' || c == '\u{85}' || c == '\u{a0}' || c == '\u{1680}'
        || ('\u{2000}' <= c && c <= '\u{200a}') || c == '\u{2028}' || c == '\u{2029}' || c == '\u{202f}'
        || c == '\u{205f}' || c == '\u{3000}'
}

/// Whether `text` is empty or white space only (what `trim().is_empty()` tests).
pub open spec fn is_blank(text: Seq<char>) -> bool {
    forall|i: int| 0 <= i < text.len() ==> is_white_space(#[trigger] text[i])
}

/// Whether `text` is empty or white space only.
pub fn blank(text: &str) -> (result: bool)
    ensures
        result == is_blank(text@),
{
    let chars = chars_of(text);
    let mut i: usize = 0;
    while i < chars.len()
        invariant
            chars@ == text@,
            i <= chars.len(),
            forall|j: int| 0 <= j < i ==> is_white_space(#[trigger] text@[j]),
        decreases chars.len() - i,
    {
        if !is_whitespace(chars[i]) {
            return false;
        }
        i += 1;
    }
    true
}

/// The characters trimming removes: white space when `target` is `None`,
/// else the character `target`.
pub open spec fn strippable(c: char, target: Option<char>) -> bool {
    match target {
        None => is_white_space(c),
        Some(t) => c == t,
    }
}

/// `s` without its leading strippable characters.
pub open spec fn trim_start_of(s: Seq<char>, target: Option<char>) -> Seq<char>
    decreases s.len(),
{
    if s.len() > 0 && strippable(s[0], target) {
        trim_start_of(s.drop_first(), target)
    } else {
        s
    }
}

/// `s` without its trailing strippable characters.
pub open spec fn trim_end_of(s: Seq<char>, target: Option<char>) -> Seq<char>
    decreases s.len(),
{
    if s.len() > 0 && strippable(s.last(), target) {
        trim_end_of(s.drop_last(), target)
    } else {
        s
    }
}

/// `s` trimmed at both ends, as `str::trim` (white space) and
/// `str::trim_matches` (a character) trim.
pub open spec fn trimmed(s: Seq<char>, target: Option<char>) -> Seq<char> {
    trim_end_of(trim_start_of(s, target), target)
}

proof fn lemma_trim_start(s: Seq<char>, target: Option<char>, k: int, i: int)
    requires
        0 <= k <= i <= s.len(),
        forall|j: int| k <= j < i ==> strippable(#[trigger] s[j], target),
        i == s.len() || !strippable(s[i], target),
    ensures
        trim_start_of(s.subrange(k, s.len() as int), target) == s.subrange(i, s.len() as int),
    decreases i - k,
{
    if k < i {
        assert(s.subrange(k, s.len() as int).drop_first() =~= s.subrange(k + 1, s.len() as int));
        lemma_trim_start(s, target, k + 1, i);
    }
}

proof fn lemma_trim_end(s: Seq<char>, target: Option<char>, j: int, e: int)
    requires
        0 <= j <= e <= s.len(),
        forall|m: int| j <= m < e ==> strippable(#[trigger] s[m], target),
        j == 0 || !strippable(s[j - 1], target),
    ensures
        trim_end_of(s.subrange(0, e), target) == s.subrange(0, j),
    decreases e - j,
{
    if j < e {
        assert(s.subrange(0, e).drop_last() =~= s.subrange(0, e - 1));
        lemma_trim_end(s, target, j, e - 1);
    }
}

/// A trimmed run that is not empty starts and ends with characters
/// trimming keeps.
pub proof fn lemma_trimmed_ends(s: Seq<char>, target: Option<char>)
    ensures
        trimmed(s, target).len() > 0 ==> !strippable(trimmed(s, target)[0], target) && !strippable(
            trimmed(s, target).last(),
            target,
        ),
{
    lemma_trim_start_keeps(s, target);
    lemma_trim_end_prefix(trim_start_of(s, target), target);
}

proof fn lemma_trim_start_keeps(s: Seq<char>, target: Option<char>)
    ensures
        trim_start_of(s, target).len() > 0 ==> !strippable(trim_start_of(s, target)[0], target),
    decreases s.len(),
{
    if s.len() > 0 && strippable(s[0], target) {
        lemma_trim_start_keeps(s.drop_first(), target);
    }
}

proof fn lemma_trim_end_prefix(t: Seq<char>, target: Option<char>)
    ensures
        trim_end_of(t, target) =~= t.subrange(0, trim_end_of(t, target).len() as int),
        trim_end_of(t, target).len() <= t.len(),
        trim_end_of(t, target).len() > 0 ==> !strippable(trim_end_of(t, target).last(), target),
    decreases t.len(),
{
    if t.len() > 0 && strippable(t.last(), target) {
        lemma_trim_end_prefix(t.drop_last(), target);
    }
}

/// The characters of `chars` from `start` to `end`.
pub fn chars_between(chars: &Vec<char>, start: usize, end: usize) -> (out: Vec<char>)
    requires
        start <= end <= chars.len(),
    ensures
        out@ == chars@.subrange(start as int, end as int),
{
    let mut out: Vec<char> = Vec::new();
    let mut i: usize = start;
    while i < end
        invariant
            start <= i <= end <= chars.len(),
            out@ == chars@.subrange(start as int, i as int),
        decreases end - i,
    {
        out.push(chars[i]);
        i += 1;
        assert(out@ =~= chars@.subrange(start as int, i as int));
    }
    out
}

fn strips(c: char, target: Option<char>) -> (strip: bool)
    ensures
        strip == strippable(c, target),
{
    match target {
        None => is_whitespace(c),
        Some(t) => c == t,
    }
}

/// Trims `chars` at both ends: white space when `target` is `None`, else
/// the character `target`.
pub fn trim_chars(chars: &Vec<char>, target: Option<char>) -> (out: Vec<char>)
    ensures
        out@ == trimmed(chars@, target),
{
    let mut start: usize = 0;
    while start < chars.len() && strips(chars[start], target)
        invariant
            start <= chars.len(),
            forall|j: int| 0 <= j < start ==> strippable(#[trigger] chars@[j], target),
        decreases chars.len() - start,
    {
        start += 1;
    }
    let mut end: usize = chars.len();
    while end > start && strips(chars[end - 1], target)
        invariant
            start <= end <= chars.len(),
            forall|m: int| end <= m < chars.len() ==> strippable(#[trigger] chars@[m], target),
        decreases end - start,
    {
        end -= 1;
    }
    proof {
        let s = chars@;
        lemma_trim_start(s, target, 0, start as int);
        assert(s.subrange(0, s.len() as int) =~= s);
        let rest = s.subrange(start as int, s.len() as int);
        assert forall|m: int| end - start <= m < rest.len() implies strippable(#[trigger] rest[m], target) by {
            assert(rest[m] == s[start + m]);
        }
        if end > start {
            assert(rest[end - start - 1] == s[end - 1]);
        }
        lemma_trim_end(rest, target, end - start, rest.len() as int);
        assert(rest.subrange(0, rest.len() as int) =~= rest);
        assert(rest.subrange(0, end - start) =~= s.subrange(start as int, end as int));
    }
    chars_between(chars, start, end)
}

/// Trims the trailing characters `target` from `chars`, as
/// `str::trim_end_matches` does.
pub fn trim_end_chars(chars: &Vec<char>, target: char) -> (out: Vec<char>)
    ensures
        out@ == trim_end_of(chars@, Some(target)),
{
    let mut end: usize = chars.len();
    while end > 0 && chars[end - 1] == target
        invariant
            end <= chars.len(),
            forall|m: int| end <= m < chars.len() ==> strippable(#[trigger] chars@[m], Some(target)),
        decreases end,
    {
        end -= 1;
    }
    proof {
        let s = chars@;
        lemma_trim_end(s, Some(target), end as int, s.len() as int);
        assert(s.subrange(0, s.len() as int) =~= s);
    }
    chars_between(chars, 0, end)
}

/// A `String` holding exactly the characters of `chars`.
#[verifier::external_body]
pub fn string_from_chars(chars: &Vec<char>) -> (text: String)
    ensures
        text@ == chars@,
{
    chars.iter().collect()
}

/// Value of a digit character.
pub open spec fn digit_value(c: char) -> nat {
    (c as nat - '0' as nat) as nat
}

pub open spec fn is_ascii_digit(c: char) -> bool {
    '0' <= c && c <= '9'
}

/// Value of a run of decimal digits, most significant first.
pub open spec fn digits_value(digits: Seq<char>) -> nat
    decreases digits.len(),
{
    if digits.len() == 0 {
        0
    } else {
        digits_value(digits.drop_last()) * 10 + digit_value(digits.last())
    }
}

/// The digits after an optional leading `+`.
pub open spec fn unsigned_digits(text: Seq<char>) -> Seq<char> {
    if text.len() > 0 && text[0] == '+' { text.drop_first() } else { text }
}

/// What `u32::from_str` accepts: an optional `+`, then at least one ASCII
/// digit, with a value that fits in 32 bits.
pub open spec fn spec_parse_u32(text: Seq<char>) -> Option<u32> {
    let digits = unsigned_digits(text);
    if digits.len() > 0 && (forall|i: int| 0 <= i < digits.len() ==> is_ascii_digit(#[trigger] digits[i]))
        && digits_value(digits) <= u32::MAX {
        Some(digits_value(digits) as u32)
    } else {
        None
    }
}

proof fn lemma_digits_value_grows(digits: Seq<char>, n: int)
    requires
        0 <= n <= digits.len(),
        forall|i: int| 0 <= i < digits.len() ==> is_ascii_digit(#[trigger] digits[i]),
    ensures
        digits_value(digits.take(n)) <= digits_value(digits),
    decreases digits.len() - n,
{
    if n < digits.len() {
        lemma_digits_value_grows(digits, n + 1);
        assert(digits.take(n + 1).drop_last() =~= digits.take(n));
    } else {
        assert(digits.take(n) =~= digits);
    }
}

/// Parses a decimal `u32` as `u32::from_str` does.
pub fn parse_u32(text: &Vec<char>) -> (value: Option<u32>)
    ensures
        value == spec_parse_u32(text@),
{
    let start: usize = if text.len() > 0 && text[0] == '+' { 1 } else { 0 };
    let ghost digits = unsigned_digits(text@);
    assert(digits =~= text@.subrange(start as int, text@.len() as int));
    if start >= text.len() {
        return None;
    }
    let mut total: u64 = 0;
    let mut i: usize = start;
    while i < text.len()
        invariant
            start <= i <= text.len(),
            start < text.len(),
            digits =~= text@.subrange(start as int, text@.len() as int),
            digits == unsigned_digits(text@),
            forall|j: int| 0 <= j < i - start ==> is_ascii_digit(#[trigger] digits[j]),
            total as nat == digits_value(digits.take(i - start)),
            total <= u32::MAX,
        decreases text.len() - i,
    {
        let c = text[i];
        assert(digits.take(i - start + 1).drop_last() =~= digits.take(i - start));
        assert(digits[i - start] == c);
        if !('0' <= c && c <= '9') {
            assert(!is_ascii_digit(digits[i - start]));
            return None;
        }
        let d = (c as u32 - '0' as u32) as u64;
        let next = total * 10 + d;
        if next > 0xFFFF_FFFF {
            proof {
                assert(digits.take(i - start + 1).last() == c);
                assert(next as nat == digits_value(digits.take(i - start + 1)));
                if forall|j: int| 0 <= j < digits.len() ==> is_ascii_digit(#[trigger] digits[j]) {
                    lemma_digits_value_grows(digits, i - start + 1);
                }
            }
            return None;
        }
        total = next;
        i += 1;
    }
    assert(digits.take(digits.len() as int) =~= digits);
    Some(total as u32)
}

/// The decimal digit character for `d < 10`.
pub open spec fn digit_char(d: nat) -> char {
    ((d + '0' as nat) as u32) as char
}

/// Decimal representation of `n`, without leading zeros.
pub open spec fn spec_decimal(n: nat) -> Seq<char>
    decreases n,
{
    if n < 10 {
        seq![digit_char(n)]
    } else {
        spec_decimal(n / 10).push(digit_char(n % 10))
    }
}

/// The decimal text of `n` is a non-empty run of ASCII digits, with no
/// leading `+`, whose value is `n`.
pub proof fn lemma_decimal_digits(n: nat)
    ensures
        spec_decimal(n).len() > 0,
        forall|i: int| 0 <= i < spec_decimal(n).len() ==> is_ascii_digit(#[trigger] spec_decimal(n)[i]),
        spec_decimal(n)[0] != '+',
        digits_value(spec_decimal(n)) == n,
        n <= u32::MAX ==> spec_parse_u32(spec_decimal(n)) == Some(n as u32),
    decreases n,
{
    let d = digit_char(n % 10);
    assert(digit_value(d) == n % 10 && is_ascii_digit(d));
    if n >= 10 {
        lemma_decimal_digits(n / 10);
        let s = spec_decimal(n / 10);
        assert(spec_decimal(n).drop_last() =~= s);
        assert(spec_decimal(n)[0] == s[0]);
    } else {
        assert(digits_value(spec_decimal(n).drop_last()) == 0);
    }
    let text = spec_decimal(n);
    assert(unsigned_digits(text) == text);
}

/// The decimal digits of `n`.
pub fn decimal_chars(n: u64) -> (digits: Vec<char>)
    ensures
        digits@ == spec_decimal(n as nat),
    decreases n,
{
    let last = char_of_digit(n % 10);
    if n < 10 {
        let mut digits: Vec<char> = Vec::new();
        digits.push(last);
        digits
    } else {
        let mut digits = decimal_chars(n / 10);
        digits.push(last);
        digits
    }
}

fn char_of_digit(d: u64) -> (c: char)
    requires
        d < 10,
    ensures
        c == digit_char(d as nat),
{
    match d {
        0 => '0',
        1 => '1',
        2 => '2',
        3 => '3',
        4 => '4',
        5 => '5',
        6 => '6',
        7 => '7',
        8 => '8',
        _ => '9',
    }
}

/// Appends the characters of `tail` to `chars`.
pub fn push_str(chars: &mut Vec<char>, tail: &str)
    ensures
        final(chars)@ == old(chars)@ + tail@,
{
    let more = chars_of(tail);
    let mut i: usize = 0;
    let ghost start = chars@;
    while i < more.len()
        invariant
            more@ == tail@,
            i <= more.len(),
            chars@ == start + more@.take(i as int),
        decreases more.len() - i,
    {
        chars.push(more[i]);
        i += 1;
        assert(chars@ =~= start + more@.take(i as int));
    }
    assert(more@.take(more.len() as int) =~= more@);
}

/// `prefix`, then `middle`, then `suffix`, as one string.
pub fn joined(prefix: &str, middle: &str, suffix: &str) -> (text: String)
    ensures
        text@ == prefix@ + middle@ + suffix@,
{
    let mut chars: Vec<char> = Vec::new();
    push_str(&mut chars, prefix);
    push_str(&mut chars, middle);
    push_str(&mut chars, suffix);
    string_from_chars(&chars)
}

/// `first` followed by `second`, as one string.
pub fn concat(first: &str, second: &str) -> (text: String)
    ensures
        text@ == first@ + second@,
{
    let mut chars: Vec<char> = Vec::new();
    push_str(&mut chars, first);
    push_str(&mut chars, second);
    assert(chars@ =~= first@ + second@);
    string_from_chars(&chars)
}

/// `prefix` followed by the decimal digits of `n`, as one string.
pub fn number_text(prefix: &str, n: u64) -> (text: String)
    ensures
        text@ == prefix@ + spec_decimal(n as nat),
{
    let mut chars: Vec<char> = Vec::new();
    push_str(&mut chars, prefix);
    let mut digits = decimal_chars(n);
    chars.append(&mut digits);
    assert(chars@ =~= prefix@ + spec_decimal(n as nat));
    string_from_chars(&chars)
}

/// `prefix`, the decimal digits of `n`, then `suffix`, as one string.
pub fn with_number(prefix: &str, n: u64, suffix: &str) -> (text: String)
    ensures
        text@ == prefix@ + spec_decimal(n as nat) + suffix@,
{
    let mut chars: Vec<char> = Vec::new();
    push_str(&mut chars, prefix);
    let mut digits = decimal_chars(n);
    chars.append(&mut digits);
    push_str(&mut chars, suffix);
    string_from_chars(&chars)
}

/// What `{:?}` writes for a string: the text in double quotes, with quotes,
/// backslashes and unprintable characters escaped.
pub uninterp spec fn debug_quoted(text: Seq<char>) -> Seq<char>;

/// The `Debug` rendering of `text` (`format!("{:?}", text)`), which depends on
/// the text alone.
#[verifier::external_body]
pub(crate) fn quoted(text: &str) -> (out: String)
    ensures
        out@ == debug_quoted(text@),
{
    format!("{:?}", text)
}

/// `count` followed by `tail`, as a string.
pub fn count_text(count: u8, tail: &str) -> (text: String)
    ensures
        text@ == spec_decimal(count as nat) + tail@,
{
    let mut chars = decimal_chars(count as u64);
    push_str(&mut chars, tail);
    string_from_chars(&chars)
}

} // verus!
