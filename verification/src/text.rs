//! Characters and texts: decimal numbers, words, white space and letter case.
use vstd::prelude::*;
use vstd::string::*;
use vstd::utf8::*;

verus! {

/// The decimal digit that stands for `d`.
pub open spec fn digit_char(d: nat) -> char {
    (48 + d) as char
}

/// `n` in decimal, without leading zeros.
pub open spec fn decimal(n: nat) -> Seq<char>
    decreases n,
{
    if n < 10 {
        seq![digit_char(n)]
    } else {
        decimal(n / 10).push(digit_char(n % 10))
    }
}

/// Whether `c` is one of `0` to `9`.
pub open spec fn is_digit(c: char) -> bool {
    '0' <= c <= '9'
}

/// Whether `s` is a nonempty run of digits.
pub open spec fn all_digits(s: Seq<char>) -> bool {
    &&& s.len() > 0
    &&& forall|i: int| 0 <= i < s.len() ==> is_digit(#[trigger] s[i])
}

/// The number that a run of digits writes in decimal.
pub open spec fn digits_value(s: Seq<char>) -> nat
    decreases s.len(),
{
    if s.len() == 0 {
        0
    } else {
        digits_value(s.drop_last()) * 10 + (s.last() as nat - 48) as nat
    }
}

/// `s` without a leading plus sign.
pub open spec fn without_plus(s: Seq<char>) -> Seq<char> {
    if s.len() > 0 && s[0] == '+' {
        s.drop_first()
    } else {
        s
    }
}

/// The unsigned number that `s` writes: an optional plus sign, then digits and nothing else.
pub open spec fn unsigned_number(s: Seq<char>) -> Option<nat> {
    if all_digits(without_plus(s)) {
        Some(digits_value(without_plus(s)))
    } else {
        None
    }
}

/// The pieces of `s` between the occurrences of `separator`, of which there is always one more
/// than there are occurrences.
pub open spec fn split_on(s: Seq<char>, separator: char) -> Seq<Seq<char>>
    decreases s.len(),
{
    if s.len() == 0 {
        seq![Seq::<char>::empty()]
    } else {
        let before = split_on(s.drop_last(), separator);
        if s.last() == separator {
            before.push(Seq::empty())
        } else {
            before.drop_last().push(before.last().push(s.last()))
        }
    }
}

/// Whether `c` has the Unicode property `White_Space`.
pub open spec fn white_space(c: char) -> bool {
    ||| '\u{9}' <= c <= '\u{d}'
    ||| c == '\u{20}'
    ||| c == '\u{85}'
    ||| c == '\u{a0}'
    ||| c == '\u{1680}'
    ||| '\u{2000}' <= c <= '\u{200a}'
    ||| c == '\u{2028}'
    ||| c == '\u{2029}'
    ||| c == '\u{202f}'
    ||| c == '\u{205f}'
    ||| c == '\u{3000}'
}

/// `s` without the white space it starts with.
pub open spec fn trim_start(s: Seq<char>) -> Seq<char>
    decreases s.len(),
{
    if s.len() > 0 && white_space(s[0]) {
        trim_start(s.drop_first())
    } else {
        s
    }
}

/// `s` without the white space it ends with.
pub open spec fn trim_end(s: Seq<char>) -> Seq<char>
    decreases s.len(),
{
    if s.len() > 0 && white_space(s.last()) {
        trim_end(s.drop_last())
    } else {
        s
    }
}

/// `s` without the white space at either end.
pub open spec fn trim(s: Seq<char>) -> Seq<char> {
    trim_end(trim_start(s))
}

/// `c` with an ASCII capital letter made small.
pub open spec fn ascii_lower(c: char) -> char {
    if 'A' <= c <= 'Z' {
        (c as int + 32) as char
    } else {
        c
    }
}

/// `s` with its ASCII capital letters made small.
pub open spec fn lowercase(s: Seq<char>) -> Seq<char> {
    Seq::new(s.len(), |i: int| ascii_lower(s[i]))
}

/// Whether `left` and `right` hold the same characters.
pub fn same_text(left: &str, right: &str) -> (same: bool)
    ensures
        same == (left@ == right@),
{
    let a = left.as_bytes();
    let b = right.as_bytes();
    if a.len() != b.len() {
        return false;
    }
    let mut i: usize = 0;
    while i < a.len()
        invariant
            i <= a.len(),
            a@ == left.spec_bytes(),
            b@ == right.spec_bytes(),
            a.len() == b.len(),
            a@.take(i as int) == b@.take(i as int),
        decreases a.len() - i,
    {
        if a[i] != b[i] {
            return false;
        }
        assert(a@.take(i + 1) == a@.take(i as int).push(a@[i as int]));
        assert(b@.take(i + 1) == b@.take(i as int).push(b@[i as int]));
        i = i + 1;
    }
    proof {
        assert(a@.take(i as int) == a@);
        assert(b@.take(i as int) == b@);
        encode_utf8_decode_utf8(left@);
        encode_utf8_decode_utf8(right@);
    }
    true
}

/// The characters of `s`, one by one.
pub fn characters(s: &str) -> (chars: Vec<char>)
    ensures
        chars@ == s@,
{
    let mut chars: Vec<char> = Vec::new();
    for c in it: s.chars()
        invariant
            it.seq() == s@,
            chars@ == s@.take(it.index() as int),
    {
        chars.push(c);
    }
    chars
}

/// The digit `d` as a text of one character.
fn digit_text(d: usize) -> (text: &'static str)
    requires
        d < 10,
    ensures
        text@ == seq![digit_char(d as nat)],
{
    proof {
        reveal_strlit("0");
        reveal_strlit("1");
        reveal_strlit("2");
        reveal_strlit("3");
        reveal_strlit("4");
        reveal_strlit("5");
        reveal_strlit("6");
        reveal_strlit("7");
        reveal_strlit("8");
        reveal_strlit("9");
    }
    match d {
        0 => "0",
        1 => "1",
        2 => "2",
        3 => "3",
        4 => "4",
        5 => "5",
        6 => "6",
        7 => "7",
        8 => "8",
        _ => "9",
    }
}

/// Writes `n` in decimal at the end of `out`.
pub fn push_decimal(out: &mut String, n: usize)
    ensures
        final(out)@ == old(out)@ + decimal(n as nat),
    decreases n,
{
    if n >= 10 {
        push_decimal(out, n / 10);
    }
    out.append(digit_text(n % 10));
}

/// The number that `s` writes, if it writes one that a `usize` can hold.
pub fn parse_usize(s: &Vec<char>) -> (number: Option<usize>)
    ensures
        match number {
            Some(n) => unsigned_number(s@) == Some(n as nat),
            None => match unsigned_number(s@) {
                Some(n) => n > usize::MAX,
                None => true,
            },
        },
{
    let start: usize = if s.len() > 0 && s[0] == '+' {
        1
    } else {
        0
    };
    let ghost body = without_plus(s@);
    assert(body == s@.skip(start as int));
    if start == s.len() {
        return None;
    }
    let mut n: usize = 0;
    let mut i: usize = start;
    while i < s.len()
        invariant
            start <= i <= s.len(),
            body == without_plus(s@),
            body == s@.skip(start as int),
            forall|k: int| 0 <= k < i - start ==> is_digit(#[trigger] body[k]),
            n == digits_value(body.take(i - start)),
        decreases s.len() - i,
    {
        let c = s[i];
        if !('0' <= c && c <= '9') {
            assert(!is_digit(body[i - start]));
            return None;
        }
        let digit: usize = (c as u32 - 48) as usize;
        proof {
            let next = body.take(i - start + 1);
            assert(next.drop_last() == body.take(i - start));
            assert(next.last() == c);
            assert(digits_value(next) == n * 10 + digit);
        }
        let tenfold = n.checked_mul(10);
        let sum = match tenfold {
            Some(t) => t.checked_add(digit),
            None => None,
        };
        match sum {
            Some(v) => {
                n = v;
            },
            None => {
                proof {
                    if all_digits(body) {
                        lemma_prefix_value(body, i - start + 1);
                    }
                }
                return None;
            },
        }
        i = i + 1;
    }
    assert(body.take(i - start) == body);
    Some(n)
}

/// The texts that a vector of character vectors holds.
pub open spec fn texts(words: Seq<Vec<char>>) -> Seq<Seq<char>> {
    words.map_values(|word: Vec<char>| word@)
}

/// The pieces of `s` between the occurrences of `separator`.
pub fn split(s: &Vec<char>, separator: char) -> (words: Vec<Vec<char>>)
    ensures
        texts(words@) == split_on(s@, separator),
{
    let mut words: Vec<Vec<char>> = Vec::new();
    let mut word: Vec<char> = Vec::new();
    let mut i: usize = 0;
    while i < s.len()
        invariant
            i <= s.len(),
            texts(words@).push(word@) == split_on(s@.take(i as int), separator),
        decreases s.len() - i,
    {
        let c = s[i];
        let ghost before = texts(words@).push(word@);
        assert(s@.take(i + 1).drop_last() == s@.take(i as int));
        if c == separator {
            words.push(word);
            word = Vec::new();
            assert(texts(words@) == before);
        } else {
            word.push(c);
            assert(before.drop_last() == texts(words@));
        }
        i = i + 1;
    }
    assert(s@.take(i as int) == s@);
    words.push(word);
    words
}

/// Whether `c` has the Unicode property `White_Space`.
pub fn is_white_space(c: char) -> (yes: bool)
    ensures
        yes == white_space(c),
{
    ('\u{9}' <= c && c <= '\u{d}') || c == '\u{20}' || c == '\u{85}' || c == '\u{a0}'
        || c == '\u{1680}' || ('\u{2000}' <= c && c <= '\u{200a}') || c == '\u{2028}'
        || c == '\u{2029}' || c == '\u{202f}' || c == '\u{205f}' || c == '\u{3000}'
}

/// `s` without the white space at either end.
pub fn trimmed(s: &Vec<char>) -> (inner: Vec<char>)
    ensures
        inner@ == trim(s@),
{
    let mut start: usize = 0;
    assert(s@.skip(0) == s@);
    while start < s.len() && is_white_space(s[start])
        invariant
            start <= s.len(),
            trim_start(s@) == trim_start(s@.skip(start as int)),
        decreases s.len() - start,
    {
        assert(s@.skip(start as int).drop_first() == s@.skip(start + 1));
        start = start + 1;
    }
    let ghost inner = s@.skip(start as int);
    assert(trim_start(s@) == inner);
    let mut end: usize = s.len();
    assert(inner == s@.subrange(start as int, end as int));
    while start < end && is_white_space(s[end - 1])
        invariant
            start <= end <= s.len(),
            trim(s@) == trim_end(s@.subrange(start as int, end as int)),
        decreases end,
    {
        assert(s@.subrange(start as int, end as int).drop_last() == s@.subrange(
            start as int,
            end - 1,
        ));
        end = end - 1;
    }
    let mut out: Vec<char> = Vec::new();
    let mut i: usize = start;
    while i < end
        invariant
            start <= i <= end <= s.len(),
            out@ == s@.subrange(start as int, i as int),
        decreases end - i,
    {
        out.push(s[i]);
        i = i + 1;
    }
    out
}

/// Whether `c`, made small if it is an ASCII capital letter, is `small`.
fn lowers_to(c: char, small: char) -> (yes: bool)
    ensures
        yes == (ascii_lower(c) == small),
{
    let code: u32 = c as u32;
    if 65 <= code && code <= 90 {
        code + 32 == small as u32
    } else {
        c == small
    }
}

/// Whether `s`, with its ASCII capital letters made small, is the text `small`.
pub fn is_in_any_case(s: &Vec<char>, small: &str) -> (yes: bool)
    ensures
        yes == (lowercase(s@) == small@),
{
    let wanted = characters(small);
    if s.len() != wanted.len() {
        return false;
    }
    let mut i: usize = 0;
    while i < s.len()
        invariant
            i <= s.len(),
            s.len() == wanted.len(),
            wanted@ == small@,
            forall|k: int| 0 <= k < i ==> ascii_lower(#[trigger] s@[k]) == wanted@[k],
        decreases s.len() - i,
    {
        if !lowers_to(s[i], wanted[i]) {
            assert(lowercase(s@)[i as int] != wanted@[i as int]);
            return false;
        }
        i = i + 1;
    }
    assert(lowercase(s@) == small@);
    true
}

/// Reading a number back from its decimal text gives the number.
pub proof fn law_decimal_reads_back(n: nat)
    ensures
        unsigned_number(decimal(n)) == Some(n),
{
    lemma_decimal(n);
}

/// The decimal text of `n` is a run of digits with the value `n`.
pub(crate) proof fn lemma_decimal(n: nat)
    ensures
        all_digits(decimal(n)),
        digits_value(decimal(n)) == n,
        without_plus(decimal(n)) == decimal(n),
    decreases n,
{
    reveal_with_fuel(digits_value, 2);
    if n >= 10 {
        lemma_decimal(n / 10);
        assert(decimal(n).drop_last() == decimal(n / 10));
        assert(decimal(n)[0] == decimal(n / 10)[0]);
    }
    assert(is_digit(decimal(n)[0]));
}

/// A text without the separator is a single piece.
pub(crate) proof fn lemma_split_single(s: Seq<char>, separator: char)
    requires
        !s.contains(separator),
    ensures
        split_on(s, separator) == seq![s],
    decreases s.len(),
{
    if s.len() == 0 {
        assert(s == Seq::<char>::empty());
    } else {
        assert forall|i: int| 0 <= i < s.drop_last().len() implies s.drop_last()[i] != separator by {
            assert(s.drop_last()[i] == s[i]);
        }
        lemma_split_single(s.drop_last(), separator);
        assert(s[s.len() - 1] != separator);
        assert(s.drop_last().push(s.last()) == s);
        assert(split_on(s, separator) == seq![s]);
    }
}

/// Two texts without the separator, put on either side of one separator, are two pieces.
pub(crate) proof fn lemma_split_pair(a: Seq<char>, b: Seq<char>, separator: char)
    requires
        !a.contains(separator),
        !b.contains(separator),
    ensures
        split_on(a.push(separator) + b, separator) == seq![a, b],
    decreases b.len(),
{
    let s = a.push(separator) + b;
    if b.len() == 0 {
        lemma_split_single(a, separator);
        assert(s == a.push(separator));
        assert(s.drop_last() == a);
        assert(b == Seq::<char>::empty());
        assert(split_on(s, separator) == seq![a, b]);
    } else {
        assert forall|i: int| 0 <= i < b.drop_last().len() implies b.drop_last()[i] != separator by {
            assert(b.drop_last()[i] == b[i]);
        }
        lemma_split_pair(a, b.drop_last(), separator);
        assert(s.drop_last() == a.push(separator) + b.drop_last());
        assert(b[b.len() - 1] != separator);
        assert(b.drop_last().push(b.last()) == b);
        assert(split_on(s, separator) == seq![a, b]);
    }
}

/// A number is at least the number that its first `k` digits write.
proof fn lemma_prefix_value(s: Seq<char>, k: int)
    requires
        all_digits(s),
        0 <= k <= s.len(),
    ensures
        digits_value(s.take(k)) <= digits_value(s),
    decreases s.len() - k,
{
    if k == s.len() {
        assert(s.take(k) == s);
    } else {
        lemma_prefix_value(s, k + 1);
        assert(s.take(k + 1).drop_last() == s.take(k));
        assert(is_digit(s[k]));
    }
}

} // verus!
