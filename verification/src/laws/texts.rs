//! How texts are taken apart and numbers written.
use crate::text::{
    all_digits, characters, decimal, digits_value, is_digit, is_in_any_case, is_white_space,
    lemma_decimal, lowercase, parse_usize, push_decimal, same_text, split, split_on, texts, trim,
    trim_end, trim_start, trimmed, white_space, without_plus,
};
use vstd::prelude::*;

verus! {

/// A number is written by writing its tenth and then its last digit, behind what was there. One
/// below ten is its digit alone.
pub proof fn law_numbers_are_written_by_digits(a: &mut String, b: &mut String, n: usize)
    requires
        old(a)@ == old(b)@,
        call_ensures(push_decimal, (a, n), ()),
        call_ensures(push_decimal, (b, n / 10), ()),
    ensures
        n < 10 ==> final(a)@ == old(a)@.push((48 + n) as char),
        n >= 10 ==> final(a)@ == final(b)@.push((48 + n % 10) as char),
{
}

/// One digit more in the decimal text of a number is ten times the number and the digit more. No
/// number but zero starts with a zero, and none is written without a digit or with anything else.
pub proof fn law_decimal_goes_by_digits(n: nat, d: nat)
    requires
        d < 10,
    ensures
        n > 0 ==> decimal(10 * n + d) == decimal(n).push((48 + d) as char),
        decimal(d) == seq![(48 + d) as char],
        n > 0 ==> decimal(n)[0] != '0',
        decimal(n).len() > 0,
        forall|i: int| 0 <= i < decimal(n).len() ==> '0' <= #[trigger] decimal(n)[i] <= '9',
{
    lemma_decimal(n);
    if n > 0 {
        assert((10 * n + d) / 10 == n && (10 * n + d) % 10 == d);
        lemma_no_leading_zero(n);
    }
    assert forall|i: int| 0 <= i < decimal(n).len() implies '0' <= #[trigger] decimal(n)[i] <= '9' by {
        assert(is_digit(decimal(n)[i]));
    }
}

proof fn lemma_no_leading_zero(n: nat)
    requires
        n > 0,
    ensures
        decimal(n).len() > 0,
        decimal(n)[0] != '0',
    decreases n,
{
    if n >= 10 {
        lemma_no_leading_zero(n / 10);
    }
}

/// A number that was written reads back.
pub proof fn law_written_numbers_read_back(
    out: &mut String,
    n: usize,
    written: &Vec<char>,
    read: Option<usize>,
)
    requires
        old(out)@.len() == 0,
        call_ensures(push_decimal, (out, n), ()),
        final(out)@ == written@,
        call_ensures(parse_usize, (written,), read),
    ensures
        read == Some(n),
{
    assert(final(out)@ == decimal(n as nat));
    lemma_decimal(n as nat);
}

/// One digit more makes a number ten times as large and the digit more, unless no `usize` holds
/// that. Anything else than a digit makes it no number, and what is no number stays none, unless it
/// is empty or a plus sign.
pub proof fn law_numbers_are_read_by_digits(
    s: &Vec<char>,
    longer: &Vec<char>,
    c: char,
    number: Option<usize>,
    next: Option<usize>,
)
    requires
        longer@ == s@.push(c),
        call_ensures(parse_usize, (s,), number),
        call_ensures(parse_usize, (longer,), next),
    ensures
        s@.len() == 0 ==> number is None,
        s@ == seq!['+'] ==> number is None,
        !('0' <= c <= '9') ==> next is None,
        s@.len() == 0 || s@ == seq!['+'] ==> ('0' <= c <= '9' ==> next == Some(
            (c as int - 48) as usize,
        )),
        s@.len() > 0 && s@ != seq!['+'] && '0' <= c <= '9' ==> next == (match number {
            Some(n) => if 10 * n + (c as int - 48) <= usize::MAX {
                Some((10 * n + (c as int - 48)) as usize)
            } else {
                None
            },
            None => None,
        }),
{
    let body = without_plus(s@);
    let next_body = without_plus(longer@);
    assert(is_digit(c) <==> '0' <= c <= '9');
    if s@.len() == 0 {
        assert(s@ == Seq::<char>::empty());
        assert(longer@ == seq![c]);
        if '0' <= c <= '9' {
            assert(next_body == seq![c]);
            assert(next_body.drop_last() == Seq::<char>::empty());
            assert(digits_value(next_body.drop_last()) == 0);
            assert(digits_value(next_body) == (c as int - 48));
        } else if c == '+' {
            assert(next_body == Seq::<char>::empty());
        } else {
            assert(next_body == seq![c]);
            assert(!is_digit(next_body[0]));
        }
    } else {
        assert(next_body == body.push(c));
        assert(next_body.drop_last() == body);
        assert(digits_value(next_body) == digits_value(body) * 10 + (c as nat - 48) as nat);
        assert(next_body[body.len() as int] == c);
        if body.len() == 0 {
            assert(s@ == seq!['+']);
            assert(digits_value(body) == 0);
        } else {
            assert(s@ != seq!['+']) by {
                if s@ == seq!['+'] {
                    assert(body == Seq::<char>::empty());
                }
            }
            if all_digits(next_body) {
                assert forall|i: int| 0 <= i < body.len() implies is_digit(
                    #[trigger] body[i],
                ) by {
                    assert(next_body[i] == body[i]);
                }
            }
            if all_digits(body) && is_digit(c) {
                assert forall|i: int| 0 <= i < next_body.len() implies is_digit(
                    #[trigger] next_body[i],
                ) by {
                    if i < body.len() {
                        assert(next_body[i] == body[i]);
                    }
                }
            }
        }
    }
}

/// One character more goes to the last piece, unless it is the separator, which starts another. A
/// text without characters is one empty piece.
pub proof fn law_pieces_end_at_separators(
    s: &Vec<char>,
    longer: &Vec<char>,
    c: char,
    separator: char,
    words: Vec<Vec<char>>,
    more: Vec<Vec<char>>,
)
    requires
        longer@ == s@.push(c),
        call_ensures(split, (s, separator), words),
        call_ensures(split, (longer, separator), more),
    ensures
        words@.len() > 0,
        s@.len() == 0 ==> words@.len() == 1 && words@[0]@.len() == 0,
        c == separator ==> {
            &&& more@.len() == words@.len() + 1
            &&& more@.last()@.len() == 0
            &&& forall|i: int| 0 <= i < words@.len() ==> (#[trigger] more@[i])@ == words@[i]@
        },
        c != separator ==> {
            &&& more@.len() == words@.len()
            &&& more@.last()@ == words@.last()@.push(c)
            &&& forall|i: int| 0 <= i < words@.len() - 1 ==> (#[trigger] more@[i])@ == words@[i]@
        },
{
    lemma_split_nonempty(s@, separator);
    lemma_split_nonempty(longer@, separator);
    assert(longer@.drop_last() == s@);
    assert(texts(words@).len() == words@.len());
    assert(texts(more@).len() == more@.len());
    assert forall|i: int| 0 <= i < words@.len() implies #[trigger] texts(words@)[i] == words@[i]@ by {}
    assert forall|i: int| 0 <= i < more@.len() implies #[trigger] texts(more@)[i] == more@[i]@ by {}
    let before = texts(words@);
    let after = texts(more@);
    assert(after == split_on(longer@, separator));
    if c == separator {
        assert(after == before.push(Seq::empty()));
        assert(after[words@.len() as int] == more@.last()@);
        assert forall|i: int| 0 <= i < words@.len() implies (#[trigger] more@[i])@ == words@[i]@ by {
            assert(after[i] == before[i]);
        }
    } else {
        assert(after == before.drop_last().push(before.last().push(c)));
        assert(after[words@.len() - 1] == more@.last()@);
        assert(before[words@.len() - 1] == words@.last()@);
        assert forall|i: int| 0 <= i < words@.len() - 1 implies (#[trigger] more@[i])@ == words@[i]@ by {
            assert(after[i] == before[i]);
        }
    }
    if s@.len() == 0 {
        assert(before == seq![Seq::<char>::empty()]);
        assert(before[0] == words@[0]@);
    }
}

pub(crate) proof fn lemma_split_nonempty(s: Seq<char>, separator: char)
    ensures
        split_on(s, separator).len() > 0,
    decreases s.len(),
{
    if s.len() > 0 {
        lemma_split_nonempty(s.drop_last(), separator);
    }
}

/// Where there are separators there are at least so many pieces and one.
pub(crate) proof fn lemma_split_many(s: Seq<char>, separator: char, i: int, j: int)
    requires
        0 <= i < j < s.len(),
        s[i] == separator,
        s[j] == separator,
    ensures
        split_on(s, separator).len() >= 3,
    decreases s.len(),
{
    let t = s.drop_last();
    lemma_split_nonempty(t, separator);
    if j < t.len() {
        assert(t[i] == s[i] && t[j] == s[j]);
        lemma_split_many(t, separator, i, j);
    } else {
        assert(t[i] == s[i]);
        lemma_split_some(t, separator, i);
    }
}

proof fn lemma_split_some(s: Seq<char>, separator: char, i: int)
    requires
        0 <= i < s.len(),
        s[i] == separator,
    ensures
        split_on(s, separator).len() >= 2,
    decreases s.len(),
{
    let t = s.drop_last();
    lemma_split_nonempty(t, separator);
    if i < t.len() {
        assert(t[i] == s[i]);
        lemma_split_some(t, separator, i);
    }
}

/// White space at either end is trimmed off, as often as there is some, and nothing else is.
pub proof fn law_white_space_is_trimmed(
    s: &Vec<char>,
    spaced: &Vec<char>,
    c: char,
    inner: Vec<char>,
    inner_of_spaced: Vec<char>,
)
    requires
        call_ensures(is_white_space, (c,), true),
        spaced@ == s@.push(c) || spaced@ == seq![c] + s@,
        call_ensures(trimmed, (s,), inner),
        call_ensures(trimmed, (spaced,), inner_of_spaced),
    ensures
        inner_of_spaced@ == inner@,
{
    if spaced@ == seq![c] + s@ {
        assert(spaced@.drop_first() == s@);
        assert(spaced@[0] == c);
    } else {
        lemma_trim_push(s@, c);
    }
}

proof fn lemma_trim_push(s: Seq<char>, c: char)
    requires
        white_space(c),
    ensures
        trim(s.push(c)) == trim(s),
    decreases s.len(),
{
    let t = s.push(c);
    if s.len() == 0 {
        assert(t.drop_first() == s);
        assert(trim_start(t) == trim_start(s));
    } else if white_space(s[0]) {
        lemma_trim_push(s.drop_first(), c);
        assert(t.drop_first() == s.drop_first().push(c));
    } else {
        assert(trim_start(t) == t);
        assert(trim_start(s) == s);
        assert(t.drop_last() == s);
        assert(trim_end(t) == trim_end(s));
    }
}

/// A text that is empty, or that neither starts nor ends with white space, is trimmed of nothing.
pub proof fn law_nothing_else_is_trimmed(s: &Vec<char>, inner: Vec<char>)
    requires
        call_ensures(trimmed, (s,), inner),
        s@.len() > 0 ==> {
            &&& call_ensures(is_white_space, (s@[0],), false)
            &&& call_ensures(is_white_space, (s@.last(),), false)
        },
    ensures
        inner@ == s@,
{
    assert(trim_start(s@) == s@);
}

/// White space is what Unicode calls so.
pub proof fn law_white_space(c: char, yes: bool)
    requires
        call_ensures(is_white_space, (c,), yes),
    ensures
        yes == ({
            let code = c as int;
            ||| 9 <= code <= 13
            ||| code == 32
            ||| code == 0x85
            ||| code == 0xa0
            ||| code == 0x1680
            ||| 0x2000 <= code <= 0x200a
            ||| code == 0x2028
            ||| code == 0x2029
            ||| code == 0x202f
            ||| code == 0x205f
            ||| code == 0x3000
        }),
{
}

/// Two texts are the same in any case if they are as long and differ, at most, by ASCII capital
/// letters of the first where the second has the small ones.
pub proof fn law_case_is_ignored(s: &Vec<char>, small: &str, yes: bool)
    requires
        call_ensures(is_in_any_case, (s, small), yes),
    ensures
        yes == {
            &&& s@.len() == small@.len()
            &&& forall|i: int|
                0 <= i < s@.len() ==> {
                    ||| (#[trigger] s@[i]) == small@[i] && !('A' <= s@[i] <= 'Z')
                    ||| 'A' <= s@[i] <= 'Z' && small@[i] as int == s@[i] as int + 32
                }
        },
{
    let lower = lowercase(s@);
    if yes {
        assert(lower == small@);
        assert forall|i: int| 0 <= i < s@.len() implies {
            ||| (#[trigger] s@[i]) == small@[i] && !('A' <= s@[i] <= 'Z')
            ||| 'A' <= s@[i] <= 'Z' && small@[i] as int == s@[i] as int + 32
        } by {
            assert(lower[i] == small@[i]);
        }
    } else if s@.len() == small@.len() && (forall|i: int|
        0 <= i < s@.len() ==> {
            ||| (#[trigger] s@[i]) == small@[i] && !('A' <= s@[i] <= 'Z')
            ||| 'A' <= s@[i] <= 'Z' && small@[i] as int == s@[i] as int + 32
        }) {
        assert forall|i: int| 0 <= i < s@.len() implies lower[i] == small@[i] by {
            assert(s@[i] == s@[i]);
        }
        assert(lower == small@);
    }
}

/// Texts are the same exactly if their characters are, and their characters are those in them.
pub proof fn law_texts_are_their_characters(a: &str, b: &str, same: bool, chars: Vec<char>)
    requires
        call_ensures(same_text, (a, b), same),
        call_ensures(characters, (a,), chars),
    ensures
        same <==> a@ == b@,
        chars@ == a@,
{
}

} // verus!
