//! Text helpers: decimal numerals, comparison, prefixes and concatenation.
use vstd::prelude::*;

verus! {

/// The character of a decimal digit.
pub open spec fn digit_char(d: nat) -> char
    recommends
        d < 10,
{
    (48 + d) as char
}

/// The number written in decimal, without leading zeros.
pub open spec fn decimal(n: nat) -> Seq<char>
    decreases n,
{
    if n < 10 {
        seq![digit_char(n)]
    } else {
        decimal(n / 10).push(digit_char(n % 10))
    }
}

/// The number that a sequence of decimal digits denotes.
pub open spec fn numeral_value(digits: Seq<char>) -> int
    decreases digits.len(),
{
    if digits.len() == 0 {
        0
    } else {
        numeral_value(digits.drop_last()) * 10 + (digits.last() as int - 48)
    }
}

/// Reading a numeral back gives the number that it was written for, so no two numbers
/// share a numeral.
pub proof fn law_decimal_denotes_its_number(n: nat)
    ensures
        numeral_value(decimal(n)) == n,
    decreases n,
{
    if n < 10 {
        assert(decimal(n).drop_last() =~= Seq::<char>::empty());
        assert(numeral_value(Seq::<char>::empty()) == 0);
        assert(decimal(n).last() as int == 48 + n);
    } else {
        law_decimal_denotes_its_number(n / 10);
        assert(decimal(n).drop_last() =~= decimal(n / 10));
        assert(decimal(n).last() as int == 48 + n % 10);
    }
}

/// The text of one decimal digit.
fn digit_text(d: u64) -> (text: &'static str)
    requires
        d < 10,
    ensures
        text@ == seq![digit_char(d as nat)],
{
    proof {
        reveal_strlit("0");
        reveal_strlit("1");
        reveal_strlit("2");
        reveal_strlit("3");
        reveal_strlit("4");
        reveal_strlit("5");
        reveal_strlit("6");
        reveal_strlit("7");
        reveal_strlit("8");
        reveal_strlit("9");
    }
    let text = if d == 0 {
        "0"
    } else if d == 1 {
        "1"
    } else if d == 2 {
        "2"
    } else if d == 3 {
        "3"
    } else if d == 4 {
        "4"
    } else if d == 5 {
        "5"
    } else if d == 6 {
        "6"
    } else if d == 7 {
        "7"
    } else if d == 8 {
        "8"
    } else {
        "9"
    };
    assert(text@ =~= seq![digit_char(d as nat)]);
    text
}

/// Writes a number in decimal.
pub fn decimal_text(n: u64) -> (text: String)
    ensures
        text@ == decimal(n as nat),
    decreases n,
{
    if n < 10 {
        digit_text(n).to_owned()
    } else {
        let mut text = decimal_text(n / 10);
        text.append(digit_text(n % 10));
        assert(text@ =~= decimal(n as nat));
        text
    }
}

/// Joins two texts.
pub fn joined(first: &str, second: &str) -> (text: String)
    ensures
        text@ == first@ + second@,
{
    first.to_owned().concat(second)
}

/// Tells whether `text` begins with `prefix`.
pub fn starts_with(text: &str, prefix: &str) -> (res: bool)
    ensures
        res == prefix@.is_prefix_of(text@),
{
    let mut rest = text.chars();
    let mut wanted = prefix.chars();
    let ghost mut done: int = 0;
    loop
        invariant
            0 <= done <= prefix@.len(),
            done <= text@.len(),
            vstd::std_specs::iter::IteratorSpec::remaining(&rest) == text@.skip(done),
            vstd::std_specs::iter::IteratorSpec::remaining(&wanted) == prefix@.skip(done),
            text@.take(done) == prefix@.take(done),
        decreases prefix@.len() - done,
    {
        match wanted.next() {
            None => {
                proof {
                    assert(done == prefix@.len());
                    assert(prefix@.take(done) =~= prefix@);
                }
                return true;
            },
            Some(expected) => {
                proof {
                    assert(expected == prefix@[done]);
                }
                match rest.next() {
                    None => {
                        return false;
                    },
                    Some(found) => {
                        proof {
                            assert(found == text@[done]);
                        }
                        if found != expected {
                            return false;
                        }
                        proof {
                            assert(text@.take(done + 1) =~= text@.take(done).push(found));
                            assert(prefix@.take(done + 1) =~= prefix@.take(done).push(found));
                            assert(text@.skip(done).drop_first() =~= text@.skip(done + 1));
                            assert(prefix@.skip(done).drop_first() =~= prefix@.skip(done + 1));
                            done = done + 1;
                        }
                    },
                }
            },
        }
    }
}

/// Tells whether two texts are equal.
pub fn same_text(a: &str, b: &str) -> (res: bool)
    ensures
        res == (a@ == b@),
{
    let res = starts_with(a, b) && starts_with(b, a);
    assert(res ==> a@ =~= b@);
    res
}

/// The part of a text before the first `sep`, or all of it where there is none.
pub open spec fn before(text: Seq<char>, sep: char) -> Seq<char>
    decreases text.len(),
{
    if text.len() == 0 || text[0] == sep {
        Seq::empty()
    } else {
        seq![text[0]] + before(text.skip(1), sep)
    }
}

/// `before` is the longest prefix that holds no `sep`: it holds none, and it either is
/// the whole text or is followed by one.
pub proof fn lemma_before(text: Seq<char>, sep: char)
    ensures
        before(text, sep).is_prefix_of(text),
        !before(text, sep).contains(sep),
        before(text, sep).len() < text.len() ==> text[before(text, sep).len() as int] == sep,
    decreases text.len(),
{
    if text.len() > 0 && text[0] != sep {
        let tail = text.skip(1);
        lemma_before(tail, sep);
        let whole = before(text, sep);
        assert(whole =~= text.take(whole.len() as int));
        assert forall|i: int| 0 <= i < whole.len() implies whole[i] != sep by {
            if i > 0 {
                assert(whole[i] == before(tail, sep)[i - 1]);
                assert(before(tail, sep).contains(before(tail, sep)[i - 1]));
            }
        }
    }
}

/// Copies the part of a text before the first `sep`, or all of it where there is none.
pub fn part_before(text: &str, sep: char) -> (part: String)
    ensures
        part@ == before(text@, sep),
{
    let mut rest = text.chars();
    let mut end: usize = 0;
    let total: usize = text.unicode_len();
    while end < total
        invariant_except_break
            vstd::std_specs::iter::IteratorSpec::remaining(&rest) == text@.skip(end as int),
        invariant
            total == text@.len(),
            end <= total,
            forall|i: int| 0 <= i < end ==> text@[i] != sep,
        ensures
            end < total ==> text@[end as int] == sep,
        decreases total - end,
    {
        match rest.next() {
            None => {
                break;
            },
            Some(found) => {
                if found == sep {
                    break;
                }
                assert(text@.skip(end as int).drop_first() =~= text@.skip(end + 1));
                end = end + 1;
            },
        }
    }
    proof {
        lemma_before(text@, sep);
        let expected = before(text@, sep);
        if expected.len() > end {
            assert(expected.contains(expected[end as int]));
        }
        assert(text@.subrange(0, end as int) =~= expected);
    }
    text.substring_char(0, end).to_owned()
}

/// The digits are written with the characters `0` to `9`, in the order of their values.
pub proof fn law_digits_have_their_usual_characters(d: nat)
    requires
        d < 10,
    ensures
        digit_char(d) == seq!['0', '1', '2', '3', '4', '5', '6', '7', '8', '9'][d as int],
{
    let digits = seq!['0', '1', '2', '3', '4', '5', '6', '7', '8', '9'];
    assert(digits[d as int] as int == 48 + d);
}

/// A numeral has at least one character, every one of them a digit, and begins with zero only
/// where it stands for zero.
pub proof fn law_numerals_are_digits_without_leading_zeros(n: nat)
    ensures
        decimal(n).len() > 0,
        forall|i: int|
            0 <= i < decimal(n).len() ==> '0' <= (#[trigger] decimal(n)[i]) && decimal(n)[i] <= '9',
        decimal(n)[0] == '0' <==> n == 0,
    decreases n,
{
    law_digits_have_their_usual_characters(n % 10);
    assert(digit_char(n % 10) as int == 48 + n % 10);
    if n >= 10 {
        law_numerals_are_digits_without_leading_zeros(n / 10);
        assert(decimal(n) =~= decimal(n / 10).push(digit_char(n % 10)));
    }
}

/// A digit put behind a numeral makes it stand for ten times as much and the digit.
pub proof fn law_a_further_digit_counts_ten_times_what_was_there(digits: Seq<char>, digit: char)
    requires
        '0' <= digit <= '9',
    ensures
        numeral_value(Seq::empty()) == 0,
        numeral_value(digits.push(digit)) == 10 * numeral_value(digits) + (digit as int
            - '0' as int),
{
    assert(digits.push(digit).drop_last() =~= digits);
}

/// What the text of a number says is the number, in digits only.
pub proof fn law_the_text_of_a_number_says_the_number(n: u64, text: String)
    requires
        call_ensures(decimal_text, (n,), text),
    ensures
        numeral_value(text@) == n,
        forall|i: int| 0 <= i < text@.len() ==> '0' <= (#[trigger] text@[i]) && text@[i] <= '9',
        text@.len() > 0,
        text@[0] == '0' ==> n == 0,
{
    law_decimal_denotes_its_number(n as nat);
    law_numerals_are_digits_without_leading_zeros(n as nat);
}

/// A joined text is the first part and then the second; it begins with the first, is equal to
/// another text exactly if both parts agree with it, and what stands before the first separator
/// of a text holds none.
pub proof fn law_parts_of_texts(
    first: &str,
    second: &str,
    text: String,
    begins: bool,
    same: bool,
    sep: char,
    part: String,
)
    requires
        call_ensures(joined, (first, second), text),
        call_ensures(starts_with, (first, second), begins),
        call_ensures(same_text, (first, second), same),
        call_ensures(part_before, (first, sep), part),
    ensures
        text@.len() == first@.len() + second@.len(),
        text@.take(first@.len() as int) == first@,
        text@.skip(first@.len() as int) == second@,
        begins <==> second@.len() <= first@.len() && first@.take(second@.len() as int) == second@,
        same <==> first@ == second@,
        !part@.contains(sep),
        part@.len() <= first@.len() && first@.take(part@.len() as int) == part@,
        part@.len() < first@.len() ==> first@[part@.len() as int] == sep,
{
    lemma_before(first@, sep);
    assert(text@.take(first@.len() as int) =~= first@);
    assert(text@.skip(first@.len() as int) =~= second@);
    assert(first@.take(part@.len() as int) =~= part@);
    if begins {
        assert(first@.take(second@.len() as int) =~= second@);
    }
    if second@.len() <= first@.len() && first@.take(second@.len() as int) == second@ {
        assert(second@ =~= first@.subrange(0, second@.len() as int));
    }
}

} // verus!
