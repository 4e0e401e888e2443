//! Character-level operations on strings.

use vstd::prelude::*;

verus! {

/// Whether `c` occurs in `s`.
pub open spec fn has_char(s: Seq<char>, c: char) -> bool {
    exists|i: int| 0 <= i < s.len() && s[i] == c
}

/// `i` is the position of the first `c` in `s`.
pub open spec fn first_at(s: Seq<char>, c: char, i: int) -> bool {
    &&& 0 <= i < s.len()
    &&& s[i] == c
    &&& forall|j: int| 0 <= j < i ==> s[j] != c
}

/// What stands on either side of the first `c` in `s`.
pub open spec fn split_first(s: Seq<char>, c: char) -> Option<(Seq<char>, Seq<char>)> {
    if has_char(s, c) {
        let i = choose|i: int| first_at(s, c, i);
        Some((s.take(i), s.skip(i + 1)))
    } else {
        None
    }
}

/// The characters of each of several strings.
pub open spec fn texts(strings: Seq<String>) -> Seq<Seq<char>> {
    strings.map_values(|s: String| s@)
}

/// The documented meaning of comparing two string slices: equal when they hold the same
/// characters.
pub assume_specification[ <str as PartialEq>::eq ](a: &str, b: &str) -> (equal: bool)
    ensures
        equal == (a@ == b@),
;

/// The position of the first `c` in `s`, counted in characters.
pub fn find_char(s: &str, c: char) -> (found: Option<usize>)
    ensures
        match found {
            Some(i) => first_at(s@, c, i as int),
            None => !has_char(s@, c),
        },
{
    let len: usize = s.unicode_len();
    let mut i: usize = 0;
    for d in iter: s.chars()
        invariant
            len == s@.len(),
            iter.seq() == s@,
            i == iter.index(),
            forall|j: int| 0 <= j < i ==> s@[j] != c,
    {
        if d == c {
            return Some(i);
        }
        i = i + 1;
    }
    None
}

/// Whether `c` occurs in `s`.
pub fn contains_char(s: &str, c: char) -> (found: bool)
    ensures
        found == has_char(s@, c),
{
    match find_char(s, c) {
        Some(_) => true,
        None => false,
    }
}

/// A split gives back the string, and its first part does not hold the separator.
pub proof fn split_first_is_faithful(s: Seq<char>, c: char)
    ensures
        match split_first(s, c) {
            Some((before, after)) => s == before + seq![c] + after && !has_char(before, c),
            None => !has_char(s, c),
        },
{
    if has_char(s, c) {
        lemma_first_at_exists(s, c);
        let i = choose|i: int| first_at(s, c, i);
        assert(s =~= s.take(i) + seq![c] + s.skip(i + 1));
    }
}

/// A character that occurs has a first position.
proof fn lemma_first_at_exists(s: Seq<char>, c: char)
    requires
        has_char(s, c),
    ensures
        exists|i: int| first_at(s, c, i),
    decreases s.len(),
{
    let i = choose|i: int| 0 <= i < s.len() && s[i] == c;
    if has_char(s.take(i), c) {
        lemma_first_at_exists(s.take(i), c);
        let j = choose|j: int| first_at(s.take(i), c, j);
        assert(first_at(s, c, j)) by {
            assert forall|k: int| 0 <= k < j implies s[k] != c by {
                assert(s.take(i)[k] != c);
            }
        }
    } else {
        assert(first_at(s, c, i)) by {
            assert forall|k: int| 0 <= k < i implies s[k] != c by {
                assert(s.take(i)[k] == s[k]);
            }
        }
    }
}

/// Splits `s` at its first `c`, which belongs to neither part.
pub fn split_once(s: &str, c: char) -> (parts: Option<(&str, &str)>)
    ensures
        match parts {
            Some((before, after)) => split_first(s@, c) == Some((before@, after@)),
            None => split_first(s@, c) is None,
        },
{
    match find_char(s, c) {
        Some(i) => {
            let len: usize = s.unicode_len();
            let before = s.substring_char(0, i);
            let after = s.substring_char(i + 1, len);
            proof {
                let j = choose|j: int| first_at(s@, c, j);
                assert(first_at(s@, c, i as int));
                assert(first_at(s@, c, j));
                assert(i == j);
                assert(before@ =~= s@.take(j));
                assert(after@ =~= s@.skip(j + 1));
            }
            Some((before, after))
        },
        None => None,
    }
}

/// The decimal digit `d`.
pub open spec fn digit(d: nat) -> char {
    (48 + d) as char
}

/// `n` written in decimal, without leading zeros.
pub open spec fn decimal(n: nat) -> Seq<char>
    decreases n,
{
    if n < 10 {
        seq![digit(n)]
    } else {
        decimal(n / 10).push(digit(n % 10))
    }
}

/// The one-character string of the digit `d`.
fn digit_str(d: u64) -> (text: &'static str)
    requires
        d < 10,
    ensures
        text@ == seq![digit(d as nat)],
{
    proof {
        reveal_strlit("0");
        reveal_strlit("1");
        reveal_strlit("2");
        reveal_strlit("3");
        reveal_strlit("4");
        reveal_strlit("5");
        reveal_strlit("6");
        reveal_strlit("7");
        reveal_strlit("8");
        reveal_strlit("9");
    }
    match d {
        0 => "0",
        1 => "1",
        2 => "2",
        3 => "3",
        4 => "4",
        5 => "5",
        6 => "6",
        7 => "7",
        8 => "8",
        _ => "9",
    }
}

/// Writes `n` in decimal.
pub fn to_decimal(n: u64) -> (text: String)
    ensures
        text@ == decimal(n as nat),
    decreases n,
{
    if n < 10 {
        digit_str(n).to_owned()
    } else {
        let mut text = to_decimal(n / 10);
        text.append(digit_str(n % 10));
        assert(text@ =~= decimal(n as nat));
        text
    }
}

/// The concatenation of three strings.
pub fn join3(a: &str, b: &str, c: &str) -> (text: String)
    ensures
        text@ == a@ + b@ + c@,
{
    let mut text = a.to_owned();
    text.append(b);
    text.append(c);
    text
}

/// A string is split exactly where it holds the separator: the two parts with the separator between
/// them are the string, and the separator stands nowhere in the first part.
pub proof fn splits_are_at_the_first_separator(s: &str, c: char, parts: Option<(&str, &str)>)
    requires
        call_ensures(split_once, (s, c), parts),
    ensures
        parts is Some <==> s@.contains(c),
        parts matches Some((before, after)) ==> {
            &&& s@ == before@ + seq![c] + after@
            &&& !before@.contains(c)
        },
{
    split_first_is_faithful(s@, c);
}

/// A character is found exactly where the string holds it.
pub proof fn occurring_characters_are_found(s: &str, c: char, found: bool)
    requires
        call_ensures(contains_char, (s, c), found),
    ensures
        found <==> s@.contains(c),
{
}

/// The number that decimal digits stand for.
pub open spec fn decimal_value(digits: Seq<char>) -> int {
    digits.fold_left(0, |value: int, c: char| 10 * value + (c as int - '0' as int))
}

/// The digits are the decimal form of a number: they stand for it, and no zero leads unless it is
/// the only one.
pub open spec fn is_decimal_of(digits: Seq<char>, n: int) -> bool {
    &&& digits.len() > 0
    &&& forall|i: int| 0 <= i < digits.len() ==> '0' <= #[trigger] digits[i] <= '9'
    &&& decimal_value(digits) == n
    &&& digits[0] == '0' ==> digits.len() == 1
}

/// A written number reads as the number itself.
pub proof fn written_numbers_read_back(n: u64, text: String)
    requires
        call_ensures(to_decimal, (n,), text),
    ensures
        is_decimal_of(text@, n as int),
{
    lemma_decimal(n as nat);
}

/// The decimal form of a number reads as the number.
pub proof fn lemma_decimal(n: nat)
    ensures
        is_decimal_of(decimal(n), n as int),
        decimal(n)[0] == '0' ==> n == 0,
    decreases n,
{
    reveal_with_fuel(Seq::fold_left, 2);
    if n >= 10 {
        lemma_decimal(n / 10);
        assert(decimal(n).drop_last() =~= decimal(n / 10));
        assert(decimal(n).last() == digit(n % 10));
        assert(decimal(n)[0] == decimal(n / 10)[0]);
    } else {
        assert(decimal(n).drop_last() =~= Seq::empty());
    }
}

/// The texts of a list are those of its strings, in their order.
pub proof fn texts_are_of_the_strings(strings: Seq<String>)
    ensures
        texts(strings).len() == strings.len(),
        forall|i: int| 0 <= i < strings.len() ==> #[trigger] texts(strings)[i] == strings[i]@,
{
}

/// Three strings are joined in their order with nothing between them.
pub proof fn strings_are_joined_in_order(a: &str, b: &str, c: &str, text: String)
    requires
        call_ensures(join3, (a, b, c), text),
    ensures
        text@.len() == a@.len() + b@.len() + c@.len(),
        text@.take(a@.len() as int) == a@,
        text@.skip(a@.len() as int).take(b@.len() as int) == b@,
        text@.skip((a@.len() + b@.len()) as int) == c@,
{
    assert(text@.take(a@.len() as int) =~= a@);
    assert(text@.skip(a@.len() as int).take(b@.len() as int) =~= b@);
    assert(text@.skip((a@.len() + b@.len()) as int) =~= c@);
}

/// A string is split where a separator stands that none comes before.
pub proof fn lemma_split_first(before: Seq<char>, c: char, after: Seq<char>)
    requires
        !before.contains(c),
    ensures
        split_first(before + seq![c] + after, c) == Some((before, after)),
{
    let s = before + seq![c] + after;
    let n = before.len() as int;
    assert(s[n] == c);
    assert forall|j: int| 0 <= j < n implies s[j] != c by {
        assert(s[j] == before[j]);
    }
    assert(first_at(s, c, n));
    let i = choose|i: int| first_at(s, c, i);
    assert(first_at(s, c, i));
    assert(i == n);
    assert(s.take(n) =~= before);
    assert(s.skip(n + 1) =~= after);
}

} // verus!
