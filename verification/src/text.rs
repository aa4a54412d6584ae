//! Text helpers shared by the site modules: joining, comparing, decimal
//! numbers, trimming, picking out numeric characters, and cutting a text at a
//! separator.

use vstd::prelude::*;
use vstd::string::*;
use crate::seqs::views;

verus! {

/// `a` followed by `b`.
pub fn join(a: &str, b: &str) -> (r: String)
    ensures
        r@ == a@ + b@,
{
    let mut r = String::from_str(a);
    r.append(b);
    r
}

/// Whether two texts are the same, character by character.
pub fn same_text(a: &str, b: &str) -> (r: bool)
    ensures
        r == (a@ == b@),
{
    let x = String::from_str(a);
    let y = String::from_str(b);
    x == y
}

/// The characters of `s`, one by one.
pub fn chars_of(s: &str) -> (v: Vec<char>)
    ensures
        v@ == s@,
{
    broadcast use vstd::string::group_string_axioms;

    let mut v: Vec<char> = Vec::new();
    for c in it: s.chars()
        invariant
            it.seq() == s@,
            v@ == it.seq().take(it.index()),
    {
        v.push(c);
    }
    v
}

/// Whether `c` is one of the ten ASCII digits.
pub open spec fn is_digit(c: char) -> bool {
    '0' <= c <= '9'
}

/// The ASCII digit that stands for `d`, for `d` below ten.
pub open spec fn digit_char(d: int) -> char {
    if d == 0 {
        '0'
    } else if d == 1 {
        '1'
    } else if d == 2 {
        '2'
    } else if d == 3 {
        '3'
    } else if d == 4 {
        '4'
    } else if d == 5 {
        '5'
    } else if d == 6 {
        '6'
    } else if d == 7 {
        '7'
    } else if d == 8 {
        '8'
    } else {
        '9'
    }
}

/// The number that the ASCII digit `c` stands for.
pub open spec fn digit_value(c: char) -> int {
    c as int - '0' as int
}

/// The number that a run of ASCII digits stands for, most significant first.
pub open spec fn digits_value(s: Seq<char>) -> int
    decreases s.len(),
{
    if s.len() == 0 {
        0
    } else {
        digits_value(s.drop_last()) * 10 + digit_value(s.last())
    }
}

/// Whether every character of `s` is an ASCII digit.
pub open spec fn all_digits(s: Seq<char>) -> bool {
    forall|i: int| 0 <= i < s.len() ==> is_digit(#[trigger] s[i])
}

/// The digits of a number's text: the text itself, without one leading `+`.
pub open spec fn unsigned_part(s: Seq<char>) -> Seq<char> {
    if s.len() > 0 && s[0] == '+' {
        s.drop_first()
    } else {
        s
    }
}

/// The number that `s` spells in decimal, if it spells one that fits a `usize`:
/// one or more ASCII digits, optionally preceded by a single `+`.
pub open spec fn number_of(s: Seq<char>) -> Option<usize> {
    let digits = unsigned_part(s);
    if digits.len() > 0 && all_digits(digits) && digits_value(digits) <= usize::MAX {
        Some(digits_value(digits) as usize)
    } else {
        None
    }
}

/// The decimal text of `n`, without sign or leading zeros.
pub open spec fn decimal_text(n: nat) -> Seq<char>
    decreases n,
{
    if n < 10 {
        seq![digit_char(n as int)]
    } else {
        decimal_text(n / 10).push(digit_char((n % 10) as int))
    }
}

/// A longer run of digits never stands for a smaller number than its prefix.
pub proof fn lemma_digits_value_grows(s: Seq<char>, n: int)
    requires
        all_digits(s),
        0 <= n <= s.len(),
    ensures
        0 <= digits_value(s.take(n)) <= digits_value(s),
    decreases s.len() - n,
{
    lemma_digits_value_nonnegative(s.take(n));
    if n == s.len() {
        assert(s.take(n) =~= s);
    } else {
        lemma_digits_value_grows(s, n + 1);
        assert(s.take(n + 1).drop_last() =~= s.take(n));
        assert(is_digit(s.take(n + 1).last()));
    }
}

/// A run of digits stands for a number that is not negative.
pub proof fn lemma_digits_value_nonnegative(s: Seq<char>)
    requires
        all_digits(s),
    ensures
        0 <= digits_value(s),
    decreases s.len(),
{
    if s.len() > 0 {
        lemma_digits_value_nonnegative(s.drop_last());
        assert(is_digit(s.last()));
    }
}

/// Reads `s` as a decimal number.
pub fn parse_number(s: &str) -> (r: Option<usize>)
    ensures
        r == number_of(s@),
{
    let chars = chars_of(s);
    let len = chars.len();
    if len == 0 {
        return None;
    }
    let start: usize = if chars[0] == '+' {
        1
    } else {
        0
    };
    if start == len {
        return None;
    }
    let ghost digits = unsigned_part(s@);
    assert(digits =~= s@.subrange(start as int, len as int));
    let mut value: usize = 0;
    let mut i: usize = start;
    assert(digits.take(0) =~= Seq::<char>::empty());
    while i < len
        invariant
            start <= i <= len,
            chars@ == s@,
            len == s@.len(),
            digits == unsigned_part(s@),
            digits == s@.subrange(start as int, len as int),
            all_digits(digits.take(i - start)),
            value == digits_value(digits.take(i - start)),
        decreases len - i,
    {
        let c = chars[i];
        let ghost k = i - start;
        assert(digits[k] == c);
        assert(digits.take(k + 1).drop_last() =~= digits.take(k));
        assert(digits.take(k + 1).last() == c);
        if !(c >= '0' && c <= '9') {
            assert(!is_digit(digits[k]));
            return None;
        }
        let d: usize = (c as u32 - '0' as u32) as usize;
        assert(d == digit_value(c));
        assert(all_digits(digits.take(k + 1))) by {
            assert forall|j: int| 0 <= j < k + 1 implies is_digit(
                #[trigger] digits.take(k + 1)[j],
            ) by {
                if j < k {
                    assert(digits.take(k + 1)[j] == digits.take(k)[j]);
                }
            }
        }
        if value > (usize::MAX - d) / 10 {
            proof {
                assert(digits_value(digits.take(k + 1)) == value * 10 + d);
                if all_digits(digits) {
                    lemma_digits_value_grows(digits, k + 1);
                }
            }
            return None;
        }
        value = value * 10 + d;
        i = i + 1;
    }
    assert(digits.take(len - start) =~= digits);
    Some(value)
}

/// The one-character text of the digit `d`.
fn digit_text(d: u128) -> (r: &'static str)
    requires
        d < 10,
    ensures
        r@ == seq![digit_char(d as int)],
{
    proof {
        reveal_strlit("0");
        reveal_strlit("1");
        reveal_strlit("2");
        reveal_strlit("3");
        reveal_strlit("4");
        reveal_strlit("5");
        reveal_strlit("6");
        reveal_strlit("7");
        reveal_strlit("8");
        reveal_strlit("9");
    }
    let r = if d == 0 {
        "0"
    } else if d == 1 {
        "1"
    } else if d == 2 {
        "2"
    } else if d == 3 {
        "3"
    } else if d == 4 {
        "4"
    } else if d == 5 {
        "5"
    } else if d == 6 {
        "6"
    } else if d == 7 {
        "7"
    } else if d == 8 {
        "8"
    } else {
        "9"
    };
    assert(r@ =~= seq![digit_char(d as int)]);
    r
}

/// Writes `n` in decimal.
pub fn decimal(n: u128) -> (r: String)
    ensures
        r@ == decimal_text(n as nat),
    decreases n,
{
    if n < 10 {
        String::from_str(digit_text(n))
    } else {
        let mut r = decimal(n / 10);
        r.append(digit_text(n % 10));
        assert(r@ =~= decimal_text((n / 10) as nat).push(digit_char((n % 10) as int)));
        r
    }
}

/// Whether Unicode classes `c` as a number: what `char::is_numeric` answers.
pub uninterp spec fn numeric(c: char) -> bool;

/// Whether Unicode classes `c` as white space: what `char::is_whitespace` answers.
pub uninterp spec fn whitespace(c: char) -> bool;

/// Calls `char::is_numeric`. The answer depends on the character alone; the
/// contract gives it the name [`numeric`] and claims nothing else.
#[verifier::external_body]
fn is_numeric(c: char) -> (b: bool)
    ensures
        b == numeric(c),
{
    c.is_numeric()
}

/// Calls `char::is_whitespace`. The answer depends on the character alone; the
/// contract gives it the name [`whitespace`] and claims nothing else.
#[verifier::external_body]
fn is_whitespace(c: char) -> (b: bool)
    ensures
        b == whitespace(c),
{
    c.is_whitespace()
}

/// The numeric characters of `s`, in order.
pub fn numeric_part(s: &str) -> (r: String)
    ensures
        r@ == s@.filter(|c: char| numeric(c)),
{
    let ghost pred = |c: char| numeric(c);
    let chars = chars_of(s);
    let len = chars.len();
    let mut r = String::new();
    proof {
        reveal(Seq::filter);
        assert(r@ =~= s@.take(0).filter(pred));
    }
    for i in 0..len
        invariant
            chars@ == s@,
            len == s@.len(),
            pred == (|c: char| numeric(c)),
            r@ == s@.take(i as int).filter(pred),
    {
        let c = chars[i];
        proof {
            reveal(Seq::filter);
            assert(s@.take(i + 1).drop_last() =~= s@.take(i as int));
            assert(s@.take(i + 1).last() == c);
        }
        if is_numeric(c) {
            let one = s.substring_char(i, i + 1);
            assert(one@ =~= seq![c]);
            r.append(one);
            assert(r@ =~= s@.take(i as int).filter(pred).push(c));
        }
    }
    proof {
        assert(s@.take(len as int) =~= s@);
    }
    r
}

/// `s` without its leading white space.
pub open spec fn trim_start(s: Seq<char>) -> Seq<char>
    decreases s.len(),
{
    if s.len() > 0 && whitespace(s[0]) {
        trim_start(s.drop_first())
    } else {
        s
    }
}

/// `s` without its trailing white space.
pub open spec fn trim_end(s: Seq<char>) -> Seq<char>
    decreases s.len(),
{
    if s.len() > 0 && whitespace(s.last()) {
        trim_end(s.drop_last())
    } else {
        s
    }
}

/// `s` without leading and trailing white space.
pub open spec fn trimmed(s: Seq<char>) -> Seq<char> {
    trim_end(trim_start(s))
}

/// `s` without leading and trailing white space.
pub fn trim(s: &str) -> (r: &str)
    ensures
        r@ == trimmed(s@),
{
    let chars = chars_of(s);
    let len = chars.len();
    let mut first: usize = 0;
    assert(s@.subrange(0, len as int) =~= s@);
    while first < len && is_whitespace(chars[first])
        invariant
            first <= len,
            chars@ == s@,
            len == s@.len(),
            trim_start(s@) == trim_start(s@.subrange(first as int, len as int)),
        decreases len - first,
    {
        assert(s@.subrange(first as int, len as int).drop_first() =~= s@.subrange(
            first + 1,
            len as int,
        ));
        first = first + 1;
    }
    assert(trim_start(s@) == s@.subrange(first as int, len as int));
    let mut last: usize = len;
    while last > first && is_whitespace(chars[last - 1])
        invariant
            first <= last <= len,
            chars@ == s@,
            len == s@.len(),
            trim_end(s@.subrange(first as int, len as int)) == trim_end(
                s@.subrange(first as int, last as int),
            ),
        decreases last,
    {
        assert(s@.subrange(first as int, last as int).drop_last() =~= s@.subrange(
            first as int,
            last - 1,
        ));
        last = last - 1;
    }
    assert(trim_end(s@.subrange(first as int, last as int)) == s@.subrange(
        first as int,
        last as int,
    ));
    s.substring_char(first, last)
}

/// The texts of `parts`, one after the other.
pub open spec fn concat(parts: Seq<Seq<char>>) -> Seq<char>
    decreases parts.len(),
{
    if parts.len() == 0 {
        Seq::empty()
    } else {
        concat(parts.drop_last()) + parts.last()
    }
}

/// The texts of `parts`, one after the other.
pub fn concat_all(parts: &Vec<String>) -> (r: String)
    ensures
        r@ == concat(views(parts@)),
{
    let mut r = String::new();
    assert(views(parts@).take(0) =~= Seq::<Seq<char>>::empty());
    for i in 0..parts.len()
        invariant
            r@ == concat(views(parts@).take(i as int)),
    {
        let ghost all = views(parts@);
        assert(all.take(i + 1).drop_last() =~= all.take(i as int));
        assert(all.take(i + 1).last() == parts[i as int]@);
        r.append(parts[i].as_str());
    }
    assert(views(parts@).take(parts.len() as int) =~= views(parts@));
    r
}

/// Whether `separator` stands in `s` at place `i`.
pub open spec fn stands_at(s: Seq<char>, separator: Seq<char>, i: int) -> bool {
    0 <= i && i + separator.len() <= s.len() && s.subrange(i, i + separator.len()) == separator
}

/// The pieces of `s` from place `start` on, where no separator begins between
/// `start` and `i`: the text up to the first separator at or after `i`, then
/// the pieces of what follows that separator; where no separator follows, all
/// of the text from `start` on.
pub open spec fn pieces_from(s: Seq<char>, separator: Seq<char>, start: int, i: int) -> Seq<
    Seq<char>,
>
    decreases s.len() - i,
{
    if separator.len() == 0 || i < 0 || i + separator.len() > s.len() {
        seq![s.subrange(start, s.len() as int)]
    } else if stands_at(s, separator, i) {
        seq![s.subrange(start, i)] + pieces_from(
            s,
            separator,
            i + separator.len(),
            i + separator.len(),
        )
    } else {
        pieces_from(s, separator, start, i + 1)
    }
}

/// The pieces of `s` between the occurrences of `separator`, found from left
/// to right without overlap. A text without the separator, and any text where
/// the separator is empty, is one piece.
pub open spec fn split_text(s: Seq<char>, separator: Seq<char>) -> Seq<Seq<char>> {
    pieces_from(s, separator, 0, 0)
}

/// The texts of `parts` with `separator` between each two neighbours.
pub open spec fn joined(parts: Seq<Seq<char>>, separator: Seq<char>) -> Seq<char>
    decreases parts.len(),
{
    if parts.len() == 0 {
        Seq::empty()
    } else if parts.len() == 1 {
        parts[0]
    } else {
        joined(parts.drop_last(), separator) + separator + parts.last()
    }
}

/// `s` with every occurrence of `from`, found from left to right without
/// overlap, replaced by `to`.
pub open spec fn replaced_text(s: Seq<char>, from: Seq<char>, to: Seq<char>) -> Seq<char> {
    joined(split_text(s, from), to)
}

/// Whether `separator` stands in `text` at place `i`.
fn found_at(text: &Vec<char>, separator: &Vec<char>, i: usize) -> (r: bool)
    requires
        i + separator@.len() <= text@.len(),
    ensures
        r == stands_at(text@, separator@, i as int),
{
    let n = text.len();
    let m = separator.len();
    let mut k: usize = 0;
    while k < m
        invariant
            k <= m,
            n == text@.len(),
            m == separator@.len(),
            i + m <= n,
            forall|j: int| 0 <= j < k ==> text@[i + j] == separator@[j],
        decreases m - k,
    {
        if text[i + k] != separator[k] {
            assert(text@.subrange(i as int, i + m)[k as int] != separator@[k as int]);
            return false;
        }
        k = k + 1;
    }
    assert(text@.subrange(i as int, i + m) =~= separator@);
    true
}

/// Cuts `s` at each occurrence of `separator`.
pub fn split(s: &str, separator: &str) -> (parts: Vec<String>)
    ensures
        views(parts@) == split_text(s@, separator@),
{
    let text = chars_of(s);
    let sep = chars_of(separator);
    let n = text.len();
    let m = sep.len();
    let mut parts: Vec<String> = Vec::new();
    let mut start: usize = 0;
    let mut i: usize = 0;
    assert(views(parts@) + pieces_from(s@, sep@, 0, 0) =~= split_text(s@, separator@));
    while m > 0 && m <= n && i <= n - m
        invariant
            text@ == s@,
            sep@ == separator@,
            n == text@.len(),
            m == sep@.len(),
            start <= i <= n,
            split_text(s@, separator@) == views(parts@) + pieces_from(
                s@,
                sep@,
                start as int,
                i as int,
            ),
        decreases n - i,
    {
        if found_at(&text, &sep, i) {
            let piece = String::from_str(s.substring_char(start, i));
            proof {
                crate::seqs::lemma_views_push(parts@, piece);
                assert(views(parts@).push(piece@) + pieces_from(s@, sep@, i + m, i + m) =~= views(
                    parts@,
                ) + (seq![s@.subrange(start as int, i as int)] + pieces_from(
                    s@,
                    sep@,
                    i + m,
                    i + m,
                )));
            }
            parts.push(piece);
            start = i + m;
            i = start;
        } else {
            i = i + 1;
        }
    }
    let piece = String::from_str(s.substring_char(start, n));
    proof {
        crate::seqs::lemma_views_push(parts@, piece);
        assert(views(parts@).push(piece@) =~= views(parts@) + seq![
            s@.subrange(start as int, n as int),
        ]);
    }
    parts.push(piece);
    parts
}

/// Puts `separator` between the texts of `parts`.
pub fn join_all(parts: &Vec<String>, separator: &str) -> (r: String)
    ensures
        r@ == joined(views(parts@), separator@),
{
    let mut r = String::new();
    let ghost all = views(parts@);
    assert(all.take(0) =~= Seq::<Seq<char>>::empty());
    for i in 0..parts.len()
        invariant
            all == views(parts@),
            r@ == joined(all.take(i as int), separator@),
    {
        assert(all.take(i + 1).drop_last() =~= all.take(i as int));
        assert(all.take(i + 1).last() == parts[i as int]@);
        if i > 0 {
            r.append(separator);
        } else {
            assert(all.take(1)[0] == parts[0]@);
            assert(r@ + parts[0]@ =~= parts[0]@);
        }
        r.append(parts[i].as_str());
    }
    assert(all.take(parts.len() as int) =~= all);
    r
}

/// Replaces every occurrence of `from` in `s` by `to`.
pub fn replace(s: &str, from: &str, to: &str) -> (r: String)
    ensures
        r@ == replaced_text(s@, from@, to@),
{
    let parts = split(s, from);
    join_all(&parts, to)
}

/// Cutting a text at a separator and putting the separator back between the
/// pieces gives the text again.
pub proof fn lemma_split_then_join(s: Seq<char>, separator: Seq<char>)
    ensures
        joined(split_text(s, separator), separator) == s,
{
    lemma_pieces_then_join(s, separator, 0, 0);
    assert(s.subrange(0, s.len() as int) =~= s);
}

/// The pieces from `start` on, joined by the separator, are the text from
/// `start` on.
proof fn lemma_pieces_then_join(s: Seq<char>, separator: Seq<char>, start: int, i: int)
    requires
        0 <= start <= i <= s.len(),
    ensures
        pieces_from(s, separator, start, i).len() >= 1,
        joined(pieces_from(s, separator, start, i), separator) == s.subrange(
            start,
            s.len() as int,
        ),
    decreases s.len() - i,
{
    let m = separator.len() as int;
    if m == 0 || i + m > s.len() {
    } else if stands_at(s, separator, i) {
        let rest = pieces_from(s, separator, i + m, i + m);
        lemma_pieces_then_join(s, separator, i + m, i + m);
        lemma_joined_prepend(s.subrange(start, i), rest, separator);
        assert(s.subrange(start, i) + separator + s.subrange(i + m, s.len() as int)
            =~= s.subrange(start, s.len() as int)) by {
            assert(s.subrange(i, i + m) == separator);
            assert(s.subrange(start, i) + s.subrange(i, i + m) + s.subrange(
                i + m,
                s.len() as int,
            ) =~= s.subrange(start, s.len() as int));
        }
    } else {
        lemma_pieces_then_join(s, separator, start, i + 1);
    }
}

/// Joining a first text and further texts puts the separator after the first.
proof fn lemma_joined_prepend(first: Seq<char>, rest: Seq<Seq<char>>, separator: Seq<char>)
    requires
        rest.len() >= 1,
    ensures
        joined(seq![first] + rest, separator) == first + separator + joined(rest, separator),
    decreases rest.len(),
{
    let all = seq![first] + rest;
    assert(all.drop_last() =~= seq![first] + rest.drop_last());
    assert(all.last() == rest.last());
    if rest.len() == 1 {
        assert(all.drop_last() =~= seq![first]);
        assert(joined(seq![first], separator) == first);
        assert(joined(rest, separator) == rest[0]);
    } else {
        lemma_joined_prepend(first, rest.drop_last(), separator);
        assert(first + separator + joined(rest.drop_last(), separator) + separator + rest.last()
            =~= first + separator + (joined(rest.drop_last(), separator) + separator
            + rest.last()));
    }
}

/// Reading back the decimal text of a number gives the number.
pub proof fn lemma_decimal_text_reads_back(n: nat)
    ensures
        decimal_text(n).len() > 0,
        all_digits(decimal_text(n)),
        digits_value(decimal_text(n)) == n,
        n <= usize::MAX ==> number_of(decimal_text(n)) == Some(n as usize),
    decreases n,
{
    let text = decimal_text(n);
    if n < 10 {
        assert(text.drop_last() =~= Seq::<char>::empty());
        assert(digits_value(text.drop_last()) == 0);
        assert(digit_value(text.last()) == n);
    } else {
        lemma_decimal_text_reads_back(n / 10);
        let front = decimal_text(n / 10);
        assert(text.drop_last() =~= front);
        assert(digit_value(text.last()) == n % 10);
        assert forall|i: int| 0 <= i < text.len() implies is_digit(#[trigger] text[i]) by {
            if i < front.len() {
                assert(text[i] == front[i]);
            }
        }
    }
    assert(is_digit(text[0]));
    assert(unsigned_part(text) == text);
}

} // verus!
