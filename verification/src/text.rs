//! Plain-text helpers: equality, decimal numbers, searching and splitting.
//!
//! Strings are modelled by their characters (`Seq<char>`).

use vstd::arithmetic::power::{lemma_pow0, pow};
use vstd::prelude::*;
use vstd::string::*;
use vstd::utf8::*;

verus! {

/// Two character sequences with the same UTF-8 encoding are the same.
pub proof fn lemma_utf8_injective(a: Seq<char>, b: Seq<char>)
    requires
        encode_utf8(a) == encode_utf8(b),
    ensures
        a == b,
{
    encode_utf8_decode_utf8(a);
    encode_utf8_decode_utf8(b);
}

/// Whether two strings hold the same characters.
pub fn str_eq(a: &str, b: &str) -> (r: bool)
    ensures
        r == (a@ == b@),
{
    let x: &[u8] = a.as_bytes();
    let y: &[u8] = b.as_bytes();
    if x.len() != y.len() {
        return false;
    }
    let mut i: usize = 0;
    while i < x.len()
        invariant
            i <= x@.len(),
            x@.len() == y@.len(),
            x@ == encode_utf8(a@),
            y@ == encode_utf8(b@),
            forall|j: int| 0 <= j < i ==> x@[j] == y@[j],
        decreases x@.len() - i,
    {
        if x[i] != y[i] {
            return false;
        }
        i += 1;
    }
    proof {
        assert(x@ =~= y@);
        lemma_utf8_injective(a@, b@);
    }
    true
}

/// The character of a decimal digit.
pub open spec fn digit_char(d: nat) -> char {
    (('0' as u32) + d) as char
}

/// The usual decimal notation of `n`, without leading zeros.
pub open spec fn decimal_text(n: nat) -> Seq<char>
    decreases n,
{
    if n < 10 {
        seq![digit_char(n)]
    } else {
        decimal_text(n / 10).push(digit_char(n % 10))
    }
}

/// The one-character text of a decimal digit.
fn digit_str(d: u64) -> (r: &'static str)
    requires
        d < 10,
    ensures
        r@ == seq![digit_char(d as nat)],
{
    proof {
        reveal_strlit("0");
        reveal_strlit("1");
        reveal_strlit("2");
        reveal_strlit("3");
        reveal_strlit("4");
        reveal_strlit("5");
        reveal_strlit("6");
        reveal_strlit("7");
        reveal_strlit("8");
        reveal_strlit("9");
    }
    let r: &'static str = if d == 0 {
        "0"
    } else if d == 1 {
        "1"
    } else if d == 2 {
        "2"
    } else if d == 3 {
        "3"
    } else if d == 4 {
        "4"
    } else if d == 5 {
        "5"
    } else if d == 6 {
        "6"
    } else if d == 7 {
        "7"
    } else if d == 8 {
        "8"
    } else {
        "9"
    };
    assert(r@ =~= seq![digit_char(d as nat)]);
    r
}

/// Writes `n` in decimal.
pub fn decimal(n: u64) -> (r: String)
    ensures
        r@ == decimal_text(n as nat),
    decreases n,
{
    if n < 10 {
        digit_str(n).to_string()
    } else {
        let mut r: String = decimal(n / 10);
        let ghost head = r@;
        r.append(digit_str(n % 10));
        assert(r@ =~= head.push(digit_char((n % 10) as nat)));
        r
    }
}

/// Whether `c` is one of `'0'` to `'9'`.
pub open spec fn is_digit(c: char) -> bool {
    '0' <= c <= '9'
}

/// The number that a sequence of decimal digits stands for.
pub open spec fn digits_value(s: Seq<char>) -> nat
    decreases s.len(),
{
    if s.len() == 0 {
        0
    } else {
        digits_value(s.drop_last()) * 10 + (s.last() as nat - '0' as nat) as nat
    }
}

/// The digits of a number literal: what follows an optional leading `+`.
pub open spec fn unsigned_digits(s: Seq<char>) -> Seq<char> {
    if s.len() > 0 && s[0] == '+' {
        s.skip(1)
    } else {
        s
    }
}

/// Reads an unsigned 32-bit number: an optional `+`, then one or more decimal
/// digits and nothing else, with a value of at most `u32::MAX`.
pub open spec fn u32_from_text(s: Seq<char>) -> Option<u32> {
    let d = unsigned_digits(s);
    if d.len() > 0 && (forall|i: int| 0 <= i < d.len() ==> is_digit(#[trigger] d[i]))
        && digits_value(d) <= u32::MAX {
        Some(digits_value(d) as u32)
    } else {
        None
    }
}

/// A prefix of a digit sequence stands for no larger a number.
proof fn lemma_digits_value_prefix(s: Seq<char>, k: int)
    requires
        0 <= k <= s.len(),
    ensures
        digits_value(s.take(k)) <= digits_value(s),
    decreases s.len(),
{
    if k == s.len() {
        assert(s.take(k) =~= s);
    } else {
        lemma_digits_value_prefix(s.drop_last(), k);
        assert(s.drop_last().take(k) =~= s.take(k));
    }
}

/// Reads an unsigned 32-bit number, as [`u32_from_text`] says.
pub fn parse_u32(s: &str) -> (r: Option<u32>)
    ensures
        r == u32_from_text(s@),
{
    let ghost text = s@;
    let ghost d = unsigned_digits(text);
    let mut value: u64 = 0;
    let mut at_start: bool = true;
    let mut any_digit: bool = false;
    let ghost mut count: int = 0;
    for c in it: s.chars()
        invariant
            it.seq() == text,
            text == s@,
            d == unsigned_digits(text),
            at_start == (it.index() == 0),
            0 <= it.index() <= text.len(),
            count == (if text.len() > 0 && text[0] == '+' && !at_start {
                it.index() - 1
            } else {
                it.index() as int
            }),
            any_digit == (count > 0),
            value <= u32::MAX,
            forall|j: int| 0 <= j < count ==> is_digit(#[trigger] d[j]),
            value == digits_value(d.take(count)),
    {
        if at_start && c == '+' {
            at_start = false;
        } else {
            assert(c == d[count]);
            if c < '0' || c > '9' {
                return None;
            }
            let digit: u64 = (c as u64) - 48;
            value = value * 10 + digit;
            proof {
                assert(d.take(count + 1).drop_last() =~= d.take(count));
                lemma_digits_value_prefix(d, count + 1);
            }
            if value > 0xffff_ffff {
                return None;
            }
            at_start = false;
            any_digit = true;
            proof {
                count = count + 1;
            }
        }
    }
    assert(d.take(count) =~= d);
    if any_digit {
        Some(value as u32)
    } else {
        None
    }
}

/// The number of characters before the first `sep`; all of them if there is none.
pub open spec fn first_index(s: Seq<char>, sep: char) -> nat
    decreases s.len(),
{
    if s.len() == 0 || s[0] == sep {
        0
    } else {
        1 + first_index(s.drop_first(), sep)
    }
}

/// What comes before the first `sep`; the whole text if there is none.
pub open spec fn before_first(s: Seq<char>, sep: char) -> Seq<char> {
    s.take(first_index(s, sep) as int)
}

/// `k` is the first index of `sep` exactly if `sep` stands there, or the text
/// ends there, and `sep` does not occur before.
pub proof fn lemma_first_index(s: Seq<char>, sep: char, k: int)
    requires
        0 <= k <= s.len(),
        k < s.len() ==> s[k] == sep,
        forall|i: int| 0 <= i < k ==> s[i] != sep,
    ensures
        first_index(s, sep) == k,
    decreases s.len(),
{
    if k > 0 {
        assert(s[0] != sep);
        let t = s.drop_first();
        assert forall|i: int| 0 <= i < k - 1 implies t[i] != sep by {
            assert(t[i] == s[i + 1]);
        }
        lemma_first_index(t, sep, k - 1);
    }
}

/// Every character takes at least one byte.
pub proof fn lemma_utf8_at_least_one_byte_each(s: Seq<char>)
    ensures
        s.len() <= encode_utf8(s).len(),
    decreases s.len(),
{
    if s.len() > 0 {
        lemma_utf8_at_least_one_byte_each(s.drop_first());
    }
}

/// The number of characters before the first `sep`.
pub fn find_char(s: &str, sep: char) -> (r: usize)
    ensures
        r == first_index(s@, sep),
        r <= s@.len(),
{
    let ghost text = s@;
    let limit: usize = s.as_bytes().len();
    proof {
        lemma_utf8_at_least_one_byte_each(text);
    }
    let mut k: usize = 0;
    for c in it: s.chars()
        invariant
            it.seq() == text,
            text == s@,
            k == it.index(),
            text.len() <= limit,
            forall|i: int| 0 <= i < k ==> text[i] != sep,
    {
        if c == sep {
            proof {
                lemma_first_index(text, sep, k as int);
            }
            return k;
        }
        k = k + 1;
    }
    proof {
        lemma_first_index(text, sep, text.len() as int);
    }
    k
}

/// Whether `c` occurs in `s`.
pub fn contains_char(s: &str, c: char) -> (r: bool)
    ensures
        r == s@.contains(c),
{
    let ghost text = s@;
    for x in it: s.chars()
        invariant
            it.seq() == text,
            text == s@,
            forall|i: int| 0 <= i < it.index() ==> text[i] != c,
    {
        if x == c {
            assert(text[it.index() as int] == c);
            return true;
        }
    }
    false
}

/// The texts of a list of strings.
pub open spec fn texts(list: Seq<String>) -> Seq<Seq<char>> {
    list.map_values(|s: String| s@)
}

/// Whether a list holds a text.
pub fn list_contains(list: &Vec<String>, text: &str) -> (r: bool)
    ensures
        r == texts(list@).contains(text@),
{
    let mut i: usize = 0;
    while i < list.len()
        invariant
            i <= list@.len(),
            forall|j: int| 0 <= j < i ==> #[trigger] list@[j]@ != text@,
        decreases list@.len() - i,
    {
        if str_eq(list[i].as_str(), text) {
            assert(texts(list@)[i as int] == text@);
            return true;
        }
        i += 1;
    }
    assert forall|j: int| 0 <= j < texts(list@).len() implies texts(list@)[j] != text@ by {
        assert(texts(list@)[j] == list@[j]@);
    }
    false
}

/// The text of an optional string.
pub open spec fn optional_text(s: Option<String>) -> Option<Seq<char>> {
    match s {
        Some(text) => Some(text@),
        None => None,
    }
}

/// `a` followed by `b`.
pub fn join(a: &str, b: &str) -> (r: String)
    ensures
        r@ == a@ + b@,
{
    let mut r: String = a.to_string();
    r.append(b);
    r
}

/// A text of zeros.
pub open spec fn zeros(count: nat) -> Seq<char> {
    Seq::new(count, |i: int| '0')
}

/// A single digit stands for its distance from `0`.
pub proof fn digit_stands_for_its_value(c: char)
    requires
        '0' <= c <= '9',
    ensures
        digits_value(seq![c]) == c as nat - '0' as nat,
        0 <= digits_value(seq![c]) < 10,
{
    assert(seq![c].drop_last() =~= Seq::<char>::empty());
    assert(digits_value(seq![c].drop_last()) == 0);
}

/// Digits are positional: each text of digits written behind a number shifts
/// the number by its length.
pub proof fn digits_are_positional(a: Seq<char>, b: Seq<char>)
    ensures
        digits_value(a + b) == digits_value(a) * pow(10, b.len()) + digits_value(b),
    decreases b.len(),
{
    if b.len() == 0 {
        assert(a + b =~= a);
        lemma_pow0(10);
    } else {
        let shorter = b.drop_last();
        digits_are_positional(a, shorter);
        assert((a + b).drop_last() =~= a + shorter);
        let v = digits_value(a) as int;
        let p = pow(10, shorter.len());
        assert(pow(10, b.len()) == 10 * p) by {
            reveal(pow);
        }
        assert(v * (10 * p) == (v * p) * 10) by (nonlinear_arith);
    }
}

/// Leading zeros do not count.
pub proof fn leading_zeros_do_not_count(count: nat, s: Seq<char>)
    ensures
        digits_value(zeros(count) + s) == digits_value(s),
{
    lemma_zeros_value(count);
    digits_are_positional(zeros(count), s);
    assert(0 * pow(10, s.len()) == 0);
}

proof fn lemma_zeros_value(count: nat)
    ensures
        digits_value(zeros(count)) == 0,
    decreases count,
{
    if count > 0 {
        lemma_zeros_value((count - 1) as nat);
        assert(zeros(count).drop_last() =~= zeros((count - 1) as nat));
    }
}

/// A number written in decimal is a text of digits that stands for the number
/// and has no needless zero in front.
pub proof fn decimal_reads_back(n: nat)
    ensures
        digits_value(decimal_text(n)) == n,
        decimal_text(n).len() > 0,
        forall|i: int|
            0 <= i < decimal_text(n).len() ==> '0' <= #[trigger] decimal_text(n)[i] <= '9',
        decimal_text(n)[0] == '0' ==> n == 0 && decimal_text(n).len() == 1,
    decreases n,
{
    if n < 10 {
        let c = ('0' as u32 + n) as char;
        assert(decimal_text(n) =~= seq![c]);
        digit_stands_for_its_value(c);
    } else {
        decimal_reads_back(n / 10);
        let head = decimal_text(n / 10);
        let c = ('0' as u32 + n % 10) as char;
        assert(decimal_text(n) =~= head.push(c));
        assert(decimal_text(n).drop_last() =~= head);
        assert(decimal_text(n)[0] == head[0]);
    }
}

/// Every number is read from its decimal text, with any number of leading zeros
/// and with or without a plus sign.
pub proof fn number_text_reads_back(n: u32, count: nat)
    ensures
        u32_from_text(zeros(count) + decimal_text(n as nat)) == Some(n),
        u32_from_text(seq!['+'] + (zeros(count) + decimal_text(n as nat))) == Some(n),
{
    let s = zeros(count) + decimal_text(n as nat);
    decimal_reads_back(n as nat);
    leading_zeros_do_not_count(count, decimal_text(n as nat));
    assert forall|i: int| 0 <= i < s.len() implies is_digit(#[trigger] s[i]) by {
        if i >= count {
            assert(s[i] == decimal_text(n as nat)[i - count]);
        }
    }
    assert(is_digit(s[0]));
    assert(unsigned_digits(s) == s);
    assert((seq!['+'] + s).skip(1) =~= s);
}

/// What is read as a number is made of digits, behind at most one plus sign,
/// and is the number that these digits stand for.
pub proof fn number_text_is_digits(s: Seq<char>)
    requires
        u32_from_text(s) is Some,
    ensures
        s.len() > 0,
        forall|i: int| 0 < i < s.len() ==> '0' <= #[trigger] s[i] <= '9',
        s[0] == '+' && s.len() > 1 && u32_from_text(s)->0 == digits_value(s.skip(1)) || '0' <= s[0]
            <= '9' && u32_from_text(s)->0 == digits_value(s),
{
    let d = unsigned_digits(s);
    if s[0] == '+' {
        assert forall|i: int| 0 < i < s.len() implies '0' <= #[trigger] s[i] <= '9' by {
            assert(is_digit(d[i - 1]));
        }
    } else {
        assert forall|i: int| 0 <= i < s.len() implies '0' <= #[trigger] s[i] <= '9' by {
            assert(is_digit(d[i]));
        }
    }
}

/// A text of digits is refused as a number only if the number is too large.
pub proof fn digits_are_read_unless_too_large(s: Seq<char>)
    requires
        s.len() > 0,
        forall|i: int| 0 <= i < s.len() ==> '0' <= #[trigger] s[i] <= '9',
    ensures
        u32_from_text(s) is Some <==> digits_value(s) <= 4_294_967_295,
{
    assert('0' <= s[0] <= '9');
    assert(unsigned_digits(s) == s);
}

/// What comes before the first separator, the separator, and what follows make
/// up the text.
pub proof fn before_first_is_what_precedes(head: Seq<char>, sep: char, tail: Seq<char>)
    requires
        !head.contains(sep),
    ensures
        before_first(head + seq![sep] + tail, sep) == head,
        before_first(head, sep) == head,
{
    let s = head + seq![sep] + tail;
    let k = head.len() as int;
    assert forall|i: int| 0 <= i < k implies s[i] != sep && head[i] != sep by {
        assert(head.contains(head[i]));
    }
    lemma_first_index(s, sep, k);
    lemma_first_index(head, sep, k);
    assert(s.take(k) =~= head);
    assert(head.take(k) =~= head);
}

/// The texts of a list are those of its strings, in order.
pub proof fn texts_are_in_order(list: Seq<String>)
    ensures
        texts(list).len() == list.len(),
        forall|i: int| 0 <= i < list.len() ==> #[trigger] texts(list)[i] == list[i]@,
        forall|text: Seq<char>|
            texts(list).contains(text) <==> exists|i: int|
                0 <= i < list.len() && #[trigger] list[i]@ == text,
{
    assert forall|text: Seq<char>|
        texts(list).contains(text) <==> exists|i: int|
            0 <= i < list.len() && #[trigger] list[i]@ == text by {
        if texts(list).contains(text) {
            let i = texts(list).index_of(text);
            assert(list[i]@ == text);
        }
        if exists|i: int| 0 <= i < list.len() && #[trigger] list[i]@ == text {
            let i = choose|i: int| 0 <= i < list.len() && #[trigger] list[i]@ == text;
            assert(texts(list)[i] == text);
        }
    }
}

} // verus!
