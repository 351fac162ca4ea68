//! Text: equality, substrings, decimal numbers.

use vstd::prelude::*;
use vstd::string::*;

verus! {

/// Whether `needle` stands somewhere in `hay`.
pub open spec fn occurs_in(needle: Seq<char>, hay: Seq<char>) -> bool {
    exists|at: int| occurs_at(needle, hay, at)
}

/// Whether `needle` stands in `hay` at the position `at`.
pub open spec fn occurs_at(needle: Seq<char>, hay: Seq<char>, at: int) -> bool {
    0 <= at && at + needle.len() <= hay.len() && hay.subrange(at, at + needle.len()) == needle
}

/// The decimal digits of a number, the leading one first.
pub open spec fn digits(n: nat) -> Seq<nat>
    decreases n,
{
    if n < 10 {
        seq![n]
    } else {
        digits(n / 10).push(n % 10)
    }
}

/// The character of a decimal digit.
pub open spec fn digit_char(d: nat) -> char {
    seq!['0', '1', '2', '3', '4', '5', '6', '7', '8', '9'][d as int]
}

/// A number in decimal.
pub open spec fn decimal(n: nat) -> Seq<char> {
    digits(n).map_values(|d: nat| digit_char(d))
}

/// A number in decimal, as ASCII bytes.
pub open spec fn decimal_ascii(n: nat) -> Seq<u8> {
    digits(n).map_values(|d: nat| (48 + d) as u8)
}

/// The value of a character as a decimal digit, if it is one.
pub open spec fn digit_value(c: char) -> Option<nat> {
    if '0' <= c && c <= '9' {
        Some((c as int - '0' as int) as nat)
    } else {
        None
    }
}

/// The value of a sequence of decimal digits, if it holds nothing else.
pub open spec fn digits_value(s: Seq<char>) -> Option<nat>
    decreases s.len(),
{
    if s.len() == 0 {
        Some(0)
    } else {
        match (digits_value(s.drop_last()), digit_value(s.last())) {
            (Some(v), Some(d)) => Some(v * 10 + d),
            _ => None,
        }
    }
}

/// The number that a text writes in decimal: at least one digit, after an
/// optional plus sign, and nothing else.
pub open spec fn written_number(s: Seq<char>) -> Option<nat> {
    let body = if s.len() > 0 && s[0] == '+' {
        s.skip(1)
    } else {
        s
    };
    if body.len() == 0 {
        None
    } else {
        digits_value(body)
    }
}

/// Every digit is below ten, and there is at least one.
proof fn digits_in_range(n: nat)
    ensures
        digits(n).len() > 0,
        forall|i: int| 0 <= i < digits(n).len() ==> #[trigger] digits(n)[i] < 10,
    decreases n,
{
    if n >= 10 {
        digits_in_range(n / 10);
    }
}

/// Reading a written number gives the number back.
pub proof fn decimal_reads_back(n: nat)
    ensures
        written_number(decimal(n)) == Some(n),
    decreases n,
{
    decimal_digits_value(n);
    digits_in_range(n);
    assert(decimal(n)[0] == digit_char(digits(n)[0]));
    let d = digits(n)[0];
    assert(d == 0 || d == 1 || d == 2 || d == 3 || d == 4 || d == 5 || d == 6 || d == 7 || d == 8
        || d == 9);
    assert(decimal(n)[0] != '+');
}

proof fn decimal_digits_value(n: nat)
    ensures
        digits_value(decimal(n)) == Some(n),
    decreases n,
{
    digits_in_range(n);
    let s = decimal(n);
    let d = digits(n).last();
    assert(d == 0 || d == 1 || d == 2 || d == 3 || d == 4 || d == 5 || d == 6 || d == 7 || d == 8
        || d == 9);
    assert(s.last() == digit_char(d));
    assert(digit_value(s.last()) == Some(d));
    if n < 10 {
        assert(s.drop_last() =~= Seq::<char>::empty());
        assert(digits_value(Seq::<char>::empty()) == Some(0nat));
    } else {
        decimal_digits_value(n / 10);
        assert(s.drop_last() =~= decimal(n / 10));
    }
}

/// Whether two texts are equal.
pub fn same_text(a: &str, b: &str) -> (r: bool)
    ensures
        r == (a@ == b@),
{
    a.to_owned() == b.to_owned()
}

/// The characters of a text.
fn characters(s: &str) -> (r: Vec<char>)
    ensures
        r@ == s@,
{
    let mut v: Vec<char> = Vec::new();
    let n: usize = s.unicode_len();
    let mut i: usize = 0;
    while i < n
        invariant
            n == s@.len(),
            i <= n,
            v@ == s@.take(i as int),
        decreases n - i,
    {
        v.push(s.get_char(i));
        assert(s@.take(i + 1) =~= s@.take(i as int).push(s@[i as int]));
        i = i + 1;
    }
    assert(s@.take(n as int) =~= s@);
    v
}

/// Whether `needle` stands in `hay` at the position `at`.
fn matches_at(hay: &Vec<char>, needle: &Vec<char>, at: usize) -> (r: bool)
    requires
        at + needle@.len() <= hay@.len(),
    ensures
        r == occurs_at(needle@, hay@, at as int),
{
    let end: usize = hay.len();
    let mut j: usize = 0;
    while j < needle.len()
        invariant
            end == hay@.len(),
            at + needle@.len() <= hay@.len(),
            j <= needle@.len(),
            forall|k: int| 0 <= k < j ==> needle@[k] == hay@[at + k],
        decreases needle@.len() - j,
    {
        if hay[at + j] != needle[j] {
            proof {
                let part = hay@.subrange(at as int, at + needle@.len());
                assert(part[j as int] == hay@[at + j]);
            }
            return false;
        }
        j = j + 1;
    }
    assert(hay@.subrange(at as int, at + needle@.len()) =~= needle@);
    true
}

/// Whether `needle` stands somewhere in `hay`.
pub fn contains_text(hay: &str, needle: &str) -> (r: bool)
    ensures
        r == occurs_in(needle@, hay@),
{
    let h: Vec<char> = characters(hay);
    let n: Vec<char> = characters(needle);
    if n.len() > h.len() {
        return false;
    }
    let last: usize = h.len() - n.len();
    let mut at: usize = 0;
    while at < last
        invariant
            h@ == hay@,
            n@ == needle@,
            last + n@.len() == h@.len(),
            at <= last,
            forall|k: int| 0 <= k < at ==> !occurs_at(needle@, hay@, k),
        decreases last - at,
    {
        if matches_at(&h, &n, at) {
            return true;
        }
        at = at + 1;
    }
    let found: bool = matches_at(&h, &n, last);
    if !found {
        assert forall|k: int| !occurs_at(needle@, hay@, k) by {
            if 0 <= k < last {
                assert(!occurs_at(needle@, hay@, k));
            }
        }
    }
    found
}

/// The text of a decimal digit.
fn digit_text(d: u64) -> (r: &'static str)
    requires
        d < 10,
    ensures
        r@ == seq![digit_char(d as nat)],
{
    proof {
        reveal_strlit("0");
        reveal_strlit("1");
        reveal_strlit("2");
        reveal_strlit("3");
        reveal_strlit("4");
        reveal_strlit("5");
        reveal_strlit("6");
        reveal_strlit("7");
        reveal_strlit("8");
        reveal_strlit("9");
    }
    let r: &'static str = match d {
        0 => "0",
        1 => "1",
        2 => "2",
        3 => "3",
        4 => "4",
        5 => "5",
        6 => "6",
        7 => "7",
        8 => "8",
        _ => "9",
    };
    assert(r@ =~= seq![digit_char(d as nat)]);
    r
}

/// A number in decimal.
pub fn decimal_string(n: u64) -> (r: String)
    ensures
        r@ == decimal(n as nat),
    decreases n,
{
    if n < 10 {
        let r: String = digit_text(n).to_owned();
        assert(r@ =~= decimal(n as nat));
        r
    } else {
        let mut r: String = decimal_string(n / 10);
        r.append(digit_text(n % 10));
        assert(r@ =~= decimal(n as nat));
        r
    }
}

/// A number in decimal, as ASCII bytes.
pub fn decimal_bytes(n: u32) -> (r: Vec<u8>)
    ensures
        r@ == decimal_ascii(n as nat),
    decreases n,
{
    if n < 10 {
        let mut r: Vec<u8> = Vec::new();
        r.push(48u8 + n as u8);
        assert(r@ =~= decimal_ascii(n as nat));
        r
    } else {
        let mut r: Vec<u8> = decimal_bytes(n / 10);
        r.push(48u8 + (n % 10) as u8);
        assert(r@ =~= decimal_ascii(n as nat));
        r
    }
}

/// The number that a text writes in decimal, if it writes one that fits in 32
/// bits.
pub open spec fn fitting_number(s: Seq<char>) -> Option<u32> {
    match written_number(s) {
        Some(v) => if v <= u32::MAX {
            Some(v as u32)
        } else {
            None
        },
        None => None,
    }
}

/// The number that a text writes in decimal, if it writes one that fits.
pub fn parse_u32(s: &str) -> (r: Option<u32>)
    ensures
        r == fitting_number(s@),
{
    let n: usize = s.unicode_len();
    let start: usize = if n > 0 && s.get_char(0) == '+' {
        1
    } else {
        0
    };
    let ghost body = s@.skip(start as int);
    assert(start == 0 ==> body =~= s@);
    if start == n {
        return None;
    }
    let mut value: u64 = 0;
    let mut i: usize = start;
    assert(body.take(0) =~= Seq::<char>::empty());
    while i < n
        invariant
            n == s@.len(),
            start <= i <= n,
            start < n,
            body == s@.skip(start as int),
            value <= u32::MAX,
            digits_value(body.take(i - start)) == Some(value as nat),
            written_number(s@) == digits_value(body),
        decreases n - i,
    {
        let c: char = s.get_char(i);
        proof {
            let t = body.take(i + 1 - start);
            assert(t.drop_last() =~= body.take(i - start));
            assert(t.last() == c);
        }
        if c < '0' || c > '9' {
            proof {
                digits_value_bounded(body, i + 1 - start, 0);
            }
            return None;
        }
        value = value * 10 + (c as u64 - '0' as u64);
        if value > 0xffff_ffff {
            proof {
                digits_value_bounded(body, i + 1 - start, value as nat);
            }
            return None;
        }
        i = i + 1;
    }
    assert(body.take(n - start) =~= body);
    Some(value as u32)
}

/// What a longer text writes is at least what its beginning writes; where
/// the beginning writes no number, the whole writes none.
proof fn digits_value_bounded(s: Seq<char>, k: int, least: nat)
    requires
        0 <= k <= s.len(),
        digits_value(s.take(k)) matches Some(v) ==> v >= least,
    ensures
        digits_value(s.take(k)) is None ==> digits_value(s) is None,
        digits_value(s) matches Some(v) ==> v >= least,
    decreases s.len() - k,
{
    if k == s.len() {
        assert(s.take(k) =~= s);
    } else {
        assert(s.take(k + 1).drop_last() =~= s.take(k));
        digits_value_bounded(s, k + 1, least);
    }
}

/// A text stands in another exactly where the other is it with something before
/// and behind, either of which may be empty.
pub proof fn parts_occur(needle: Seq<char>, hay: Seq<char>, before: Seq<char>, behind: Seq<char>)
    ensures
        occurs_in(needle, before + needle + behind),
        occurs_in(needle, hay) ==> exists|a: Seq<char>, b: Seq<char>|
            hay == #[trigger] (a + needle + b),
        needle.len() > hay.len() ==> !occurs_in(needle, hay),
        occurs_in(Seq::empty(), hay),
        occurs_in(hay, hay),
{
    let whole = before + needle + behind;
    let at = before.len() as int;
    assert(whole.subrange(at, at + needle.len()) =~= needle);
    assert(occurs_at(needle, whole, at));
    assert(hay.subrange(0, 0) =~= Seq::<char>::empty());
    assert(occurs_at(Seq::empty(), hay, 0));
    assert(hay.subrange(0, hay.len() as int) =~= hay);
    assert(occurs_at(hay, hay, 0));
    if occurs_in(needle, hay) {
        let i = choose|i: int| occurs_at(needle, hay, i);
        let a = hay.take(i);
        let b = hay.skip(i + needle.len());
        assert(hay =~= a + needle + b);
    }
}

/// Writing a number as text and as bytes writes the same digits.
pub proof fn bytes_spell_the_text(n: nat, i: int)
    ensures
        decimal_ascii(n).len() == decimal(n).len(),
        decimal(n).len() > 0,
        0 <= i < decimal(n).len() ==> decimal_ascii(n)[i] as int == decimal(n)[i] as int,
        0 <= i < decimal(n).len() ==> '0' <= decimal(n)[i] && decimal(n)[i] <= '9',
        decimal(n)[0] == '0' ==> n == 0,
{
    digits_in_range(n);
    leading_digit(n);
    if 0 <= i < digits(n).len() {
        let d = digits(n)[i];
        assert(d == 0 || d == 1 || d == 2 || d == 3 || d == 4 || d == 5 || d == 6 || d == 7 || d
            == 8 || d == 9);
    }
    let d = digits(n)[0];
    assert(decimal(n)[0] == digit_char(d));
    assert(d == 0 || d == 1 || d == 2 || d == 3 || d == 4 || d == 5 || d == 6 || d == 7 || d == 8
        || d == 9);
}

proof fn leading_digit(n: nat)
    ensures
        digits(n).len() > 0,
        digits(n)[0] == 0 ==> n == 0,
    decreases n,
{
    if n >= 10 {
        leading_digit(n / 10);
    }
}

/// A number is read digit by digit, each counting ten times as much as the next;
/// a plus sign in front and nothing else may stand beside digits, and a text
/// without digits is no number.
pub proof fn numbers_are_read_digit_by_digit(s: Seq<char>, c: char)
    ensures
        written_number(Seq::empty()) is None,
        written_number(seq!['+']) is None,
        s.len() > 0 && s[0] != '+' && '0' <= c && c <= '9' ==> written_number(s.push(c)) == (
        match written_number(s) {
            Some(v) => Some((10 * v + (c as int - '0' as int)) as nat),
            None => None,
        }),
        s.len() > 0 && (c < '0' || c > '9') ==> written_number(s.push(c)) is None,
        '0' <= c && c <= '9' ==> written_number(seq![c]) == Some((c as int - '0' as int) as nat),
        s.len() > 0 && s[0] != '+' ==> written_number(seq!['+'] + s) == written_number(s),
{
    reveal_with_fuel(digits_value, 2);
    assert(seq!['+'].skip(1) =~= Seq::<char>::empty());
    assert(seq![c].drop_last() =~= Seq::<char>::empty());
    assert((seq!['+'] + s).skip(1) =~= s);
    if s.len() > 0 {
        if s[0] == '+' {
            assert(s.push(c).skip(1) =~= s.skip(1).push(c));
            assert(s.skip(1).push(c).drop_last() =~= s.skip(1));
        } else {
            assert(s.push(c).drop_last() =~= s);
        }
    }
}

/// What fits in 32 bits is given as it is, and what does not is none.
pub proof fn numbers_that_fit_are_given(s: Seq<char>, n: nat)
    requires
        written_number(s) == Some(n),
    ensures
        n <= 0xffff_ffff ==> (fitting_number(s) matches Some(v) && v == n),
        n > 0xffff_ffff ==> fitting_number(s) is None,
{
}

/// What is no number fits nowhere.
pub proof fn no_number_fits_nowhere(s: Seq<char>)
    ensures
        written_number(s) is None ==> fitting_number(s) is None,
{
}

} // verus!
