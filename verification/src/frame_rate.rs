//! The frame rate argument: a decimal integer, or else the default.

use vstd::prelude::*;
use vstd::string::*;

verus! {

/// The frame rate that is used where none is given or the given one is no integer.
pub const DEFAULT_FRAME_RATE: i32 = 30;

/// Whether `c` is one of the ten ASCII digits.
pub open spec fn is_digit(c: char) -> bool {
    '0' <= c <= '9'
}

/// Whether `s` holds ASCII digits only.
pub open spec fn all_digits(s: Seq<char>) -> bool {
    forall|i: int| 0 <= i < s.len() ==> is_digit(#[trigger] s[i])
}

/// The number that a sequence of digits writes in base ten.
pub open spec fn decimal_value(s: Seq<char>) -> int
    decreases s.len(),
{
    if s.len() == 0 {
        0
    } else {
        decimal_value(s.drop_last()) * 10 + (s.last() as int - '0' as int)
    }
}

/// The length of the sign that `s` starts with: one or none.
pub open spec fn sign_len(s: Seq<char>) -> int {
    if s.len() > 0 && (s[0] == '-' || s[0] == '+') {
        1
    } else {
        0
    }
}

/// The integer that `s` writes: an optional sign, `+` or `-`, then one or more
/// digits and nothing else, with a value that a 32-bit signed integer holds.
pub open spec fn parse_int_spec(s: Seq<char>) -> Option<int> {
    let negative = s.len() > 0 && s[0] == '-';
    let digits = s.skip(sign_len(s));
    let value = if negative {
        -decimal_value(digits)
    } else {
        decimal_value(digits)
    };
    if digits.len() > 0 && all_digits(digits) && i32::MIN <= value <= i32::MAX {
        Some(value)
    } else {
        None
    }
}

/// The frame rate that an argument list asks for: the integer that its second
/// item writes, and the default where there is no such item or it writes none.
pub open spec fn frame_rate_spec(args: Seq<Seq<char>>) -> int {
    if args.len() > 1 && parse_int_spec(args[1]) is Some {
        parse_int_spec(args[1]).unwrap()
    } else {
        DEFAULT_FRAME_RATE as int
    }
}

/// Reads a decimal integer, with an optional sign, out of the whole of `s`.
pub fn parse_int(s: &str) -> (r: Option<i32>)
    ensures
        r is Some <==> parse_int_spec(s@) is Some,
        r matches Some(v) ==> parse_int_spec(s@) == Some(v as int),
{
    let n: usize = s.unicode_len();
    if n == 0 {
        return None;
    }
    let first = s.get_char(0);
    let negative = first == '-';
    let start: usize = if first == '-' || first == '+' {
        1
    } else {
        0
    };
    if start == n {
        return None;
    }
    let ghost digits = s@.skip(start as int);
    // `acc` is the value of the digits read so far; once that value is beyond
    // the limit, `acc` stays one above the limit.
    let limit: i64 = 0x8000_0000;
    let mut acc: i64 = 0;
    let mut k: usize = start;
    while k < n
        invariant
            start <= k <= n,
            n == s@.len(),
            start == sign_len(s@),
            negative == (s@[0] == '-'),
            digits == s@.skip(start as int),
            limit == 0x8000_0000,
            all_digits(digits.take(k - start)),
            0 <= acc <= limit + 1,
            acc <= limit ==> acc == decimal_value(digits.take(k - start)),
            acc > limit ==> decimal_value(digits.take(k - start)) > limit,
        decreases n - k,
    {
        let c = s.get_char(k);
        let ghost prev = digits.take(k - start);
        let ghost next = digits.take(k - start + 1);
        assert(next.drop_last() =~= prev);
        assert(next.last() == c);
        if !('0' <= c && c <= '9') {
            assert(digits[k - start] == c);
            return None;
        }
        let d: i64 = (c as u32 - '0' as u32) as i64;
        assert(decimal_value(next) == decimal_value(prev) * 10 + d);
        if acc <= limit {
            acc = acc * 10 + d;
            if acc > limit {
                acc = limit + 1;
            }
        }
        assert forall|i: int| 0 <= i < next.len() implies is_digit(#[trigger] next[i]) by {
            if i < prev.len() {
                assert(next[i] == prev[i]);
            }
        }
        k += 1;
    }
    assert(digits.take(n - start) =~= digits);
    if negative {
        if acc <= limit {
            Some((-acc) as i32)
        } else {
            None
        }
    } else if acc < limit {
        Some(acc as i32)
    } else {
        None
    }
}

/// The frame rate that one argument asks for: the integer that it writes, or
/// the default.
pub fn frame_rate_or_default(parsed: Option<i32>) -> (rate: i32)
    ensures
        rate == match parsed {
            Some(v) => v,
            None => DEFAULT_FRAME_RATE,
        },
{
    match parsed {
        Some(v) => v,
        None => DEFAULT_FRAME_RATE,
    }
}

/// The view of each item of an argument list.
pub open spec fn args_view(args: Seq<String>) -> Seq<Seq<char>> {
    Seq::new(args.len(), |i: int| args[i]@)
}

/// The frame rate that an argument list asks for. The list starts with the
/// program's own name; the item after it is the frame rate.
pub fn parse_frame_rate(args: &Vec<String>) -> (rate: i32)
    ensures
        rate == frame_rate_spec(args_view(args@)),
{
    if args.len() > 1 {
        frame_rate_or_default(parse_int(args[1].as_str()))
    } else {
        DEFAULT_FRAME_RATE
    }
}

/// Without a frame rate argument the default is used.
pub proof fn lemma_missing_argument_gives_default(args: Seq<Seq<char>>)
    requires
        args.len() <= 1,
    ensures
        frame_rate_spec(args) == DEFAULT_FRAME_RATE,
{
}

/// With a frame rate argument that writes no integer the default is used.
pub proof fn lemma_unparsable_argument_gives_default(args: Seq<Seq<char>>)
    requires
        args.len() > 1,
        parse_int_spec(args[1]) is None,
    ensures
        frame_rate_spec(args) == DEFAULT_FRAME_RATE,
{
}

/// With a frame rate argument that writes an integer, that integer is used.
pub proof fn lemma_integer_argument_is_used(args: Seq<Seq<char>>, value: int)
    requires
        args.len() > 1,
        parse_int_spec(args[1]) == Some(value),
    ensures
        frame_rate_spec(args) == value,
{
}

/// The character that writes the digit `d`.
pub open spec fn digit_char(d: int) -> char {
    if d == 0 {
        '0'
    } else if d == 1 {
        '1'
    } else if d == 2 {
        '2'
    } else if d == 3 {
        '3'
    } else if d == 4 {
        '4'
    } else if d == 5 {
        '5'
    } else if d == 6 {
        '6'
    } else if d == 7 {
        '7'
    } else if d == 8 {
        '8'
    } else {
        '9'
    }
}

/// The digits that write `n` in base ten, without leading zeros; one zero for 0.
pub open spec fn decimal_text(n: nat) -> Seq<char>
    decreases n,
{
    if n < 10 {
        seq![digit_char(n as int)]
    } else {
        decimal_text(n / 10).push(digit_char((n % 10) as int))
    }
}

/// The text of an integer: a minus sign where it is negative, then its digits.
pub open spec fn int_text(v: int) -> Seq<char> {
    if v < 0 {
        seq!['-'] + decimal_text((-v) as nat)
    } else {
        decimal_text(v as nat)
    }
}

/// The one-character text of a digit.
fn digit_str(d: u32) -> (r: &'static str)
    requires
        d < 10,
    ensures
        r@ == seq![digit_char(d as int)],
{
    proof {
        reveal_strlit("0");
        reveal_strlit("1");
        reveal_strlit("2");
        reveal_strlit("3");
        reveal_strlit("4");
        reveal_strlit("5");
        reveal_strlit("6");
        reveal_strlit("7");
        reveal_strlit("8");
        reveal_strlit("9");
    }
    let r = if d == 0 {
        "0"
    } else if d == 1 {
        "1"
    } else if d == 2 {
        "2"
    } else if d == 3 {
        "3"
    } else if d == 4 {
        "4"
    } else if d == 5 {
        "5"
    } else if d == 6 {
        "6"
    } else if d == 7 {
        "7"
    } else if d == 8 {
        "8"
    } else {
        "9"
    };
    assert(r@ =~= seq![digit_char(d as int)]);
    r
}

/// Appends the digits of `n` to `out`.
fn push_decimal(out: &mut String, n: u32)
    ensures
        final(out)@ == old(out)@ + decimal_text(n as nat),
    decreases n,
{
    if n >= 10 {
        push_decimal(out, n / 10);
    }
    out.append(digit_str(n % 10));
    assert(final(out)@ =~= old(out)@ + decimal_text(n as nat));
}

/// Writes an integer in base ten.
pub fn format_int(v: i32) -> (r: String)
    ensures
        r@ == int_text(v as int),
{
    let mut out = String::new();
    if v < 0 {
        proof {
            reveal_strlit("-");
        }
        out.append("-");
        assert(out@ =~= seq!['-']);
        let magnitude: u32 = if v == i32::MIN {
            0x8000_0000
        } else {
            (-v) as u32
        };
        push_decimal(&mut out, magnitude);
    } else {
        push_decimal(&mut out, v as u32);
        assert(out@ =~= decimal_text(v as nat));
    }
    out
}

/// The digits of a number are digits, start with none of the two signs, and
/// write that number.
pub proof fn lemma_decimal_text_value(n: nat)
    ensures
        decimal_text(n).len() > 0,
        all_digits(decimal_text(n)),
        decimal_value(decimal_text(n)) == n,
    decreases n,
{
    if n < 10 {
        let t = decimal_text(n);
        assert(t.drop_last().len() == 0);
        assert(decimal_value(t) == decimal_value(t.drop_last()) * 10 + (t.last() as int - '0' as int));
    } else {
        lemma_decimal_text_value(n / 10);
        let t = decimal_text(n);
        assert(t.drop_last() =~= decimal_text(n / 10));
        assert(t.last() == digit_char((n % 10) as int));
        assert forall|i: int| 0 <= i < t.len() implies is_digit(#[trigger] t[i]) by {
            if i < t.len() - 1 {
                assert(t[i] == decimal_text(n / 10)[i]);
            }
        }
    }
}

/// What `format_int` writes, `parse_int` reads back: the text of every 32-bit
/// integer parses to that integer.
pub proof fn lemma_parse_reads_format(v: int)
    requires
        i32::MIN <= v <= i32::MAX,
    ensures
        parse_int_spec(int_text(v)) == Some(v),
{
    let t = int_text(v);
    if v < 0 {
        let d = decimal_text((-v) as nat);
        lemma_decimal_text_value((-v) as nat);
        assert(t[0] == '-');
        assert(t.skip(1) =~= d);
    } else {
        lemma_decimal_text_value(v as nat);
        assert(is_digit(t[0]));
        assert(t.skip(0) =~= t);
    }
}

} // verus!
