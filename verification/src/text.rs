//! Small text utilities shared by the rest of the crate: comparison,
//! decimal rendering and quoting, all stated over `Seq<char>` views.

use vstd::prelude::*;
use vstd::string::*;
use vstd::utf8::*;

verus! {

/// Whether two texts hold the same characters.
pub fn str_eq(a: &str, b: &str) -> (r: bool)
    ensures
        r == (a@ == b@),
{
    let x = a.as_bytes();
    let y = b.as_bytes();
    proof {
        encode_utf8_decode_utf8(a@);
        encode_utf8_decode_utf8(b@);
    }
    if x.len() != y.len() {
        return false;
    }
    let mut i: usize = 0;
    while i < x.len()
        invariant
            i <= x.len(),
            x.len() == y.len(),
            x@ == a.spec_bytes(),
            y@ == b.spec_bytes(),
            forall|j: int| 0 <= j < i ==> x@[j] == y@[j],
        decreases x.len() - i,
    {
        if x[i] != y[i] {
            return false;
        }
        i += 1;
    }
    assert(x@ =~= y@);
    true
}

/// `String::push` of std: the character is appended, nothing else changes.
#[verifier::external_body]
pub(crate) fn push_char(s: &mut String, c: char)
    ensures
        final(s)@ == old(s)@.push(c),
{
    s.push(c);
}

/// What `str::trim` of std leaves of a text: the text without its leading
/// and trailing Unicode white space.
pub uninterp spec fn trimmed(text: Seq<char>) -> Seq<char>;

/// `str::trim` of std. The result is a sub-slice of the argument, so it is
/// never longer; which characters count as white space is left to std.
#[verifier::external_body]
pub(crate) fn trim_str<'a>(s: &'a str) -> (r: &'a str)
    ensures
        r@ == trimmed(s@),
        r@.len() <= s@.len(),
{
    s.trim()
}

/// The character of one decimal digit.
pub open spec fn digit_char(d: nat) -> char {
    if d == 0 {
        '0'
    } else if d == 1 {
        '1'
    } else if d == 2 {
        '2'
    } else if d == 3 {
        '3'
    } else if d == 4 {
        '4'
    } else if d == 5 {
        '5'
    } else if d == 6 {
        '6'
    } else if d == 7 {
        '7'
    } else if d == 8 {
        '8'
    } else {
        '9'
    }
}

/// The decimal numeral of `n`, without leading zeros.
pub open spec fn decimal_digits(n: nat) -> Seq<char>
    decreases n,
{
    if n < 10 {
        seq![digit_char(n)]
    } else {
        decimal_digits(n / 10).push(digit_char(n % 10))
    }
}

fn digit_of(d: u64) -> (c: char)
    requires
        d < 10,
    ensures
        c == digit_char(d as nat),
{
    if d == 0 {
        '0'
    } else if d == 1 {
        '1'
    } else if d == 2 {
        '2'
    } else if d == 3 {
        '3'
    } else if d == 4 {
        '4'
    } else if d == 5 {
        '5'
    } else if d == 6 {
        '6'
    } else if d == 7 {
        '7'
    } else if d == 8 {
        '8'
    } else {
        '9'
    }
}

/// Appends the decimal numeral of `n` to `out`.
pub fn push_decimal(out: &mut String, n: u64)
    ensures
        final(out)@ == old(out)@ + decimal_digits(n as nat),
    decreases n,
{
    if n >= 10 {
        push_decimal(out, n / 10);
    }
    push_char(out, digit_of(n % 10));
    assert(final(out)@ =~= old(out)@ + decimal_digits(n as nat));
}

/// A quantity in thousandths written with one decimal place, rounded half
/// away from zero: `-12345` reads `-12.3`, `230050` reads `230.1`.
pub open spec fn one_decimal(milli: int) -> Seq<char> {
    let magnitude = if milli < 0 {
        -milli
    } else {
        milli
    };
    let tenths = (magnitude + 50) / 100;
    let sign = if milli < 0 {
        seq!['-']
    } else {
        Seq::<char>::empty()
    };
    sign + decimal_digits((tenths / 10) as nat) + seq!['.', digit_char((tenths % 10) as nat)]
}

/// Appends `one_decimal(milli)` to `out`.
pub fn push_one_decimal(out: &mut String, milli: i64)
    ensures
        final(out)@ == old(out)@ + one_decimal(milli as int),
{
    let magnitude: u64 = if milli >= 0 {
        milli as u64
    } else if milli == i64::MIN {
        0x8000_0000_0000_0000u64
    } else {
        (-milli) as u64
    };
    let tenths: u64 = (magnitude / 100) + (if magnitude % 100 >= 50 {
        1u64
    } else {
        0u64
    });
    assert(tenths == (magnitude + 50) / 100);
    if milli < 0 {
        push_char(out, '-');
    }
    push_decimal(out, tenths / 10);
    push_char(out, '.');
    push_char(out, digit_of(tenths % 10));
    assert(final(out)@ =~= old(out)@ + one_decimal(milli as int));
}

/// `text` with every single quote doubled, as a quoted PowerShell literal
/// needs it.
pub open spec fn doubled_quotes(text: Seq<char>) -> Seq<char>
    decreases text.len(),
{
    if text.len() == 0 {
        Seq::<char>::empty()
    } else if text.last() == '\'' {
        doubled_quotes(text.drop_last()).push('\'').push('\'')
    } else {
        doubled_quotes(text.drop_last()).push(text.last())
    }
}

/// Doubles every single quote of `input`.
pub fn escape_ps_single_quote(input: &str) -> (r: String)
    ensures
        r@ == doubled_quotes(input@),
{
    let n = input.unicode_len();
    let mut out = String::new();
    let mut i: usize = 0;
    while i < n
        invariant
            i <= n,
            n == input@.len(),
            out@ == doubled_quotes(input@.take(i as int)),
        decreases n - i,
    {
        let c = input.get_char(i);
        proof {
            let next = input@.take(i + 1);
            assert(next.drop_last() =~= input@.take(i as int));
            assert(next.last() == c);
        }
        if c == '\'' {
            push_char(&mut out, '\'');
            push_char(&mut out, '\'');
        } else {
            push_char(&mut out, c);
        }
        i += 1;
    }
    assert(input@.take(n as int) =~= input@);
    out
}

} // verus!
