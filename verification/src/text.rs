//! Character-level building blocks: space padding and decimal numerals.
//!
//! All rendering in this crate assembles `Vec<char>` buffers, whose views are
//! plain `Seq<char>`; the spec functions here give the padded and numeric
//! pieces their mathematical form.

use vstd::prelude::*;
use vstd::std_specs::iter::IteratorSpec;

verus! {

/// A run of `n` space characters (empty when `n <= 0`).
pub open spec fn spaces(n: int) -> Seq<char>
    decreases n,
{
    if n <= 0 {
        Seq::empty()
    } else {
        spaces(n - 1).push(' ')
    }
}

/// `s` left-aligned in a field of width `w`: spaces go on the right,
/// and a value already `w` or longer is kept unchanged.
pub open spec fn pad_right(s: Seq<char>, w: int) -> Seq<char> {
    s + spaces(w - s.len())
}

/// `s` right-aligned in a field of width `w`: spaces go on the left,
/// and a value already `w` or longer is kept unchanged.
pub open spec fn pad_left(s: Seq<char>, w: int) -> Seq<char> {
    spaces(w - s.len()) + s
}

/// The decimal digit `d` as a character ('9' for any `d` outside 0..=9,
/// which no caller relies on).
pub open spec fn digit_char(d: int) -> char {
    if d == 0 {
        '0'
    } else if d == 1 {
        '1'
    } else if d == 2 {
        '2'
    } else if d == 3 {
        '3'
    } else if d == 4 {
        '4'
    } else if d == 5 {
        '5'
    } else if d == 6 {
        '6'
    } else if d == 7 {
        '7'
    } else if d == 8 {
        '8'
    } else {
        '9'
    }
}

/// The decimal numeral of `n >= 0`, most significant digit first,
/// without a sign and without leading zeros (except for 0 itself).
pub open spec fn dec_nat(n: int) -> Seq<char>
    decreases n,
{
    if n < 10 {
        seq![digit_char(n)]
    } else {
        dec_nat(n / 10).push(digit_char(n % 10))
    }
}

/// The decimal numeral of `n`, with a leading '-' when `n` is negative.
pub open spec fn dec_int(n: int) -> Seq<char> {
    if n < 0 {
        seq!['-'] + dec_nat(-n)
    } else {
        dec_nat(n)
    }
}

/// Appends every character of `src` to `out`, in order.
pub fn extend_chars(out: &mut Vec<char>, src: &Vec<char>)
    ensures
        final(out)@ == old(out)@ + src@,
{
    let mut i: usize = 0;
    while i < src.len()
        invariant
            i <= src@.len(),
            out@ == old(out)@ + src@.take(i as int),
        decreases src@.len() - i,
    {
        out.push(src[i]);
        proof {
            assert(old(out)@ + src@.take(i + 1) =~= (old(out)@ + src@.take(i as int)).push(
                src@[i as int],
            ));
        }
        i = i + 1;
    }
    proof {
        assert(out@ =~= old(out)@ + src@);
    }
}

/// Appends the characters of the string slice `s` to `out`, in order.
pub fn append_str(out: &mut Vec<char>, s: &str)
    ensures
        final(out)@ == old(out)@ + s@,
{
    let mut it = s.chars();
    loop
        invariant
            out@ + it.remaining() == old(out)@ + s@,
            it.decrease() is Some,
        decreases it.decrease()->0,
    {
        let ghost prev = it.remaining();
        match it.next() {
            Some(c) => {
                out.push(c);
                proof {
                    assert(prev =~= seq![prev[0]] + prev.drop_first());
                    assert(out@ + it.remaining() =~= old(out)@ + s@);
                }
            },
            None => {
                proof {
                    assert(out@ =~= old(out)@ + s@);
                }
                return ;
            },
        }
    }
}

/// Pads `out` on the right with spaces until it is at least `w` long.
pub fn pad_field_right(out: &mut Vec<char>, w: usize)
    ensures
        final(out)@ == pad_right(old(out)@, w as int),
{
    while out.len() < w
        invariant
            out@.len() >= old(out)@.len(),
            out@.len() <= old(out)@.len() || out@.len() <= w,
            out@ == old(out)@ + spaces(out@.len() - old(out)@.len()),
        decreases w - out@.len(),
    {
        out.push(' ');
        proof {
            assert(spaces(out@.len() - old(out)@.len()) =~= spaces(
                out@.len() - 1 - old(out)@.len(),
            ).push(' '));
            assert(out@ =~= old(out)@ + spaces(out@.len() - old(out)@.len()));
        }
    }
    proof {
        assert(out@ =~= pad_right(old(out)@, w as int));
    }
}

/// Appends `src` to `out`, right-aligned in a field of width `w`.
pub fn extend_padded_left(out: &mut Vec<char>, src: &Vec<char>, w: usize)
    ensures
        final(out)@ == old(out)@ + pad_left(src@, w as int),
{
    let pad: usize = if w > src.len() {
        w - src.len()
    } else {
        0
    };
    let mut n: usize = 0;
    while n < pad
        invariant
            n <= pad,
            out@ == old(out)@ + spaces(n as int),
        decreases pad - n,
    {
        out.push(' ');
        proof {
            assert(out@ =~= old(out)@ + spaces(n + 1));
        }
        n = n + 1;
    }
    extend_chars(out, src);
    proof {
        assert(spaces(pad as int) == spaces(w - src@.len()));
        assert(out@ =~= old(out)@ + pad_left(src@, w as int));
    }
}

/// The decimal digit `d < 10` as a character.
pub fn digit(d: u64) -> (c: char)
    requires
        d < 10,
    ensures
        c == digit_char(d as int),
{
    if d == 0 {
        '0'
    } else if d == 1 {
        '1'
    } else if d == 2 {
        '2'
    } else if d == 3 {
        '3'
    } else if d == 4 {
        '4'
    } else if d == 5 {
        '5'
    } else if d == 6 {
        '6'
    } else if d == 7 {
        '7'
    } else if d == 8 {
        '8'
    } else {
        '9'
    }
}

/// Appends the decimal numeral of `n` to `out`.
pub fn push_dec_u64(out: &mut Vec<char>, n: u64)
    ensures
        final(out)@ == old(out)@ + dec_nat(n as int),
    decreases n,
{
    if n < 10 {
        out.push(digit(n));
        proof {
            assert(out@ =~= old(out)@ + dec_nat(n as int));
        }
    } else {
        push_dec_u64(out, n / 10);
        out.push(digit(n % 10));
        proof {
            assert(out@ =~= old(out)@ + dec_nat(n as int));
        }
    }
}

/// Appends the decimal numeral of `n`, signed, to `out`.
pub fn push_dec_i32(out: &mut Vec<char>, n: i32)
    ensures
        final(out)@ == old(out)@ + dec_int(n as int),
{
    if n < 0 {
        out.push('-');
        let m: u64 = (-(n as i64)) as u64;
        proof {
            assert(m as int == -(n as int));
        }
        push_dec_u64(out, m);
        proof {
            assert(out@ =~= old(out)@ + dec_int(n as int));
        }
    } else {
        push_dec_u64(out, n as u64);
    }
}

/// Whether two character buffers hold the same text.
pub fn eq_chars(a: &Vec<char>, b: &Vec<char>) -> (r: bool)
    ensures
        r == (a@ == b@),
{
    if a.len() != b.len() {
        return false;
    }
    let mut i: usize = 0;
    while i < a.len()
        invariant
            a@.len() == b@.len(),
            i <= a@.len(),
            forall|j: int| 0 <= j < i ==> a@[j] == b@[j],
        decreases a@.len() - i,
    {
        if a[i] != b[i] {
            return false;
        }
        i = i + 1;
    }
    proof {
        assert(a@ =~= b@);
    }
    true
}

/// Relies on `String`'s `FromIterator<char>` implementation: collecting an
/// iterator of characters yields the string made of exactly those
/// characters, in order.
#[verifier::external_body]
pub(crate) fn chars_to_string(v: &Vec<char>) -> (r: String)
    ensures
        r@ == v@,
{
    v.iter().collect()
}

} // verus!
