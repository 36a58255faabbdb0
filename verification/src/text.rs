//! Small text utilities shared across the library: splitting a string on
//! a separator character, building strings character by character, and
//! rendering unsigned numbers in decimal.

use vstd::prelude::*;

verus! {

/// Relies on std's `String::push`: appends the given character to the
/// end of the string.
#[verifier::external_body]
pub(crate) fn string_push(s: &mut String, c: char)
    ensures
        final(s)@ == old(s)@.push(c),
{
    s.push(c);
}

/// The segments obtained by splitting `s` at every occurrence of `sep`,
/// with `cur` the partial segment read so far. Every separator ends a
/// segment, so the result always holds one segment more than `s` holds
/// separators.
pub open spec fn spec_split_rec(s: Seq<char>, sep: char, cur: Seq<char>) -> Seq<Seq<char>>
    decreases s.len(),
{
    if s.len() == 0 {
        seq![cur]
    } else if s[0] == sep {
        seq![cur] + spec_split_rec(s.drop_first(), sep, Seq::empty())
    } else {
        spec_split_rec(s.drop_first(), sep, cur.push(s[0]))
    }
}

/// The segments obtained by splitting `s` at every occurrence of `sep`.
pub open spec fn spec_split(s: Seq<char>, sep: char) -> Seq<Seq<char>> {
    spec_split_rec(s, sep, Seq::empty())
}

/// Splits `s` at every occurrence of `sep`, as [`spec_split`] describes.
pub fn split_on_char(s: &str, sep: char) -> (segs: Vec<String>)
    ensures
        segs.deep_view() == spec_split(s@, sep),
{
    let len = s.unicode_len();
    let mut segs: Vec<String> = Vec::new();
    let mut cur = String::new();
    let mut i: usize = 0;
    proof {
        assert(segs.deep_view() =~~= Seq::<Seq<char>>::empty());
        assert(s@.skip(0) =~= s@);
    }
    while i < len
        invariant
            i <= len,
            len == s@.len(),
            spec_split(s@, sep) =~~= segs.deep_view() + spec_split_rec(
                s@.skip(i as int),
                sep,
                cur@,
            ),
        decreases len - i,
    {
        let c = s.get_char(i);
        proof {
            assert(s@.skip(i as int)[0] == s@[i as int]);
            assert(s@.skip(i as int).drop_first() =~= s@.skip(i as int + 1));
        }
        if c == sep {
            let ghost prev = segs.deep_view();
            let ghost done = cur@;
            segs.push(cur);
            cur = String::new();
            proof {
                assert(segs.deep_view() =~~= prev + seq![done]);
            }
        } else {
            string_push(&mut cur, c);
        }
        i = i + 1;
    }
    proof {
        assert(s@.skip(len as int) =~= Seq::empty());
    }
    let ghost prev = segs.deep_view();
    let ghost done = cur@;
    segs.push(cur);
    proof {
        assert(segs.deep_view() =~~= prev + seq![done]);
    }
    segs
}

/// The decimal digit character for `d`.
pub open spec fn spec_digit(d: int) -> char {
    ((0x30 + d) as u8) as char
}

/// The decimal rendering of `n`, without a sign and without leading
/// zeros (zero itself renders as one digit).
pub open spec fn spec_decimal(n: nat) -> Seq<char>
    decreases n,
{
    if n < 10 {
        seq![spec_digit(n as int)]
    } else {
        spec_decimal(n / 10).push(spec_digit((n % 10) as int))
    }
}

/// The decimal digit character for `d`.
fn digit_char(d: u8) -> (c: char)
    requires
        d < 10,
    ensures
        c == spec_digit(d as int),
{
    (0x30 + d) as char
}

/// Appends the decimal rendering of `n` to `out`.
pub fn push_decimal(out: &mut String, n: u64)
    ensures
        final(out)@ == old(out)@ + spec_decimal(n as nat),
    decreases n,
{
    if n < 10 {
        string_push(out, digit_char(n as u8));
        proof {
            assert(out@ =~= old(out)@ + spec_decimal(n as nat));
        }
    } else {
        push_decimal(out, n / 10);
        string_push(out, digit_char((n % 10) as u8));
        proof {
            assert(out@ =~= old(out)@ + spec_decimal(n as nat));
        }
    }
}

} // verus!
