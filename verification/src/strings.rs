//! Small verified building blocks for producing and consuming text: turning
//! source text into a character buffer, and rendering characters and decimal
//! numbers into owned strings.

use vstd::prelude::*;
use vstd::std_specs::iter::IteratorSpec;

verus! {

broadcast use vstd::string::group_string_axioms;

/// Relies on `String::push`: appends exactly the given character.
#[verifier::external_body]
pub fn push_char(s: &mut String, c: char)
    ensures
        final(s)@ == old(s)@.push(c),
{
    s.push(c);
}

/// The characters of a string, materialized as a vector.
pub fn str_chars(s: &str) -> (r: Vec<char>)
    ensures
        r@ == s@,
{
    broadcast use vstd::string::next_postcondition;

    let mut it = s.chars();
    let mut v: Vec<char> = Vec::new();
    loop
        invariant
            it.obeys_prophetic_iter_laws(),
            it.decrease() is Some,
            v@ + it.remaining() == s@,
        ensures
            v@ == s@,
        decreases it.decrease()->0,
    {
        match it.next() {
            Some(c) => v.push(c),
            None => {
                proof {
                    assert(v@ + it.remaining() =~= v@);
                }
                break ;
            },
        }
    }
    v
}

/// A string holding exactly the characters `v[from..to]`.
pub fn chars_to_string(v: &Vec<char>, from: usize, to: usize) -> (r: String)
    requires
        from <= to <= v.len(),
    ensures
        r@ == v@.subrange(from as int, to as int),
{
    let mut s = String::new();
    let mut i = from;
    while i < to
        invariant
            from <= i <= to <= v.len(),
            s@ == v@.subrange(from as int, i as int),
        decreases to - i,
    {
        push_char(&mut s, v[i]);
        proof {
            assert(v@.subrange(from as int, i as int).push(v@[i as int]) =~= v@.subrange(
                from as int,
                i + 1,
            ));
        }
        i = i + 1;
    }
    s
}

/// The character for one decimal digit.
pub open spec fn digit_char(d: int) -> char {
    if d == 0 {
        '0'
    } else if d == 1 {
        '1'
    } else if d == 2 {
        '2'
    } else if d == 3 {
        '3'
    } else if d == 4 {
        '4'
    } else if d == 5 {
        '5'
    } else if d == 6 {
        '6'
    } else if d == 7 {
        '7'
    } else if d == 8 {
        '8'
    } else {
        '9'
    }
}

/// The decimal digits of a non-negative number, most significant first.
pub open spec fn nat_digits(n: int) -> Seq<char>
    decreases n,
{
    if n < 10 {
        seq![digit_char(n)]
    } else {
        nat_digits(n / 10).push(digit_char(n % 10))
    }
}

/// The decimal rendering of a signed number: a minus sign, if negative,
/// followed by the digits of its magnitude.
pub open spec fn int_digits(v: int) -> Seq<char> {
    if v >= 0 {
        nat_digits(v)
    } else {
        seq!['-'] + nat_digits(-v)
    }
}

fn digit_to_char(d: u64) -> (c: char)
    requires
        d < 10,
    ensures
        c == digit_char(d as int),
{
    match d {
        0 => '0',
        1 => '1',
        2 => '2',
        3 => '3',
        4 => '4',
        5 => '5',
        6 => '6',
        7 => '7',
        8 => '8',
        _ => '9',
    }
}

/// Appends the decimal digits of `n` to `s`.
pub fn push_u64_decimal(s: &mut String, n: u64)
    ensures
        final(s)@ == old(s)@ + nat_digits(n as int),
    decreases n,
{
    if n < 10 {
        push_char(s, digit_to_char(n));
        proof {
            assert(s@ =~= old(s)@ + nat_digits(n as int));
        }
    } else {
        push_u64_decimal(s, n / 10);
        push_char(s, digit_to_char(n % 10));
        proof {
            assert(s@ =~= old(s)@ + nat_digits(n as int));
        }
    }
}

/// Appends the decimal rendering of `v` to `s`.
pub fn push_i64_decimal(s: &mut String, v: i64)
    ensures
        final(s)@ == old(s)@ + int_digits(v as int),
{
    if v >= 0 {
        push_u64_decimal(s, v as u64);
    } else {
        push_char(s, '-');
        let m: u64 = if v == i64::MIN {
            9223372036854775808u64
        } else {
            (-v) as u64
        };
        assert(m as int == -(v as int));
        push_u64_decimal(s, m);
        proof {
            assert(s@ =~= old(s)@ + int_digits(v as int));
        }
    }
}

/// The display form of one character inside a quoted literal: the five
/// recognized escapes are written back as escape sequences, all else stands
/// as itself.
pub open spec fn escaped_char(c: char) -> Seq<char> {
    if c == '\n' {
        seq!['\\', 'n']
    } else if c == '\r' {
        seq!['\\', 'r']
    } else if c == '\t' {
        seq!['\\', 't']
    } else if c == '"' {
        seq!['\\', '"']
    } else if c == '\\' {
        seq!['\\', '\\']
    } else {
        seq![c]
    }
}

/// The display form of a whole quoted literal's content.
pub open spec fn escaped_text(s: Seq<char>) -> Seq<char>
    decreases s.len(),
{
    if s.len() == 0 {
        Seq::empty()
    } else {
        escaped_char(s[0]) + escaped_text(s.drop_first())
    }
}

/// Escaping distributes over appending one character at the end.
pub proof fn lemma_escaped_push(s: Seq<char>, c: char)
    ensures
        escaped_text(s.push(c)) == escaped_text(s) + escaped_char(c),
    decreases s.len(),
{
    if s.len() == 0 {
        assert(s.push(c)[0] == c);
        assert(s.push(c).drop_first() =~= Seq::<char>::empty());
        assert(escaped_text(Seq::<char>::empty()) == Seq::<char>::empty());
        assert(escaped_text(s.push(c)) == escaped_char(c) + Seq::<char>::empty());
        assert(escaped_char(c) + Seq::<char>::empty() =~= escaped_char(c));
        assert(escaped_text(s) + escaped_char(c) =~= escaped_char(c));
    } else {
        lemma_escaped_push(s.drop_first(), c);
        assert(s.push(c).drop_first() =~= s.drop_first().push(c));
        assert(s.push(c)[0] == s[0]);
        assert(escaped_char(s[0]) + (escaped_text(s.drop_first()) + escaped_char(c))
            =~= escaped_char(s[0]) + escaped_text(s.drop_first()) + escaped_char(c));
    }
}

/// Appends the display form of `text` to `out`, escaping as
/// [`escaped_text`] says.
pub fn push_escaped(out: &mut String, text: &str)
    ensures
        final(out)@ == old(out)@ + escaped_text(text@),
{
    let chars = str_chars(text);
    let mut k: usize = 0;
    while k < chars.len()
        invariant
            k <= chars.len(),
            chars@ == text@,
            out@ == old(out)@ + escaped_text(text@.subrange(0, k as int)),
        decreases chars.len() - k,
    {
        let c = chars[k];
        proof {
            assert(text@.subrange(0, k as int).push(text@[k as int]) =~= text@.subrange(
                0,
                k as int + 1,
            ));
            lemma_escaped_push(text@.subrange(0, k as int), text@[k as int]);
        }
        if c == '\n' {
            push_char(out, '\\');
            push_char(out, 'n');
        } else if c == '\r' {
            push_char(out, '\\');
            push_char(out, 'r');
        } else if c == '\t' {
            push_char(out, '\\');
            push_char(out, 't');
        } else if c == '"' {
            push_char(out, '\\');
            push_char(out, '"');
        } else if c == '\\' {
            push_char(out, '\\');
            push_char(out, '\\');
        } else {
            push_char(out, c);
        }
        proof {
            assert(out@ =~= old(out)@ + escaped_text(text@.subrange(0, k as int + 1)));
        }
        k = k + 1;
    }
    proof {
        assert(text@.subrange(0, text@.len() as int) =~= text@);
    }
}

/// The decimal rendering of `v` as an owned string.
pub fn i64_to_string(v: i64) -> (r: String)
    ensures
        r@ == int_digits(v as int),
{
    let mut s = String::new();
    push_i64_decimal(&mut s, v);
    proof {
        assert(s@ =~= int_digits(v as int));
    }
    s
}

} // verus!
