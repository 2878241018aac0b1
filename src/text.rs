use vstd::prelude::*;
use vstd::string::StringExecFns;

verus! {

/// The character of a decimal digit.
pub open spec fn digit_char(d: nat) -> char
    recommends
        d < 10,
{
    if d == 0 { '0' }
    else if d == 1 { '1' }
    else if d == 2 { '2' }
    else if d == 3 { '3' }
    else if d == 4 { '4' }
    else if d == 5 { '5' }
    else if d == 6 { '6' }
    else if d == 7 { '7' }
    else if d == 8 { '8' }
    else { '9' }
}

/// The decimal digits of a natural number, most significant first.
pub open spec fn nat_digits(n: nat) -> Seq<char>
    decreases n,
{
    if n < 10 {
        seq![digit_char(n)]
    } else {
        nat_digits(n / 10).push(digit_char(n % 10))
    }
}

/// The decimal text of an integer, with a leading '-' when negative.
pub open spec fn decimal_text(n: int) -> Seq<char> {
    if n < 0 {
        seq!['-'] + nat_digits((-n) as nat)
    } else {
        nat_digits(n as nat)
    }
}

/// The names joined by ", ".
pub open spec fn joined(names: Seq<Seq<char>>) -> Seq<char>
    decreases names.len(),
{
    if names.len() == 0 {
        Seq::empty()
    } else if names.len() == 1 {
        names[0]
    } else {
        joined(names.drop_last()) + ", "@ + names.last()
    }
}

fn digit_str(d: u64) -> (r: &'static str)
    requires
        d < 10,
    ensures
        r@ == seq![digit_char(d as nat)],
{
    if d == 0 {
        proof { reveal_strlit("0"); }
        "0"
    } else if d == 1 {
        proof { reveal_strlit("1"); }
        "1"
    } else if d == 2 {
        proof { reveal_strlit("2"); }
        "2"
    } else if d == 3 {
        proof { reveal_strlit("3"); }
        "3"
    } else if d == 4 {
        proof { reveal_strlit("4"); }
        "4"
    } else if d == 5 {
        proof { reveal_strlit("5"); }
        "5"
    } else if d == 6 {
        proof { reveal_strlit("6"); }
        "6"
    } else if d == 7 {
        proof { reveal_strlit("7"); }
        "7"
    } else if d == 8 {
        proof { reveal_strlit("8"); }
        "8"
    } else {
        proof { reveal_strlit("9"); }
        "9"
    }
}

fn append_nat_digits(out: &mut String, n: u64)
    ensures
        final(out)@ == old(out)@ + nat_digits(n as nat),
    decreases n,
{
    if n >= 10 {
        append_nat_digits(out, n / 10);
        out.append(digit_str(n % 10));
    } else {
        out.append(digit_str(n));
    }
}

/// Appends the decimal text of `n` to `out`.
pub fn append_decimal(out: &mut String, n: i32)
    ensures
        final(out)@ == old(out)@ + decimal_text(n as int),
{
    if n < 0 {
        proof { reveal_strlit("-"); }
        out.append("-");
        let magnitude: u64 = (-(n as i64)) as u64;
        append_nat_digits(out, magnitude);
        assert(final(out)@ =~= old(out)@ + decimal_text(n as int));
    } else {
        append_nat_digits(out, n as u64);
    }
}

} // verus!

verus! {

/// Joining one more name extends the joined text by a separator and that name.
pub(crate) proof fn lemma_joined_take(names: Seq<Seq<char>>, i: int)
    requires
        0 <= i < names.len(),
    ensures
        joined(names.take(i + 1)) == if i == 0 {
            names[0]
        } else {
            joined(names.take(i)) + ", "@ + names[i]
        },
{
    if i > 0 {
        assert(names.take(i + 1).drop_last() =~= names.take(i));
    }
}

/// Appends the `i`-th name of a list being joined: the separator first,
/// unless it is the first name.
pub(crate) fn append_joined(out: &mut String, i: usize, name: &str, names: Ghost<Seq<Seq<char>>>)
    requires
        i < names@.len(),
        name@ == names@[i as int],
        old(out)@ == joined(names@.take(i as int)),
    ensures
        final(out)@ == joined(names@.take(i + 1)),
{
    proof { lemma_joined_take(names@, i as int); }
    if i > 0 {
        out.append(", ");
    } else {
        assert(old(out)@ =~= Seq::<char>::empty());
    }
    out.append(name);
    assert(final(out)@ =~= joined(names@.take(i + 1)));
}

} // verus!
