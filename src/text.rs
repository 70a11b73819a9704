//! Rendering of numbers and lists into the human-readable summaries that
//! timeout errors carry.

use vstd::prelude::*;
use vstd::string::*;

verus! {

/// The character of a decimal digit.
pub open spec fn digit_char(d: nat) -> char {
    if d == 0 { '0' }
    else if d == 1 { '1' }
    else if d == 2 { '2' }
    else if d == 3 { '3' }
    else if d == 4 { '4' }
    else if d == 5 { '5' }
    else if d == 6 { '6' }
    else if d == 7 { '7' }
    else if d == 8 { '8' }
    else { '9' }
}

/// The decimal representation of `n`, without sign or leading zeros.
pub open spec fn decimal(n: nat) -> Seq<char>
    decreases n,
{
    if n < 10 {
        seq![digit_char(n)]
    } else {
        decimal(n / 10).push(digit_char(n % 10))
    }
}

fn digit_str(d: u64) -> (r: &'static str)
    requires
        d < 10,
    ensures
        r@ == seq![digit_char(d as nat)],
{
    proof {
        reveal_strlit("0");
        reveal_strlit("1");
        reveal_strlit("2");
        reveal_strlit("3");
        reveal_strlit("4");
        reveal_strlit("5");
        reveal_strlit("6");
        reveal_strlit("7");
        reveal_strlit("8");
        reveal_strlit("9");
    }
    if d == 0 { "0" }
    else if d == 1 { "1" }
    else if d == 2 { "2" }
    else if d == 3 { "3" }
    else if d == 4 { "4" }
    else if d == 5 { "5" }
    else if d == 6 { "6" }
    else if d == 7 { "7" }
    else if d == 8 { "8" }
    else { "9" }
}

/// Appends the decimal representation of `n` to `out`.
pub fn push_decimal(out: &mut String, n: u64)
    ensures
        final(out)@ == old(out)@ + decimal(n as nat),
    decreases n,
{
    if n < 10 {
        out.append(digit_str(n));
    } else {
        push_decimal(out, n / 10);
        out.append(digit_str(n % 10));
        proof {
            assert(old(out)@ + decimal(n as nat) =~= old(out)@ + decimal((n / 10) as nat) + seq![digit_char((n % 10) as nat)]);
        }
    }
}

/// The decimal representation of `n` as a new string.
pub fn decimal_string(n: u64) -> (s: String)
    ensures
        s@ == decimal(n as nat),
{
    let mut s = String::new();
    push_decimal(&mut s, n);
    proof {
        assert(s@ =~= decimal(n as nat));
    }
    s
}

/// The parts separated by `sep`.
pub open spec fn join(parts: Seq<Seq<char>>, sep: Seq<char>) -> Seq<char>
    decreases parts.len(),
{
    if parts.len() == 0 {
        seq![]
    } else if parts.len() == 1 {
        parts[0]
    } else {
        join(parts.drop_last(), sep) + sep + parts.last()
    }
}

/// `", "`.
pub open spec fn comma_sep() -> Seq<char> {
    seq![',', ' ']
}

/// Every part stands in the joined text, at the place where the parts
/// before it and their separators end.
pub proof fn lemma_join_contains(parts: Seq<Seq<char>>, sep: Seq<char>, i: int)
    requires
        0 <= i < parts.len(),
    ensures
        exists|off: int| 0 <= off && off + parts[i].len() <= join(parts, sep).len()
            && #[trigger] join(parts, sep).subrange(off, off + parts[i].len()) == parts[i],
    decreases parts.len(),
{
    let j = join(parts, sep);
    if parts.len() == 1 {
        assert(j.subrange(0, parts[i].len() as int) =~= parts[i]);
        let off: int = 0;
        assert(0 <= off && off + parts[i].len() <= j.len() && j.subrange(off, off + parts[i].len()) == parts[i]);
    } else if i == parts.len() - 1 {
        let rest = join(parts.drop_last(), sep);
        assert(j == rest + sep + parts.last());
        let off = j.len() - parts[i].len();
        assert(j.subrange(off, off + parts[i].len()) =~= parts[i]);
        assert(0 <= off && off + parts[i].len() <= j.len() && j.subrange(off, off + parts[i].len()) == parts[i]);
    } else {
        let rest = join(parts.drop_last(), sep);
        lemma_join_contains(parts.drop_last(), sep, i);
        let off = choose|off: int| 0 <= off && off + parts[i].len() <= rest.len()
            && #[trigger] rest.subrange(off, off + parts.drop_last()[i].len()) == parts.drop_last()[i];
        assert(j == rest + sep + parts.last());
        assert(parts.drop_last()[i] == parts[i]);
        assert(j.subrange(off, off + parts[i].len()) =~= rest.subrange(off, off + parts[i].len()));
        assert(0 <= off && off + parts[i].len() <= j.len() && j.subrange(off, off + parts[i].len()) == parts[i]);
    }
}

} // verus!
