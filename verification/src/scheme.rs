//! The path scheme: a pure derivation rule mapping a base directory, a
//! logical directory name, a digit width and a partition index to one
//! filesystem path.
//!
//! For index `0` the path is `base/name`; for a positive index it is
//! `base/divided/<zero-padded index>/name`.  The derivation is a pure
//! function of its four inputs: no hidden state and no normalization.

use vstd::prelude::*;

verus! {

/// The character for a single decimal digit value.
pub open spec fn digit_char(d: nat) -> char {
    if d == 0 {
        '0'
    } else if d == 1 {
        '1'
    } else if d == 2 {
        '2'
    } else if d == 3 {
        '3'
    } else if d == 4 {
        '4'
    } else if d == 5 {
        '5'
    } else if d == 6 {
        '6'
    } else if d == 7 {
        '7'
    } else if d == 8 {
        '8'
    } else {
        '9'
    }
}

/// The decimal numeral of `n`, most significant digit first, with no sign
/// and no leading zeros (except for `n == 0`, which is rendered as "0").
pub open spec fn decimal(n: nat) -> Seq<char>
    decreases n,
{
    if n < 10 {
        seq![digit_char(n)]
    } else {
        decimal(n / 10) + seq![digit_char(n % 10)]
    }
}

/// The decimal numeral of `n`, left-padded with '0' up to `width`
/// characters.  A numeral longer than `width` is never truncated: it
/// simply grows beyond the requested width.
pub open spec fn padded(n: nat, width: nat) -> Seq<char> {
    if decimal(n).len() >= width {
        decimal(n)
    } else {
        Seq::new((width - decimal(n).len()) as nat, |i: int| '0') + decimal(n)
    }
}

/// `base` and `child` joined with a single '/' separator: the separator is
/// omitted when `base` is empty or already ends with '/'.
pub open spec fn joined(base: Seq<char>, child: Seq<char>) -> Seq<char> {
    if base.len() == 0 {
        child
    } else if base.last() == '/' {
        base + child
    } else {
        base + seq!['/'] + child
    }
}

/// The path of the directory `name` under `base`, at partition index
/// `idx`: `base/name` for index 0, otherwise
/// `base/divided/<idx padded to digits characters>/name`.
pub open spec fn resolved(base: Seq<char>, name: Seq<char>, digits: nat, idx: nat) -> Seq<char> {
    if idx == 0 {
        joined(base, name)
    } else {
        joined(joined(joined(base, "divided"@), padded(idx, digits)), name)
    }
}

/// Law: the path derivation is deterministic.  Two resolutions of the
/// same base, name, digit width and index yield the same path; the rule
/// has no hidden state.
pub proof fn lemma_resolved_deterministic(
    base: Seq<char>,
    name: Seq<char>,
    digits: nat,
    idx: nat,
    r1: Seq<char>,
    r2: Seq<char>,
)
    requires
        r1 == resolved(base, name, digits, idx),
        r2 == resolved(base, name, digits, idx),
    ensures
        r1 == r2,
{
}

/// Law: at partition index 0 the resolved path is the plain join of the
/// base and the name, whatever the digit width.
pub proof fn lemma_resolved_at_zero(base: Seq<char>, name: Seq<char>, digits: nat)
    ensures
        resolved(base, name, digits, 0) == joined(base, name),
{
}

/// A decimal numeral is never empty and never contains the path
/// separator.
pub proof fn lemma_decimal_no_separator(n: nat)
    ensures
        decimal(n).len() >= 1,
        forall|k: int| 0 <= k < decimal(n).len() ==> decimal(n)[k] != '/',
    decreases n,
{
    if n >= 10 {
        lemma_decimal_no_separator(n / 10);
    }
}

/// Law: the padded index segment is the decimal numeral of the index,
/// left-padded with '0' to exactly `width` characters, or longer when the
/// numeral itself overflows the width — never truncated.
pub proof fn lemma_padded_shape(n: nat, width: nat)
    ensures
        padded(n, width).len() == if decimal(n).len() >= width {
            decimal(n).len()
        } else {
            width
        },
        padded(n, width).len() >= width,
        padded(n, width).subrange(
            padded(n, width).len() - decimal(n).len(),
            padded(n, width).len() as int,
        ) == decimal(n),
        forall|k: int|
            0 <= k < padded(n, width).len() - decimal(n).len() ==> padded(n, width)[k] == '0',
        padded(n, width).len() >= 1,
        forall|k: int| 0 <= k < padded(n, width).len() ==> padded(n, width)[k] != '/',
{
    lemma_decimal_no_separator(n);
    assert(padded(n, width).subrange(
        padded(n, width).len() - decimal(n).len(),
        padded(n, width).len() as int,
    ) =~= decimal(n));
}

/// Joining a non-empty `child` keeps its final character as the final
/// character of the result.
proof fn lemma_joined_keeps_last(base: Seq<char>, child: Seq<char>)
    requires
        child.len() > 0,
    ensures
        joined(base, child).len() > 0,
        joined(base, child).last() == child.last(),
{
}

/// Law: for a positive partition index the resolved path splits into the
/// base joined with the `divided` segment, a separator, the zero-padded
/// index segment, a separator, and the name — so the padded index always
/// stands as a path segment of its own.
pub proof fn lemma_resolved_divided_structure(
    base: Seq<char>,
    name: Seq<char>,
    digits: nat,
    idx: nat,
)
    requires
        idx > 0,
    ensures
        resolved(base, name, digits, idx) == joined(base, "divided"@) + seq!['/'] + padded(
            idx,
            digits,
        ) + seq!['/'] + name,
{
    reveal_strlit("divided");
    lemma_padded_shape(idx, digits);
    let dv = "divided"@;
    let x = joined(base, dv);
    lemma_joined_keeps_last(base, dv);
    assert(x.last() == 'd');
    let p = padded(idx, digits);
    assert(joined(x, p) == x + seq!['/'] + p);
    lemma_joined_keeps_last(x, p);
    let y = joined(x, p);
    assert(y.last() == p.last());
    assert(p.last() != '/');
    assert(joined(y, name) == y + seq!['/'] + name);
    assert(y + seq!['/'] + name =~= x + seq!['/'] + p + seq!['/'] + name);
}

/// The one-character string for a decimal digit value.
fn digit_str(d: usize) -> (r: &'static str)
    requires
        d < 10,
    ensures
        r@ == seq![digit_char(d as nat)],
{
    proof {
        reveal_strlit("0");
        reveal_strlit("1");
        reveal_strlit("2");
        reveal_strlit("3");
        reveal_strlit("4");
        reveal_strlit("5");
        reveal_strlit("6");
        reveal_strlit("7");
        reveal_strlit("8");
        reveal_strlit("9");
    }
    let r = match d {
        0 => "0",
        1 => "1",
        2 => "2",
        3 => "3",
        4 => "4",
        5 => "5",
        6 => "6",
        7 => "7",
        8 => "8",
        _ => "9",
    };
    proof {
        assert(r@ =~= seq![digit_char(d as nat)]);
    }
    r
}

/// The decimal numeral of `n` as a string.
pub fn numeral(n: usize) -> (r: String)
    ensures
        r@ == decimal(n as nat),
    decreases n,
{
    if n < 10 {
        String::from_str(digit_str(n))
    } else {
        let mut s = numeral(n / 10);
        s.append(digit_str(n % 10));
        s
    }
}

/// The decimal numeral of `n`, left-padded with '0' to `width` characters;
/// never truncated when the numeral is longer than `width`.
pub fn zero_padded(n: usize, width: usize) -> (r: String)
    ensures
        r@ == padded(n as nat, width as nat),
{
    let num = numeral(n);
    let numlen = num.as_str().unicode_len();
    if numlen >= width {
        num
    } else {
        let pad_count: usize = width - numlen;
        let mut r = String::new();
        let mut i: usize = 0;
        while i < pad_count
            invariant
                i <= pad_count,
                r@ =~= Seq::new(i as nat, |j: int| '0'),
            decreases pad_count - i,
        {
            r.append("0");
            proof {
                reveal_strlit("0");
                assert(r@ =~= Seq::new((i + 1) as nat, |j: int| '0'));
            }
            i = i + 1;
        }
        r.append(num.as_str());
        proof {
            assert(r@ =~= padded(n as nat, width as nat));
        }
        r
    }
}

/// `base` and `child` joined with a single '/' separator.
pub fn join(base: &str, child: &str) -> (r: String)
    ensures
        r@ == joined(base@, child@),
{
    let blen = base.unicode_len();
    if blen == 0 {
        child.to_owned()
    } else if base.get_char(blen - 1) == '/' {
        let mut r = base.to_owned();
        r.append(child);
        r
    } else {
        let mut r = base.to_owned();
        r.append("/");
        r.append(child);
        proof {
            reveal_strlit("/");
            assert(r@ =~= joined(base@, child@));
        }
        r
    }
}

/// The path of the directory `name` under `base`, at partition index
/// `idx`, with the index zero-padded to `digits` characters.
pub fn resolve(base: &str, name: &str, digits: usize, idx: u32) -> (r: String)
    ensures
        r@ == resolved(base@, name@, digits as nat, idx as nat),
{
    if idx == 0 {
        join(base, name)
    } else {
        let divided = join(base, "divided");
        let indexed = join(divided.as_str(), zero_padded(idx as usize, digits).as_str());
        join(indexed.as_str(), name)
    }
}

} // verus!
