//! Numbered identifiers that are not in use yet.
//!
//! An identifier is a prefix followed by a number in decimal. A new one is
//! numbered with the first number, counting up from a given one, whose
//! identifier nothing bears yet.

use crate::decimal::{decimal_string, decimal_text, decimal_value};
use crate::text::{digit_char, digit_value};
use vstd::prelude::*;
use vstd::string::*;

verus! {

/// The identifier with the given prefix and number.
pub open spec fn numbered(prefix: Seq<char>, n: nat) -> Seq<char> {
    prefix + decimal_text(n)
}

/// The characters of each of a sequence of strings.
pub open spec fn texts_view(texts: Seq<String>) -> Seq<Seq<char>> {
    texts.map_values(|t: String| t@)
}

/// The number at which counting starts: `n`, or 0 where counting up from
/// `n` past `taken` identifiers could leave the numbers of 128 bits.
pub open spec fn first_candidate(n: nat, taken: nat) -> nat {
    if n + taken <= u128::MAX {
        n
    } else {
        0
    }
}

/// The first number from `n` on whose identifier is not among `used`,
/// looking at no more than `budget` numbers beyond `n`.
pub open spec fn first_unused_from(
    used: Seq<Seq<char>>,
    prefix: Seq<char>,
    n: nat,
    budget: nat,
) -> nat
    decreases budget,
{
    if budget > 0 && used.contains(numbered(prefix, n)) {
        first_unused_from(used, prefix, n + 1, (budget - 1) as nat)
    } else {
        n
    }
}

/// The number of a new identifier: the first number, counting up from where
/// counting starts for `n`, whose identifier is not among `used`.
pub open spec fn unused_number(used: Seq<Seq<char>>, prefix: Seq<char>, n: nat) -> nat {
    first_unused_from(used, prefix, first_candidate(n, used.len()), used.len())
}

/// A number is the value of its decimal text.
pub proof fn lemma_decimal_text_value(n: nat)
    ensures
        decimal_value(decimal_text(n)) == n,
    decreases n,
{
    if n < 10 {
        let text = decimal_text(n);
        assert(text.drop_last() =~= Seq::<char>::empty());
        assert(text.last() == digit_char(n));
        assert(decimal_value(text.drop_last()) == 0);
        assert(digit_value(digit_char(n)) == n);
    } else {
        lemma_decimal_text_value(n / 10);
        let text = decimal_text(n);
        assert(text.drop_last() =~= decimal_text(n / 10));
        assert(text.last() == digit_char(n % 10));
        assert(digit_value(digit_char(n % 10)) == n % 10);
    }
}

/// Different numbers give different identifiers.
pub proof fn lemma_numbered_differ(prefix: Seq<char>, a: nat, b: nat)
    requires
        a != b,
    ensures
        numbered(prefix, a) != numbered(prefix, b),
{
    lemma_decimal_text_value(a);
    lemma_decimal_text_value(b);
    if numbered(prefix, a) == numbered(prefix, b) {
        assert(numbered(prefix, a).skip(prefix.len() as int) =~= decimal_text(a));
        assert(numbered(prefix, b).skip(prefix.len() as int) =~= decimal_text(b));
    }
}

proof fn lemma_first_unused(
    used: Seq<Seq<char>>,
    left: Seq<Seq<char>>,
    prefix: Seq<char>,
    n: nat,
    budget: nat,
)
    requires
        left.len() <= budget,
        forall|j: nat|
            j >= n && used.contains(#[trigger] numbered(prefix, j)) ==> left.contains(
                numbered(prefix, j),
            ),
    ensures
        !used.contains(numbered(prefix, first_unused_from(used, prefix, n, budget))),
    decreases budget,
{
    if used.contains(numbered(prefix, n)) {
        assert(left.contains(numbered(prefix, n)));
        let p = choose|p: int| 0 <= p < left.len() && left[p] == numbered(prefix, n);
        let rest = left.remove(p);
        assert forall|j: nat|
            j >= n + 1 && used.contains(#[trigger] numbered(prefix, j)) implies rest.contains(
            numbered(prefix, j),
        ) by {
            lemma_numbered_differ(prefix, n, j);
            assert(left.contains(numbered(prefix, j)));
            let q = choose|q: int| 0 <= q < left.len() && left[q] == numbered(prefix, j);
            if q < p {
                assert(rest[q] == left[q]);
            } else {
                assert(rest[q - 1] == left[q]);
            }
        }
        lemma_first_unused(used, rest, prefix, n + 1, (budget - 1) as nat);
    }
}

/// Nothing bears the identifier with the number of a new identifier.
pub proof fn lemma_unused_number_is_unused(used: Seq<Seq<char>>, prefix: Seq<char>, n: nat)
    ensures
        !used.contains(numbered(prefix, unused_number(used, prefix, n))),
{
    lemma_first_unused(used, used, prefix, first_candidate(n, used.len()), used.len());
}

/// Where the identifier numbered `n` is not in use, that is the number of
/// the new identifier.
pub proof fn lemma_unused_number_keeps_free_number(
    used: Seq<Seq<char>>,
    prefix: Seq<char>,
    n: nat,
)
    requires
        n + used.len() <= u128::MAX,
        !used.contains(numbered(prefix, n)),
    ensures
        unused_number(used, prefix, n) == n,
{
}

/// The identifier with the given prefix and number.
pub fn numbered_text(prefix: &str, n: u128) -> (text: String)
    ensures
        text@ == numbered(prefix@, n as nat),
{
    let mut text = String::from_str(prefix);
    text.append(decimal_string(n).as_str());
    text
}

/// Whether `text` is one of `used`.
pub fn is_used(used: &Vec<String>, text: &String) -> (found: bool)
    ensures
        found == texts_view(used@).contains(text@),
{
    let mut i: usize = 0;
    while i < used.len()
        invariant
            i <= used.len(),
            forall|k: int| 0 <= k < i ==> texts_view(used@)[k] != text@,
        decreases used.len() - i,
    {
        assert(texts_view(used@)[i as int] == used@[i as int]@);
        if used[i] == *text {
            return true;
        }
        i += 1;
    }
    false
}

/// The number of a new identifier with the given prefix, counting up from
/// `n`, when `used` are the identifiers in use.
pub fn unused_number_of(used: &Vec<String>, prefix: &str, n: u128) -> (number: u128)
    ensures
        number == unused_number(texts_view(used@), prefix@, n as nat),
{
    let taken: u128 = used.len() as u128;
    let mut number: u128 = if n <= u128::MAX - taken {
        n
    } else {
        0
    };
    let mut budget: usize = used.len();
    while budget > 0 && is_used(used, &numbered_text(prefix, number))
        invariant
            number + budget <= u128::MAX,
            first_unused_from(texts_view(used@), prefix@, number as nat, budget as nat)
                == unused_number(texts_view(used@), prefix@, n as nat),
        decreases budget,
    {
        number += 1;
        budget -= 1;
    }
    number
}

} // verus!
