//! An in-memory key generator.
//!
//! The reference implementation of [`KeyGenerationService`]: it hands out the
//! decimal representation of a counter, so every key it issues is distinct.
//! It serves tests and single-process deployments.

use vstd::arithmetic::div_mod::lemma_fundamental_div_mod;
use vstd::prelude::*;

use crate::key_generator::{GeneratorError, KeyGenerationService};

verus! {

/// The decimal digit character for a value below ten.
pub open spec fn digit_char(d: nat) -> char
    recommends
        d < 10,
{
    "0123456789"@[d as int]
}

/// The decimal representation of a number, most significant digit first.
pub open spec fn dec_chars(n: nat) -> Seq<char>
    decreases n,
{
    if n < 10 {
        seq![digit_char(n)]
    } else {
        dec_chars(n / 10).push(digit_char(n % 10))
    }
}

proof fn lemma_digit_char_injective(a: nat, b: nat)
    requires
        a < 10,
        b < 10,
        digit_char(a) == digit_char(b),
    ensures
        a == b,
{
    reveal_strlit("0123456789");
}

proof fn lemma_dec_chars_len(n: nat)
    ensures
        dec_chars(n).len() >= 1,
        n >= 10 ==> dec_chars(n).len() >= 2,
    decreases n,
{
    if n >= 10 {
        lemma_dec_chars_len(n / 10);
    }
}

proof fn lemma_dec_chars_injective(a: nat, b: nat)
    requires
        dec_chars(a) == dec_chars(b),
    ensures
        a == b,
    decreases a + b,
{
    lemma_dec_chars_len(a);
    lemma_dec_chars_len(b);
    if a < 10 && b < 10 {
        assert(dec_chars(a)[0] == digit_char(a));
        assert(dec_chars(b)[0] == digit_char(b));
        lemma_digit_char_injective(a, b);
    } else if a >= 10 && b >= 10 {
        assert(dec_chars(a).last() == digit_char(a % 10));
        assert(dec_chars(b).last() == digit_char(b % 10));
        lemma_digit_char_injective(a % 10, b % 10);
        assert(dec_chars(a).drop_last() =~= dec_chars(a / 10));
        assert(dec_chars(b).drop_last() =~= dec_chars(b / 10));
        assert(a / 10 < a) by (nonlinear_arith)
            requires
                a >= 10,
        ;
        assert(b / 10 < b) by (nonlinear_arith)
            requires
                b >= 10,
        ;
        lemma_dec_chars_injective(a / 10, b / 10);
        lemma_fundamental_div_mod(a as int, 10);
        lemma_fundamental_div_mod(b as int, 10);
    }
}

/// Formats a number in decimal.
pub fn u64_to_dec(n: u64) -> (r: String)
    ensures
        r@ == dec_chars(n as nat),
    decreases n,
{
    let digits = "0123456789";
    proof {
        reveal_strlit("0123456789");
        assert(digits.is_ascii());
    }
    let d = (n % 10) as usize;
    let ds = digits.substring_ascii(d, d + 1);
    proof {
        assert(ds@ =~= seq![digit_char((n % 10) as nat)]);
    }
    if n < 10 {
        ds.to_owned()
    } else {
        let mut prefix = u64_to_dec(n / 10);
        prefix.append(ds);
        proof {
            assert(prefix@ =~= dec_chars((n / 10) as nat).push(digit_char((n % 10) as nat)));
        }
        prefix
    }
}

/// A key generator that issues the decimal representations of a counter.
pub struct CounterKeyGenerator {
    next_value: u64,
}

impl CounterKeyGenerator {
    /// A generator whose first key is `0`; nothing is issued yet.
    pub fn new() -> (r: Self)
        ensures
            r.issued() == Set::<Seq<char>>::empty(),
    {
        let r = CounterKeyGenerator { next_value: 0 };
        proof {
            assert(r.issued() =~= Set::<Seq<char>>::empty());
        }
        r
    }

    /// A generator whose first key is the decimal representation of `first`;
    /// the representations of all smaller values count as already issued.
    pub fn starting_at(first: u64) -> (r: Self)
        ensures
            r.issued() == Set::new(
                (|s: Seq<char>| exists|i: u64| i < first && s == dec_chars(i as nat)),
            ),
    {
        CounterKeyGenerator { next_value: first }
    }
}

impl KeyGenerationService for CounterKeyGenerator {
    closed spec fn issued(&self) -> Set<Seq<char>> {
        Set::new(|s: Seq<char>| exists|i: u64| i < self.next_value && s == dec_chars(i as nat))
    }

    fn generate_key(&mut self) -> (r: Result<String, GeneratorError>) {
        if self.next_value == u64::MAX {
            return Err(GeneratorError::UnknownError(String::from_str("key space exhausted")));
        }
        let key = u64_to_dec(self.next_value);
        let ghost c = self.next_value;
        self.next_value = self.next_value + 1;
        proof {
            lemma_dec_chars_len(c as nat);
            if old(self).issued().contains(key@) {
                let i = choose|i: u64| i < c && key@ == dec_chars(i as nat);
                lemma_dec_chars_injective(i as nat, c as nat);
            }
            assert forall|s: Seq<char>|
                self.issued().contains(s) <==> old(self).issued().insert(key@).contains(s) by {
                if self.issued().contains(s) {
                    let i = choose|i: u64| i < c + 1 && s == dec_chars(i as nat);
                    if i < c {
                        assert(old(self).issued().contains(s));
                    } else {
                        assert(s == key@);
                    }
                }
                if old(self).issued().insert(key@).contains(s) {
                    if s == key@ {
                        assert(c < self.next_value && s == dec_chars(c as nat));
                    } else {
                        let i = choose|i: u64| i < c && s == dec_chars(i as nat);
                        assert(i < self.next_value && s == dec_chars(i as nat));
                    }
                }
            }
            assert(self.issued() =~= old(self).issued().insert(key@));
        }
        Ok(key)
    }
}

} // verus!
