//! The protocol's configuration: its admin, its operators and the waits
//! before finished records may be closed.
use vstd::prelude::*;

use crate::error::CustomError;
use crate::pubkey::{cmp_pubkeys, Pubkey};

verus! {

/// The configuration record. The admin manages the operators; the operators
/// manage the whitelist and the waits.
#[derive(Clone, Debug, PartialEq, Eq)]
pub struct Config {
    /// Room kept for later fields.
    pub _reserve: [u128; 7],
    /// The admin of the protocol.
    pub admin: Pubkey,
    /// How long after a settled trade's timeout anyone may close it.
    pub close_trade_duration: u64,
    /// How long after a payment its receipt may be closed.
    pub close_payment_duration: u64,
    /// The operators of the protocol, in the order in which they were added.
    pub operators: Vec<Pubkey>,
}

/// The test that a key passes when it is not `operator`.
pub open spec fn is_other(operator: Pubkey) -> spec_fn(Pubkey) -> bool {
    |key: Pubkey| key != operator
}

/// The operators among the first `n` that are not `operator`, in order.
pub open spec fn others_before(operators: Seq<Pubkey>, n: usize, operator: Pubkey) -> Seq<Pubkey> {
    operators.take(n as int).filter(is_other(operator))
}

proof fn lemma_others_none(operators: Seq<Pubkey>, operator: Pubkey)
    ensures
        others_before(operators, 0, operator) == Seq::<Pubkey>::empty(),
{
    reveal(Seq::filter);
    assert(operators.take(0) =~= Seq::<Pubkey>::empty());
}

proof fn lemma_others_step(operators: Seq<Pubkey>, n: usize, operator: Pubkey)
    requires
        n < operators.len(),
        n < usize::MAX,
    ensures
        operators[n as int] != operator ==> others_before(operators, (n + 1) as usize, operator)
            == others_before(operators, n, operator).push(operators[n as int]),
        operators[n as int] == operator ==> others_before(operators, (n + 1) as usize, operator)
            == others_before(operators, n, operator),
{
    reveal(Seq::filter);
    let seen = operators.take(n as int);
    let next = operators.take(n + 1);
    assert(next.drop_last() =~= seen);
    assert(next.last() == operators[n as int]);
}

proof fn lemma_others_all(operators: Seq<Pubkey>, n: usize, operator: Pubkey)
    requires
        n == operators.len(),
    ensures
        others_before(operators, n, operator) == operators.filter(is_other(operator)),
        !others_before(operators, n, operator).contains(operator),
        operators.no_duplicates() ==> others_before(operators, n, operator).no_duplicates(),
        others_before(operators, n, operator).len() <= operators.len(),
{
    let others = is_other(operator);
    let kept = operators.filter(others);
    assert(operators.take(n as int) =~= operators);
    operators.lemma_filter_len(others);
    assert forall|j: int| 0 <= j < kept.len() implies kept[j] != operator by {
        operators.lemma_filter_pred(others, j);
    }
    if operators.no_duplicates() {
        lemma_others_stay_distinct(operators, operator);
    }
}

proof fn lemma_others_stay_distinct(operators: Seq<Pubkey>, operator: Pubkey)
    requires
        operators.no_duplicates(),
    ensures
        operators.filter(is_other(operator)).no_duplicates(),
    decreases operators.len(),
{
    reveal(Seq::filter);
    let others = is_other(operator);
    if operators.len() > 0 {
        let front = operators.drop_last();
        let kept = front.filter(others);
        lemma_others_stay_distinct(front, operator);
        if others(operators.last()) {
            assert forall|i: int| 0 <= i < kept.len() implies kept[i] != operators.last() by {
                assert(kept.contains(kept[i]));
                front.lemma_filter_contains_rev(others, kept[i]);
                let j = choose|j: int| 0 <= j < front.len() && front[j] == kept[i];
                assert(operators[j] == kept[i]);
            }
        }
    }
}

impl Config {
    /// The largest number of operators.
    pub const OPERATORS_SIZE: usize = 3;

    /// The bytes that the record takes on the ledger.
    pub const SPACE: usize = 8 + 16 * 7 + 32 + 8 + 8 + 4 + 3 * 32;

    /// The seed of the record's address: the text `config`.
    pub const SEED: [u8; 6] = [99, 111, 110, 102, 105, 103];

    /// No operator is listed twice, and no more than `OPERATORS_SIZE` are
    /// listed.
    pub open spec fn wf(&self) -> bool {
        &&& self.operators@.no_duplicates()
        &&& self.operators@.len() <= Config::OPERATORS_SIZE
    }

    /// Whether the key is one of the operators.
    pub open spec fn has_operator(&self, key: Pubkey) -> bool {
        self.operators@.contains(key)
    }

    /// Whether two records differ in nothing but their operators.
    pub open spec fn same_settings(&self, other: &Config) -> bool {
        &&& self._reserve == other._reserve
        &&& self.admin == other.admin
        &&& self.close_trade_duration == other.close_trade_duration
        &&& self.close_payment_duration == other.close_payment_duration
    }

    /// Tells whether the key is one of the operators.
    pub fn is_operator(&self, key: &Pubkey) -> (found: bool)
        ensures
            found == self.has_operator(*key),
    {
        let mut i: usize = 0;
        while i < self.operators.len()
            invariant
                i <= self.operators@.len(),
                forall|j: int| 0 <= j < i ==> self.operators@[j] != *key,
            decreases self.operators@.len() - i,
        {
            if cmp_pubkeys(&self.operators[i], key) {
                return true;
            }
            i += 1;
        }
        false
    }

    /// Adds an operator at the end of the list. A key that is listed is
    /// rejected with `OperatorAlreadyExists`, a fourth operator with
    /// `OperatorLimitReached`.
    pub fn add_operator(&mut self, operator: Pubkey) -> (r: Result<(), CustomError>)
        ensures
            old(self).has_operator(operator) ==> r == Err::<(), CustomError>(
                CustomError::OperatorAlreadyExists,
            ),
            !old(self).has_operator(operator) && old(self).operators@.len()
                >= Config::OPERATORS_SIZE ==> r == Err::<(), CustomError>(
                CustomError::OperatorLimitReached,
            ),
            !old(self).has_operator(operator) && old(self).operators@.len()
                < Config::OPERATORS_SIZE ==> r == Ok::<(), CustomError>(()),
            r is Ok ==> final(self).operators@ == old(self).operators@.push(operator),
            r is Err ==> final(self).operators@ == old(self).operators@,
            final(self).same_settings(old(self)),
            old(self).wf() ==> final(self).wf(),
    {
        if self.is_operator(&operator) {
            return Err(CustomError::OperatorAlreadyExists);
        }
        if self.operators.len() >= Config::OPERATORS_SIZE {
            return Err(CustomError::OperatorLimitReached);
        }
        self.operators.push(operator);
        proof {
            if old(self).wf() {
                let before = old(self).operators@;
                let after = self.operators@;
                assert forall|i: int, j: int|
                    0 <= i < after.len() && 0 <= j < after.len() && i != j implies after[i]
                    != after[j] by {
                    if i < before.len() && j < before.len() {
                        assert(before[i] != before[j]);
                    } else if i < before.len() {
                        assert(before.contains(before[i]));
                    } else {
                        assert(before.contains(before[j]));
                    }
                }
            }
        }
        Ok(())
    }

    /// Removes an operator from the list and keeps the order of the others.
    /// A key that is not listed is rejected with `OperatorNotFound`.
    pub fn remove_operator(&mut self, operator: Pubkey) -> (r: Result<(), CustomError>)
        ensures
            !old(self).has_operator(operator) ==> r == Err::<(), CustomError>(
                CustomError::OperatorNotFound,
            ),
            old(self).has_operator(operator) ==> r == Ok::<(), CustomError>(()),
            r is Ok ==> final(self).operators@ == old(self).operators@.filter(is_other(operator)),
            r is Ok ==> !final(self).has_operator(operator),
            r is Err ==> final(self).operators@ == old(self).operators@,
            final(self).same_settings(old(self)),
            old(self).wf() ==> final(self).wf(),
    {
        if !self.is_operator(&operator) {
            return Err(CustomError::OperatorNotFound);
        }
        let mut kept: Vec<Pubkey> = Vec::new();
        let mut i: usize = 0;
        proof {
            lemma_others_none(self.operators@, operator);
        }
        while i < self.operators.len()
            invariant
                i <= self.operators@.len(),
                kept@ == others_before(self.operators@, i, operator),
            decreases self.operators@.len() - i,
        {
            proof {
                lemma_others_step(self.operators@, i, operator);
            }
            if !cmp_pubkeys(&self.operators[i], &operator) {
                kept.push(self.operators[i]);
            }
            i += 1;
        }
        proof {
            lemma_others_all(self.operators@, i, operator);
        }
        self.operators = kept;
        Ok(())
    }

    /// Sets the wait before anyone may close a settled trade; `None` leaves
    /// it as it is.
    pub fn set_close_trade_duration(&mut self, duration: Option<u64>) -> (r: Result<
        (),
        CustomError,
    >)
        ensures
            r == Ok::<(), CustomError>(()),
            final(self).close_trade_duration == (match duration {
                Some(seconds) => seconds,
                None => old(self).close_trade_duration,
            }),
            final(self)._reserve == old(self)._reserve,
            final(self).admin == old(self).admin,
            final(self).close_payment_duration == old(self).close_payment_duration,
            final(self).operators == old(self).operators,
    {
        if let Some(duration) = duration {
            self.close_trade_duration = duration;
        }
        Ok(())
    }

    /// Sets the wait before a payment receipt may be closed; `None` leaves
    /// it as it is.
    pub fn set_close_payment_duration(&mut self, duration: Option<u64>) -> (r: Result<
        (),
        CustomError,
    >)
        ensures
            r == Ok::<(), CustomError>(()),
            final(self).close_payment_duration == (match duration {
                Some(seconds) => seconds,
                None => old(self).close_payment_duration,
            }),
            final(self)._reserve == old(self)._reserve,
            final(self).admin == old(self).admin,
            final(self).close_trade_duration == old(self).close_trade_duration,
            final(self).operators == old(self).operators,
    {
        if let Some(duration) = duration {
            self.close_payment_duration = duration;
        }
        Ok(())
    }
}

} // verus!
