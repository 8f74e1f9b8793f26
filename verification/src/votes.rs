//! Taking votes back from witnesses.

use crate::address::Address;
use crate::ledger::{tallied, tally_underflows, votes_for, votes_wf, witness_keys, Ledger};
use crate::records::{Vote, Witness};
use crate::state::State;
use vstd::prelude::*;

verus! {

/// The sum over one more vote is the sum so far plus that vote, where it
/// went to `witness`.
pub proof fn lemma_votes_for_step(votes: Seq<Vote>, i: int, witness: Address)
    requires
        0 <= i < votes.len(),
    ensures
        votes_for(votes.take(i + 1), witness) == votes_for(votes.take(i), witness) + (if votes[i]
            .vote_address == witness {
            votes[i].vote_count as int
        } else {
            0
        }),
{
    assert(votes.take(i + 1).drop_last() =~= votes.take(i));
}

/// Where no vote is negative, the sum over the first `i` votes is not
/// negative, not above `i` times the largest count, and not above the sum
/// over all votes.
pub proof fn lemma_votes_for_bounds(votes: Seq<Vote>, i: int, witness: Address)
    requires
        0 <= i <= votes.len(),
        forall|j: int| 0 <= j < votes.len() ==> (#[trigger] votes[j]).vote_count >= 0,
    ensures
        0 <= votes_for(votes.take(i), witness) <= i * i64::MAX,
        votes_for(votes.take(i), witness) <= votes_for(votes, witness),
    decreases votes.len() - i,
{
    lemma_votes_for_prefix(votes, i, witness);
    if i < votes.len() {
        lemma_votes_for_bounds(votes, i + 1, witness);
        lemma_votes_for_step(votes, i, witness);
    } else {
        assert(votes.take(i) =~= votes);
    }
}

proof fn lemma_votes_for_prefix(votes: Seq<Vote>, i: int, witness: Address)
    requires
        0 <= i <= votes.len(),
        forall|j: int| 0 <= j < votes.len() ==> (#[trigger] votes[j]).vote_count >= 0,
    ensures
        0 <= votes_for(votes.take(i), witness) <= i * i64::MAX,
    decreases i,
{
    if i > 0 {
        lemma_votes_for_prefix(votes, i - 1, witness);
        lemma_votes_for_step(votes, i - 1, witness);
    }
}

/// A witness that no vote names got no votes.
pub proof fn lemma_votes_for_absent(votes: Seq<Vote>, witness: Address)
    requires
        forall|j: int| 0 <= j < votes.len() ==> (#[trigger] votes[j]).vote_address != witness,
    ensures
        votes_for(votes, witness) == 0,
    decreases votes.len(),
{
    if votes.len() > 0 {
        lemma_votes_for_absent(votes.drop_last(), witness);
    }
}

/// Adds up the votes in `votes` that went to `witness`.
pub fn votes_cast_for(votes: &Vec<Vote>, witness: &Address) -> (total: i128)
    requires
        forall|j: int| 0 <= j < votes@.len() ==> (#[trigger] votes@[j]).vote_count >= 0,
    ensures
        total == votes_for(votes@, *witness),
        0 <= total <= votes@.len() * i64::MAX,
{
    let mut total: i128 = 0;
    let mut i: usize = 0;
    while i < votes.len()
        invariant
            i <= votes@.len(),
            forall|j: int| 0 <= j < votes@.len() ==> (#[trigger] votes@[j]).vote_count >= 0,
            total == votes_for(votes@.take(i as int), *witness),
            0 <= total <= i * i64::MAX,
        decreases votes@.len() - i,
    {
        proof {
            lemma_votes_for_step(votes@, i as int, *witness);
        }
        if votes[i].vote_address.same(witness) {
            total = total + votes[i].vote_count as i128;
        }
        i += 1;
    }
    proof {
        assert(votes@.take(votes@.len() as int) =~= votes@);
    }
    total
}

/// Whether taking `votes` back would push the tally of some witness below
/// what an `i64` holds.
pub fn tally_would_underflow(state: &State, votes: &Vec<Vote>) -> (b: bool)
    requires
        state.wf(),
        votes_wf(votes@, state@.witnesses),
    ensures
        b == tally_underflows(state@.witnesses, votes@),
{
    let mut i: usize = 0;
    while i < votes.len()
        invariant
            i <= votes@.len(),
            state.wf(),
            votes_wf(votes@, state@.witnesses),
            forall|j: int|
                0 <= j < i ==> state@.witnesses[(#[trigger] votes@[j]).vote_address].vote_count
                    - votes_for(votes@, votes@[j].vote_address) >= i64::MIN,
        decreases votes@.len() - i,
    {
        let witness = votes[i].vote_address;
        let total: i128 = votes_cast_for(votes, &witness);
        let tally = state.must_get_witness(&witness);
        if (tally.vote_count as i128) - total < i64::MIN as i128 {
            return true;
        }
        i += 1;
    }
    proof {
        assert forall|w: Address| #[trigger]
            state@.witnesses.contains_key(w) implies state@.witnesses[w].vote_count - votes_for(
            votes@,
            w,
        ) >= i64::MIN by {
            if exists|j: int| 0 <= j < votes@.len() && (#[trigger] votes@[j]).vote_address == w {
                let j = choose|j: int|
                    0 <= j < votes@.len() && (#[trigger] votes@[j]).vote_address == w;
                assert(votes@[j].vote_address == w);
            } else {
                lemma_votes_for_absent(votes@, w);
            }
        }
    }
    false
}

/// Takes every vote in `votes` back from the witness it went to.
pub fn take_back_votes(state: &mut State, votes: &Vec<Vote>)
    requires
        old(state).wf(),
        votes_wf(votes@, old(state)@.witnesses),
        !tally_underflows(old(state)@.witnesses, votes@),
    ensures
        final(state).wf(),
        final(state)@ == (Ledger {
            witnesses: tallied(old(state)@.witnesses, votes@),
            ..old(state)@
        }),
        final(state).written() == old(state).written() + witness_keys(votes@),
{
    let ghost before = state@;
    let ghost written = state.written();
    let mut i: usize = 0;
    while i < votes.len()
        invariant
            i <= votes@.len(),
            state.wf(),
            before.wf(),
            votes_wf(votes@, before.witnesses),
            !tally_underflows(before.witnesses, votes@),
            state@ == (Ledger {
                witnesses: tallied(before.witnesses, votes@.take(i as int)),
                ..before
            }),
            state.written() == written + witness_keys(votes@.take(i as int)),
        decreases votes@.len() - i,
    {
        let witness = votes[i].vote_address;
        let count: i64 = votes[i].vote_count;
        proof {
            lemma_votes_for_bounds(votes@, i as int, witness);
            lemma_votes_for_bounds(votes@, i + 1, witness);
            lemma_votes_for_step(votes@, i as int, witness);
        }
        let tally = state.must_get_witness(&witness);
        state.put_witness(witness, Witness { vote_count: tally.vote_count - count });
        proof {
            assert forall|w: Address| #[trigger] before.witnesses.contains_key(w) implies tallied(
                before.witnesses,
                votes@.take(i + 1),
            )[w] == state@.witnesses[w] by {
                lemma_votes_for_step(votes@, i as int, w);
            }
        }
        i += 1;
    }
    proof {
        assert(votes@.take(votes@.len() as int) =~= votes@);
    }
}

} // verus!
