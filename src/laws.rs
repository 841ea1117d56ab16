use vstd::prelude::*;
use crate::counter::{
    count_down, count_up, initialize_step, mutation_step, Arithmetic, CounterAccount,
    CounterError, Initialize, Signer,
};
use crate::derivation::counter_address;

verus! {

/// Creating a record twice: the second request fails with `AlreadyExists`
/// and leaves the first request's record (owned by the payer, counting
/// zero) in place.
pub proof fn lemma_create_twice(ctx: Initialize, derived: Option<Seq<u8>>)
    requires
        initialize_step(ctx, derived).1 is Ok,
    ensures
        ({
            let first = initialize_step(ctx, derived).0;
            let second = initialize_step(first, derived);
            &&& first.counter.record == Some(CounterAccount { authority: ctx.user.key, count: 0 })
            &&& second.1 == Err::<(), CounterError>(CounterError::AlreadyExists)
            &&& second.0 == first
        }),
{
}

/// An increment followed by a decrement, by the same signer, restores the
/// record whenever the increment succeeded.
pub proof fn lemma_increment_then_decrement(record: CounterAccount, signer: Signer, mode: Arithmetic)
    requires
        mutation_step(record, signer, count_up(record.count, mode)).1 is Ok,
    ensures
        ({
            let up = mutation_step(record, signer, count_up(record.count, mode)).0;
            mutation_step(up, signer, count_down(up.count, mode)) == (record, Ok::<(), CounterError>(()))
        }),
{
}

/// A decrement followed by an increment, by the same signer, restores the
/// record whenever the decrement succeeded.
pub proof fn lemma_decrement_then_increment(record: CounterAccount, signer: Signer, mode: Arithmetic)
    requires
        mutation_step(record, signer, count_down(record.count, mode)).1 is Ok,
    ensures
        ({
            let down = mutation_step(record, signer, count_down(record.count, mode)).0;
            mutation_step(down, signer, count_up(down.count, mode)) == (record, Ok::<(), CounterError>(()))
        }),
{
}

/// A request signed by anyone but the owner is refused with `Unauthorized`
/// and leaves the record unchanged, for increment and decrement alike.
pub proof fn lemma_non_owner_refused(record: CounterAccount, signer: Signer, mode: Arithmetic)
    requires
        signer.is_signer,
        signer.key@ != record.authority@,
    ensures
        mutation_step(record, signer, count_up(record.count, mode)) == (record, Err::<(), CounterError>(CounterError::Unauthorized)),
        mutation_step(record, signer, count_down(record.count, mode)) == (record, Err::<(), CounterError>(CounterError::Unauthorized)),
{
}

/// No mutation request, accepted or refused, changes a record's owner.
pub proof fn lemma_owner_fixed(record: CounterAccount, signer: Signer, next: Result<u64, CounterError>)
    ensures
        mutation_step(record, signer, next).0.authority == record.authority,
{
}

/// Derivation is a function of the owner and the program id alone: equal
/// inputs give the same address and bump seed.
pub proof fn lemma_derivation_deterministic(owner1: Seq<u8>, owner2: Seq<u8>, program1: Seq<u8>, program2: Seq<u8>)
    requires
        owner1 == owner2,
        program1 == program2,
    ensures
        counter_address(owner1, program1) == counter_address(owner2, program2),
{
}

} // verus!
