use vstd::prelude::*;
use crate::key::{Identity, KEY_LEN};
use crate::derivation::{counter_address, find_counter_address};

verus! {

/// Bytes of storage framing that precede a record's fields.
pub const DISCRIMINATOR_LEN: usize = 8;

/// Bytes of the stored count.
pub const COUNT_LEN: usize = 8;

/// Bytes a counter record occupies: framing, owner identity, and the count.
pub const SPACE: usize = DISCRIMINATOR_LEN + KEY_LEN + COUNT_LEN;

/// The persisted record: its owner, fixed at creation, and the counter.
#[derive(Clone, Copy, Debug)]
pub struct CounterAccount {
    pub authority: Identity,
    pub count: u64,
}

/// Why a request was refused. A refused request changes nothing.
#[derive(Clone, Copy, Debug, PartialEq, Eq, Structural)]
pub enum CounterError {
    /// A record already exists at the derived address.
    AlreadyExists,
    /// The signer is not the record's owner, or the payer did not sign.
    Unauthorized,
    /// The mutation request carries no proof of control of the authority.
    NotSigned,
    /// The supplied slot is not at the address derived for the owner.
    StorageMismatch,
    /// A checked increment at the largest value.
    Overflow,
    /// A checked decrement at zero.
    Underflow,
}

/// How `increment` and `decrement` behave at the ends of the `u64` range.
#[derive(Clone, Copy, Debug, PartialEq, Eq, Structural)]
pub enum Arithmetic {
    /// Wrap around: the largest value plus one is zero, zero minus one is
    /// the largest value.
    Wrapping,
    /// Refuse with `Overflow` / `Underflow` and leave the record unchanged.
    Checked,
}

/// An identity as presented with a request, together with whether the
/// caller proved control of it for this request.
#[derive(Clone, Copy, Debug)]
pub struct Signer {
    pub key: Identity,
    pub is_signer: bool,
}

/// A storage slot at an address, empty or holding a record.
#[derive(Clone, Copy, Debug)]
pub struct Slot {
    pub address: Identity,
    pub record: Option<CounterAccount>,
}

/// The handles a creation request supplies: the slot to create the record
/// in and the paying owner.
#[derive(Clone, Copy, Debug)]
pub struct Initialize {
    pub counter: Slot,
    pub user: Signer,
}

/// The handles an increment request supplies.
#[derive(Clone, Copy, Debug)]
pub struct Increment {
    pub counter: CounterAccount,
    pub authority: Signer,
}

/// The handles a decrement request supplies.
#[derive(Clone, Copy, Debug)]
pub struct Decrement {
    pub counter: CounterAccount,
    pub authority: Signer,
}

/// The program id under which counter addresses are derived.
pub open spec fn program_id() -> Seq<u8> {
    seq![
        154u8, 168u8, 186u8, 71u8, 187u8, 254u8, 52u8, 100u8, 42u8, 74u8, 133u8, 98u8, 38u8, 46u8,
        186u8, 44u8, 25u8, 58u8, 84u8, 141u8, 217u8, 199u8, 2u8, 161u8, 132u8, 245u8, 124u8, 118u8,
        175u8, 253u8, 226u8, 172u8,
    ]
}

/// The program id (`BQj1XSrvSWCekExwJMPVUDEeFeW9rpzjPHPmYARbMLP5`).
pub fn id() -> (r: Identity)
    ensures
        r@ == program_id(),
{
    let r = Identity {
        bytes: [
            154u8, 168u8, 186u8, 71u8, 187u8, 254u8, 52u8, 100u8, 42u8, 74u8, 133u8, 98u8, 38u8,
            46u8, 186u8, 44u8, 25u8, 58u8, 84u8, 141u8, 217u8, 199u8, 2u8, 161u8, 132u8, 245u8,
            124u8, 118u8, 175u8, 253u8, 226u8, 172u8,
        ],
    };
    assert(r@ =~= program_id());
    r
}

// ---------------------------------------------------------------------------
// Creation
// ---------------------------------------------------------------------------

/// The error creation reports, given the address derived for the payer
/// (`None` when no address could be derived), or `None` when it succeeds.
pub open spec fn initialize_error(ctx: Initialize, derived: Option<Seq<u8>>) -> Option<CounterError> {
    if !ctx.user.is_signer {
        Some(CounterError::Unauthorized)
    } else if derived != Some(ctx.counter.address@) {
        Some(CounterError::StorageMismatch)
    } else if ctx.counter.record is Some {
        Some(CounterError::AlreadyExists)
    } else {
        None
    }
}

/// The state after a creation request and its outcome, given the derived
/// address.
pub open spec fn initialize_step(ctx: Initialize, derived: Option<Seq<u8>>) -> (Initialize, Result<(), CounterError>) {
    match initialize_error(ctx, derived) {
        Some(e) => (ctx, Err(e)),
        None => (
            Initialize {
                counter: Slot {
                    address: ctx.counter.address,
                    record: Some(CounterAccount { authority: ctx.user.key, count: 0 }),
                },
                user: ctx.user,
            },
            Ok(()),
        ),
    }
}

/// The address at which `owner`'s record must stand under `program`.
pub open spec fn derived_slot(owner: Seq<u8>, program: Seq<u8>) -> Option<Seq<u8>> {
    match counter_address(owner, program) {
        Some(found) => Some(found.0),
        None => None,
    }
}

/// The bytes of an optional address.
pub open spec fn address_view(a: Option<Identity>) -> Option<Seq<u8>> {
    match a {
        Some(a) => Some(a@),
        None => None,
    }
}

/// Creates the record in `ctx.counter`, given the address `derived` for the
/// payer: it must sign, the slot must stand at `derived`, and the slot must
/// be empty. The new record is owned by the payer and counts zero.
pub fn initialize_at(ctx: &mut Initialize, derived: Option<Identity>) -> (r: Result<(), CounterError>)
    ensures
        (*final(ctx), r) == initialize_step(*old(ctx), address_view(derived)),
{
    if !ctx.user.is_signer {
        return Err(CounterError::Unauthorized);
    }
    match derived {
        Some(address) => {
            if !address.same_as(&ctx.counter.address) {
                return Err(CounterError::StorageMismatch);
            }
        },
        None => {
            return Err(CounterError::StorageMismatch);
        },
    }
    if ctx.counter.record.is_some() {
        return Err(CounterError::AlreadyExists);
    }
    ctx.counter.record = Some(CounterAccount { authority: ctx.user.key, count: 0 });
    Ok(())
}

/// Creates the payer's counter record in `ctx.counter`, which must stand at
/// the address derived from the payer's identity and the domain tag under
/// `program_id`.
pub fn initialize(ctx: &mut Initialize, program_id: &Identity) -> (r: Result<(), CounterError>)
    ensures
        (*final(ctx), r) == initialize_step(*old(ctx), derived_slot(old(ctx).user.key@, program_id@)),
{
    let derived = match find_counter_address(&ctx.user.key, program_id) {
        Some((address, _bump)) => Some(address),
        None => None,
    };
    initialize_at(ctx, derived)
}

// ---------------------------------------------------------------------------
// Authenticated mutation
// ---------------------------------------------------------------------------

/// Why `signer` may not change `record`, or `None` when it may: it must
/// have signed, and be the record's owner.
pub open spec fn authorization_error(record: CounterAccount, signer: Signer) -> Option<CounterError> {
    if !signer.is_signer {
        Some(CounterError::NotSigned)
    } else if signer.key@ != record.authority@ {
        Some(CounterError::Unauthorized)
    } else {
        None
    }
}

/// `count + 1` under the given arithmetic.
pub open spec fn count_up(count: u64, mode: Arithmetic) -> Result<u64, CounterError> {
    if count < u64::MAX {
        Ok((count + 1) as u64)
    } else {
        match mode {
            Arithmetic::Wrapping => Ok(0),
            Arithmetic::Checked => Err(CounterError::Overflow),
        }
    }
}

/// `count - 1` under the given arithmetic.
pub open spec fn count_down(count: u64, mode: Arithmetic) -> Result<u64, CounterError> {
    if count > 0 {
        Ok((count - 1) as u64)
    } else {
        match mode {
            Arithmetic::Wrapping => Ok(u64::MAX),
            Arithmetic::Checked => Err(CounterError::Underflow),
        }
    }
}

/// The record after an authorised step to `next`, or the reason it is
/// refused (in which case the record is unchanged).
pub open spec fn mutation_step(record: CounterAccount, signer: Signer, next: Result<u64, CounterError>) -> (CounterAccount, Result<(), CounterError>) {
    match authorization_error(record, signer) {
        Some(e) => (record, Err(e)),
        None => match next {
            Ok(v) => (CounterAccount { authority: record.authority, count: v }, Ok(())),
            Err(e) => (record, Err(e)),
        },
    }
}

/// Checks that `signer` may change `record`.
fn authorize(record: &CounterAccount, signer: &Signer) -> (r: Result<(), CounterError>)
    ensures
        r == (match authorization_error(*record, *signer) {
            Some(e) => Err(e),
            None => Ok(()),
        }),
{
    if !signer.is_signer {
        Err(CounterError::NotSigned)
    } else if !signer.key.same_as(&record.authority) {
        Err(CounterError::Unauthorized)
    } else {
        Ok(())
    }
}

/// `count + 1` under `mode`.
pub fn step_up(count: u64, mode: Arithmetic) -> (r: Result<u64, CounterError>)
    ensures
        r == count_up(count, mode),
{
    if count < u64::MAX {
        Ok(count + 1)
    } else {
        match mode {
            Arithmetic::Wrapping => Ok(0),
            Arithmetic::Checked => Err(CounterError::Overflow),
        }
    }
}

/// `count - 1` under `mode`.
pub fn step_down(count: u64, mode: Arithmetic) -> (r: Result<u64, CounterError>)
    ensures
        r == count_down(count, mode),
{
    if count > 0 {
        Ok(count - 1)
    } else {
        match mode {
            Arithmetic::Wrapping => Ok(u64::MAX),
            Arithmetic::Checked => Err(CounterError::Underflow),
        }
    }
}

/// Adds one to the record's count, if the request is signed by the
/// record's owner; `mode` decides what happens at the largest value.
pub fn increment(ctx: &mut Increment, mode: Arithmetic) -> (r: Result<(), CounterError>)
    ensures
        (final(ctx).counter, r) == mutation_step(old(ctx).counter, old(ctx).authority, count_up(old(ctx).counter.count, mode)),
        final(ctx).authority == old(ctx).authority,
{
    authorize(&ctx.counter, &ctx.authority)?;
    let next = step_up(ctx.counter.count, mode)?;
    ctx.counter.count = next;
    Ok(())
}

/// Subtracts one from the record's count, if the request is signed by the
/// record's owner; `mode` decides what happens at zero.
pub fn decrement(ctx: &mut Decrement, mode: Arithmetic) -> (r: Result<(), CounterError>)
    ensures
        (final(ctx).counter, r) == mutation_step(old(ctx).counter, old(ctx).authority, count_down(old(ctx).counter.count, mode)),
        final(ctx).authority == old(ctx).authority,
{
    authorize(&ctx.counter, &ctx.authority)?;
    let next = step_down(ctx.counter.count, mode)?;
    ctx.counter.count = next;
    Ok(())
}

} // verus!
