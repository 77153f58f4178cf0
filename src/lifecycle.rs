use vstd::prelude::*;
use crate::clock::current_time;
use crate::key::Key;
use crate::records::{Batch, BatchActivated, ErrorCode, Manufacturer, RecordStatus};

verus! {

/// The first rule that an activation of batch `b` by `caller` breaks, in
/// the order in which they are checked; `None` when it may proceed.
pub open spec fn activation_error(m: Manufacturer, caller: Key, b: Batch) -> Option<ErrorCode> {
    if caller@ != m.authority@ {
        Some(ErrorCode::Unauthorized)
    } else if m.status != RecordStatus::Active {
        Some(ErrorCode::ManufacturerSuspended)
    } else if b.status != RecordStatus::Created && b.status != RecordStatus::Paused {
        Some(ErrorCode::BatchNotActivatable)
    } else {
        None
    }
}

/// The batch's record once activated at time `now`.
pub open spec fn activated_batch(b: Batch, now: i64) -> Batch {
    Batch { status: RecordStatus::Active, activated_at: now, ..b }
}

/// Activates the batch `batch` (address `batch_key`) of the manufacturer
/// `manufacturer` (address `manufacturer_key`) at time `now`, on behalf of
/// `caller`.
///
/// The caller must be the manufacturer's authority (else `Unauthorized`),
/// the manufacturer must be active (else `ManufacturerSuspended`), and the
/// batch must be `Created` or `Paused` (else `BatchNotActivatable`; so a
/// second activation fails). A refusal changes nothing. On success the
/// batch becomes `Active`, activated at `now`, and the notification of the
/// activation is returned.
pub fn activate_batch_at(
    manufacturer_key: Key,
    manufacturer: &Manufacturer,
    batch_key: Key,
    batch: &mut Batch,
    caller: Key,
    now: i64,
) -> (r: Result<BatchActivated, ErrorCode>)
    ensures
        r is Ok <==> activation_error(*manufacturer, caller, *old(batch)) is None,
        r matches Err(e) ==> {
            &&& Some(e) == activation_error(*manufacturer, caller, *old(batch))
            &&& *final(batch) == *old(batch)
        },
        r matches Ok(ev) ==> {
            &&& *final(batch) == activated_batch(*old(batch), now)
            &&& ev == (BatchActivated { batch: batch_key, manufacturer: manufacturer_key, ts: now })
        },
{
    if !caller.same_as(&manufacturer.authority) {
        return Err(ErrorCode::Unauthorized);
    }
    if manufacturer.status != RecordStatus::Active {
        return Err(ErrorCode::ManufacturerSuspended);
    }
    if batch.status != RecordStatus::Created && batch.status != RecordStatus::Paused {
        return Err(ErrorCode::BatchNotActivatable);
    }
    batch.status = RecordStatus::Active;
    batch.activated_at = now;
    Ok(BatchActivated { batch: batch_key, manufacturer: manufacturer_key, ts: now })
}

/// Activates a batch as `activate_batch_at` does, at the time of the ledger
/// clock. The rules are checked before the clock is read; where it cannot
/// be read the call fails with `ClockUnavailable` and changes nothing. A
/// success reports the time it used in the notification's `ts`.
pub fn activate_batch(
    manufacturer_key: Key,
    manufacturer: &Manufacturer,
    batch_key: Key,
    batch: &mut Batch,
    caller: Key,
) -> (r: Result<BatchActivated, ErrorCode>)
    ensures
        activation_error(*manufacturer, caller, *old(batch)) matches Some(e) ==> r == Err::<
            BatchActivated,
            ErrorCode,
        >(e),
        activation_error(*manufacturer, caller, *old(batch)) is None ==> (r is Ok || r == Err::<
            BatchActivated,
            ErrorCode,
        >(ErrorCode::ClockUnavailable)),
        r is Err ==> *final(batch) == *old(batch),
        r matches Ok(ev) ==> {
            &&& *final(batch) == activated_batch(*old(batch), ev.ts)
            &&& ev == (BatchActivated { batch: batch_key, manufacturer: manufacturer_key, ts: ev.ts })
        },
{
    if !caller.same_as(&manufacturer.authority) {
        return Err(ErrorCode::Unauthorized);
    }
    if manufacturer.status != RecordStatus::Active {
        return Err(ErrorCode::ManufacturerSuspended);
    }
    if batch.status != RecordStatus::Created && batch.status != RecordStatus::Paused {
        return Err(ErrorCode::BatchNotActivatable);
    }
    let now = current_time()?;
    activate_batch_at(manufacturer_key, manufacturer, batch_key, batch, caller, now)
}

} // verus!
