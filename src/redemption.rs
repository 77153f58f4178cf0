use vstd::prelude::*;
use crate::clock::current_time;
use crate::key::Key;
use crate::records::{
    Batch, CodeState, CodeStatus, ErrorCode, LamportAccount, Manufacturer, RecordStatus, Treasury,
    Verified,
};

verus! {

/// Whether the batch's expiry, if it has one, lies before `now`.
pub open spec fn is_expired(b: Batch, now: i64) -> bool {
    b.expiry_ts > 0 && now > b.expiry_ts
}

/// The first rule that a redemption of `reward` lamports at time `now`
/// breaks, in the order in which they are checked; `None` when it may
/// proceed.
pub open spec fn redemption_error(
    m: Manufacturer,
    b: Batch,
    c: CodeState,
    t: Treasury,
    vault: LamportAccount,
    destination: LamportAccount,
    reward: u64,
    now: i64,
) -> Option<ErrorCode> {
    if m.status != RecordStatus::Active {
        Some(ErrorCode::ManufacturerSuspended)
    } else if b.status != RecordStatus::Active {
        Some(ErrorCode::BatchNotActive)
    } else if is_expired(b, now) {
        Some(ErrorCode::BatchExpired)
    } else if c.status != CodeStatus::Unused {
        Some(ErrorCode::CodeAlreadyRedeemed)
    } else if reward == 0 {
        Some(ErrorCode::InvalidReward)
    } else if vault.lamports < reward {
        Some(ErrorCode::InsufficientTreasury)
    } else if t.sol_payout_vault@ != vault.key@ {
        Some(ErrorCode::InvalidAccounts)
    } else if destination.lamports + reward > u64::MAX {
        Some(ErrorCode::ArithmeticOverflow)
    } else {
        None
    }
}

/// The code's record once `user` has redeemed it at time `now`.
pub open spec fn redeemed_code(c: CodeState, user: Key, now: i64) -> CodeState {
    CodeState { status: CodeStatus::Used, verified_by: user, verified_at: now, ..c }
}

/// Redeems the code `code_state` of batch `batch` (whose address is
/// `batch_key`) at time `now`, and pays `reward_lamports` from `vault` to
/// `destination`.
///
/// The rules are checked in order and the first that fails is returned:
/// the manufacturer is active, the batch is active and not past its expiry,
/// the code is unused, the reward is positive, the vault holds the reward,
/// the vault is the treasury's, and the destination can take the reward.
/// A refusal changes nothing. On success the code is marked used by the
/// destination at `now`, exactly `reward_lamports` move from the vault to
/// the destination, and the notification of the redemption is returned.
///
/// `_commitment` is the commitment the redeemer claims. By policy it is not
/// compared with the stored one: the code record is addressed by its stored
/// commitment, and the notification reports the stored commitment.
pub fn verify_and_pay_sol_at(
    manufacturer: &Manufacturer,
    batch_key: Key,
    batch: &Batch,
    code_state: &mut CodeState,
    treasury: &Treasury,
    vault: &mut LamportAccount,
    destination: &mut LamportAccount,
    _commitment: [u8; 32],
    reward_lamports: u64,
    now: i64,
) -> (r: Result<Verified, ErrorCode>)
    ensures
        r is Ok <==> redemption_error(
            *manufacturer,
            *batch,
            *old(code_state),
            *treasury,
            *old(vault),
            *old(destination),
            reward_lamports,
            now,
        ) is None,
        r matches Err(e) ==> {
            &&& Some(e) == redemption_error(
                *manufacturer,
                *batch,
                *old(code_state),
                *treasury,
                *old(vault),
                *old(destination),
                reward_lamports,
                now,
            )
            &&& *final(code_state) == *old(code_state)
            &&& *final(vault) == *old(vault)
            &&& *final(destination) == *old(destination)
        },
        r matches Ok(ev) ==> {
            &&& *final(code_state) == redeemed_code(*old(code_state), old(destination).key, now)
            &&& final(vault).key == old(vault).key
            &&& final(vault).lamports == old(vault).lamports - reward_lamports
            &&& final(destination).key == old(destination).key
            &&& final(destination).lamports == old(destination).lamports + reward_lamports
            &&& ev == (Verified {
                batch: batch_key,
                commitment: old(code_state).commitment,
                user: old(destination).key,
                lamports: reward_lamports,
                ts: now,
            })
        },
{
    if manufacturer.status != RecordStatus::Active {
        return Err(ErrorCode::ManufacturerSuspended);
    }
    if batch.status != RecordStatus::Active {
        return Err(ErrorCode::BatchNotActive);
    }
    if batch.expiry_ts > 0 && now > batch.expiry_ts {
        return Err(ErrorCode::BatchExpired);
    }
    if code_state.status != CodeStatus::Unused {
        return Err(ErrorCode::CodeAlreadyRedeemed);
    }
    if reward_lamports == 0 {
        return Err(ErrorCode::InvalidReward);
    }
    if vault.lamports < reward_lamports {
        return Err(ErrorCode::InsufficientTreasury);
    }
    if !treasury.sol_payout_vault.same_as(&vault.key) {
        return Err(ErrorCode::InvalidAccounts);
    }
    if destination.lamports > u64::MAX - reward_lamports {
        return Err(ErrorCode::ArithmeticOverflow);
    }
    code_state.status = CodeStatus::Used;
    code_state.verified_by = destination.key;
    code_state.verified_at = now;
    vault.lamports = vault.lamports - reward_lamports;
    destination.lamports = destination.lamports + reward_lamports;
    Ok(
        Verified {
            batch: batch_key,
            commitment: code_state.commitment,
            user: destination.key,
            lamports: reward_lamports,
            ts: now,
        },
    )
}

/// Redeems a code as `verify_and_pay_sol_at` does, at the time of the ledger
/// clock. The clock is read once the manufacturer and the batch have been
/// found active; where it cannot be read the call fails with
/// `ClockUnavailable` and changes nothing. A success reports the time it
/// used in the notification's `ts`.
pub fn verify_and_pay_sol(
    manufacturer: &Manufacturer,
    batch_key: Key,
    batch: &Batch,
    code_state: &mut CodeState,
    treasury: &Treasury,
    vault: &mut LamportAccount,
    destination: &mut LamportAccount,
    commitment: [u8; 32],
    reward_lamports: u64,
) -> (r: Result<Verified, ErrorCode>)
    ensures
        manufacturer.status != RecordStatus::Active ==> r == Err::<Verified, ErrorCode>(
            ErrorCode::ManufacturerSuspended,
        ),
        manufacturer.status == RecordStatus::Active && batch.status != RecordStatus::Active ==> r
            == Err::<Verified, ErrorCode>(ErrorCode::BatchNotActive),
        r matches Err(e) ==> {
            &&& e == ErrorCode::ClockUnavailable || exists|now: i64|
                Some(e) == #[trigger] redemption_error(
                    *manufacturer,
                    *batch,
                    *old(code_state),
                    *treasury,
                    *old(vault),
                    *old(destination),
                    reward_lamports,
                    now,
                )
            &&& *final(code_state) == *old(code_state)
            &&& *final(vault) == *old(vault)
            &&& *final(destination) == *old(destination)
        },
        r matches Ok(ev) ==> {
            &&& redemption_error(
                *manufacturer,
                *batch,
                *old(code_state),
                *treasury,
                *old(vault),
                *old(destination),
                reward_lamports,
                ev.ts,
            ) is None
            &&& *final(code_state) == redeemed_code(*old(code_state), old(destination).key, ev.ts)
            &&& final(vault).key == old(vault).key
            &&& final(vault).lamports == old(vault).lamports - reward_lamports
            &&& final(destination).key == old(destination).key
            &&& final(destination).lamports == old(destination).lamports + reward_lamports
            &&& ev == (Verified {
                batch: batch_key,
                commitment: old(code_state).commitment,
                user: old(destination).key,
                lamports: reward_lamports,
                ts: ev.ts,
            })
        },
{
    if manufacturer.status != RecordStatus::Active {
        proof {
            assert(Some(ErrorCode::ManufacturerSuspended) == redemption_error(
                *manufacturer,
                *batch,
                *code_state,
                *treasury,
                *vault,
                *destination,
                reward_lamports,
                0,
            ));
        }
        return Err(ErrorCode::ManufacturerSuspended);
    }
    if batch.status != RecordStatus::Active {
        proof {
            assert(Some(ErrorCode::BatchNotActive) == redemption_error(
                *manufacturer,
                *batch,
                *code_state,
                *treasury,
                *vault,
                *destination,
                reward_lamports,
                0,
            ));
        }
        return Err(ErrorCode::BatchNotActive);
    }
    let now = current_time()?;
    verify_and_pay_sol_at(
        manufacturer,
        batch_key,
        batch,
        code_state,
        treasury,
        vault,
        destination,
        commitment,
        reward_lamports,
        now,
    )
}

} // verus!
