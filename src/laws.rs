use vstd::prelude::*;
use crate::key::Key;
use crate::lifecycle::{activated_batch, activation_error};
use crate::records::{
    Batch, CodeState, CodeStatus, ErrorCode, LamportAccount, Manufacturer, RecordStatus, Treasury,
};
use crate::redemption::{is_expired, redeemed_code, redemption_error};

verus! {

/// A code is redeemed at most once. A redemption can succeed only on an
/// unused code and leaves it used; every later redemption of that code, by
/// anyone, with any accounts and at any time, is refused (and so moves no
/// funds), with `CodeAlreadyRedeemed` as soon as the manufacturer and the
/// batch are active and the batch has not expired.
pub proof fn lemma_code_redeemed_once(
    m: Manufacturer,
    b: Batch,
    c: CodeState,
    t: Treasury,
    vault: LamportAccount,
    destination: LamportAccount,
    reward: u64,
    now: i64,
    m2: Manufacturer,
    b2: Batch,
    t2: Treasury,
    vault2: LamportAccount,
    destination2: LamportAccount,
    reward2: u64,
    now2: i64,
)
    requires
        redemption_error(m, b, c, t, vault, destination, reward, now) is None,
    ensures
        c.status == CodeStatus::Unused,
        redeemed_code(c, destination.key, now).status == CodeStatus::Used,
        redemption_error(
            m2,
            b2,
            redeemed_code(c, destination.key, now),
            t2,
            vault2,
            destination2,
            reward2,
            now2,
        ) is Some,
        m2.status == RecordStatus::Active && b2.status == RecordStatus::Active && !is_expired(
            b2,
            now2,
        ) ==> redemption_error(
            m2,
            b2,
            redeemed_code(c, destination.key, now),
            t2,
            vault2,
            destination2,
            reward2,
            now2,
        ) == Some(ErrorCode::CodeAlreadyRedeemed),
{
}

/// Two redemptions of one code, run one after the other (as the record
/// store serialises them), with funds in the vault for a single payout: the
/// one that runs second is refused, with `CodeAlreadyRedeemed` unless the
/// batch has expired in between, and the vault is debited by exactly one
/// reward in all.
pub proof fn lemma_serialized_redemptions(
    m: Manufacturer,
    b: Batch,
    c: CodeState,
    t: Treasury,
    vault: LamportAccount,
    first: LamportAccount,
    second: LamportAccount,
    reward: u64,
    now1: i64,
    now2: i64,
)
    requires
        redemption_error(m, b, c, t, vault, first, reward, now1) is None,
        vault.lamports < 2 * reward,
    ensures
        ({
            let vault_after = LamportAccount { key: vault.key, lamports: (vault.lamports - reward) as u64 };
            let second_try = redemption_error(
                m,
                b,
                redeemed_code(c, first.key, now1),
                t,
                vault_after,
                second,
                reward,
                now2,
            );
            &&& second_try is Some
            &&& !is_expired(b, now2) ==> second_try == Some(ErrorCode::CodeAlreadyRedeemed)
            &&& vault_after.lamports < reward
            &&& vault.lamports - vault_after.lamports == reward
        }),
{
}

/// Past a batch's expiry every redemption against it is refused, and with
/// `BatchExpired` whenever the manufacturer and the batch are active,
/// whatever the code, the treasury, the accounts and the reward.
pub proof fn lemma_expired_batch_refused(
    m: Manufacturer,
    b: Batch,
    c: CodeState,
    t: Treasury,
    vault: LamportAccount,
    destination: LamportAccount,
    reward: u64,
    now: i64,
)
    requires
        b.expiry_ts > 0,
        now > b.expiry_ts,
    ensures
        redemption_error(m, b, c, t, vault, destination, reward, now) is Some,
        m.status == RecordStatus::Active && b.status == RecordStatus::Active ==> redemption_error(
            m,
            b,
            c,
            t,
            vault,
            destination,
            reward,
            now,
        ) == Some(ErrorCode::BatchExpired),
{
}

/// A vault that holds less than the reward never pays: the redemption is
/// refused, and with `InsufficientTreasury` once the manufacturer, the
/// batch and the code pass their checks.
pub proof fn lemma_insufficient_vault_refused(
    m: Manufacturer,
    b: Batch,
    c: CodeState,
    t: Treasury,
    vault: LamportAccount,
    destination: LamportAccount,
    reward: u64,
    now: i64,
)
    requires
        vault.lamports < reward,
    ensures
        redemption_error(m, b, c, t, vault, destination, reward, now) is Some,
        m.status == RecordStatus::Active && b.status == RecordStatus::Active && !is_expired(b, now)
            && c.status == CodeStatus::Unused ==> redemption_error(
            m,
            b,
            c,
            t,
            vault,
            destination,
            reward,
            now,
        ) == Some(ErrorCode::InsufficientTreasury),
{
}

/// Activation only moves a batch from `Created` or `Paused` to `Active`,
/// and cannot be repeated: activating the activated batch again is refused,
/// with `BatchNotActivatable` when the caller and the manufacturer pass
/// their checks.
pub proof fn lemma_activation_one_way(
    m: Manufacturer,
    caller: Key,
    b: Batch,
    now: i64,
    m2: Manufacturer,
    caller2: Key,
)
    requires
        activation_error(m, caller, b) is None,
    ensures
        b.status == RecordStatus::Created || b.status == RecordStatus::Paused,
        activated_batch(b, now).status == RecordStatus::Active,
        activation_error(m2, caller2, activated_batch(b, now)) is Some,
        caller2@ == m2.authority@ && m2.status == RecordStatus::Active ==> activation_error(
            m2,
            caller2,
            activated_batch(b, now),
        ) == Some(ErrorCode::BatchNotActivatable),
{
}

} // verus!
