use vstd::prelude::*;
use crate::clock::current_time;
use crate::key::Key;

verus! {

/// Why an operation was refused. Every refusal leaves all records and
/// balances as they were.
#[derive(Clone, Copy, Debug, PartialEq, Eq, Structural)]
pub enum ErrorCode {
    /// The manufacturer is not `Active`.
    ManufacturerSuspended,
    /// Activation asked of a batch that is neither `Created` nor `Paused`.
    BatchNotActivatable,
    /// Redemption asked against a batch that is not `Active`.
    BatchNotActive,
    /// The batch has an expiry and the current time is past it.
    BatchExpired,
    /// The code was already redeemed.
    CodeAlreadyRedeemed,
    /// The reward is zero.
    InvalidReward,
    /// The vault holds less than the reward.
    InsufficientTreasury,
    /// The vault is not the treasury's, or the treasury's derivation proof is missing.
    InvalidAccounts,
    /// A referenced record does not exist.
    NotFound,
    /// The caller does not administer the record.
    Unauthorized,
    /// The destination's balance would exceed `u64::MAX`.
    ArithmeticOverflow,
    /// The ledger clock could not be read.
    ClockUnavailable,
}

/// Lifecycle status of a manufacturer or of a batch.
#[derive(Clone, Copy, Debug, PartialEq, Eq, Structural)]
pub enum RecordStatus {
    Created,
    Active,
    Paused,
}

impl RecordStatus {
    /// The status's number as stored on the ledger: 0, 1 or 2.
    pub open spec fn spec_code(self) -> u8 {
        match self {
            RecordStatus::Created => 0,
            RecordStatus::Active => 1,
            RecordStatus::Paused => 2,
        }
    }

    pub fn code(&self) -> (r: u8)
        ensures
            r == self.spec_code(),
    {
        match self {
            RecordStatus::Created => 0,
            RecordStatus::Active => 1,
            RecordStatus::Paused => 2,
        }
    }

    /// The status stored as `c`; `None` for a number that names none.
    pub fn from_code(c: u8) -> (r: Option<RecordStatus>)
        ensures
            r matches Some(s) ==> s.spec_code() == c,
            r is None <==> c > 2,
    {
        if c == 0 {
            Some(RecordStatus::Created)
        } else if c == 1 {
            Some(RecordStatus::Active)
        } else if c == 2 {
            Some(RecordStatus::Paused)
        } else {
            None
        }
    }
}

/// Redemption status of one authenticity code.
#[derive(Clone, Copy, Debug, PartialEq, Eq, Structural)]
pub enum CodeStatus {
    Unused,
    Used,
}

impl CodeStatus {
    /// The status's number as stored on the ledger: 0 or 1.
    pub open spec fn spec_code(self) -> u8 {
        match self {
            CodeStatus::Unused => 0,
            CodeStatus::Used => 1,
        }
    }

    pub fn code(&self) -> (r: u8)
        ensures
            r == self.spec_code(),
    {
        match self {
            CodeStatus::Unused => 0,
            CodeStatus::Used => 1,
        }
    }

    /// The status stored as `c`; `None` for a number that names none.
    pub fn from_code(c: u8) -> (r: Option<CodeStatus>)
        ensures
            r matches Some(s) ==> s.spec_code() == c,
            r is None <==> c > 1,
    {
        if c == 0 {
            Some(CodeStatus::Unused)
        } else if c == 1 {
            Some(CodeStatus::Used)
        } else {
            None
        }
    }
}

/// One manufacturing entity. Its status is set by an administrative action
/// outside this library and only read here.
#[derive(Clone, Copy, Debug)]
pub struct Manufacturer {
    pub authority: Key,
    pub status: RecordStatus,
    pub created_at: i64,
}

/// One production run of a product.
#[derive(Clone, Debug)]
pub struct Batch {
    pub manufacturer: Key,
    pub sku_hash: [u8; 32],
    pub batch_public_id: Vec<u8>,
    /// Time after which redemption is refused; 0 means no expiry.
    pub expiry_ts: i64,
    /// Informational only: no rule reads it.
    pub reward_usd_target: u64,
    pub status: RecordStatus,
    pub activated_at: i64,
    pub created_at: i64,
}

/// The redemption record of one authenticity code. The code itself is never
/// stored, only a commitment to it.
#[derive(Clone, Copy, Debug)]
pub struct CodeState {
    pub batch: Key,
    pub commitment: [u8; 32],
    pub status: CodeStatus,
    pub verified_by: Key,
    pub verified_at: i64,
}

/// The record that links the payout vault to this protocol.
#[derive(Clone, Copy, Debug)]
pub struct Treasury {
    pub sol_payout_vault: Key,
    /// Advisory: no rule enforces it beyond the sufficiency check.
    pub min_sol_buffer_lamports: u64,
    pub created_at: i64,
    /// Derivation nonce of the treasury's address, which authorises transfers
    /// out of the vault.
    pub bump: u8,
}

/// A ledger account that holds lamports: the vault or a destination.
#[derive(Clone, Copy, Debug)]
pub struct LamportAccount {
    pub key: Key,
    pub lamports: u64,
}

/// Notification that a batch was activated.
#[derive(Clone, Copy, Debug)]
pub struct BatchActivated {
    pub batch: Key,
    pub manufacturer: Key,
    pub ts: i64,
}

/// Notification that a code was redeemed and its reward paid.
#[derive(Clone, Copy, Debug)]
pub struct Verified {
    pub batch: Key,
    pub commitment: [u8; 32],
    pub user: Key,
    pub lamports: u64,
    pub ts: i64,
}

/// A new manufacturer record, created at time `now`.
pub fn initialize_manufacturer_at(authority: Key, status: RecordStatus, now: i64) -> (r: Manufacturer)
    ensures
        r == (Manufacturer { authority, status, created_at: now }),
{
    Manufacturer { authority, status, created_at: now }
}

/// A new manufacturer record, stamped with the ledger clock.
pub fn initialize_manufacturer(authority: Key, status: RecordStatus) -> (r: Result<Manufacturer, ErrorCode>)
    ensures
        r matches Ok(m) ==> m == (Manufacturer { authority, status, created_at: m.created_at }),
        r matches Err(e) ==> e == ErrorCode::ClockUnavailable,
{
    let now = current_time()?;
    Ok(initialize_manufacturer_at(authority, status, now))
}

/// A new batch of the manufacturer `manufacturer`, created at time `now`:
/// status `Created`, never activated.
pub fn initialize_batch_at(
    manufacturer: Key,
    batch_public_id: Vec<u8>,
    sku_hash: [u8; 32],
    reward_usd_target: u64,
    expiry_ts: i64,
    now: i64,
) -> (r: Batch)
    ensures
        r.manufacturer == manufacturer,
        r.batch_public_id@ == batch_public_id@,
        r.sku_hash == sku_hash,
        r.reward_usd_target == reward_usd_target,
        r.expiry_ts == expiry_ts,
        r.status == RecordStatus::Created,
        r.activated_at == 0,
        r.created_at == now,
{
    Batch {
        manufacturer,
        sku_hash,
        batch_public_id,
        expiry_ts,
        reward_usd_target,
        status: RecordStatus::Created,
        activated_at: 0,
        created_at: now,
    }
}

/// A new batch, stamped with the ledger clock.
pub fn initialize_batch(
    manufacturer: Key,
    batch_public_id: Vec<u8>,
    sku_hash: [u8; 32],
    reward_usd_target: u64,
    expiry_ts: i64,
) -> (r: Result<Batch, ErrorCode>)
    ensures
        r matches Ok(b) ==> {
            &&& b.manufacturer == manufacturer
            &&& b.batch_public_id@ == batch_public_id@
            &&& b.sku_hash == sku_hash
            &&& b.reward_usd_target == reward_usd_target
            &&& b.expiry_ts == expiry_ts
            &&& b.status == RecordStatus::Created
            &&& b.activated_at == 0
        },
        r matches Err(e) ==> e == ErrorCode::ClockUnavailable,
{
    let now = current_time()?;
    Ok(initialize_batch_at(manufacturer, batch_public_id, sku_hash, reward_usd_target, expiry_ts, now))
}

/// A new, unused code of batch `batch`, bound to `commitment`.
pub fn initialize_code_state(batch: Key, commitment: [u8; 32]) -> (r: CodeState)
    ensures
        r.batch == batch,
        r.commitment == commitment,
        r.status == CodeStatus::Unused,
        r.verified_by@ == Seq::new(32, |i: int| 0u8),
        r.verified_at == 0,
{
    CodeState {
        batch,
        commitment,
        status: CodeStatus::Unused,
        verified_by: Key::zero(),
        verified_at: 0,
    }
}

/// A new treasury over the vault `sol_payout_vault`, created at time `now`.
/// `bump` is the derivation nonce of the treasury's address, if one was
/// found: without it the treasury could never authorise a payout, and the
/// call fails with `InvalidAccounts`.
pub fn initialize_treasury_at(
    sol_payout_vault: Key,
    min_sol_buffer_lamports: u64,
    bump: Option<u8>,
    now: i64,
) -> (r: Result<Treasury, ErrorCode>)
    ensures
        bump is None ==> r == Err::<Treasury, ErrorCode>(ErrorCode::InvalidAccounts),
        bump matches Some(n) ==> r == Ok::<Treasury, ErrorCode>(
            Treasury { sol_payout_vault, min_sol_buffer_lamports, created_at: now, bump: n },
        ),
{
    match bump {
        None => Err(ErrorCode::InvalidAccounts),
        Some(n) => Ok(Treasury { sol_payout_vault, min_sol_buffer_lamports, created_at: now, bump: n }),
    }
}

/// A new treasury, stamped with the ledger clock. The clock is read before
/// the derivation nonce is looked at.
pub fn initialize_treasury(
    sol_payout_vault: Key,
    min_sol_buffer_lamports: u64,
    bump: Option<u8>,
) -> (r: Result<Treasury, ErrorCode>)
    ensures
        r matches Ok(t) ==> bump == Some(t.bump) && t == (Treasury {
            sol_payout_vault,
            min_sol_buffer_lamports,
            created_at: t.created_at,
            bump: t.bump,
        }),
        r matches Err(e) ==> e == ErrorCode::ClockUnavailable || (bump is None && e
            == ErrorCode::InvalidAccounts),
{
    let now = current_time()?;
    initialize_treasury_at(sol_payout_vault, min_sol_buffer_lamports, bump, now)
}

} // verus!
