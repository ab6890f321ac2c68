use crate::bytes::keys_equal;
use crate::error::WrapperError;
use crate::event_log::{appended, log_append, log_has_room, log_has_space};
use crate::external::{create_program_address, derived_address, token_account_owner, token_holder};
use crate::registry::{
    first_match, initialize_step, lock_in_step, lock_out_step, CustodyRecord, CustodyRegistry, RegistryModel,
};
use vstd::prelude::*;

verus! {

/// The identity of the token program that moves the units.
pub const TOKEN_PROGRAM_ID: [u8; 32] = [
    6, 221, 246, 225, 215, 101, 161, 147, 217, 203, 225, 70, 206, 235, 121, 172, 28, 180, 133, 237,
    95, 91, 55, 145, 58, 140, 245, 133, 126, 255, 0, 169,
];

/// The fixed seed of the program-derived authority.
pub const AUTHORITY_SEED: [u8; 7] = [99, 117, 115, 116, 111, 100, 121];

/// A counter kept in an account's data.
#[derive(Debug, Clone, Copy, PartialEq, Eq)]
pub struct GreetingAccount {
    /// The number of greetings.
    pub counter: u32,
}

/// What the checks read of one supplied account.
#[derive(Debug, Clone, Copy, PartialEq, Eq)]
pub struct AccountRef {
    pub key: [u8; 32],
    /// The program that owns the account.
    pub owner: [u8; 32],
    pub is_signer: bool,
}

/// The accounts of a lock-in.
#[derive(Debug, Clone, Copy, PartialEq, Eq)]
pub struct LockInAccounts {
    pub token_program: AccountRef,
    /// The caller, who must sign and who holds the unit.
    pub initiator: AccountRef,
    /// The caller's asset account that the unit leaves.
    pub source: AccountRef,
    /// The program-custodied asset account that the unit enters.
    pub custody: AccountRef,
    pub registry: AccountRef,
    pub event_log: AccountRef,
}

/// The accounts of a lock-out.
#[derive(Debug, Clone, Copy, PartialEq, Eq)]
pub struct LockOutAccounts {
    pub token_program: AccountRef,
    /// The caller, who must sign and who locked the unit.
    pub initiator: AccountRef,
    /// The program-derived authority that signs the release.
    pub authority: AccountRef,
    /// The program-custodied asset account that the unit leaves.
    pub custody: AccountRef,
    /// The caller's asset account that the unit returns to.
    pub destination: AccountRef,
    pub registry: AccountRef,
}

/// The accounts of the registry's initialization.
#[derive(Debug, Clone, Copy, PartialEq, Eq)]
pub struct InitializeAccounts {
    /// The registry's administrator, who must sign.
    pub admin: AccountRef,
    pub registry: AccountRef,
}

/// What an initialization returns, from the accounts, whether the registry
/// is initialized already, and the requested capacity and bump. A registry
/// that is set up already refuses with `AlreadyInitialized`, whatever the
/// request. A fresh registry refuses the one request of capacity 0 and bump
/// 0 with `InvalidInstruction`. The registry's account layout has no flag,
/// so that registry would be stored as a header of zeros. A header of zeros
/// reads back as a registry never initialized, and it would then accept a
/// second initialization.
pub open spec fn initialize_check(
    a: InitializeAccounts,
    program_id: Seq<u8>,
    initialized: bool,
    capacity: u16,
    bump: u8,
) -> Result<(), WrapperError> {
    if !a.admin.is_signer {
        Err(WrapperError::MissingSignature)
    } else if a.registry.owner@ != program_id {
        Err(WrapperError::OwnerMismatch)
    } else if initialized {
        Err(WrapperError::AlreadyInitialized)
    } else if capacity == 0 && bump == 0 {
        Err(WrapperError::InvalidInstruction)
    } else {
        Ok(())
    }
}

/// One single-unit transfer for the token program to perform.
#[derive(Debug, Clone, Copy, PartialEq, Eq)]
pub struct TransferRequest {
    pub source: [u8; 32],
    pub destination: [u8; 32],
    pub authority: [u8; 32],
    pub amount: u64,
}

/// The view of an optional key.
pub open spec fn key_view(k: Option<[u8; 32]>) -> Option<Seq<u8>> {
    match k {
        Some(k) => Some(k@),
        None => None,
    }
}

/// The validation of a lock-in, given the derived authority and the holder
/// recorded in the custody token account.
pub open spec fn lock_in_check(
    a: LockInAccounts,
    program_id: Seq<u8>,
    authority: Option<Seq<u8>>,
    holder: Option<Seq<u8>>,
) -> Result<(), WrapperError> {
    if !a.initiator.is_signer {
        Err(WrapperError::MissingSignature)
    } else if a.token_program.key@ != TOKEN_PROGRAM_ID@ {
        Err(WrapperError::OwnerMismatch)
    } else if a.registry.owner@ != program_id || a.event_log.owner@ != program_id {
        Err(WrapperError::OwnerMismatch)
    } else if a.custody.owner@ != TOKEN_PROGRAM_ID@ {
        Err(WrapperError::OwnerMismatch)
    } else if authority is None {
        Err(WrapperError::AuthorityMismatch)
    } else if holder != authority {
        Err(WrapperError::OwnerMismatch)
    } else {
        Ok(())
    }
}

/// The validation of a lock-out, given the derived authority and the holder
/// recorded in the custody token account.
pub open spec fn lock_out_check(
    a: LockOutAccounts,
    program_id: Seq<u8>,
    authority: Option<Seq<u8>>,
    holder: Option<Seq<u8>>,
) -> Result<(), WrapperError> {
    if !a.initiator.is_signer {
        Err(WrapperError::MissingSignature)
    } else if authority != Some(a.authority.key@) {
        Err(WrapperError::AuthorityMismatch)
    } else if a.token_program.key@ != TOKEN_PROGRAM_ID@ {
        Err(WrapperError::OwnerMismatch)
    } else if a.registry.owner@ != program_id {
        Err(WrapperError::OwnerMismatch)
    } else if a.custody.owner@ != TOKEN_PROGRAM_ID@ {
        Err(WrapperError::OwnerMismatch)
    } else if holder != authority {
        Err(WrapperError::OwnerMismatch)
    } else {
        Ok(())
    }
}

/// The record that a lock-in creates.
pub open spec fn lock_in_record(a: LockInAccounts, foreign_address: [u8; 32]) -> CustodyRecord {
    CustodyRecord { foreign_address, owner: a.initiator.key, asset_account: a.source.key }
}

/// The record that a lock-out retires.
pub open spec fn lock_out_record(a: LockOutAccounts, foreign_address: [u8; 32]) -> CustodyRecord {
    CustodyRecord { foreign_address, owner: a.initiator.key, asset_account: a.destination.key }
}

/// The transfer of a lock-in: from the caller's account into custody, under
/// the caller's signature.
pub open spec fn lock_in_transfer(a: LockInAccounts) -> TransferRequest {
    TransferRequest {
        source: a.source.key,
        destination: a.custody.key,
        authority: a.initiator.key,
        amount: 1,
    }
}

/// The transfer of a lock-out: from custody back to the caller, under the
/// program-derived authority.
pub open spec fn lock_out_transfer(a: LockOutAccounts) -> TransferRequest {
    TransferRequest {
        source: a.custody.key,
        destination: a.destination.key,
        authority: a.authority.key,
        amount: 1,
    }
}

/// Everything a lock-in decides before its transfer.
pub open spec fn lock_in_plan(
    m: RegistryModel,
    log: Seq<u8>,
    a: LockInAccounts,
    program_id: Seq<u8>,
    authority: Option<Seq<u8>>,
    holder: Option<Seq<u8>>,
) -> Result<TransferRequest, WrapperError> {
    match lock_in_check(a, program_id, authority, holder) {
        Err(e) => Err(e),
        Ok(_) => if m.records.len() >= m.capacity {
            Err(WrapperError::RegistryFull)
        } else if !log_has_room(log) {
            Err(WrapperError::LogFull)
        } else {
            Ok(lock_in_transfer(a))
        },
    }
}

/// Everything a lock-out decides before its transfer.
pub open spec fn lock_out_plan(
    m: RegistryModel,
    a: LockOutAccounts,
    program_id: Seq<u8>,
    foreign_address: [u8; 32],
    authority: Option<Seq<u8>>,
    holder: Option<Seq<u8>>,
) -> Result<TransferRequest, WrapperError> {
    match lock_out_check(a, program_id, authority, holder) {
        Err(e) => Err(e),
        Ok(_) => if first_match(m.records, lock_out_record(a, foreign_address)) < 0 {
            Err(WrapperError::RecordNotFound)
        } else {
            Ok(lock_out_transfer(a))
        },
    }
}

/// The authority that the registry's stored bump derives.
pub open spec fn registry_authority(m: RegistryModel, program_id: Seq<u8>) -> Option<Seq<u8>> {
    derived_address(AUTHORITY_SEED@, m.bump, program_id)
}

fn opt_keys_equal(a: &Option<[u8; 32]>, b: &Option<[u8; 32]>) -> (r: bool)
    ensures
        r == (key_view(*a) == key_view(*b)),
{
    match (a, b) {
        (Some(x), Some(y)) => keys_equal(x, y),
        (None, None) => true,
        _ => false,
    }
}

/// The processing steps of the custody bridge. Each instruction runs in two
/// halves around its token transfer: the first validates and says which
/// transfer to make, the second commits the registry and log changes once the
/// transfer's outcome is known.
pub struct Processor;

impl Processor {
    /// Validates the accounts of a lock-in, checking in order: the
    /// signature, the token program, the program's ownership of the registry
    /// and the log, and the custody account's token program and holder.
    pub fn check_lock_in(
        a: &LockInAccounts,
        program_id: &[u8; 32],
        authority: &Option<[u8; 32]>,
        holder: &Option<[u8; 32]>,
    ) -> (r: Result<(), WrapperError>)
        ensures
            r == lock_in_check(*a, program_id@, key_view(*authority), key_view(*holder)),
    {
        if !a.initiator.is_signer {
            return Err(WrapperError::MissingSignature);
        }
        if !keys_equal(&a.token_program.key, &TOKEN_PROGRAM_ID) {
            return Err(WrapperError::OwnerMismatch);
        }
        if !keys_equal(&a.registry.owner, program_id) || !keys_equal(&a.event_log.owner, program_id) {
            return Err(WrapperError::OwnerMismatch);
        }
        if !keys_equal(&a.custody.owner, &TOKEN_PROGRAM_ID) {
            return Err(WrapperError::OwnerMismatch);
        }
        if authority.is_none() {
            return Err(WrapperError::AuthorityMismatch);
        }
        if !opt_keys_equal(holder, authority) {
            return Err(WrapperError::OwnerMismatch);
        }
        Ok(())
    }

    /// Validates the accounts of a lock-out, checking in order: the
    /// signature, the program-derived authority, the token program, the
    /// program's ownership of the registry, and the custody account's token
    /// program and holder.
    pub fn check_lock_out(
        a: &LockOutAccounts,
        program_id: &[u8; 32],
        authority: &Option<[u8; 32]>,
        holder: &Option<[u8; 32]>,
    ) -> (r: Result<(), WrapperError>)
        ensures
            r == lock_out_check(*a, program_id@, key_view(*authority), key_view(*holder)),
    {
        if !a.initiator.is_signer {
            return Err(WrapperError::MissingSignature);
        }
        if !opt_keys_equal(authority, &Some(a.authority.key)) {
            return Err(WrapperError::AuthorityMismatch);
        }
        if !keys_equal(&a.token_program.key, &TOKEN_PROGRAM_ID) {
            return Err(WrapperError::OwnerMismatch);
        }
        if !keys_equal(&a.registry.owner, program_id) {
            return Err(WrapperError::OwnerMismatch);
        }
        if !keys_equal(&a.custody.owner, &TOKEN_PROGRAM_ID) {
            return Err(WrapperError::OwnerMismatch);
        }
        if !opt_keys_equal(holder, authority) {
            return Err(WrapperError::OwnerMismatch);
        }
        Ok(())
    }

    /// Validates an initialization and sets the registry up with its
    /// capacity and the authority's bump.
    pub fn initialize(
        registry: &mut CustodyRegistry,
        a: &InitializeAccounts,
        program_id: &[u8; 32],
        capacity: u16,
        bump: u8,
    ) -> (r: Result<(), WrapperError>)
        requires
            old(registry).wf(),
        ensures
            final(registry).wf(),
            initialize_check(*a, program_id@, old(registry)@.initialized, capacity, bump) is Err
                ==> r == initialize_check(
                *a,
                program_id@,
                old(registry)@.initialized,
                capacity,
                bump,
            ) && final(registry)@ == old(registry)@,
            initialize_check(*a, program_id@, old(registry)@.initialized, capacity, bump) is Ok
                ==> r is Ok && (final(registry)@, r) == initialize_step(
                old(registry)@,
                capacity,
                bump,
            ),
    {
        if !a.admin.is_signer {
            return Err(WrapperError::MissingSignature);
        }
        if !keys_equal(&a.registry.owner, program_id) {
            return Err(WrapperError::OwnerMismatch);
        }
        if registry.is_initialized() {
            return Err(WrapperError::AlreadyInitialized);
        }
        if capacity == 0 && bump == 0 {
            return Err(WrapperError::InvalidInstruction);
        }
        registry.initialize(capacity, bump)
    }

    /// Decides a lock-in from the derived authority and the custody
    /// account's holder: the checks, then room in the registry and in the
    /// log, and only then the transfer to make.
    pub fn plan_lock_in(
        registry: &CustodyRegistry,
        log: &[u8],
        a: &LockInAccounts,
        program_id: &[u8; 32],
        authority: &Option<[u8; 32]>,
        holder: &Option<[u8; 32]>,
    ) -> (r: Result<TransferRequest, WrapperError>)
        requires
            registry.wf(),
        ensures
            r == lock_in_plan(
                registry@,
                log@,
                *a,
                program_id@,
                key_view(*authority),
                key_view(*holder),
            ),
    {
        Processor::check_lock_in(a, program_id, authority, holder)?;
        if !registry.has_room() {
            return Err(WrapperError::RegistryFull);
        }
        if !log_has_space(log) {
            return Err(WrapperError::LogFull);
        }
        Ok(
            TransferRequest {
                source: a.source.key,
                destination: a.custody.key,
                authority: a.initiator.key,
                amount: 1,
            },
        )
    }

    /// The first half of a lock-in: derives the authority from the stored
    /// bump, reads the custody account's holder, and decides.
    pub fn begin_lock_in(
        registry: &CustodyRegistry,
        log: &[u8],
        a: &LockInAccounts,
        custody_data: &[u8],
        program_id: &[u8; 32],
    ) -> (r: Result<TransferRequest, WrapperError>)
        requires
            registry.wf(),
        ensures
            r == lock_in_plan(
                registry@,
                log@,
                *a,
                program_id@,
                registry_authority(registry@, program_id@),
                token_holder(custody_data@),
            ),
    {
        let authority = create_program_address(
            AUTHORITY_SEED.as_slice(),
            registry.authority_bump(),
            program_id,
        );
        let holder = token_account_owner(custody_data);
        let r = Processor::plan_lock_in(registry, log, a, program_id, &authority, &holder);
        r
    }

    /// The second half of a lock-in: once the transfer went through, the
    /// record is added and its foreign address logged; a rejected transfer
    /// leaves both as they were.
    pub fn finish_lock_in(
        registry: &mut CustodyRegistry,
        log: &mut Vec<u8>,
        a: &LockInAccounts,
        foreign_address: &[u8; 32],
        transfer_ok: bool,
    ) -> (r: Result<(), WrapperError>)
        requires
            old(registry).wf(),
        ensures
            final(registry).wf(),
            r is Err ==> final(registry)@ == old(registry)@ && final(log)@ == old(log)@,
            !transfer_ok ==> r == Err::<(), WrapperError>(WrapperError::TransferRejected),
            transfer_ok && old(registry)@.records.len() >= old(registry)@.capacity ==> r == Err::<
                (),
                WrapperError,
            >(WrapperError::RegistryFull),
            transfer_ok && old(registry)@.records.len() < old(registry)@.capacity && !log_has_room(
                old(log)@,
            ) ==> r == Err::<(), WrapperError>(WrapperError::LogFull),
            transfer_ok && old(registry)@.records.len() < old(registry)@.capacity && log_has_room(
                old(log)@,
            ) ==> r is Ok,
            r is Ok ==> final(registry)@ == lock_in_step(
                old(registry)@,
                lock_in_record(*a, *foreign_address),
            ).0 && appended(old(log)@, foreign_address@, final(log)@),
    {
        if !transfer_ok {
            return Err(WrapperError::TransferRejected);
        }
        if !registry.has_room() {
            return Err(WrapperError::RegistryFull);
        }
        if !log_has_space(log.as_slice()) {
            return Err(WrapperError::LogFull);
        }
        let rec = CustodyRecord {
            foreign_address: *foreign_address,
            owner: a.initiator.key,
            asset_account: a.source.key,
        };
        let added = registry.lock_in(rec);
        assert(added is Ok);
        let logged = log_append(log, foreign_address);
        assert(logged is Ok);
        Ok(())
    }

    /// Decides a lock-out from the derived authority and the custody
    /// account's holder: the checks, then a record with the exact triple,
    /// and only then the transfer to make.
    pub fn plan_lock_out(
        registry: &CustodyRegistry,
        a: &LockOutAccounts,
        program_id: &[u8; 32],
        foreign_address: &[u8; 32],
        authority: &Option<[u8; 32]>,
        holder: &Option<[u8; 32]>,
    ) -> (r: Result<TransferRequest, WrapperError>)
        requires
            registry.wf(),
        ensures
            r == lock_out_plan(
                registry@,
                *a,
                program_id@,
                *foreign_address,
                key_view(*authority),
                key_view(*holder),
            ),
    {
        Processor::check_lock_out(a, program_id, authority, holder)?;
        let rec = CustodyRecord {
            foreign_address: *foreign_address,
            owner: a.initiator.key,
            asset_account: a.destination.key,
        };
        if registry.find_record(&rec).is_none() {
            return Err(WrapperError::RecordNotFound);
        }
        Ok(
            TransferRequest {
                source: a.custody.key,
                destination: a.destination.key,
                authority: a.authority.key,
                amount: 1,
            },
        )
    }

    /// The first half of a lock-out: derives the authority from the stored
    /// bump, reads the custody account's holder, and decides.
    pub fn begin_lock_out(
        registry: &CustodyRegistry,
        a: &LockOutAccounts,
        custody_data: &[u8],
        program_id: &[u8; 32],
        foreign_address: &[u8; 32],
    ) -> (r: Result<TransferRequest, WrapperError>)
        requires
            registry.wf(),
        ensures
            r == lock_out_plan(
                registry@,
                *a,
                program_id@,
                *foreign_address,
                registry_authority(registry@, program_id@),
                token_holder(custody_data@),
            ),
    {
        let authority = create_program_address(
            AUTHORITY_SEED.as_slice(),
            registry.authority_bump(),
            program_id,
        );
        let holder = token_account_owner(custody_data);
        let r = Processor::plan_lock_out(registry, a, program_id, foreign_address, &authority, &holder);
        r
    }

    /// The second half of a lock-out: once the transfer went through, the
    /// first record with the exact triple is removed; a rejected transfer
    /// leaves the registry as it was.
    pub fn finish_lock_out(
        registry: &mut CustodyRegistry,
        a: &LockOutAccounts,
        foreign_address: &[u8; 32],
        transfer_ok: bool,
    ) -> (r: Result<(), WrapperError>)
        requires
            old(registry).wf(),
        ensures
            final(registry).wf(),
            !transfer_ok ==> r == Err::<(), WrapperError>(WrapperError::TransferRejected)
                && final(registry)@ == old(registry)@,
            transfer_ok ==> (final(registry)@, r) == lock_out_step(
                old(registry)@,
                lock_out_record(*a, *foreign_address),
            ),
    {
        if !transfer_ok {
            return Err(WrapperError::TransferRejected);
        }
        let rec = CustodyRecord {
            foreign_address: *foreign_address,
            owner: a.initiator.key,
            asset_account: a.destination.key,
        };
        registry.lock_out(&rec)
    }
}

} // verus!
