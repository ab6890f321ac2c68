use crate::error::WrapperError;
use crate::event_log::{appended, lemma_appended_entries, log_count, log_entries, log_has_room, log_wf};
use crate::processor::{
    initialize_check, InitializeAccounts,
    lock_in_check, lock_in_plan, lock_in_transfer, lock_out_check, lock_out_plan, lock_out_record,
    lock_out_transfer, registry_authority, LockInAccounts, LockOutAccounts, TransferRequest,
};
use crate::registry::{
    first_match, initialize_step, lemma_first_match, lock_in_step, lock_out_step, registry_wf,
    same_triple, CustodyRecord, RegistryModel,
};
use vstd::prelude::*;

verus! {

/// A registry that was initialized once refuses a second initialization,
/// whatever its arguments, and stays as it was.
pub proof fn initialize_only_once(m: RegistryModel, capacity: u16, bump: u8, capacity2: u16, bump2: u8)
    ensures
        initialize_step(initialize_step(m, capacity, bump).0, capacity2, bump2) == (
            initialize_step(m, capacity, bump).0,
            Err::<(), WrapperError>(WrapperError::AlreadyInitialized),
        ),
{
}

/// Through the processor too, a registry that is set up already refuses a
/// second initialization with `AlreadyInitialized`, whatever capacity and
/// bump it asks for, once the administrator signs and the program owns the
/// registry.
pub proof fn processor_initialize_only_once(
    a: InitializeAccounts,
    program_id: Seq<u8>,
    capacity: u16,
    bump: u8,
)
    requires
        a.admin.is_signer,
        a.registry.owner@ == program_id,
    ensures
        initialize_check(a, program_id, true, capacity, bump) == Err::<(), WrapperError>(
            WrapperError::AlreadyInitialized,
        ),
{
}

/// The state after a run of lock-ins, and how many of them succeeded.
pub open spec fn run_lock_ins(m: RegistryModel, recs: Seq<CustodyRecord>) -> (RegistryModel, nat)
    decreases recs.len(),
{
    if recs.len() == 0 {
        (m, 0)
    } else {
        let (m1, n) = run_lock_ins(m, recs.drop_last());
        let (m2, r) = lock_in_step(m1, recs.last());
        (m2, if r is Ok { n + 1 } else { n })
    }
}

/// Whatever the lock-ins, the registry grows by exactly the number that
/// succeeded, keeps its capacity and never exceeds it.
pub proof fn lock_ins_count(m: RegistryModel, recs: Seq<CustodyRecord>)
    requires
        registry_wf(m),
    ensures
        run_lock_ins(m, recs).0.records.len() == m.records.len() + run_lock_ins(m, recs).1,
        run_lock_ins(m, recs).0.capacity == m.capacity,
        registry_wf(run_lock_ins(m, recs).0),
    decreases recs.len(),
{
    if recs.len() > 0 {
        lock_ins_count(m, recs.drop_last());
    }
}

/// Lock-ins that fit all succeed and append their records in order.
pub proof fn lock_ins_within_capacity(m: RegistryModel, recs: Seq<CustodyRecord>)
    requires
        registry_wf(m),
        m.records.len() + recs.len() <= m.capacity,
    ensures
        run_lock_ins(m, recs).1 == recs.len(),
        run_lock_ins(m, recs).0 == (RegistryModel { records: m.records + recs, ..m }),
    decreases recs.len(),
{
    if recs.len() == 0 {
        assert(m.records + recs =~= m.records);
        assert(run_lock_ins(m, recs).0 == m);
    } else {
        lock_ins_within_capacity(m, recs.drop_last());
        assert((m.records + recs.drop_last()).push(recs.last()) =~= m.records + recs);
    }
}

/// From an empty registry, `capacity` lock-ins all succeed and the next one
/// fails with `RegistryFull`, leaving the registry unchanged.
pub proof fn lock_in_past_capacity(m: RegistryModel, recs: Seq<CustodyRecord>, extra: CustodyRecord)
    requires
        m.records.len() == 0,
        recs.len() == m.capacity,
    ensures
        run_lock_ins(m, recs).1 == recs.len(),
        run_lock_ins(m, recs).0.records.len() == recs.len(),
        lock_in_step(run_lock_ins(m, recs).0, extra) == (
            run_lock_ins(m, recs).0,
            Err::<(), WrapperError>(WrapperError::RegistryFull),
        ),
{
    lock_ins_within_capacity(m, recs);
}

/// Searching a registry with one record appended finds the earlier match if
/// there is one, else the appended record if it matches.
proof fn first_match_push(s: Seq<CustodyRecord>, x: CustodyRecord, t: CustodyRecord)
    ensures
        first_match(s.push(x), t) == if first_match(s, t) >= 0 {
            first_match(s, t)
        } else if same_triple(x, t) {
            s.len() as int
        } else {
            -1
        },
{
    assert(s.push(x).drop_last() =~= s);
}

/// A lock-in followed by a lock-out of the same triple succeeds, removes
/// exactly one matching record and keeps every other record in place; where
/// no earlier record matched, the registry is back where it started.
pub proof fn lock_in_then_out(m: RegistryModel, t: CustodyRecord)
    requires
        registry_wf(m),
        m.records.len() < m.capacity,
    ensures
        ({
            let (m1, r1) = lock_in_step(m, t);
            let (m2, r2) = lock_out_step(m1, t);
            let k = first_match(m1.records, t);
            &&& r1 is Ok
            &&& r2 is Ok
            &&& 0 <= k < m1.records.len()
            &&& same_triple(m1.records[k], t)
            &&& m2.records == m1.records.remove(k)
            &&& m2.records.len() == m.records.len()
            &&& (first_match(m.records, t) < 0 ==> m2 == m)
        }),
{
    let m1 = lock_in_step(m, t).0;
    first_match_push(m.records, t, t);
    lemma_first_match(m1.records, t);
    if first_match(m.records, t) < 0 {
        assert(m1.records.remove(m.records.len() as int) =~= m.records);
    }
}

/// A lock-out whose triple differs in any field from the one just locked in,
/// and matches no earlier record, fails with `RecordNotFound` and leaves the
/// registry unchanged.
pub proof fn lock_out_of_other_triple(m: RegistryModel, t: CustodyRecord, u: CustodyRecord)
    requires
        registry_wf(m),
        m.records.len() < m.capacity,
        !same_triple(t, u),
        first_match(m.records, u) < 0,
    ensures
        lock_out_step(lock_in_step(m, t).0, u) == (
            lock_in_step(m, t).0,
            Err::<(), WrapperError>(WrapperError::RecordNotFound),
        ),
{
    first_match_push(m.records, t, u);
}

/// The log after the first `i` appends holds their addresses.
proof fn log_after_prefix(logs: Seq<Seq<u8>>, addrs: Seq<Seq<u8>>, i: int)
    requires
        logs.len() == addrs.len() + 1,
        0 <= i <= addrs.len(),
        logs[0].len() >= 8,
        log_count(logs[0]) == 0,
        forall|j: int|
            0 <= j < addrs.len() ==> log_has_room(#[trigger] logs[j]) && appended(
                logs[j],
                addrs[j],
                logs[j + 1],
            ),
    ensures
        log_wf(logs[i]),
        log_entries(logs[i]) == addrs.take(i),
    decreases i,
{
    if i == 0 {
        assert(log_entries(logs[0]) =~= addrs.take(0));
    } else {
        log_after_prefix(logs, addrs, i - 1);
        assert(log_has_room(logs[i - 1]));
        lemma_appended_entries(logs[i - 1], addrs[i - 1], logs[i]);
        assert(addrs.take(i - 1).push(addrs[i - 1]) =~= addrs.take(i));
    }
}

/// After `n` appends to an empty log, the log holds `n` entries: the
/// appended addresses, in the order they were appended.
pub proof fn log_holds_appends_in_order(logs: Seq<Seq<u8>>, addrs: Seq<Seq<u8>>)
    requires
        logs.len() == addrs.len() + 1,
        logs[0].len() >= 8,
        log_count(logs[0]) == 0,
        forall|i: int|
            0 <= i < addrs.len() ==> log_has_room(#[trigger] logs[i]) && appended(
                logs[i],
                addrs[i],
                logs[i + 1],
            ),
    ensures
        log_count(logs.last()) == addrs.len(),
        log_entries(logs.last()) == addrs,
{
    log_after_prefix(logs, addrs, addrs.len() as int);
    assert(addrs.take(addrs.len() as int) =~= addrs);
}

/// A signed lock-out whose authority account is not the one derived from
/// the registry's stored bump fails with `AuthorityMismatch` and asks for no
/// transfer, whatever the custody account holds.
pub proof fn lock_out_needs_stored_authority(
    m: RegistryModel,
    a: LockOutAccounts,
    program_id: Seq<u8>,
    foreign_address: [u8; 32],
    holder: Option<Seq<u8>>,
)
    requires
        a.initiator.is_signer,
        registry_authority(m, program_id) != Some(a.authority.key@),
    ensures
        lock_out_plan(m, a, program_id, foreign_address, registry_authority(m, program_id), holder)
            == Err::<TransferRequest, WrapperError>(WrapperError::AuthorityMismatch),
{
}

/// A lock-in that passes every check, into a registry and a log with room,
/// is accepted and asks for its one-unit transfer into custody.
pub proof fn valid_lock_in_is_accepted(
    m: RegistryModel,
    log: Seq<u8>,
    a: LockInAccounts,
    program_id: Seq<u8>,
    authority: Option<Seq<u8>>,
    holder: Option<Seq<u8>>,
)
    requires
        lock_in_check(a, program_id, authority, holder) is Ok,
        m.records.len() < m.capacity,
        log_has_room(log),
    ensures
        lock_in_plan(m, log, a, program_id, authority, holder) == Ok::<TransferRequest, WrapperError>(
            lock_in_transfer(a),
        ),
{
}

/// A lock-out that passes every check and whose triple is on record is
/// accepted and asks for its one-unit transfer out of custody.
pub proof fn valid_lock_out_is_accepted(
    m: RegistryModel,
    a: LockOutAccounts,
    program_id: Seq<u8>,
    foreign_address: [u8; 32],
    authority: Option<Seq<u8>>,
    holder: Option<Seq<u8>>,
)
    requires
        lock_out_check(a, program_id, authority, holder) is Ok,
        first_match(m.records, lock_out_record(a, foreign_address)) >= 0,
    ensures
        lock_out_plan(m, a, program_id, foreign_address, authority, holder) == Ok::<
            TransferRequest,
            WrapperError,
        >(lock_out_transfer(a)),
{
}

} // verus!
