//! Merging a batch of remote records into the store.

use vstd::prelude::*;
use crate::error::{ImportError, StoreError};
use crate::http::{ApiReply, classify_reply, reply_outcome};
use crate::token_manager::{
    RemoteTokenRecord, RemoteTokenRecordView, TokenRecord, TokenRecordView, has_session,
    holds_session, missing_field, normalized, sessions_unique,
};

verus! {

/// What a remote source answers: a status, which is 1 on success, and the
/// records.
#[derive(Debug, PartialEq, Eq)]
pub struct RemoteApiResponse {
    pub status: i32,
    pub data: Vec<RemoteTokenRecord>,
}

/// How an import went: how many records were added, and how many were not.
#[derive(Debug, Clone, Copy, PartialEq, Eq, Structural)]
pub struct ImportResult {
    pub imported: usize,
    pub skipped: usize,
}

/// Whether the record at `i` of `batch` has all its required fields.
pub open spec fn is_complete(batch: Seq<RemoteTokenRecordView>, i: int) -> bool {
    missing_field(batch[i]) is None
}

/// The session that the record at `i` of `batch` was made from.
pub open spec fn session_at(batch: Seq<RemoteTokenRecordView>, i: int) -> Seq<char> {
    normalized(batch[i]).auth_session
}

/// Whether an earlier complete record of `batch` has the session of the one
/// at `i`.
pub open spec fn repeats_earlier(batch: Seq<RemoteTokenRecordView>, i: int) -> bool {
    exists|j: int| 0 <= j < i && is_complete(batch, j) && #[trigger] session_at(batch, j) == session_at(batch, i)
}

/// Whether the record at `i` of `batch` is complete but not new: its session
/// is in `existing`, or an earlier complete record of the batch has it.
pub open spec fn is_duplicate(
    existing: Seq<TokenRecordView>,
    batch: Seq<RemoteTokenRecordView>,
    i: int,
) -> bool {
    &&& is_complete(batch, i)
    &&& (holds_session(existing, session_at(batch, i)) || repeats_earlier(batch, i))
}

/// Whether the record at `i` of `batch` is imported: it is complete and its
/// session is new.
pub open spec fn is_fresh(
    existing: Seq<TokenRecordView>,
    batch: Seq<RemoteTokenRecordView>,
    i: int,
) -> bool {
    &&& is_complete(batch, i)
    &&& !holds_session(existing, session_at(batch, i))
    &&& !repeats_earlier(batch, i)
}

/// The records that the first `n` records of `batch` add to `existing`, in
/// the order of the batch.
pub open spec fn imported_records(
    existing: Seq<TokenRecordView>,
    batch: Seq<RemoteTokenRecordView>,
    n: nat,
) -> Seq<TokenRecordView>
    decreases n,
{
    if n == 0 {
        Seq::empty()
    } else {
        let before = imported_records(existing, batch, (n - 1) as nat);
        if is_fresh(existing, batch, n - 1) {
            before.push(normalized(batch[n - 1]))
        } else {
            before
        }
    }
}

/// The store after `batch` was merged into `existing`: the existing records,
/// then the imported ones.
pub open spec fn merged(existing: Seq<TokenRecordView>, batch: Seq<RemoteTokenRecordView>) -> Seq<
    TokenRecordView,
> {
    existing + imported_records(existing, batch, batch.len())
}

/// After the first `n` records of `batch`, the store holds a session exactly
/// if `existing` held it or a complete record among those `n` has it.
pub proof fn lemma_sessions_after(
    existing: Seq<TokenRecordView>,
    batch: Seq<RemoteTokenRecordView>,
    n: nat,
    session: Seq<char>,
)
    requires
        n <= batch.len(),
    ensures
        imported_records(existing, batch, n).len() <= n,
        holds_session(existing + imported_records(existing, batch, n), session) <==> (
        holds_session(existing, session) || exists|j: int|
            0 <= j < n && is_complete(batch, j) && #[trigger] session_at(batch, j) == session),
    decreases n,
{
    let now = existing + imported_records(existing, batch, n);
    if n == 0 {
        assert(now =~= existing);
    } else {
        let m = (n - 1) as nat;
        let before = existing + imported_records(existing, batch, m);
        lemma_sessions_after(existing, batch, m, session);
        lemma_sessions_after(existing, batch, m, session_at(batch, m as int));
        if is_fresh(existing, batch, m as int) {
            let record = normalized(batch[m as int]);
            assert(now =~= before.push(record));
            if holds_session(now, session) {
                let i = choose|i: int| 0 <= i < now.len() && (#[trigger] now[i]).auth_session == session;
                if i < before.len() {
                    assert(before[i].auth_session == session);
                } else {
                    assert(session_at(batch, m as int) == session);
                }
            }
            if holds_session(before, session) {
                let i = choose|i: int|
                    0 <= i < before.len() && (#[trigger] before[i]).auth_session == session;
                assert(now[i].auth_session == session);
            }
            if is_complete(batch, m as int) && session_at(batch, m as int) == session {
                assert(now[now.len() - 1].auth_session == session);
            }
        } else {
            assert(now == before);
            if is_complete(batch, m as int) && session_at(batch, m as int) == session {
                if !holds_session(existing, session) {
                    assert(repeats_earlier(batch, m as int));
                    let j = choose|j: int|
                        0 <= j < m && is_complete(batch, j) && #[trigger] session_at(batch, j)
                            == session_at(batch, m as int);
                    assert(session_at(batch, j) == session);
                }
            }
        }
    }
}

/// Merges `batch` into `tokens`, record by record in the order of the batch.
/// A record is added at the end when it has its required fields and no
/// record of the store, as it stands by then, was made from the same
/// session; every other record of the batch counts as skipped.
pub fn merge(tokens: &mut Vec<TokenRecord>, batch: &Vec<RemoteTokenRecord>) -> (result:
    ImportResult)
    ensures
        final(tokens).deep_view() == merged(old(tokens).deep_view(), batch.deep_view()),
        result.imported == imported_records(
            old(tokens).deep_view(),
            batch.deep_view(),
            batch.len() as nat,
        ).len(),
        result.imported + result.skipped == batch.len(),
        sessions_unique(old(tokens).deep_view()) ==> sessions_unique(final(tokens).deep_view()),
{
    let ghost existing = tokens.deep_view();
    let ghost remote = batch.deep_view();
    let mut imported: usize = 0;
    let mut skipped: usize = 0;
    let mut i: usize = 0;
    assert(tokens.deep_view() =~= existing + imported_records(existing, remote, 0));
    while i < batch.len()
        invariant
            i <= batch.len(),
            remote == batch.deep_view(),
            tokens.deep_view() == existing + imported_records(existing, remote, i as nat),
            imported == imported_records(existing, remote, i as nat).len(),
            imported + skipped == i,
        decreases batch.len() - i,
    {
        let ghost before = tokens.deep_view();
        assert(remote[i as int] == batch[i as int]@);
        match batch[i].to_local_token() {
            Err(_) => {
                skipped += 1;
            },
            Ok(record) => {
                proof {
                    lemma_sessions_after(existing, remote, i as nat, record@.auth_session);
                }
                if has_session(tokens, &record.auth_session) {
                    skipped += 1;
                } else {
                    tokens.push(record);
                    assert(tokens.deep_view() =~= before.push(record@));
                    imported += 1;
                }
            },
        }
        i += 1;
        assert(tokens.deep_view() =~= existing + imported_records(existing, remote, i as nat));
    }
    proof {
        if sessions_unique(existing) {
            law_merge_keeps_sessions_unique(existing, remote);
        }
    }
    ImportResult { imported, skipped }
}

/// How many of the first `n` records of `batch` have their required fields.
pub open spec fn count_complete(batch: Seq<RemoteTokenRecordView>, n: nat) -> nat
    decreases n,
{
    if n == 0 {
        0
    } else {
        count_complete(batch, (n - 1) as nat) + if is_complete(batch, n - 1) {
            1nat
        } else {
            0nat
        }
    }
}

/// How many of the first `n` records of `batch` are complete but not new.
pub open spec fn count_duplicates(
    existing: Seq<TokenRecordView>,
    batch: Seq<RemoteTokenRecordView>,
    n: nat,
) -> nat
    decreases n,
{
    if n == 0 {
        0
    } else {
        count_duplicates(existing, batch, (n - 1) as nat) + if is_duplicate(
            existing,
            batch,
            n - 1,
        ) {
            1nat
        } else {
            0nat
        }
    }
}

/// Among the first `n` records, the imported ones are the complete ones that
/// are no duplicates.
proof fn lemma_counts(existing: Seq<TokenRecordView>, batch: Seq<RemoteTokenRecordView>, n: nat)
    ensures
        count_duplicates(existing, batch, n) <= count_complete(batch, n) <= n,
        imported_records(existing, batch, n).len() == count_complete(batch, n) - count_duplicates(
            existing,
            batch,
            n,
        ),
    decreases n,
{
    if n > 0 {
        lemma_counts(existing, batch, (n - 1) as nat);
    }
}

/// Of a batch of `N` records of which `M` are complete, `K` of those being
/// duplicates, an import adds `M - K` records to the store and skips the
/// other `K + (N - M)`.
pub proof fn law_import_counts(existing: Seq<TokenRecordView>, batch: Seq<RemoteTokenRecordView>)
    ensures
        ({
            let total = batch.len();
            let complete = count_complete(batch, total);
            let duplicates = count_duplicates(existing, batch, total);
            let imported = imported_records(existing, batch, total).len();
            &&& duplicates <= complete <= total
            &&& imported == complete - duplicates
            &&& total - imported == duplicates + (total - complete)
            &&& merged(existing, batch).len() == existing.len() + (complete - duplicates)
        }),
{
    lemma_counts(existing, batch, batch.len());
}

/// An import never touches what the store held: the merged store begins with
/// the existing records, unchanged and in their order.
pub proof fn law_merge_keeps_existing(
    existing: Seq<TokenRecordView>,
    batch: Seq<RemoteTokenRecordView>,
)
    ensures
        existing.len() <= merged(existing, batch).len(),
        merged(existing, batch).subrange(0, existing.len() as int) == existing,
{
    assert(merged(existing, batch).subrange(0, existing.len() as int) =~= existing);
}

/// Every imported record is the local form of a complete record of the
/// batch, and the imported records keep the order of the batch.
pub proof fn law_imported_records_come_from_the_batch(
    existing: Seq<TokenRecordView>,
    batch: Seq<RemoteTokenRecordView>,
    n: nat,
    k: int,
)
    requires
        0 <= k < imported_records(existing, batch, n).len(),
    ensures
        exists|j: int|
            0 <= j < n && is_fresh(existing, batch, j) && imported_records(existing, batch, n)[k]
                == normalized(#[trigger] batch[j]),
    decreases n,
{
    if n > 0 {
        let before = imported_records(existing, batch, (n - 1) as nat);
        if k < before.len() {
            law_imported_records_come_from_the_batch(existing, batch, (n - 1) as nat, k);
        } else {
            assert(is_fresh(existing, batch, n - 1));
            assert(imported_records(existing, batch, n)[k] == normalized(batch[n - 1]));
        }
    }
}

/// An import keeps the sessions of the store distinct.
pub proof fn law_merge_keeps_sessions_unique(
    existing: Seq<TokenRecordView>,
    batch: Seq<RemoteTokenRecordView>,
)
    requires
        sessions_unique(existing),
    ensures
        sessions_unique(merged(existing, batch)),
{
    lemma_merge_prefix_unique(existing, batch, batch.len());
}

/// The store stays free of repeated sessions after each record of the batch.
proof fn lemma_merge_prefix_unique(
    existing: Seq<TokenRecordView>,
    batch: Seq<RemoteTokenRecordView>,
    n: nat,
)
    requires
        sessions_unique(existing),
        n <= batch.len(),
    ensures
        sessions_unique(existing + imported_records(existing, batch, n)),
    decreases n,
{
    let now = existing + imported_records(existing, batch, n);
    if n == 0 {
        assert(now =~= existing);
    } else {
        let m = (n - 1) as nat;
        let before = existing + imported_records(existing, batch, m);
        lemma_merge_prefix_unique(existing, batch, m);
        if is_fresh(existing, batch, m as int) {
            let record = normalized(batch[m as int]);
            assert(now =~= before.push(record));
            lemma_sessions_after(existing, batch, m, record.auth_session);
            assert(!holds_session(before, record.auth_session));
            assert forall|i: int, j: int| 0 <= i < j < now.len() implies (
            #[trigger] now[i]).auth_session != (#[trigger] now[j]).auth_session by {
                if j == before.len() {
                    assert(before[i].auth_session != record.auth_session);
                } else {
                    assert(before[i].auth_session != before[j].auth_session);
                }
            }
        } else {
            assert(now == before);
        }
    }
}

/// Where an import stands.
#[derive(Debug, PartialEq, Eq)]
pub enum ImportState {
    /// The remote source was asked for its records.
    AwaitingReply,
    /// The remote records are here; the store is being read.
    AwaitingStore { batch: Vec<RemoteTokenRecord> },
    /// The merged store is being written.
    AwaitingSave { result: ImportResult },
    /// The import is over.
    Finished,
}

/// What the outside world answers to an import's requests.
#[derive(Debug, PartialEq, Eq)]
pub enum ImportEvent {
    /// The remote source answered, or did not.
    Reply(Result<ApiReply<RemoteApiResponse>, String>),
    /// The store was read, or could not be.
    StoreRead(Result<Vec<TokenRecord>, StoreError>),
    /// The store was written, or could not be.
    StoreWritten(Result<(), StoreError>),
}

/// What an import asks the outside world to do next.
#[derive(Debug, PartialEq, Eq)]
pub enum ImportAction {
    /// Get the records from `url`.
    Fetch { url: String },
    /// Read the store.
    ReadStore,
    /// Replace the store by these records.
    WriteStore(Vec<TokenRecord>),
    /// Hand the outcome to the caller.
    Finish(Result<ImportResult, ImportError>),
}

/// The next state of an import, and what it asks for.
#[derive(Debug, PartialEq, Eq)]
pub struct ImportStep {
    pub state: ImportState,
    pub action: ImportAction,
}

/// The records of a remote answer. An answer that is unusable is
/// `RemoteFetch`; a usable one whose own status is not 1 is `RemoteStatus`.
pub open spec fn envelope_outcome(reply: Result<ApiReply<RemoteApiResponse>, String>) -> Result<
    Vec<RemoteTokenRecord>,
    ImportError,
> {
    match reply_outcome(reply) {
        Err(failure) => Err(ImportError::RemoteFetch(failure)),
        Ok(envelope) => if envelope.status != 1 {
            Err(ImportError::RemoteStatus(envelope.status))
        } else {
            Ok(envelope.data)
        },
    }
}

/// The records that a remote source sent, or why there are none.
pub fn check_envelope(reply: Result<ApiReply<RemoteApiResponse>, String>) -> (records: Result<
    Vec<RemoteTokenRecord>,
    ImportError,
>)
    ensures
        records == envelope_outcome(reply),
{
    match classify_reply(reply) {
        Err(failure) => Err(ImportError::RemoteFetch(failure)),
        Ok(envelope) => {
            if envelope.status != 1 {
                Err(ImportError::RemoteStatus(envelope.status))
            } else {
                Ok(envelope.data)
            }
        },
    }
}

/// Whether `step` ends the import with the error `e`.
pub open spec fn gives_up(step: ImportStep, e: ImportError) -> bool {
    step.state is Finished && step.action == ImportAction::Finish(
        Err::<ImportResult, ImportError>(e),
    )
}

/// Whether `step` is what follows when `event` comes in `state`.
///
/// The answer of the remote source is checked first; only with its records
/// in hand is the store read. The store as it was read is merged with the
/// batch and written; only when it has been written is the count handed
/// out. Whatever fails ends the import, and nothing is written after that.
/// An event that answers no request ends it too.
pub open spec fn is_import_step(state: ImportState, event: ImportEvent, step: ImportStep) -> bool {
    match (state, event) {
        (ImportState::AwaitingReply, ImportEvent::Reply(reply)) => match envelope_outcome(reply) {
            Ok(batch) => step.state == (ImportState::AwaitingStore { batch }) && step.action
                is ReadStore,
            Err(e) => gives_up(step, e),
        },
        (ImportState::AwaitingStore { batch }, ImportEvent::StoreRead(Ok(tokens))) => {
            &&& step.action is WriteStore
            &&& step.action->WriteStore_0.deep_view() == merged(
                tokens.deep_view(),
                batch.deep_view(),
            )
            &&& step.state is AwaitingSave
            &&& step.state->result.imported == imported_records(
                tokens.deep_view(),
                batch.deep_view(),
                batch.len() as nat,
            ).len()
            &&& step.state->result.imported + step.state->result.skipped == batch.len()
        },
        (ImportState::AwaitingStore { .. }, ImportEvent::StoreRead(Err(e))) => gives_up(
            step,
            ImportError::Store(e),
        ),
        (ImportState::AwaitingSave { result }, ImportEvent::StoreWritten(Ok(_))) => {
            &&& step.state is Finished
            &&& step.action == ImportAction::Finish(Ok::<ImportResult, ImportError>(result))
        },
        (ImportState::AwaitingSave { .. }, ImportEvent::StoreWritten(Err(e))) => gives_up(
            step,
            ImportError::Store(e),
        ),
        _ => gives_up(step, ImportError::OutOfTurn),
    }
}

/// Begins an import from `api_url`: the first thing to do is to ask the
/// remote source for its records.
pub fn import_from_remote(api_url: String) -> (step: ImportStep)
    ensures
        step.state is AwaitingReply,
        step.action == (ImportAction::Fetch { url: api_url }),
{
    ImportStep { state: ImportState::AwaitingReply, action: ImportAction::Fetch { url: api_url } }
}

/// Carries an import on with the answer to what it last asked for.
pub fn continue_import(state: ImportState, event: ImportEvent) -> (step: ImportStep)
    ensures
        is_import_step(state, event, step),
{
    match (state, event) {
        (ImportState::AwaitingReply, ImportEvent::Reply(reply)) => match check_envelope(reply) {
            Ok(batch) => ImportStep {
                state: ImportState::AwaitingStore { batch },
                action: ImportAction::ReadStore,
            },
            Err(e) => ImportStep {
                state: ImportState::Finished,
                action: ImportAction::Finish(Err(e)),
            },
        },
        (ImportState::AwaitingStore { batch }, ImportEvent::StoreRead(Ok(tokens))) => {
            let mut tokens = tokens;
            let result = merge(&mut tokens, &batch);
            ImportStep {
                state: ImportState::AwaitingSave { result },
                action: ImportAction::WriteStore(tokens),
            }
        },
        (ImportState::AwaitingStore { .. }, ImportEvent::StoreRead(Err(e))) => ImportStep {
            state: ImportState::Finished,
            action: ImportAction::Finish(Err(ImportError::Store(e))),
        },
        (ImportState::AwaitingSave { result }, ImportEvent::StoreWritten(Ok(_))) => ImportStep {
            state: ImportState::Finished,
            action: ImportAction::Finish(Ok(result)),
        },
        (ImportState::AwaitingSave { .. }, ImportEvent::StoreWritten(Err(e))) => ImportStep {
            state: ImportState::Finished,
            action: ImportAction::Finish(Err(ImportError::Store(e))),
        },
        _ => ImportStep {
            state: ImportState::Finished,
            action: ImportAction::Finish(Err(ImportError::OutOfTurn)),
        },
    }
}

} // verus!
