//! The transaction lifecycle.
//!
//! A `Transaction` wraps one native transaction handle. Between operations it
//! is Active (handle present) or Finalized (handle gone). `execute` and
//! `fetch_all` only borrow the handle for one call; `stream_data` withdraws
//! it for the life of the cursor and never gives it back, so the transaction
//! stays unusable until the next commit or rollback renews it. Commit and
//! rollback withdraw the handle, let the native call's failure pass unheard,
//! and then renew: they ask the owning pool for a fresh handle and install
//! it, or leave the transaction empty when the pool is unreachable.
//!
//! The native calls themselves are I/O and happen outside this crate; the
//! caller runs each call and feeds its outcome back into these functions,
//! which decide everything else.

use vstd::prelude::*;
use crate::binder::BoundQuery;
use crate::binder::bind_for;
use crate::binder::bound_params_spec;
use crate::binder::bound_text_spec;
use crate::binder::first_unsupported;
use crate::binder::kind_name_spec;
use crate::binder::placeholders_ok;
use crate::decode::RawColumn;
use crate::decode::Row;
use crate::decode::decode_rows;
use crate::decode::decoded_row_of;
use crate::errors::DbError;
use crate::values::DriverKind;
use crate::values::ParameterValue;

verus! {

/// The per-unit-of-work transaction state: which backend it speaks to,
/// whether its handle is present, and whether a mutating operation has run
/// since the last commit or rollback.
#[derive(Clone, Copy, Debug, PartialEq, Eq, Structural)]
pub struct Transaction {
    pub driver: DriverKind,
    pub handle_present: bool,
    pub dirty: bool,
}

/// What a commit or rollback asks its caller to do against the backend:
/// issue the native finalizing call on the withdrawn handle, and then
/// request a fresh handle from the owning pool.
#[derive(Clone, Copy, Debug, PartialEq, Eq, Structural)]
pub struct FinalizeAction {
    pub backend_call: bool,
    pub renew: bool,
}

/// The state a transaction reaches once renewal has run: a fresh handle when
/// the pool gave one, empty otherwise, and clean either way.
pub open spec fn renewed(tx: Transaction, acquired: bool) -> Transaction {
    Transaction { driver: tx.driver, handle_present: acquired, dirty: false }
}

impl Transaction {
    /// A transaction as the pool mints it: handle present, nothing run yet.
    pub fn fresh(driver: DriverKind) -> (tx: Transaction)
        ensures
            tx == (Transaction { driver, handle_present: true, dirty: false }),
    {
        Transaction { driver, handle_present: true, dirty: false }
    }

    /// Binds a statement against this transaction's backend, for an
    /// operation that will borrow the handle. Refused outright when the
    /// handle is gone.
    pub fn prepare(&self, query: &str, params: &Vec<ParameterValue>) -> (r: Result<
        BoundQuery,
        DbError,
    >)
        requires
            self.driver == DriverKind::Sqlite ==> placeholders_ok(query@, params@.len() as int),
        ensures
            !self.handle_present ==> r == Err::<BoundQuery, DbError>(DbError::NoActiveTransaction),
            self.handle_present ==> match r {
                Ok(b) => {
                    &&& first_unsupported(
                        self.driver,
                        bound_params_spec(self.driver, query@, params@),
                    ) is None
                    &&& b.text@ == bound_text_spec(self.driver, query@)
                    &&& b.params@ == bound_params_spec(self.driver, query@, params@)
                },
                Err(e) => first_unsupported(self.driver, bound_params_spec(self.driver, query@, params@))
                    matches Some(k) && (e matches DbError::UnsupportedParameterType(s) && s@
                    == kind_name_spec(k)),
            },
    {
        if !self.handle_present {
            return Err(DbError::NoActiveTransaction);
        }
        bind_for(self.driver, query, params)
    }

    /// Settles a non-query statement's outcome. The handle was only
    /// borrowed, so the transaction is left exactly as it was, whether the
    /// statement succeeded with its rows-affected count or failed with the
    /// driver's message.
    pub fn complete_execute(&self, outcome: Result<u64, String>) -> (r: Result<u64, DbError>)
        ensures
            match outcome {
                Ok(n) => r == Ok::<u64, DbError>(n),
                Err(m) => r == Err::<u64, DbError>(DbError::Query(m)),
            },
    {
        match outcome {
            Ok(n) => Ok(n),
            Err(m) => Err(DbError::Query(m)),
        }
    }

    /// Settles a fetch's outcome: decodes every native row by this backend's
    /// probe order, or passes the driver's error through. The handle was
    /// only borrowed; the transaction is left as it was.
    pub fn complete_fetch(&self, outcome: Result<Vec<Vec<RawColumn>>, String>) -> (r: Result<
        Vec<Row>,
        DbError,
    >)
        ensures
            match outcome {
                Ok(raws) => r matches Ok(rows) && rows@.len() == raws@.len() && forall|i: int|
                    0 <= i < raws@.len() ==> decoded_row_of(
                        self.driver,
                        raws@[i],
                        #[trigger] rows@[i],
                    ),
                Err(m) => r == Err::<Vec<Row>, DbError>(DbError::Query(m)),
            },
    {
        match outcome {
            Ok(raws) => Ok(decode_rows(self.driver, &raws)),
            Err(m) => Err(DbError::Query(m)),
        }
    }

    /// Binds a statement and withdraws the handle for the life of the query
    /// cursor. The handle is not given back when the cursor ends: by design
    /// the transaction stays unusable until the next commit or rollback
    /// renews it.
    pub fn begin_stream(&mut self, query: &str, params: &Vec<ParameterValue>) -> (r: Result<
        BoundQuery,
        DbError,
    >)
        requires
            old(self).driver == DriverKind::Sqlite ==> placeholders_ok(
                query@,
                params@.len() as int,
            ),
        ensures
            !old(self).handle_present ==> r == Err::<BoundQuery, DbError>(
                DbError::NoActiveTransaction,
            ) && *final(self) == *old(self),
            old(self).handle_present ==> match r {
                Ok(b) => {
                    &&& first_unsupported(
                        old(self).driver,
                        bound_params_spec(old(self).driver, query@, params@),
                    ) is None
                    &&& b.text@ == bound_text_spec(old(self).driver, query@)
                    &&& b.params@ == bound_params_spec(old(self).driver, query@, params@)
                    &&& *final(self) == (Transaction {
                        handle_present: false,
                        ..*old(self)
                    })
                },
                Err(e) => first_unsupported(
                    old(self).driver,
                    bound_params_spec(old(self).driver, query@, params@),
                ) matches Some(k) && (e matches DbError::UnsupportedParameterType(s) && s@
                    == kind_name_spec(k)) && *final(self) == *old(self),
            },
    {
        if !self.handle_present {
            return Err(DbError::NoActiveTransaction);
        }
        match bind_for(self.driver, query, params) {
            Ok(b) => {
                self.handle_present = false;
                Ok(b)
            },
            Err(e) => Err(e),
        }
    }

    /// Settles a streaming fetch's outcome: decodes the rows and groups them
    /// into chunks of at most `chunk_size`, the final chunk possibly
    /// shorter, or passes the driver's error through. Either way the handle
    /// stays withdrawn.
    pub fn complete_stream(&self, chunk_size: usize, outcome: Result<Vec<Vec<RawColumn>>, String>)
        -> (r: Result<Vec<Vec<Row>>, DbError>)
        requires
            chunk_size >= 1,
        ensures
            match outcome {
                Ok(raws) => r matches Ok(chunks) && stream_chunks_ok(
                    self.driver,
                    raws@,
                    chunks@,
                    chunk_size,
                ),
                Err(m) => r == Err::<Vec<Vec<Row>>, DbError>(DbError::Query(m)),
            },
    {
        match outcome {
            Ok(raws) => Ok(chunk_decoded(self.driver, &raws, chunk_size)),
            Err(m) => Err(DbError::Query(m)),
        }
    }

    /// Withdraws the handle for a native commit whose failure will be
    /// swallowed, and asks for renewal to follow. A transaction already left
    /// without a handle (after streaming) skips the native call but is still
    /// renewed.
    pub fn begin_commit(&mut self) -> (a: FinalizeAction)
        ensures
            a == (FinalizeAction { backend_call: old(self).handle_present, renew: true }),
            *final(self) == (Transaction { handle_present: false, ..*old(self) }),
    {
        let had_handle = self.handle_present;
        self.handle_present = false;
        FinalizeAction { backend_call: had_handle, renew: true }
    }

    /// A rollback on a clean transaction is a no-op: no backend call, no
    /// renewal, handle untouched. Otherwise it withdraws the handle for a
    /// native rollback whose failure will be swallowed, and asks for renewal
    /// exactly as a commit does.
    pub fn begin_rollback(&mut self) -> (a: FinalizeAction)
        ensures
            !old(self).dirty ==> a == (FinalizeAction { backend_call: false, renew: false })
                && *final(self) == *old(self),
            old(self).dirty ==> a == (FinalizeAction {
                backend_call: old(self).handle_present,
                renew: true,
            }) && *final(self) == (Transaction { handle_present: false, ..*old(self) }),
    {
        if !self.dirty {
            return FinalizeAction { backend_call: false, renew: false };
        }
        let had_handle = self.handle_present;
        self.handle_present = false;
        FinalizeAction { backend_call: had_handle, renew: true }
    }

    /// Installs the renewal's outcome: a fresh handle when the pool gave
    /// one, none when it was unreachable; clean either way.
    pub fn finish_renewal(&mut self, acquired: bool)
        requires
            !old(self).handle_present,
        ensures
            *final(self) == renewed(*old(self), acquired),
    {
        self.handle_present = acquired;
        self.dirty = false;
    }
}

/// After a commit (or dirty rollback) and its renewal, a further operation
/// proceeds exactly when the pool was reachable: the renewed transaction
/// holds a handle if and only if renewal acquired one, and `prepare`'s
/// contract turns a missing handle into `NoActiveTransaction` and nothing
/// else. No verified function panics or blocks, so a post-commit `execute`
/// either runs or fails with that error.
pub proof fn lemma_operation_after_renewal(tx: Transaction, acquired: bool)
    ensures
        renewed(tx, acquired).handle_present == acquired,
        !renewed(tx, acquired).dirty,
        renewed(tx, acquired).driver == tx.driver,
{
}

/// The flattened content of a chunk list.
pub open spec fn chunks_flat(chunks: Seq<Vec<Row>>) -> Seq<Row> {
    chunks.flat_map(|c: Vec<Row>| c@)
}

/// The chunk list `chunks` is the row set of `raws` decoded under `d` and
/// grouped in order: every chunk holds at most `cs` rows, every chunk but
/// the last holds exactly `cs`, none is empty, and the concatenation is the
/// decoded row set.
pub open spec fn stream_chunks_ok(
    d: DriverKind,
    raws: Seq<Vec<RawColumn>>,
    chunks: Seq<Vec<Row>>,
    cs: usize,
) -> bool {
    &&& chunks_flat(chunks).len() == raws.len()
    &&& forall|m: int|
        0 <= m < raws.len() ==> decoded_row_of(d, raws[m], #[trigger] chunks_flat(chunks)[m])
    &&& forall|i: int| 0 <= i < chunks.len() ==> 1 <= (#[trigger] chunks[i]@.len()) <= cs
    &&& forall|i: int| 0 <= i < chunks.len() - 1 ==> (#[trigger] chunks[i]@.len()) == cs
}

/// Decodes each native row and groups the results into chunks of at most
/// `chunk_size`, the final chunk possibly shorter.
fn chunk_decoded(d: DriverKind, raws: &Vec<Vec<RawColumn>>, chunk_size: usize) -> (chunks: Vec<
    Vec<Row>,
>)
    requires
        chunk_size >= 1,
    ensures
        stream_chunks_ok(d, raws@, chunks@, chunk_size),
{
    let n = raws.len();
    let mut chunks: Vec<Vec<Row>> = Vec::new();
    let mut current: Vec<Row> = Vec::new();
    let mut i: usize = 0;
    while i < n
        invariant
            0 <= i <= n,
            n == raws@.len(),
            chunks_flat(chunks@).len() + current@.len() == i,
            current@.len() < chunk_size,
            forall|m: int|
                0 <= m < chunks_flat(chunks@).len() ==> decoded_row_of(
                    d,
                    raws@[m],
                    #[trigger] chunks_flat(chunks@)[m],
                ),
            forall|m: int|
                0 <= m < current@.len() ==> decoded_row_of(
                    d,
                    raws@[chunks_flat(chunks@).len() + m],
                    #[trigger] current@[m],
                ),
            forall|c: int| 0 <= c < chunks@.len() ==> (#[trigger] chunks@[c]@.len()) == chunk_size,
        decreases n - i,
    {
        let row = crate::decode::decode_row(d, &raws[i]);
        current.push(row);
        if current.len() == chunk_size {
            let ghost old_chunks = chunks@;
            let ghost full = current@;
            chunks.push(current);
            current = Vec::new();
            proof {
                assert(chunks@ == old_chunks.push(chunks@.last()));
                assert(chunks@.last()@ == full);
                old_chunks.lemma_flat_map_push(|c: Vec<Row>| c@, chunks@.last());
                assert(chunks_flat(chunks@) =~= chunks_flat(old_chunks) + full);
            }
        }
        i = i + 1;
    }
    if current.len() > 0 {
        let ghost old_chunks = chunks@;
        let ghost tail_chunk = current@;
        chunks.push(current);
        proof {
            assert(chunks@ == old_chunks.push(chunks@.last()));
            assert(chunks@.last()@ == tail_chunk);
            old_chunks.lemma_flat_map_push(|c: Vec<Row>| c@, chunks@.last());
            assert(chunks_flat(chunks@) =~= chunks_flat(old_chunks) + tail_chunk);
        }
    }
    chunks
}

} // verus!
