//! Bulk changes: one statement run once per parameter set, grouped into
//! batches of at most `batch_size` sets, against the open transaction.
//!
//! The sets run strictly in order. The first per-set failure stops the run:
//! later sets are never attempted, the transaction is marked dirty and owes
//! a rollback-with-renewal, and the driver's error is returned. A set whose
//! values the binder refuses also stops the run, but propagates the binder's
//! error without dirtying anything, as a plain bind failure would. On full
//! success the rows-affected counts sum up and the transaction is marked
//! dirty.

use vstd::prelude::*;
use crate::binder::BoundQuery;
use crate::binder::bind_for;
use crate::binder::bound_params_spec;
use crate::binder::bound_text_spec;
use crate::binder::first_unsupported;
use crate::binder::kind_name_spec;
use crate::binder::placeholders_ok;
use crate::errors::DbError;
use crate::transaction::Transaction;
use crate::values::DriverKind;
use crate::values::ParameterValue;

verus! {

/// Where a bulk run stands: still running, stopped by the binder refusing a
/// set, or stopped by the driver failing a set.
#[derive(Clone, Debug, PartialEq, Eq)]
pub enum BulkStatus {
    Running,
    /// The binder refused the next set; the payload is its error.
    BindRefused(DbError),
    /// The driver failed the current set; the payload is its message.
    ExecFailed(String),
}

/// The state of one bulk change: the statement, the parameter sets, the
/// batching width, and how far the run has come.
#[derive(Clone, Debug, PartialEq, Eq)]
pub struct BulkRun {
    pub driver: DriverKind,
    pub query: String,
    pub param_sets: Vec<Vec<ParameterValue>>,
    pub batch_size: usize,
    /// The next set to run; when the run has stopped, the set it stopped at.
    pub next_item: usize,
    /// Rows affected so far, summed.
    pub total_affected: u64,
    pub status: BulkStatus,
}

impl BulkRun {
    /// What `begin_bulk` establishes and every step keeps.
    pub open spec fn wf(self) -> bool {
        &&& self.batch_size >= 1
        &&& self.next_item <= self.param_sets@.len()
        &&& self.driver == DriverKind::Sqlite ==> forall|i: int|
            0 <= i < self.param_sets@.len() ==> placeholders_ok(
                self.query@,
                (#[trigger] self.param_sets@[i])@.len() as int,
            )
    }

    /// Whether every set ran and succeeded.
    pub open spec fn is_complete(self) -> bool {
        self.status is Running && self.next_item == self.param_sets@.len()
    }

    /// The set the run would attempt next, if any: once a set has failed or
    /// every set has run, there is none — later sets are never attempted.
    pub open spec fn current_item_spec(self) -> Option<usize> {
        if self.status is Running && self.next_item < self.param_sets@.len() {
            Some(self.next_item)
        } else {
            None
        }
    }

    /// The set the run attempts next, if any.
    pub fn current_item(&self) -> (r: Option<usize>)
        ensures
            r == self.current_item_spec(),
    {
        if matches!(self.status, BulkStatus::Running) && self.next_item < self.param_sets.len() {
            Some(self.next_item)
        } else {
            None
        }
    }

    /// Binds the next set. A refused value stops the run with the binder's
    /// error and the set is not attempted; otherwise the bound statement is
    /// handed back for the caller to run.
    pub fn bind_next(&mut self) -> (r: Option<BoundQuery>)
        requires
            old(self).wf(),
            old(self).current_item_spec() is Some,
        ensures
            final(self).wf(),
            final(self).driver == old(self).driver,
            final(self).query == old(self).query,
            final(self).param_sets == old(self).param_sets,
            final(self).batch_size == old(self).batch_size,
            final(self).next_item == old(self).next_item,
            final(self).total_affected == old(self).total_affected,
            ({
                let d = old(self).driver;
                let q = old(self).query@;
                let ps = old(self).param_sets@[old(self).next_item as int]@;
                match r {
                    Some(b) => {
                        &&& first_unsupported(d, bound_params_spec(d, q, ps)) is None
                        &&& b.text@ == bound_text_spec(d, q)
                        &&& b.params@ == bound_params_spec(d, q, ps)
                        &&& final(self).status == old(self).status
                    },
                    None => first_unsupported(d, bound_params_spec(d, q, ps)) matches Some(k) && (
                    final(self).status matches BulkStatus::BindRefused(e) && (e matches
                        DbError::UnsupportedParameterType(s) && s@ == kind_name_spec(k))),
                }
            }),
    {
        let i = self.next_item;
        match bind_for(self.driver, self.query.as_str(), &self.param_sets[i]) {
            Ok(b) => Some(b),
            Err(e) => {
                self.status = BulkStatus::BindRefused(e);
                None
            },
        }
    }

    /// Records that the current set ran, adding its rows-affected count and
    /// moving to the next set.
    pub fn record_success(&mut self, rows: u64)
        requires
            old(self).wf(),
            old(self).current_item_spec() is Some,
            old(self).total_affected + rows <= u64::MAX,
        ensures
            final(self).wf(),
            *final(self) == (BulkRun {
                next_item: (old(self).next_item + 1) as usize,
                total_affected: (old(self).total_affected + rows) as u64,
                ..*old(self)
            }),
    {
        let n = self.param_sets.len();
        self.total_affected = self.total_affected + rows;
        self.next_item = self.next_item + 1;
    }

    /// Records that the driver failed the current set. The run stops here:
    /// no later set is attempted, and the transaction owes a
    /// rollback-with-renewal.
    pub fn record_exec_failure(&mut self, message: String)
        requires
            old(self).wf(),
            old(self).current_item_spec() is Some,
        ensures
            final(self).wf(),
            *final(self) == (BulkRun { status: BulkStatus::ExecFailed(message), ..*old(self) }),
            final(self).current_item_spec() is None,
    {
        self.status = BulkStatus::ExecFailed(message);
    }

    /// Whether the run's end obliges a rollback-with-renewal: exactly after
    /// a driver failure.
    pub fn rollback_owed(&self) -> (r: bool)
        ensures
            r == (self.status is ExecFailed),
    {
        matches!(self.status, BulkStatus::ExecFailed(_))
    }
}

/// Once a set has failed, no further set is ever attempted: the run's
/// current item stays empty from that point on.
pub proof fn lemma_bulk_stops_after_failure(run: BulkRun)
    requires
        !(run.status is Running),
    ensures
        run.current_item_spec() is None,
{
}

impl Transaction {
    /// Starts a bulk change over the given parameter sets, batched by
    /// `batch_size`. Refused outright when the handle is gone.
    pub fn begin_bulk(
        &self,
        query: &str,
        param_sets: Vec<Vec<ParameterValue>>,
        batch_size: usize,
    ) -> (r: Result<BulkRun, DbError>)
        requires
            batch_size >= 1,
            self.driver == DriverKind::Sqlite ==> forall|i: int|
                0 <= i < param_sets@.len() ==> placeholders_ok(
                    query@,
                    (#[trigger] param_sets@[i])@.len() as int,
                ),
        ensures
            !self.handle_present ==> r == Err::<BulkRun, DbError>(DbError::NoActiveTransaction),
            self.handle_present ==> (r matches Ok(run) && run == (BulkRun {
                driver: self.driver,
                query: run.query,
                param_sets: param_sets,
                batch_size: batch_size,
                next_item: 0,
                total_affected: 0,
                status: BulkStatus::Running,
            }) && run.query@ == query@ && run.wf()),
    {
        if !self.handle_present {
            return Err(DbError::NoActiveTransaction);
        }
        let run = BulkRun {
            driver: self.driver,
            query: query.to_owned(),
            param_sets,
            batch_size,
            next_item: 0,
            total_affected: 0,
            status: BulkStatus::Running,
        };
        Ok(run)
    }

    /// Settles a finished bulk run against this transaction. Full success
    /// marks the transaction dirty and yields the summed rows-affected
    /// count. A driver failure marks it dirty — the caller then drives the
    /// owed rollback-with-renewal — and yields the driver's error. A binder
    /// refusal leaves the transaction untouched and propagates the binder's
    /// error.
    pub fn finish_bulk(&mut self, run: &BulkRun) -> (r: Result<u64, DbError>)
        requires
            run.current_item_spec() is None,
        ensures
            run.is_complete() ==> r == Ok::<u64, DbError>(run.total_affected) && *final(self) == (
            Transaction { dirty: true, ..*old(self) }),
            run.status matches BulkStatus::ExecFailed(m) ==> r == Err::<u64, DbError>(
                DbError::Query(m),
            ) && *final(self) == (Transaction { dirty: true, ..*old(self) }),
            run.status matches BulkStatus::BindRefused(e) ==> r == Err::<u64, DbError>(e)
                && *final(self) == *old(self),
    {
        match &run.status {
            BulkStatus::Running => {
                self.dirty = true;
                Ok(run.total_affected)
            },
            BulkStatus::ExecFailed(m) => {
                self.dirty = true;
                Err(DbError::Query(m.clone()))
            },
            BulkStatus::BindRefused(e) => Err(duplicate_error(e)),
        }
    }
}

/// An exact copy of a transaction error.
fn duplicate_error(e: &DbError) -> (r: DbError)
    ensures
        r == *e,
{
    match e {
        DbError::PoolExhausted => DbError::PoolExhausted,
        DbError::UnsupportedParameterType(s) => DbError::UnsupportedParameterType(s.clone()),
        DbError::Query(m) => DbError::Query(m.clone()),
        DbError::NoActiveTransaction => DbError::NoActiveTransaction,
    }
}

/// The batch widths a bulk run of `total` sets takes, in order: full
/// batches of `bs` and a final shorter one for what remains.
pub open spec fn batch_layout_spec(total: int, bs: int) -> Seq<int>
    decreases total, when bs >= 1
{
    if total <= 0 {
        Seq::<int>::empty()
    } else if total <= bs {
        seq![total]
    } else {
        seq![bs] + batch_layout_spec(total - bs, bs)
    }
}

/// How a bulk run of `total` sets is grouped: the width of each batch, in
/// order.
pub fn batch_layout(total: usize, bs: usize) -> (layout: Vec<usize>)
    requires
        bs >= 1,
    ensures
        layout@.map_values(|x: usize| x as int) == batch_layout_spec(total as int, bs as int),
    decreases total,
{
    if total == 0 {
        let layout: Vec<usize> = Vec::new();
        proof {
            assert(layout@.map_values(|x: usize| x as int) =~= batch_layout_spec(
                total as int,
                bs as int,
            ));
        }
        layout
    } else if total <= bs {
        let mut layout: Vec<usize> = Vec::new();
        layout.push(total);
        proof {
            assert(layout@.map_values(|x: usize| x as int) =~= batch_layout_spec(
                total as int,
                bs as int,
            ));
        }
        layout
    } else {
        let mut rest = batch_layout(total - bs, bs);
        let mut layout: Vec<usize> = Vec::new();
        layout.push(bs);
        layout.append(&mut rest);
        proof {
            assert(layout@.map_values(|x: usize| x as int) =~= batch_layout_spec(
                total as int,
                bs as int,
            ));
        }
        layout
    }
}

} // verus!
