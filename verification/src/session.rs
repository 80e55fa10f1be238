//! Sessions: resolving a metric to its parameter identifier and writing a
//! sample under it.

use crate::clock::{timestamp_at, timestamp_from_seconds, unix_seconds};
use crate::cstr::{has_nul, CBytes};
use crate::db::DB;
use crate::error::{check_status, status_outcome, viewed, Error, Operation, SUCCESS};
use crate::sample::{default_sample, lemma_layout_len, Sample};
use core::marker::PhantomData;
use vstd::prelude::*;
use vstd::string::StringSliceAdditionalSpecFns;

verus! {

/// What a `ResolveCall` asks of the engine.
pub ghost struct ResolveModel {
    /// Handle of the session that asks.
    pub session: usize,
    /// The metric: a name and its tags.
    pub series: Seq<u8>,
    /// The record in which the engine answers.
    pub sample: Sample,
}

/// The native call that resolves a metric to its parameter identifier.
#[derive(Debug)]
pub struct ResolveCall<'s> {
    session: usize,
    series: CBytes,
    sample: Sample,
    busy: PhantomData<&'s mut ()>,
}

impl<'s> View for ResolveCall<'s> {
    type V = ResolveModel;

    closed spec fn view(&self) -> ResolveModel {
        ResolveModel { session: self.session, series: self.series@, sample: self.sample }
    }
}

impl<'s> ResolveCall<'s> {
    #[verifier::type_invariant]
    spec fn answers_in_scalar_record(self) -> bool {
        self.sample.is_scalar()
    }

    /// Handle of the session that asks.
    pub fn session(&self) -> (handle: usize)
        ensures
            handle == self@.session,
    {
        self.session
    }

    /// The metric to resolve. The engine is given its bytes from the first
    /// up to, not including, the terminator.
    pub fn series(&self) -> (series: &CBytes)
        ensures
            series@ == self@.series,
    {
        &self.series
    }

    /// The record to hand to the engine, which answers in it: a scalar
    /// record.
    pub fn sample(&self) -> (sample: Sample)
        ensures
            sample == self@.sample,
            sample.is_scalar(),
    {
        proof {
            use_type_invariant(self);
        }
        self.sample
    }

    /// What the engine's answer means: on success the identifier that it
    /// left in the record, else its status code.
    pub open spec fn outcome(status: u32, record: Sample) -> Result<u64, Error> {
        if status == SUCCESS {
            Ok(record.paramid)
        } else {
            Err(Error::ResolveError(status))
        }
    }

    /// Takes the answer of the engine: its status code and the record as it
    /// left it.
    pub fn finish(self, status: u32, record: &Sample) -> (resolved: Result<u64, Error>)
        ensures
            resolved == ResolveCall::outcome(status, *record),
    {
        match check_status(Operation::Resolve, status) {
            Ok(()) => Ok(record.paramid),
            Err(e) => Err(e),
        }
    }
}

/// What a `WriteCall` asks of the engine.
pub ghost struct WriteModel {
    /// Handle of the session that writes.
    pub session: usize,
    /// The record to write.
    pub sample: Sample,
}

/// The native call that writes one sample.
#[derive(Debug)]
pub struct WriteCall<'s> {
    session: usize,
    sample: Sample,
    busy: PhantomData<&'s mut ()>,
}

impl<'s> View for WriteCall<'s> {
    type V = WriteModel;

    closed spec fn view(&self) -> WriteModel {
        WriteModel { session: self.session, sample: self.sample }
    }
}

impl<'s> WriteCall<'s> {
    #[verifier::type_invariant]
    spec fn writes_scalar_record(self) -> bool {
        self.sample.is_scalar()
    }

    /// Handle of the session that writes.
    pub fn session(&self) -> (handle: usize)
        ensures
            handle == self@.session,
    {
        self.session
    }

    /// The record to write: a scalar record.
    pub fn sample(&self) -> (sample: Sample)
        ensures
            sample == self@.sample,
            sample.is_scalar(),
    {
        proof {
            use_type_invariant(self);
        }
        self.sample
    }

    /// Takes the status code that the engine returned. Any code but success
    /// comes back as the `WriteError` that carries it.
    pub fn finish(self, status: u32) -> (written: Result<(), Error>)
        ensures
            written == status_outcome(Operation::Write, status),
            written is Ok <==> status == SUCCESS,
            written matches Err(e) ==> e == Error::WriteError(status),
    {
        check_status(Operation::Write, status)
    }
}

/// A write that waits for its metric to be resolved.
pub ghost struct PendingModel {
    /// The resolution that comes first.
    pub resolve: ResolveModel,
    /// The bits of the value to write.
    pub value_bits: u64,
}

/// A write whose metric is being resolved.
#[derive(Debug)]
pub struct PendingWrite<'s> {
    resolve: ResolveCall<'s>,
    value_bits: u64,
}

impl<'s> View for PendingWrite<'s> {
    type V = PendingModel;

    closed spec fn view(&self) -> PendingModel {
        PendingModel { resolve: self.resolve@, value_bits: self.value_bits }
    }
}

impl<'s> PendingWrite<'s> {
    /// The call that resolves the metric of this write.
    pub fn resolve_call(&self) -> (call: &ResolveCall<'s>)
        ensures
            call@ == self@.resolve,
    {
        &self.resolve
    }

    /// The bits of the value to write.
    pub fn value_bits(&self) -> (bits: u64)
        ensures
            bits == self@.value_bits,
    {
        self.value_bits
    }

    /// What follows the resolution when the clock reads `seconds`: if the
    /// engine resolved the metric, the write of a scalar record with that
    /// time, the identifier the engine gave and the value; else the error
    /// of the resolution.
    pub open spec fn outcome_at(
        pending: PendingModel,
        status: u32,
        record: Sample,
        seconds: i64,
    ) -> Result<WriteModel, Error> {
        match ResolveCall::outcome(status, record) {
            Ok(paramid) => Ok(
                WriteModel {
                    session: pending.resolve.session,
                    sample: Sample::scalar(timestamp_at(seconds), paramid, pending.value_bits),
                },
            ),
            Err(e) => Err(e),
        }
    }

    /// Takes the answer of the engine to the resolution, at a time given in
    /// seconds since the Unix epoch, and plans the write itself.
    pub fn resolved_at(self, status: u32, record: &Sample, seconds: i64) -> (next: Result<
        WriteCall<'s>,
        Error,
    >)
        ensures
            viewed(next) == PendingWrite::outcome_at(self@, status, *record, seconds),
            next matches Ok(call) ==> call@.sample.is_scalar(),
    {
        let session = self.resolve.session;
        match self.resolve.finish(status, record) {
            Err(e) => Err(e),
            Ok(paramid) => {
                let timestamp = timestamp_from_seconds(seconds);
                Ok(
                    WriteCall {
                        session,
                        sample: Sample::float(timestamp, paramid, self.value_bits),
                        busy: PhantomData,
                    },
                )
            },
        }
    }

    /// Takes the answer of the engine to the resolution and plans the write
    /// itself, stamped with the time the wall clock shows now. The clock is
    /// read only if the metric was resolved.
    pub fn resolved(self, status: u32, record: &Sample) -> (next: Result<WriteCall<'s>, Error>)
        ensures
            exists|seconds: i64|
                viewed(next) == #[trigger] PendingWrite::outcome_at(
                    self@,
                    status,
                    *record,
                    seconds,
                ),
            next is Ok <==> status == SUCCESS,
            next matches Err(e) ==> e == Error::ResolveError(status),
            next matches Ok(call) ==> call@.sample.is_scalar(),
    {
        if status != SUCCESS {
            let next = self.resolved_at(status, record, 0);
            return next;
        }
        let seconds = unix_seconds();
        self.resolved_at(status, record, seconds)
    }
}

/// The native call that releases a session.
#[derive(Debug)]
pub struct DestroyCall {
    session: usize,
}

impl DestroyCall {
    /// Handle of the session to release.
    pub closed spec fn session(&self) -> usize {
        self.session
    }

    /// Handle of the session to release.
    pub fn session_handle(&self) -> (handle: usize)
        ensures
            handle == self.session(),
    {
        self.session
    }
}

/// A write handle of one database. It borrows the database, so it cannot
/// outlive it.
#[derive(Debug)]
pub struct Session<'a> {
    handle: usize,
    db: &'a DB,
}

impl<'a> Session<'a> {
    #[verifier::type_invariant]
    spec fn live(self) -> bool {
        self.handle != 0
    }

    /// The handle of the session.
    pub closed spec fn spec_handle(&self) -> usize {
        self.handle
    }

    /// The handle of the database this session belongs to.
    pub closed spec fn database(&self) -> usize {
        self.db.spec_handle()
    }

    /// Wraps the handle of a session that the engine made of `db`.
    pub(crate) fn attach(db: &'a DB, handle: usize) -> (session: Session<'a>)
        requires
            handle != 0,
        ensures
            session.spec_handle() == handle,
            session.database() == db.spec_handle(),
    {
        Session { handle, db }
    }

    /// The handle of the session. Never null.
    #[verifier::when_used_as_spec(spec_handle)]
    pub fn handle(&self) -> (handle: usize)
        ensures
            handle == self.spec_handle(),
            handle != 0,
    {
        proof {
            use_type_invariant(self);
        }
        self.handle
    }

    /// The handle of the database this session belongs to.
    pub fn db_handle(&self) -> (handle: usize)
        ensures
            handle == self.database(),
            handle != 0,
    {
        self.db.handle()
    }

    /// The call with which the session `session` resolves `metric`. There is
    /// none when the metric cannot be null-terminated.
    pub open spec fn resolve_plan(session: usize, metric: Seq<u8>) -> Result<ResolveModel, Error> {
        if has_nul(metric) {
            Err(Error::ConfigError)
        } else {
            Ok(ResolveModel { session, series: metric, sample: Sample::scalar(0, 0, 0) })
        }
    }

    /// The resolution with which the session `session` starts to write
    /// `value_bits` under `metric`.
    pub open spec fn write_plan(session: usize, metric: Seq<u8>, value_bits: u64) -> Result<
        PendingModel,
        Error,
    > {
        match Session::resolve_plan(session, metric) {
            Ok(resolve) => Ok(PendingModel { resolve, value_bits }),
            Err(e) => Err(e),
        }
    }

    /// Plans the resolution of `metric` to its parameter identifier.
    ///
    /// If the metric holds a null byte the result is `ConfigError`.
    /// Otherwise it is the call to make, with a record of zeros tagged as
    /// scalar for the engine to answer in. The call holds the session
    /// exclusively until it is finished: the engine cannot take two calls
    /// on one session at a time.
    pub fn metric_to_param_id<'s>(&'s mut self, metric: &str) -> (planned: Result<
        ResolveCall<'s>,
        Error,
    >)
        ensures
            viewed(planned) == Session::resolve_plan(old(self).handle(), metric.spec_bytes()),
            planned matches Ok(call) ==> call@.sample.is_scalar(),
            final(self).handle() == old(self).handle(),
            final(self).database() == old(self).database(),
    {
        match CBytes::from_str(metric) {
            Err(e) => Err(e),
            Ok(series) => Ok(
                ResolveCall {
                    session: self.handle(),
                    series,
                    sample: default_sample(),
                    busy: PhantomData,
                },
            ),
        }
    }

    /// Plans the write of a value, given as the bits of a 64-bit float,
    /// under `metric`. The metric is resolved first; the write itself is
    /// planned from the engine's answer. The session is held exclusively
    /// until the write is finished or given up.
    pub fn write<'s>(&'s mut self, metric: &str, value_bits: u64) -> (planned: Result<
        PendingWrite<'s>,
        Error,
    >)
        ensures
            viewed(planned) == Session::write_plan(
                old(self).handle(),
                metric.spec_bytes(),
                value_bits,
            ),
            final(self).handle() == old(self).handle(),
            final(self).database() == old(self).database(),
    {
        match self.metric_to_param_id(metric) {
            Err(e) => Err(e),
            Ok(resolve) => Ok(PendingWrite { resolve, value_bits }),
        }
    }

    /// Gives the session up. The result is the call that releases its
    /// handle; the session itself is gone, whatever was done with it before.
    pub fn close(self) -> (call: DestroyCall)
        ensures
            call.session() == self.handle(),
    {
        DestroyCall { session: self.handle }
    }
}

/// Resolution adds nothing of its own to what the engine says: asked twice
/// for one metric, a session puts the same question both times, and each
/// result is the identifier that the engine answered with. So two
/// resolutions agree whenever the engine's two answers do.
pub proof fn lemma_resolution_is_engine_answer(
    session: usize,
    metric: Seq<u8>,
    status: u32,
    first: Sample,
    second: Sample,
)
    requires
        first.paramid == second.paramid,
    ensures
        Session::resolve_plan(session, metric) matches Ok(call) ==> call.session == session
            && call.series == metric && call.sample.is_scalar(),
        ResolveCall::outcome(status, first) == ResolveCall::outcome(status, second),
        status == SUCCESS ==> ResolveCall::outcome(status, first) == Ok::<u64, Error>(
            first.paramid,
        ),
{
    lemma_layout_len(Sample::scalar(0, 0, 0));
}

} // verus!
