//! The report generator: one best-effort daily run.
//!
//! A run is a strict sequence of stages — fetch yesterday's messages,
//! serialize them, summarize, persist the digest, deliver it — and each stage
//! has its own failure class, so a caller can tell a quiet day from a backend
//! failure from a lost write. [`RunState`] is the run as a state machine: the
//! shell performs one outside call per state and feeds the outcome back, and
//! every decision between stages is made here. [`generate_report`] and
//! [`summarize_daily_messages`] are the same pipeline composed over the
//! in-memory store, with the two outside outcomes (the summarizer's reply and
//! the store's acceptance of the write) handed in as values; their contracts
//! and the law lemmas below pin down the whole run against
//! [`report_model`] / [`trigger_model`].

use vstd::prelude::*;
use crate::date::Date;
use crate::message::Message;
use crate::message::msg_views;
use crate::serialize::batch_text;
use crate::serialize::has_substring;
use crate::serialize::lemma_batch_text_complete;
use crate::serialize::serialize_batch;
use crate::store::MessageStore;
use crate::store::StoreView;
use crate::store::SummaryView;
use crate::store::lemma_sums_on_push;
use crate::store::msgs_on;
use crate::store::sums_on;

verus! {

/// Why a run produced no persisted digest. `NoMessages` is routine (a quiet
/// day); the others name the stage that failed.
#[derive(Clone, Copy, PartialEq, Eq, Structural, Debug)]
pub enum ReportError {
    /// Yesterday has no stored messages: reported, not a fault.
    NoMessages,
    /// The store could not be queried at all.
    StoreUnavailable,
    /// The summarizer backend failed; nothing was persisted.
    SummarizationFailed,
    /// The digest was generated but the store refused the insert; the digest
    /// is lost from durable storage by design.
    PersistenceFailed,
}

/// What the store's fetch stage handed back.
#[derive(Debug)]
pub enum FetchOutcome {
    /// The day's messages, in insertion order; distinguishes data from quiet.
    Rows(Vec<Message>),
    /// The day has no rows at all.
    NoRows,
    /// The store could not be reached.
    Unavailable,
}

/// What the summarizer handed back for the serialized batch.
#[derive(Debug)]
pub enum SummarizeOutcome {
    /// The markdown digest text.
    Digest(String),
    /// Any backend failure: network, auth, quota, timeout.
    Failed,
}

/// Whether the store accepted the summary row.
#[derive(Clone, Copy, PartialEq, Eq, Structural, Debug)]
pub enum WriteOutcome {
    Written,
    Refused,
}

/// Whether the notifier delivered the digest.
#[derive(Clone, Copy, PartialEq, Eq, Structural, Debug)]
pub enum DeliverOutcome {
    Delivered,
    Failed,
}

/// One run of the pipeline, between outside calls. The shell performs the
/// call each pending state asks for and feeds the outcome back; all decisions
/// live in the transition functions.
#[derive(Debug)]
pub enum RunState {
    /// Waiting for the store query for the target day.
    FetchPending { target: Date },
    /// Waiting for the summarizer's reply to `prompt`.
    SummarizePending { target: Date, prompt: String },
    /// Waiting for the store to accept the digest row.
    PersistPending { target: Date, digest: String },
    /// The run is over; no further stage touches the store.
    Complete { result: Result<String, ReportError> },
}

impl RunState {
    /// Begins a run triggered on `today`: the target is the day before, fixed
    /// here so that scheduling jitter cannot move it.
    pub fn start(today: Date) -> (s: Self)
        requires
            today.wf(),
            !today.is_min(),
        ensures
            s == (RunState::FetchPending { target: today.prev_spec() }),
    {
        RunState::FetchPending { target: today.yesterday() }
    }

    /// Consumes the fetch outcome: no rows ends the run with `NoMessages`, an
    /// unreachable store with `StoreUnavailable`, and data moves on to the
    /// summarizer with the canonical serialization of the whole batch.
    pub fn on_fetched(self, fetched: FetchOutcome) -> (next: Self)
        requires
            self is FetchPending,
        ensures
            fetched is NoRows ==> next == (RunState::Complete {
                result: Err(ReportError::NoMessages),
            }),
            fetched is Unavailable ==> next == (RunState::Complete {
                result: Err(ReportError::StoreUnavailable),
            }),
            fetched matches FetchOutcome::Rows(batch) ==> next matches RunState::SummarizePending {
                target,
                prompt,
            } && target == self->FetchPending_target && prompt@ == batch_text(msg_views(batch@)),
            // The only way into the summarize stage, entered exactly when the
            // day has data; a run never returns to the fetch stage.
            next is SummarizePending <==> fetched is Rows,
            next !is FetchPending,
            next !is PersistPending,
    {
        match self {
            RunState::FetchPending { target } => match fetched {
                FetchOutcome::NoRows => RunState::Complete {
                    result: Err(ReportError::NoMessages),
                },
                FetchOutcome::Unavailable => RunState::Complete {
                    result: Err(ReportError::StoreUnavailable),
                },
                FetchOutcome::Rows(batch) => {
                    let prompt = serialize_batch(&batch);
                    RunState::SummarizePending { target, prompt }
                },
            },
            _ => unreached(),
        }
    }

    /// Consumes the summarizer's reply: a failure ends the run with
    /// `SummarizationFailed` before anything is written; a digest moves on to
    /// persistence.
    pub fn on_summarized(self, reply: SummarizeOutcome) -> (next: Self)
        requires
            self is SummarizePending,
        ensures
            reply is Failed ==> next == (RunState::Complete {
                result: Err(ReportError::SummarizationFailed),
            }),
            reply matches SummarizeOutcome::Digest(d) ==> next == (RunState::PersistPending {
                target: self->SummarizePending_target,
                digest: d,
            }),
            // The summarize stage is left for good: one reply per run.
            next is PersistPending <==> reply is Digest,
            next !is FetchPending,
            next !is SummarizePending,
    {
        match self {
            RunState::SummarizePending { target, prompt: _ } => match reply {
                SummarizeOutcome::Failed => RunState::Complete {
                    result: Err(ReportError::SummarizationFailed),
                },
                SummarizeOutcome::Digest(d) => RunState::PersistPending { target, digest: d },
            },
            _ => unreached(),
        }
    }

    /// Consumes the insert outcome: a refused write ends the run with
    /// `PersistenceFailed` (the digest is lost from durable storage); an
    /// accepted one completes the run with the digest.
    pub fn on_persisted(self, written: WriteOutcome) -> (next: Self)
        requires
            self is PersistPending,
        ensures
            written is Refused ==> next == (RunState::Complete {
                result: Err(ReportError::PersistenceFailed),
            }),
            written is Written ==> next == (RunState::Complete {
                result: Ok(self->PersistPending_digest),
            }),
            // The run is over either way: at most one write per run, and no
            // stage after persistence touches the store.
            next is Complete,
    {
        match self {
            RunState::PersistPending { target: _, digest } => match written {
                WriteOutcome::Refused => RunState::Complete {
                    result: Err(ReportError::PersistenceFailed),
                },
                WriteOutcome::Written => RunState::Complete { result: Ok(digest) },
            },
            _ => unreached(),
        }
    }
}

/// A digest is handed to the notifier exactly when the run produced and
/// persisted one; on any error, silence is the failure signal.
pub fn should_deliver(result: &Result<String, ReportError>) -> (b: bool)
    ensures
        b == (result is Ok),
{
    match result {
        Ok(_) => true,
        Err(_) => false,
    }
}

/// What one run of the report generator leaves behind: the prompt that was
/// (or would have been) handed to the summarizer, and the run's result.
#[derive(Debug)]
pub struct ReportRun {
    /// The serialized batch handed to the summarizer; `None` when no
    /// summarizer call was made (quiet day).
    pub prompt: Option<String>,
    /// The digest, or the stage failure that ended the run.
    pub result: Result<String, ReportError>,
}

/// The run's log at the trigger layer: the report outcome plus whether the
/// digest was delivered. The trigger always receives a log, never a fault.
#[derive(Debug)]
pub struct RunLog {
    pub prompt: Option<String>,
    pub result: Result<String, ReportError>,
    pub delivered: bool,
}

/// View of an optional prompt.
pub open spec fn prompt_view(p: Option<String>) -> Option<Seq<char>> {
    match p {
        Some(s) => Some(s@),
        None => None,
    }
}

/// View of a run result.
pub open spec fn result_view(r: Result<String, ReportError>) -> Result<Seq<char>, ReportError> {
    match r {
        Ok(t) => Ok(t@),
        Err(e) => Err(e),
    }
}

/// What one run does, as a function of the store contents, the trigger day
/// and the two outside outcomes.
pub struct ReportModel {
    pub store: StoreView,
    pub prompt: Option<Seq<char>>,
    pub result: Result<Seq<char>, ReportError>,
}

/// The report generator's behavior: fetch yesterday's messages, and either
/// stop on a quiet day, stop on a summarizer failure, stop on a refused
/// write, or append exactly one summary row and return the digest.
pub open spec fn report_model(
    s: StoreView,
    today: Date,
    reply: SummarizeOutcome,
    persist: WriteOutcome,
) -> ReportModel {
    let target = today.prev_spec();
    let batch = msgs_on(s.messages, target);
    if batch.len() == 0 {
        ReportModel { store: s, prompt: None, result: Err(ReportError::NoMessages) }
    } else {
        let prompt = Some(batch_text(batch));
        match reply {
            SummarizeOutcome::Failed => ReportModel {
                store: s,
                prompt,
                result: Err(ReportError::SummarizationFailed),
            },
            SummarizeOutcome::Digest(d) => match persist {
                WriteOutcome::Refused => ReportModel {
                    store: s,
                    prompt,
                    result: Err(ReportError::PersistenceFailed),
                },
                WriteOutcome::Written => ReportModel {
                    store: StoreView {
                        messages: s.messages,
                        summaries: s.summaries.push(SummaryView { text: d@, date: target }),
                    },
                    prompt,
                    result: Ok(d@),
                },
            },
        }
    }
}

/// The trigger layer on top of [`report_model`]: delivery happens exactly
/// when a digest was generated and persisted and the notifier succeeded, and
/// it never changes the store.
pub struct TriggerModel {
    pub store: StoreView,
    pub prompt: Option<Seq<char>>,
    pub result: Result<Seq<char>, ReportError>,
    pub delivered: bool,
}

/// One scheduled firing, delivery included.
pub open spec fn trigger_model(
    s: StoreView,
    today: Date,
    reply: SummarizeOutcome,
    persist: WriteOutcome,
    delivery: DeliverOutcome,
) -> TriggerModel {
    let m = report_model(s, today, reply, persist);
    TriggerModel {
        store: m.store,
        prompt: m.prompt,
        result: m.result,
        delivered: m.result is Ok && delivery is Delivered,
    }
}

/// One run of the report generator against the in-memory store, for the day
/// before `today`. The summarizer's reply and the store's acceptance of the
/// write are outside outcomes handed in by the caller; everything else —
/// target date, fetch, serialization, ordering of stages, what is written —
/// is decided and performed here, exactly as [`report_model`] states.
pub fn generate_report(
    store: &mut MessageStore,
    today: Date,
    reply: SummarizeOutcome,
    persist: WriteOutcome,
) -> (run: ReportRun)
    requires
        today.wf(),
        !today.is_min(),
    ensures
        ({
            let m = report_model(old(store)@, today, reply, persist);
            &&& final(store)@ == m.store
            &&& prompt_view(run.prompt) == m.prompt
            &&& result_view(run.result) == m.result
        }),
{
    let target = today.yesterday();
    match store.fetch_messages_for_date(target) {
        None => ReportRun { prompt: None, result: Err(ReportError::NoMessages) },
        Some(batch) => {
            let prompt = serialize_batch(&batch);
            match reply {
                SummarizeOutcome::Failed => ReportRun {
                    prompt: Some(prompt),
                    result: Err(ReportError::SummarizationFailed),
                },
                SummarizeOutcome::Digest(digest) => match persist {
                    WriteOutcome::Refused => ReportRun {
                        prompt: Some(prompt),
                        result: Err(ReportError::PersistenceFailed),
                    },
                    WriteOutcome::Written => {
                        let text = digest.clone();
                        store.insert_summary(text, target);
                        ReportRun { prompt: Some(prompt), result: Ok(digest) }
                    },
                },
            }
        },
    }
}

/// One scheduled firing: generate the report, then deliver the digest only if
/// one was generated and persisted. Failures of any stage end up in the
/// returned log, never in a fault, so the schedule survives every bad run.
pub fn summarize_daily_messages(
    store: &mut MessageStore,
    today: Date,
    reply: SummarizeOutcome,
    persist: WriteOutcome,
    delivery: DeliverOutcome,
) -> (log: RunLog)
    requires
        today.wf(),
        !today.is_min(),
    ensures
        ({
            let m = trigger_model(old(store)@, today, reply, persist, delivery);
            &&& final(store)@ == m.store
            &&& prompt_view(log.prompt) == m.prompt
            &&& result_view(log.result) == m.result
            &&& log.delivered == m.delivered
        }),
{
    let run = generate_report(store, today, reply, persist);
    let wants_delivery = should_deliver(&run.result);
    let delivered = match delivery {
        DeliverOutcome::Delivered => wants_delivery,
        DeliverOutcome::Failed => false,
    };
    RunLog { prompt: run.prompt, result: run.result, delivered }
}

/// Law: a day with zero stored messages reports `NoMessages`, performs no
/// insert and no delivery, and leaves the store exactly as it was.
pub proof fn law_quiet_day(
    s: StoreView,
    today: Date,
    reply: SummarizeOutcome,
    persist: WriteOutcome,
    delivery: DeliverOutcome,
)
    requires
        msgs_on(s.messages, today.prev_spec()).len() == 0,
    ensures
        ({
            let m = trigger_model(s, today, reply, persist, delivery);
            &&& m.store == s
            &&& m.result == Err::<Seq<char>, ReportError>(ReportError::NoMessages)
            &&& m.prompt is None
            &&& !m.delivered
        }),
{
}

/// Law: on a day with messages, a successful run hands the summarizer one
/// prompt — the serialization of the whole batch, every stored payload of the
/// day in it — and appends exactly one summary row, dated yesterday.
pub proof fn law_success_appends_one_row(
    s: StoreView,
    today: Date,
    d: String,
    delivery: DeliverOutcome,
)
    requires
        msgs_on(s.messages, today.prev_spec()).len() > 0,
    ensures
        ({
            let target = today.prev_spec();
            let batch = msgs_on(s.messages, target);
            let m = trigger_model(s, today, SummarizeOutcome::Digest(d), WriteOutcome::Written, delivery);
            &&& m.prompt == Some(batch_text(batch))
            &&& (forall|i: int|
                0 <= i < batch.len() ==> has_substring(batch_text(batch), #[trigger] batch[i].data))
            &&& m.store.messages == s.messages
            &&& m.store.summaries == s.summaries.push((SummaryView { text: d@, date: target }))
            &&& m.result == Ok::<Seq<char>, ReportError>(d@)
            &&& sums_on(m.store.summaries, target) == sums_on(s.summaries, target).push(
                (SummaryView { text: d@, date: target }),
            )
        }),
{
    let target = today.prev_spec();
    lemma_batch_text_complete(msgs_on(s.messages, target));
    lemma_sums_on_push(s.summaries, target, SummaryView { text: d@, date: target });
}

/// Law: the pipeline does not upsert — re-running an already-summarized day
/// appends another row, so two successful runs for the same day leave two
/// more rows for it.
pub proof fn law_rerun_appends_again(
    s: StoreView,
    today: Date,
    d1: String,
    d2: String,
    delivery1: DeliverOutcome,
    delivery2: DeliverOutcome,
)
    requires
        msgs_on(s.messages, today.prev_spec()).len() > 0,
    ensures
        ({
            let target = today.prev_spec();
            let m1 = trigger_model(s, today, SummarizeOutcome::Digest(d1), WriteOutcome::Written, delivery1);
            let m2 = trigger_model(
                m1.store,
                today,
                SummarizeOutcome::Digest(d2),
                WriteOutcome::Written,
                delivery2,
            );
            &&& m2.result == Ok::<Seq<char>, ReportError>(d2@)
            &&& sums_on(m2.store.summaries, target).len() == sums_on(s.summaries, target).len() + 2
        }),
{
    let target = today.prev_spec();
    lemma_sums_on_push(s.summaries, target, SummaryView { text: d1@, date: target });
    let m1 = trigger_model(s, today, SummarizeOutcome::Digest(d1), WriteOutcome::Written, delivery1);
    lemma_sums_on_push(m1.store.summaries, target, SummaryView { text: d2@, date: target });
}

/// Law: a summarizer failure never results in a store write — persistence
/// happens only after a successful summarization, or not at all.
pub proof fn law_summarizer_failure_writes_nothing(
    s: StoreView,
    today: Date,
    persist: WriteOutcome,
    delivery: DeliverOutcome,
)
    ensures
        ({
            let m = trigger_model(s, today, SummarizeOutcome::Failed, persist, delivery);
            &&& m.store == s
            &&& !m.delivered
            &&& msgs_on(s.messages, today.prev_spec()).len() > 0 ==> m.result == Err::<
                Seq<char>,
                ReportError,
            >(ReportError::SummarizationFailed)
        }),
{
}

/// Law: a refused insert after a successful summarization reports
/// `PersistenceFailed`, and the digest is not retrievable from the store —
/// the day's summary rows are exactly what they were before the run.
pub proof fn law_persistence_failure_loses_digest(
    s: StoreView,
    today: Date,
    d: String,
    delivery: DeliverOutcome,
)
    ensures
        ({
            let target = today.prev_spec();
            let m = trigger_model(
                s,
                today,
                SummarizeOutcome::Digest(d),
                WriteOutcome::Refused,
                delivery,
            );
            &&& m.store == s
            &&& sums_on(m.store.summaries, target) == sums_on(s.summaries, target)
            &&& !m.delivered
            &&& msgs_on(s.messages, target).len() > 0 ==> m.result == Err::<Seq<char>, ReportError>(
                ReportError::PersistenceFailed,
            )
        }),
{
}

/// Law: delivery never touches the store — the rows after a run are the same
/// whatever the notifier did, so a delivery failure cannot roll back a
/// persisted summary.
pub proof fn law_delivery_never_rolls_back(
    s: StoreView,
    today: Date,
    reply: SummarizeOutcome,
    persist: WriteOutcome,
)
    ensures
        forall|d1: DeliverOutcome, d2: DeliverOutcome|
            #[trigger] trigger_model(s, today, reply, persist, d1).store == #[trigger] trigger_model(
                s,
                today,
                reply,
                persist,
                d2,
            ).store,
        trigger_model(s, today, reply, persist, DeliverOutcome::Failed).store == report_model(
            s,
            today,
            reply,
            persist,
        ).store,
{
}

/// Law: delivery happens only for an actually generated and persisted digest.
pub proof fn law_delivery_only_on_success(
    s: StoreView,
    today: Date,
    reply: SummarizeOutcome,
    persist: WriteOutcome,
    delivery: DeliverOutcome,
)
    ensures
        trigger_model(s, today, reply, persist, delivery).delivered ==> trigger_model(
            s,
            today,
            reply,
            persist,
            delivery,
        ).result is Ok && delivery is Delivered,
{
}

} // verus!
