//! How the panel talks to its host without doing any input or output itself.
//!
//! An operation is a function from the replies received so far to the next
//! [`Step`]: a request to the host, or the result. The host carries out each
//! request, appends its [`Reply`] to the list and asks again, until the step
//! is [`Step::Done`]. The list of replies is the whole state of an operation,
//! so the same replies always give the same step.

use crate::models::{
    DefenderStatus, DefenderStatusView, ScanHistoryItem, ScanHistoryItemView, ScanSummary,
    ScanSummaryView, ThreatDetail, ThreatDetailView, ThreatSummary, ThreatSummaryView,
};
use crate::services::cleanup_service::{RawAnalysis, RawAnalysisView};
use vstd::prelude::*;
use vstd::string::StringExecFns;

verus! {

/// Which record a text is to be decoded into.
#[derive(Debug, Clone, Copy, PartialEq, Eq)]
pub enum Schema {
    Status,
    History,
    Summary,
    Threats,
    Detections,
    Analysis,
}

/// A record that the host decoded from a text.
#[derive(Debug, Clone, PartialEq, Eq)]
pub enum Payload {
    Status(DefenderStatus),
    History(Vec<ScanHistoryItem>),
    Summary(ScanSummary),
    Threats(ThreatSummary),
    Detections(Vec<ThreatDetail>),
    Analysis(RawAnalysis),
}

/// What a [`Payload`] holds.
pub enum PayloadView {
    Status(DefenderStatusView),
    History(Seq<ScanHistoryItemView>),
    Summary(ScanSummaryView),
    Threats(ThreatSummaryView),
    Detections(Seq<ThreatDetailView>),
    Analysis(RawAnalysisView),
}

impl DeepView for Payload {
    type V = PayloadView;

    open spec fn deep_view(&self) -> PayloadView {
        match self {
            Payload::Status(p) => PayloadView::Status(p.deep_view()),
            Payload::History(p) => PayloadView::History(p.deep_view()),
            Payload::Summary(p) => PayloadView::Summary(p.deep_view()),
            Payload::Threats(p) => PayloadView::Threats(p.deep_view()),
            Payload::Detections(p) => PayloadView::Detections(p.deep_view()),
            Payload::Analysis(p) => PayloadView::Analysis(p.deep_view()),
        }
    }
}

/// The unit in which an elapsed time is written.
#[derive(Debug, Clone, Copy, PartialEq, Eq)]
pub enum ElapsedFormat {
    /// Seconds with two decimals and the suffix `s`.
    Seconds,
    /// Minutes with one decimal and the suffix `min`.
    Minutes,
}

/// What the host answers to one request.
#[derive(Debug, PartialEq, Eq)]
pub enum Reply {
    /// A script ran: what it printed, or why it failed.
    Output(Result<String, String>),
    /// A text was decoded: the record, or why it could not be.
    Decoded(Result<Payload, String>),
    /// The clock was started.
    ClockStarted,
    /// The time since the clock was started, written in the format asked for.
    Elapsed(String),
}

/// What a [`Reply`] holds.
pub enum ReplyView {
    Output(Result<Seq<char>, Seq<char>>),
    Decoded(Result<PayloadView, Seq<char>>),
    ClockStarted,
    Elapsed(Seq<char>),
}

impl DeepView for Reply {
    type V = ReplyView;

    open spec fn deep_view(&self) -> ReplyView {
        match self {
            Reply::Output(Ok(text)) => ReplyView::Output(Ok(text@)),
            Reply::Output(Err(error)) => ReplyView::Output(Err(error@)),
            Reply::Decoded(Ok(payload)) => ReplyView::Decoded(Ok(payload.deep_view())),
            Reply::Decoded(Err(error)) => ReplyView::Decoded(Err(error@)),
            Reply::ClockStarted => ReplyView::ClockStarted,
            Reply::Elapsed(time) => ReplyView::Elapsed(time@),
        }
    }
}

/// What an operation wants next.
#[derive(Debug, PartialEq, Eq)]
pub enum Step<T> {
    /// Run this script and reply with [`Reply::Output`].
    Run(String),
    /// Decode this text and reply with [`Reply::Decoded`].
    Decode(Schema, String),
    /// Start the clock and reply with [`Reply::ClockStarted`].
    StartClock,
    /// Read the clock and reply with [`Reply::Elapsed`].
    ReadClock(ElapsedFormat),
    /// The operation has ended with this result.
    Done(Result<T, String>),
    /// The replies are not answers to what the operation asked.
    Rejected,
}

/// What a [`Step`] holds.
pub enum StepView<V> {
    Run(Seq<char>),
    Decode(Schema, Seq<char>),
    StartClock,
    ReadClock(ElapsedFormat),
    Done(Result<V, Seq<char>>),
    Rejected,
}

impl<T: DeepView> DeepView for Step<T> {
    type V = StepView<T::V>;

    open spec fn deep_view(&self) -> StepView<T::V> {
        match self {
            Step::Run(script) => StepView::Run(script@),
            Step::Decode(schema, text) => StepView::Decode(*schema, text@),
            Step::StartClock => StepView::StartClock,
            Step::ReadClock(format) => StepView::ReadClock(*format),
            Step::Done(Ok(value)) => StepView::Done(Ok(value.deep_view())),
            Step::Done(Err(error)) => StepView::Done(Err(error@)),
            Step::Rejected => StepView::Rejected,
        }
    }
}

/// A text or a failure, each as its characters.
pub open spec fn outcome_view(r: Result<String, String>) -> Result<Seq<char>, Seq<char>> {
    match r {
        Ok(text) => Ok(text@),
        Err(error) => Err(error@),
    }
}

/// A value or a failure, the failure as its characters.
pub open spec fn value_view<T>(r: Result<T, String>) -> Result<T, Seq<char>> {
    match r {
        Ok(value) => Ok(value),
        Err(error) => Err(error@),
    }
}

/// The reply at position `at`, if the host has given it yet.
pub open spec fn reply_at(replies: Seq<ReplyView>, at: int) -> Option<ReplyView> {
    if 0 <= at < replies.len() {
        Some(replies[at])
    } else {
        None
    }
}

/// The reply at position `at`, if the host has given it yet.
pub fn slot(replies: &Vec<Reply>, at: usize) -> (r: Option<&Reply>)
    ensures
        r.deep_view() == reply_at(replies.deep_view(), at as int),
{
    if at < replies.len() {
        Some(&replies[at])
    } else {
        None
    }
}

impl Payload {
    /// A copy that holds the same values.
    pub fn duplicate(&self) -> (r: Self)
        ensures
            r.deep_view() == self.deep_view(),
    {
        match self {
            Payload::Status(p) => Payload::Status(p.duplicate()),
            Payload::History(p) => Payload::History(ScanHistoryItem::duplicate_all(p)),
            Payload::Summary(p) => Payload::Summary(p.duplicate()),
            Payload::Threats(p) => Payload::Threats(p.duplicate()),
            Payload::Detections(p) => Payload::Detections(ThreatDetail::duplicate_all(p)),
            Payload::Analysis(p) => Payload::Analysis(*p),
        }
    }
}

impl<V> StepView<V> {
    /// The same step as one of another operation. A result does not carry
    /// over: it becomes [`StepView::Rejected`].
    pub open spec fn carry<W>(self) -> StepView<W> {
        match self {
            StepView::Run(script) => StepView::Run(script),
            StepView::Decode(schema, text) => StepView::Decode(schema, text),
            StepView::StartClock => StepView::StartClock,
            StepView::ReadClock(format) => StepView::ReadClock(format),
            StepView::Done(Err(error)) => StepView::Done(Err(error)),
            StepView::Done(Ok(_)) => StepView::Rejected,
            StepView::Rejected => StepView::Rejected,
        }
    }
}

impl<T: DeepView> Step<T> {
    /// The same step as one of another operation. A result does not carry
    /// over: it becomes [`Step::Rejected`].
    pub fn carry<U: DeepView>(self) -> (r: Step<U>)
        ensures
            r.deep_view() == self.deep_view().carry::<U::V>(),
    {
        match self {
            Step::Run(script) => Step::Run(script),
            Step::Decode(schema, text) => Step::Decode(schema, text),
            Step::StartClock => Step::StartClock,
            Step::ReadClock(format) => Step::ReadClock(format),
            Step::Done(Err(error)) => Step::Done(Err(error)),
            Step::Done(Ok(_)) => Step::Rejected,
            Step::Rejected => Step::Rejected,
        }
    }
}

/// Has `script` run and tells what it printed: the reply at `at` is the
/// script's output.
pub open spec fn ask_plan(script: Seq<char>, replies: Seq<ReplyView>, at: int) -> StepView<
    Seq<char>,
> {
    match reply_at(replies, at) {
        None => StepView::Run(script),
        Some(ReplyView::Output(outcome)) => StepView::Done(outcome),
        Some(_) => StepView::Rejected,
    }
}

/// The failure to decode a text: `prefix`, then the decoder's words and,
/// where `quote` holds a separator, the separator and the text itself.
pub open spec fn decode_failure(
    prefix: Seq<char>,
    detail: Seq<char>,
    quote: Option<Seq<char>>,
    text: Seq<char>,
) -> Seq<char> {
    match quote {
        Some(separator) => prefix + detail + separator + text,
        None => prefix + detail,
    }
}

/// Has `text` decoded and tells what record it holds: the reply at `at` is
/// what the decoder made of it.
pub open spec fn decode_plan(
    schema: Schema,
    text: Seq<char>,
    prefix: Seq<char>,
    quote: Option<Seq<char>>,
    replies: Seq<ReplyView>,
    at: int,
) -> StepView<PayloadView> {
    match reply_at(replies, at) {
        None => StepView::Decode(schema, text),
        Some(ReplyView::Decoded(Ok(payload))) => StepView::Done(Ok(payload)),
        Some(ReplyView::Decoded(Err(detail))) => StepView::Done(
            Err(decode_failure(prefix, detail, quote, text)),
        ),
        Some(_) => StepView::Rejected,
    }
}

/// Has the clock started: `None` once the reply at `at` says that it was.
pub open spec fn start_clock_plan<V>(replies: Seq<ReplyView>, at: int) -> Option<StepView<V>> {
    match reply_at(replies, at) {
        None => Some(StepView::StartClock),
        Some(ReplyView::ClockStarted) => None,
        Some(_) => Some(StepView::Rejected),
    }
}

/// Has the clock read and tells the elapsed time: the reply at `at` is the
/// time, written in `format`.
pub open spec fn read_clock_plan(format: ElapsedFormat, replies: Seq<ReplyView>, at: int)
    -> StepView<Seq<char>> {
    match reply_at(replies, at) {
        None => StepView::ReadClock(format),
        Some(ReplyView::Elapsed(time)) => StepView::Done(Ok(time)),
        Some(_) => StepView::Rejected,
    }
}

/// Has `script` run and tells what it printed.
pub fn ask(script: String, replies: &Vec<Reply>, at: usize) -> (step: Step<String>)
    ensures
        step.deep_view() == ask_plan(script@, replies.deep_view(), at as int),
{
    match slot(replies, at) {
        None => Step::Run(script),
        Some(Reply::Output(Ok(text))) => Step::Done(Ok(text.clone())),
        Some(Reply::Output(Err(error))) => Step::Done(Err(error.clone())),
        Some(_) => Step::Rejected,
    }
}

/// Has `text` decoded and tells what record it holds.
pub fn decode(
    schema: Schema,
    text: String,
    prefix: &str,
    quote: Option<&str>,
    replies: &Vec<Reply>,
    at: usize,
) -> (step: Step<Payload>)
    ensures
        step.deep_view() == decode_plan(
            schema,
            text@,
            prefix@,
            quote.deep_view(),
            replies.deep_view(),
            at as int,
        ),
{
    match slot(replies, at) {
        None => Step::Decode(schema, text),
        Some(Reply::Decoded(Ok(payload))) => Step::Done(Ok(payload.duplicate())),
        Some(Reply::Decoded(Err(detail))) => {
            let mut message = String::from_str(prefix);
            message.append(detail.as_str());
            match quote {
                Some(separator) => {
                    message.append(separator);
                    message.append(text.as_str());
                },
                None => {},
            }
            Step::Done(Err(message))
        },
        Some(_) => Step::Rejected,
    }
}

/// Has the clock started: `None` once it was.
pub fn start_clock<T: DeepView>(replies: &Vec<Reply>, at: usize) -> (r: Option<Step<T>>)
    ensures
        r.deep_view() == start_clock_plan::<T::V>(replies.deep_view(), at as int),
{
    match slot(replies, at) {
        None => Some(Step::StartClock),
        Some(Reply::ClockStarted) => None,
        Some(_) => Some(Step::Rejected),
    }
}

/// Has the clock read and tells the elapsed time.
pub fn read_clock(format: ElapsedFormat, replies: &Vec<Reply>, at: usize) -> (step: Step<String>)
    ensures
        step.deep_view() == read_clock_plan(format, replies.deep_view(), at as int),
{
    match slot(replies, at) {
        None => Step::ReadClock(format),
        Some(Reply::Elapsed(time)) => Step::Done(Ok(time.clone())),
        Some(_) => Step::Rejected,
    }
}

/// Whether an operation has come to its end with this step: it asks for
/// nothing more.
pub open spec fn settled<V>(step: StepView<V>) -> bool {
    step is Done || step is Rejected
}

/// Whether an operation keeps a step with which it has come to its end,
/// whatever replies follow.
pub open spec fn keeps_its_end<V>(plan: spec_fn(Seq<ReplyView>) -> StepView<V>) -> bool {
    forall|replies: Seq<ReplyView>, more: Seq<ReplyView>|
        settled(plan(replies)) ==> #[trigger] plan(replies + more) == plan(replies)
}

/// A reply stays where it stands when more replies follow.
pub proof fn lemma_reply_stays(replies: Seq<ReplyView>, more: Seq<ReplyView>)
    ensures
        forall|at: int|
            0 <= at < replies.len() ==> #[trigger] reply_at(replies + more, at) == reply_at(
                replies,
                at,
            ),
{
}

/// A script that has printed has printed for good.
pub proof fn lemma_ask_keeps_its_end(script: Seq<char>, at: int)
    ensures
        keeps_its_end(|replies: Seq<ReplyView>| ask_plan(script, replies, at)),
{
    assert forall|replies: Seq<ReplyView>, more: Seq<ReplyView>|
        settled(ask_plan(script, replies, at)) implies ask_plan(script, replies + more, at)
        == ask_plan(script, replies, at) by {
        lemma_reply_stays(replies, more);
    }
}

} // verus!
