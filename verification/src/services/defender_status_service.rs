//! The state of the antivirus service and of its definitions.

use crate::exchange::{
    ask, ask_plan, decode, decode_plan, keeps_its_end, lemma_reply_stays, settled, Payload,
    PayloadView, Reply, ReplyView, Schema, Step, StepView,
};
use crate::models::{DefenderStatus, DefenderStatusView};
use crate::report::{report_on, report_plan};
use crate::scripts::{GET_STATUS, REFRESH_DETECTION, UPDATE_DEFINITIONS};
use vstd::prelude::*;
use vstd::string::StringExecFns;

verus! {

/// What precedes the decoder's words where a status is no JSON.
pub const PARSE_FAILED: &'static str = "Erro ao parsear JSON: ";

/// Asks the antivirus service how it is and has its definitions updated.
pub struct DefenderStatusService;

impl DefenderStatusService {
    /// The status: the status script is run, and what it printed is decoded.
    pub open spec fn get_status_plan(replies: Seq<ReplyView>) -> StepView<DefenderStatusView> {
        match ask_plan(GET_STATUS@, replies, 0) {
            StepView::Done(Ok(text)) => match decode_plan(
                Schema::Status,
                text,
                PARSE_FAILED@,
                None,
                replies,
                1,
            ) {
                StepView::Done(Ok(PayloadView::Status(status))) => StepView::Done(Ok(status)),
                other => other.carry(),
            },
            other => other.carry(),
        }
    }

    /// The status of the antivirus service.
    pub fn get_status(replies: &Vec<Reply>) -> (step: Step<DefenderStatus>)
        ensures
            step.deep_view() == Self::get_status_plan(replies.deep_view()),
    {
        match ask(String::from_str(GET_STATUS), replies, 0) {
            Step::Done(Ok(text)) => match decode(
                Schema::Status,
                text,
                PARSE_FAILED,
                None,
                replies,
                1,
            ) {
                Step::Done(Ok(Payload::Status(status))) => Step::Done(Ok(status)),
                other => other.carry(),
            },
            other => other.carry(),
        }
    }

    /// Updates the virus definitions and tells what the script reported.
    pub fn update_definitions(replies: &Vec<Reply>) -> (step: Step<String>)
        ensures
            step.deep_view() == report_plan(UPDATE_DEFINITIONS@, replies.deep_view()),
    {
        report_on(String::from_str(UPDATE_DEFINITIONS), replies)
    }

    /// Refreshes the detection status and tells what the script reported.
    pub fn refresh_detection(replies: &Vec<Reply>) -> (step: Step<String>)
        ensures
            step.deep_view() == report_plan(REFRESH_DETECTION@, replies.deep_view()),
    {
        report_on(String::from_str(REFRESH_DETECTION), replies)
    }

    /// A status that was told stays told, whatever replies follow.
    pub proof fn lemma_get_status_keeps_its_end()
        ensures
            keeps_its_end(|replies: Seq<ReplyView>| Self::get_status_plan(replies)),
    {
        assert forall|replies: Seq<ReplyView>, more: Seq<ReplyView>|
            settled(Self::get_status_plan(replies)) implies
            Self::get_status_plan(replies + more)
            == Self::get_status_plan(replies) by {
            lemma_reply_stays(replies, more);
        }
    }
}

} // verus!
