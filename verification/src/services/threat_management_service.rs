//! The threats that the antivirus service has detected: listing them,
//! putting them away, removing them, and letting them be.

use crate::exchange::{
    ask, ask_plan, decode, decode_plan, keeps_its_end, lemma_reply_stays, settled, Payload,
    PayloadView, Reply, ReplyView, Schema, Step, StepView,
};
use crate::models::{ThreatSummary, ThreatSummaryView};
use crate::report::{
    failed, failure, failure_text, has_failed, report_on, report_plan, success_or_partial,
    success_or_partial_text,
};
use crate::scripts::{
    ALLOW_THREAT_HEAD, ALLOW_THREAT_TAIL, CLEAN_QUARANTINE, CLEAN_THREAT_HISTORY,
    GET_THREAT_DETAILS, QUARANTINE_THREAT_HEAD, QUARANTINE_THREAT_TAIL, REMOVE_ALL_THREATS,
    REMOVE_SPECIFIC_THREAT_HEAD, REMOVE_SPECIFIC_THREAT_TAIL, RESTORE_THREAT_HEAD,
    RESTORE_THREAT_TAIL,
};
use crate::text::{
    decimal, decimal_text, lacks, lemma_replace_removes_char, lemma_trim_lacks, replace, replaced,
    trim, trimmed,
};
use vstd::prelude::*;
use vstd::string::StringExecFns;

verus! {

/// What precedes the decoder's words where a list of threats is no JSON.
pub const THREATS_PARSE_FAILED: &'static str = "Erro ao parsear JSON de ameaças: ";

/// What stands between the decoder's words and the text it was given.
pub const QUOTED_OUTPUT: &'static str = " | Output: ";

/// Lists the detected threats and acts on them.
pub struct ThreatManagementService;

impl ThreatManagementService {
    /// The script that puts the threat `threat_id` into quarantine.
    pub open spec fn quarantine_script(threat_id: u64) -> Seq<char> {
        QUARANTINE_THREAT_HEAD@ + decimal(threat_id as nat) + QUARANTINE_THREAT_TAIL@
    }

    /// The script that removes the threat `threat_id`.
    pub open spec fn remove_script(threat_id: u64) -> Seq<char> {
        REMOVE_SPECIFIC_THREAT_HEAD@ + decimal(threat_id as nat) + REMOVE_SPECIFIC_THREAT_TAIL@
    }

    /// The script that restores the threat `threat_id`.
    pub open spec fn restore_script(threat_id: u64) -> Seq<char> {
        RESTORE_THREAT_HEAD@ + decimal(threat_id as nat) + RESTORE_THREAT_TAIL@
    }

    /// The path of a detected file as the file system knows it: without the
    /// marker `file:_`, with a backslash for each `->` and each slash, and
    /// without the whitespace around it.
    pub open spec fn plain_path(file_path: Seq<char>) -> Seq<char> {
        trim(replace(replace(replace(file_path, "file:_"@, ""@), "->"@, "\\"@), "/"@, "\\"@))
    }

    /// The script that adds `file_path` to the exclusions.
    pub open spec fn allow_script(file_path: Seq<char>) -> Seq<char> {
        ALLOW_THREAT_HEAD@ + Self::plain_path(file_path) + ALLOW_THREAT_TAIL@
    }

    /// The list of threats: the list script is run, and what it printed is
    /// decoded. A failure to decode quotes what was printed.
    pub open spec fn get_threat_details_plan(replies: Seq<ReplyView>) -> StepView<
        ThreatSummaryView,
    > {
        match ask_plan(GET_THREAT_DETAILS@, replies, 0) {
            StepView::Done(Ok(text)) => match decode_plan(
                Schema::Threats,
                text,
                THREATS_PARSE_FAILED@,
                Some(QUOTED_OUTPUT@),
                replies,
                1,
            ) {
                StepView::Done(Ok(PayloadView::Threats(summary))) => StepView::Done(Ok(summary)),
                other => other.carry(),
            },
            other => other.carry(),
        }
    }

    /// The clearing of the history: the script is run; it may report that it
    /// did all of its work, or part of it, or that it failed.
    pub open spec fn clean_threat_history_plan(replies: Seq<ReplyView>) -> StepView<Seq<char>> {
        match ask_plan(CLEAN_THREAT_HISTORY@, replies, 0) {
            StepView::Done(Ok(text)) => if failed(text) {
                StepView::Done(Err(failure(text)))
            } else {
                StepView::Done(Ok(success_or_partial(text)))
            },
            other => other,
        }
    }

    /// All detected threats, counted by severity.
    pub fn get_threat_details(replies: &Vec<Reply>) -> (step: Step<ThreatSummary>)
        ensures
            step.deep_view() == Self::get_threat_details_plan(replies.deep_view()),
    {
        match ask(String::from_str(GET_THREAT_DETAILS), replies, 0) {
            Step::Done(Ok(text)) => match decode(
                Schema::Threats,
                text,
                THREATS_PARSE_FAILED,
                Some(QUOTED_OUTPUT),
                replies,
                1,
            ) {
                Step::Done(Ok(Payload::Threats(summary))) => Step::Done(Ok(summary)),
                other => other.carry(),
            },
            other => other.carry(),
        }
    }

    /// Puts the threat `threat_id` into quarantine and tells what the script
    /// reported.
    pub fn quarantine_threat(threat_id: u64, replies: &Vec<Reply>) -> (step: Step<String>)
        ensures
            step.deep_view() == report_plan(
                Self::quarantine_script(threat_id),
                replies.deep_view(),
            ),
    {
        let mut script = String::from_str(QUARANTINE_THREAT_HEAD);
        script.append(decimal_text(threat_id).as_str());
        script.append(QUARANTINE_THREAT_TAIL);
        report_on(script, replies)
    }

    /// Removes the threat `threat_id` and tells what the script reported.
    pub fn remove_specific_threat(threat_id: u64, replies: &Vec<Reply>) -> (step: Step<String>)
        ensures
            step.deep_view() == report_plan(Self::remove_script(threat_id), replies.deep_view()),
    {
        let mut script = String::from_str(REMOVE_SPECIFIC_THREAT_HEAD);
        script.append(decimal_text(threat_id).as_str());
        script.append(REMOVE_SPECIFIC_THREAT_TAIL);
        report_on(script, replies)
    }

    /// The path of a detected file as the file system knows it.
    pub fn clean_path(file_path: &str) -> (r: String)
        ensures
            r@ == Self::plain_path(file_path@),
    {
        let unmarked = replaced(file_path, "file:_", "");
        let unarrowed = replaced(unmarked.as_str(), "->", "\\");
        let unslashed = replaced(unarrowed.as_str(), "/", "\\");
        String::from_str(trimmed(unslashed.as_str()))
    }

    /// Adds `file_path` to the exclusions and tells what the script
    /// reported. The threat itself is left as it is.
    pub fn allow_threat(_threat_id: u64, file_path: &str, replies: &Vec<Reply>) -> (step: Step<
        String,
    >)
        ensures
            step.deep_view() == report_plan(Self::allow_script(file_path@), replies.deep_view()),
    {
        let mut script = String::from_str(ALLOW_THREAT_HEAD);
        script.append(Self::clean_path(file_path).as_str());
        script.append(ALLOW_THREAT_TAIL);
        report_on(script, replies)
    }

    /// Restores the threat `threat_id` from quarantine and tells what the
    /// script reported.
    pub fn restore_threat(threat_id: u64, replies: &Vec<Reply>) -> (step: Step<String>)
        ensures
            step.deep_view() == report_plan(Self::restore_script(threat_id), replies.deep_view()),
    {
        let mut script = String::from_str(RESTORE_THREAT_HEAD);
        script.append(decimal_text(threat_id).as_str());
        script.append(RESTORE_THREAT_TAIL);
        report_on(script, replies)
    }

    /// Empties the quarantine and tells what the script reported.
    pub fn clean_quarantine(replies: &Vec<Reply>) -> (step: Step<String>)
        ensures
            step.deep_view() == report_plan(CLEAN_QUARANTINE@, replies.deep_view()),
    {
        report_on(String::from_str(CLEAN_QUARANTINE), replies)
    }

    /// Removes every detected threat and tells what the script reported.
    pub fn remove_all_threats(replies: &Vec<Reply>) -> (step: Step<String>)
        ensures
            step.deep_view() == report_plan(REMOVE_ALL_THREATS@, replies.deep_view()),
    {
        report_on(String::from_str(REMOVE_ALL_THREATS), replies)
    }

    /// Clears the threat history and tells what the script reported.
    pub fn clean_threat_history(replies: &Vec<Reply>) -> (step: Step<String>)
        ensures
            step.deep_view() == Self::clean_threat_history_plan(replies.deep_view()),
    {
        match ask(String::from_str(CLEAN_THREAT_HISTORY), replies, 0) {
            Step::Done(Ok(text)) => if has_failed(text.as_str()) {
                Step::Done(Err(failure_text(text.as_str())))
            } else {
                Step::Done(Ok(success_or_partial_text(text.as_str())))
            },
            other => other,
        }
    }

    /// A list of threats that was told stays told, whatever replies follow.
    pub proof fn lemma_get_threat_details_keeps_its_end()
        ensures
            keeps_its_end(|replies: Seq<ReplyView>| Self::get_threat_details_plan(replies)),
    {
        assert forall|replies: Seq<ReplyView>, more: Seq<ReplyView>|
            settled(Self::get_threat_details_plan(replies)) implies
            Self::get_threat_details_plan(replies + more)
            == Self::get_threat_details_plan(replies) by {
            lemma_reply_stays(replies, more);
        }
    }

    /// A history that was cleared stays cleared, whatever replies follow.
    pub proof fn lemma_clean_threat_history_keeps_its_end()
        ensures
            keeps_its_end(|replies: Seq<ReplyView>| Self::clean_threat_history_plan(replies)),
    {
        assert forall|replies: Seq<ReplyView>, more: Seq<ReplyView>|
            settled(Self::clean_threat_history_plan(replies)) implies
            Self::clean_threat_history_plan(replies + more)
            == Self::clean_threat_history_plan(replies) by {
            lemma_reply_stays(replies, more);
        }
    }

    /// The path of a detected file as the file system knows it holds no
    /// slash.
    pub proof fn lemma_plain_path_has_no_slash(file_path: Seq<char>)
        ensures
            lacks(Self::plain_path(file_path), '/'),
    {
        reveal_strlit("/");
        reveal_strlit("\\");
        assert("/"@ == seq!['/']);
        let unarrowed = replace(replace(file_path, "file:_"@, ""@), "->"@, "\\"@);
        lemma_replace_removes_char(unarrowed, '/', "\\"@);
        lemma_trim_lacks(replace(unarrowed, "/"@, "\\"@), '/');
    }
}

} // verus!
