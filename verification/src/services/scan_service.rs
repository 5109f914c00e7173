//! Scans: starting them, waiting for them, stopping them, and what is known
//! of the scans that ran.
//!
//! No scan starts while another is under way: every operation that starts
//! one first asks whether one is running, and ends with [`BUSY`] if so. It
//! fails, too, where the answer is none that can be read: a scan starts
//! only on the word that none is running. A count that a script printed
//! and that is no number is a failure as well, not a count of nothing.

use crate::exchange::{
    ask, ask_plan, decode, decode_plan, keeps_its_end, lemma_reply_stays, read_clock,
    read_clock_plan, settled, start_clock, start_clock_plan, ElapsedFormat, Payload, PayloadView,
    Reply, ReplyView, Schema, Step, StepView,
};
use crate::infra::powershell::PowerShellExecutor;
use crate::models::{
    ScanHistoryItem, ScanHistoryItemView, ScanResult, ScanResultView, ScanSummary,
    ScanSummaryView,
};
use crate::report::{
    count, failed, failure, failure_text, has_failed, read_count, report_on, report_plan,
};
use crate::scripts::{
    CANCEL_SCAN, CHECK_SCAN_RUNNING, COUNT_FILES_HEAD, COUNT_FILES_TAIL, COUNT_THREATS,
    CUSTOM_SCAN_HEAD, CUSTOM_SCAN_MIDDLE, CUSTOM_SCAN_TAIL, FULL_SCAN, GET_HISTORY,
    LAST_SCAN_SUMMARY_HEAD, LAST_SCAN_SUMMARY_TAIL, QUICK_SCAN, START_FULL_SCAN, START_QUICK_SCAN,
};
use crate::text::{
    lemma_doubled_reads_back, lowercase, lowered, replace, replaced, same_text, trim, trimmed,
};
use vstd::prelude::*;
use vstd::string::StringExecFns;

verus! {

/// Why no scan is started while another is under way.
pub const BUSY: &'static str =
    "Já existe uma verificação em andamento. Aguarde ela terminar.";

/// What the start of a quick scan answers.
pub const QUICK_SCAN_STARTED: &'static str = "Verificação rápida iniciada";

/// What the start of a full scan answers.
pub const FULL_SCAN_STARTED: &'static str = "Verificação completa iniciada";

/// What precedes the decoder's words where a history is no JSON.
pub const HISTORY_PARSE_FAILED: &'static str = "Erro ao parsear histórico: ";

/// What precedes the decoder's words where a summary is no JSON.
pub const SUMMARY_PARSE_FAILED: &'static str = "Erro ao parsear JSON: ";

/// How many files a quick scan is taken to read.
pub const QUICK_SCAN_FILES: u32 = 50000;

/// How many files a full scan is taken to read.
pub const FULL_SCAN_FILES: u32 = 500000;

/// Starts, stops and recalls scans.
pub struct ScanService;

impl ScanService {
    /// The path as it stands between single quotes in a script: each single
    /// quote is doubled.
    pub open spec fn quoted(path: Seq<char>) -> Seq<char> {
        replace(path, "'"@, "''"@)
    }

    /// The script that counts the files under `path`.
    pub open spec fn count_files_script(path: Seq<char>) -> Seq<char> {
        COUNT_FILES_HEAD@ + Self::quoted(path) + COUNT_FILES_TAIL@
    }

    /// The script that scans `path`.
    pub open spec fn custom_scan_script(path: Seq<char>) -> Seq<char> {
        CUSTOM_SCAN_HEAD@ + Self::quoted(path) + CUSTOM_SCAN_MIDDLE@ + Self::quoted(path)
            + CUSTOM_SCAN_TAIL@
    }

    /// The script that prints the summary of the last scan of the kind `kind`.
    pub open spec fn summary_script(kind: Seq<char>) -> Seq<char> {
        LAST_SCAN_SUMMARY_HEAD@ + kind + LAST_SCAN_SUMMARY_TAIL@
    }

    /// Whether a history script printed that there is no history.
    pub open spec fn no_history(text: Seq<char>) -> bool {
        trim(text) == ""@ || trim(text) == "null"@ || trim(text) == "[]"@
    }

    /// The first reply tells whether a scan is under way. `None` where it
    /// says that none is, so that a scan may start; otherwise the step that
    /// ends, with [`BUSY`] or with the failure of the check, or goes on with
    /// the question.
    pub open spec fn guard_plan<V>(replies: Seq<ReplyView>) -> Option<StepView<V>> {
        match PowerShellExecutor::check_scan_running_plan(replies) {
            StepView::Done(Ok(running)) => if running {
                Some(StepView::Done(Err(BUSY@)))
            } else {
                None
            },
            other => Some(other.carry()),
        }
    }

    /// A scan that is started and not waited for: after the guard, `script`
    /// is run; unless it reports a failure, the result is `started`.
    pub open spec fn start_plan(script: Seq<char>, started: Seq<char>, replies: Seq<ReplyView>)
        -> StepView<Seq<char>> {
        match Self::guard_plan::<Seq<char>>(replies) {
            Some(step) => step,
            None => match ask_plan(script, replies, 1) {
                StepView::Done(Ok(text)) => if failed(text) {
                    StepView::Done(Err(failure(text)))
                } else {
                    StepView::Done(Ok(started))
                },
                other => other,
            },
        }
    }

    /// The end of a scan that is waited for, from the reply at `at` on:
    /// `script` is run; unless it reports a failure, the clock is read and the
    /// threats are counted. The scan fails where the count is no number.
    pub open spec fn finish_plan(
        script: Seq<char>,
        format: ElapsedFormat,
        files_scanned: u32,
        replies: Seq<ReplyView>,
        at: int,
    ) -> StepView<ScanResultView> {
        match ask_plan(script, replies, at) {
            StepView::Done(Ok(text)) => if failed(text) {
                StepView::Done(Err(failure(text)))
            } else {
                match read_clock_plan(format, replies, at + 1) {
                    StepView::Done(Ok(time)) => match ask_plan(COUNT_THREATS@, replies, at + 2) {
                        StepView::Done(Ok(printed)) => match count(printed) {
                            Ok(threats_found) => StepView::Done(
                                Ok(
                                    ScanResultView {
                                        threats_found,
                                        files_scanned,
                                        scan_time: time,
                                    },
                                ),
                            ),
                            Err(error) => StepView::Done(Err(error)),
                        },
                        other => other.carry(),
                    },
                    other => other.carry(),
                }
            },
            other => other.carry(),
        }
    }

    /// A scan of the whole system that is waited for: the guard, the start of
    /// the clock, then the scan and its end.
    pub open spec fn scan_plan(
        script: Seq<char>,
        format: ElapsedFormat,
        files_scanned: u32,
        replies: Seq<ReplyView>,
    ) -> StepView<ScanResultView> {
        match Self::guard_plan::<ScanResultView>(replies) {
            Some(step) => step,
            None => match start_clock_plan::<ScanResultView>(replies, 1) {
                Some(step) => step,
                None => Self::finish_plan(script, format, files_scanned, replies, 2),
            },
        }
    }

    /// A scan of one path: the guard, the start of the clock, the count of
    /// the files under the path, then the scan and its end. The scan fails
    /// where the count of the files is no number.
    pub open spec fn custom_scan_plan(path: Seq<char>, replies: Seq<ReplyView>) -> StepView<
        ScanResultView,
    > {
        match Self::guard_plan::<ScanResultView>(replies) {
            Some(step) => step,
            None => match start_clock_plan::<ScanResultView>(replies, 1) {
                Some(step) => step,
                None => match ask_plan(Self::count_files_script(path), replies, 2) {
                    StepView::Done(Ok(printed)) => match count(printed) {
                        Ok(files_scanned) => Self::finish_plan(
                            Self::custom_scan_script(path),
                            ElapsedFormat::Seconds,
                            files_scanned,
                            replies,
                            3,
                        ),
                        Err(error) => StepView::Done(Err(error)),
                    },
                    other => other.carry(),
                },
            },
        }
    }

    /// The history: the history script is run; where it printed that there
    /// is none, the history is empty, and otherwise what it printed is decoded.
    pub open spec fn get_history_plan(replies: Seq<ReplyView>) -> StepView<
        Seq<ScanHistoryItemView>,
    > {
        match ask_plan(GET_HISTORY@, replies, 0) {
            StepView::Done(Ok(text)) => if Self::no_history(text) {
                StepView::Done(Ok(Seq::empty()))
            } else {
                match decode_plan(Schema::History, text, HISTORY_PARSE_FAILED@, None, replies, 1) {
                    StepView::Done(Ok(PayloadView::History(history))) => StepView::Done(
                        Ok(history),
                    ),
                    other => other.carry(),
                }
            },
            other => other.carry(),
        }
    }

    /// The summary of the last scan of the kind `kind`: the summary script is
    /// run, and what it printed is decoded.
    pub open spec fn summary_plan(kind: Seq<char>, replies: Seq<ReplyView>) -> StepView<
        ScanSummaryView,
    > {
        match ask_plan(Self::summary_script(kind), replies, 0) {
            StepView::Done(Ok(text)) => match decode_plan(
                Schema::Summary,
                text,
                SUMMARY_PARSE_FAILED@,
                None,
                replies,
                1,
            ) {
                StepView::Done(Ok(PayloadView::Summary(summary))) => StepView::Done(Ok(summary)),
                other => other.carry(),
            },
            other => other.carry(),
        }
    }

    /// Asks whether a scan is under way before one is started.
    pub fn guard<T: DeepView>(replies: &Vec<Reply>) -> (r: Option<Step<T>>)
        ensures
            r.deep_view() == Self::guard_plan::<T::V>(replies.deep_view()),
    {
        match PowerShellExecutor::check_scan_running(replies) {
            Step::Done(Ok(running)) => if running {
                Some(Step::Done(Err(String::from_str(BUSY))))
            } else {
                None
            },
            other => Some(other.carry()),
        }
    }

    fn start(script: &str, started: &str, replies: &Vec<Reply>) -> (step: Step<String>)
        ensures
            step.deep_view() == Self::start_plan(script@, started@, replies.deep_view()),
    {
        match Self::guard::<String>(replies) {
            Some(step) => step,
            None => match ask(String::from_str(script), replies, 1) {
                Step::Done(Ok(text)) => if has_failed(text.as_str()) {
                    Step::Done(Err(failure_text(text.as_str())))
                } else {
                    Step::Done(Ok(String::from_str(started)))
                },
                other => other,
            },
        }
    }

    fn finish(
        script: String,
        format: ElapsedFormat,
        files_scanned: u32,
        replies: &Vec<Reply>,
        at: usize,
    ) -> (step: Step<ScanResult>)
        requires
            at + 2 <= usize::MAX,
        ensures
            step.deep_view() == Self::finish_plan(
                script@,
                format,
                files_scanned,
                replies.deep_view(),
                at as int,
            ),
    {
        match ask(script, replies, at) {
            Step::Done(Ok(text)) => if has_failed(text.as_str()) {
                Step::Done(Err(failure_text(text.as_str())))
            } else {
                match read_clock(format, replies, at + 1) {
                    Step::Done(Ok(time)) => match ask(
                        String::from_str(COUNT_THREATS),
                        replies,
                        at + 2,
                    ) {
                        Step::Done(Ok(printed)) => match read_count(printed.as_str()) {
                            Ok(threats_found) => Step::Done(
                                Ok(ScanResult { threats_found, files_scanned, scan_time: time }),
                            ),
                            Err(error) => Step::Done(Err(error)),
                        },
                        other => other.carry(),
                    },
                    other => other.carry(),
                }
            },
            other => other.carry(),
        }
    }

    fn scan(script: &str, format: ElapsedFormat, files_scanned: u32, replies: &Vec<Reply>) -> (step:
        Step<ScanResult>)
        ensures
            step.deep_view() == Self::scan_plan(
                script@,
                format,
                files_scanned,
                replies.deep_view(),
            ),
    {
        match Self::guard::<ScanResult>(replies) {
            Some(step) => step,
            None => match start_clock::<ScanResult>(replies, 1) {
                Some(step) => step,
                None => Self::finish(String::from_str(script), format, files_scanned, replies, 2),
            },
        }
    }

    /// Starts a quick scan and does not wait for it.
    pub fn start_quick_scan(replies: &Vec<Reply>) -> (step: Step<String>)
        ensures
            step.deep_view() == Self::start_plan(
                START_QUICK_SCAN@,
                QUICK_SCAN_STARTED@,
                replies.deep_view(),
            ),
    {
        Self::start(START_QUICK_SCAN, QUICK_SCAN_STARTED, replies)
    }

    /// Runs a quick scan to its end. The time is told in seconds.
    pub fn quick_scan(replies: &Vec<Reply>) -> (step: Step<ScanResult>)
        ensures
            step.deep_view() == Self::scan_plan(
                QUICK_SCAN@,
                ElapsedFormat::Seconds,
                QUICK_SCAN_FILES,
                replies.deep_view(),
            ),
    {
        Self::scan(QUICK_SCAN, ElapsedFormat::Seconds, QUICK_SCAN_FILES, replies)
    }

    /// Starts a full scan and does not wait for it.
    pub fn start_full_scan(replies: &Vec<Reply>) -> (step: Step<String>)
        ensures
            step.deep_view() == Self::start_plan(
                START_FULL_SCAN@,
                FULL_SCAN_STARTED@,
                replies.deep_view(),
            ),
    {
        Self::start(START_FULL_SCAN, FULL_SCAN_STARTED, replies)
    }

    /// Runs a full scan to its end. The time is told in minutes.
    pub fn full_scan(replies: &Vec<Reply>) -> (step: Step<ScanResult>)
        ensures
            step.deep_view() == Self::scan_plan(
                FULL_SCAN@,
                ElapsedFormat::Minutes,
                FULL_SCAN_FILES,
                replies.deep_view(),
            ),
    {
        Self::scan(FULL_SCAN, ElapsedFormat::Minutes, FULL_SCAN_FILES, replies)
    }

    /// Scans the files under `path`. The time is told in seconds.
    pub fn custom_scan(path: &str, replies: &Vec<Reply>) -> (step: Step<ScanResult>)
        ensures
            step.deep_view() == Self::custom_scan_plan(path@, replies.deep_view()),
    {
        match Self::guard::<ScanResult>(replies) {
            Some(step) => step,
            None => match start_clock::<ScanResult>(replies, 1) {
                Some(step) => step,
                None => {
                    let safe_path = replaced(path, "'", "''");
                    let mut count_script = String::from_str(COUNT_FILES_HEAD);
                    count_script.append(safe_path.as_str());
                    count_script.append(COUNT_FILES_TAIL);
                    match ask(count_script, replies, 2) {
                        Step::Done(Ok(printed)) => match read_count(printed.as_str()) {
                            Ok(files_scanned) => {
                                let mut scan_script = String::from_str(CUSTOM_SCAN_HEAD);
                                scan_script.append(safe_path.as_str());
                                scan_script.append(CUSTOM_SCAN_MIDDLE);
                                scan_script.append(safe_path.as_str());
                                scan_script.append(CUSTOM_SCAN_TAIL);
                                Self::finish(
                                    scan_script,
                                    ElapsedFormat::Seconds,
                                    files_scanned,
                                    replies,
                                    3,
                                )
                            },
                            Err(error) => Step::Done(Err(error)),
                        },
                        other => other.carry(),
                    }
                },
            },
        }
    }

    /// Stops the scan that is under way and tells what the script reported.
    pub fn cancel_scan(replies: &Vec<Reply>) -> (step: Step<String>)
        ensures
            step.deep_view() == report_plan(CANCEL_SCAN@, replies.deep_view()),
    {
        report_on(String::from_str(CANCEL_SCAN), replies)
    }

    /// Whether a history script printed that there is no history.
    pub fn is_no_history(text: &str) -> (r: bool)
        ensures
            r == Self::no_history(text@),
    {
        let bare = trimmed(text);
        same_text(bare, "") || same_text(bare, "null") || same_text(bare, "[]")
    }

    /// The scans that the service remembers.
    pub fn get_history(replies: &Vec<Reply>) -> (step: Step<Vec<ScanHistoryItem>>)
        ensures
            step.deep_view() == Self::get_history_plan(replies.deep_view()),
    {
        match ask(String::from_str(GET_HISTORY), replies, 0) {
            Step::Done(Ok(text)) => if Self::is_no_history(text.as_str()) {
                let none: Vec<ScanHistoryItem> = Vec::new();
                assert(none.deep_view() =~= Seq::empty());
                Step::Done(Ok(none))
            } else {
                match decode(Schema::History, text, HISTORY_PARSE_FAILED, None, replies, 1) {
                    Step::Done(Ok(Payload::History(history))) => Step::Done(Ok(history)),
                    other => other.carry(),
                }
            },
            other => other.carry(),
        }
    }

    /// The summary of the last scan of the kind `kind`, which the script
    /// takes as it is given.
    pub fn last_scan_summary_of(kind: &str, replies: &Vec<Reply>) -> (step: Step<ScanSummary>)
        ensures
            step.deep_view() == Self::summary_plan(kind@, replies.deep_view()),
    {
        let mut script = String::from_str(LAST_SCAN_SUMMARY_HEAD);
        script.append(kind);
        script.append(LAST_SCAN_SUMMARY_TAIL);
        match ask(script, replies, 0) {
            Step::Done(Ok(text)) => match decode(
                Schema::Summary,
                text,
                SUMMARY_PARSE_FAILED,
                None,
                replies,
                1,
            ) {
                Step::Done(Ok(Payload::Summary(summary))) => Step::Done(Ok(summary)),
                other => other.carry(),
            },
            other => other.carry(),
        }
    }

    /// The summary of the last scan of the kind `scan_type`, whatever the
    /// case in which the kind is written.
    pub fn get_last_scan_summary(scan_type: &str, replies: &Vec<Reply>) -> (step: Step<
        ScanSummary,
    >)
        ensures
            step.deep_view() == Self::summary_plan(lowercase(scan_type@), replies.deep_view()),
    {
        Self::last_scan_summary_of(lowered(scan_type).as_str(), replies)
    }

    /// A scan that was started or refused stays so, whatever replies follow.
    pub proof fn lemma_start_keeps_its_end(script: Seq<char>, started: Seq<char>)
        ensures
            keeps_its_end(|replies: Seq<ReplyView>| Self::start_plan(script, started, replies)),
    {
        assert forall|replies: Seq<ReplyView>, more: Seq<ReplyView>|
            settled(Self::start_plan(script, started, replies)) implies
            Self::start_plan(script, started, replies + more)
            == Self::start_plan(script, started, replies) by {
            lemma_reply_stays(replies, more);
        }
    }

    /// A scan that has ended keeps its result, whatever replies follow.
    pub proof fn lemma_scan_keeps_its_end(
        script: Seq<char>,
        format: ElapsedFormat,
        files_scanned: u32,
    )
        ensures
            keeps_its_end(
                |replies: Seq<ReplyView>| Self::scan_plan(script, format, files_scanned, replies),
            ),
    {
        assert forall|replies: Seq<ReplyView>, more: Seq<ReplyView>|
            settled(Self::scan_plan(script, format, files_scanned, replies)) implies
            Self::scan_plan(script, format, files_scanned, replies + more)
            == Self::scan_plan(script, format, files_scanned, replies) by {
            lemma_reply_stays(replies, more);
        }
    }

    /// A scan of a path that has ended keeps its result, whatever replies follow.
    pub proof fn lemma_custom_scan_keeps_its_end(path: Seq<char>)
        ensures
            keeps_its_end(|replies: Seq<ReplyView>| Self::custom_scan_plan(path, replies)),
    {
        assert forall|replies: Seq<ReplyView>, more: Seq<ReplyView>|
            settled(Self::custom_scan_plan(path, replies)) implies
            Self::custom_scan_plan(path, replies + more)
            == Self::custom_scan_plan(path, replies) by {
            lemma_reply_stays(replies, more);
        }
    }

    /// A history that was told stays told, whatever replies follow.
    pub proof fn lemma_get_history_keeps_its_end()
        ensures
            keeps_its_end(|replies: Seq<ReplyView>| Self::get_history_plan(replies)),
    {
        assert forall|replies: Seq<ReplyView>, more: Seq<ReplyView>|
            settled(Self::get_history_plan(replies)) implies
            Self::get_history_plan(replies + more)
            == Self::get_history_plan(replies) by {
            lemma_reply_stays(replies, more);
        }
    }

    /// A summary that was told stays told, whatever replies follow.
    pub proof fn lemma_summary_keeps_its_end(kind: Seq<char>)
        ensures
            keeps_its_end(|replies: Seq<ReplyView>| Self::summary_plan(kind, replies)),
    {
        assert forall|replies: Seq<ReplyView>, more: Seq<ReplyView>|
            settled(Self::summary_plan(kind, replies)) implies
            Self::summary_plan(kind, replies + more)
            == Self::summary_plan(kind, replies) by {
            lemma_reply_stays(replies, more);
        }
    }

    /// No scan is started while another is under way: where the check says
    /// that one is running, every operation that would start a scan ends
    /// with [`BUSY`] instead.
    pub proof fn lemma_no_scan_while_one_runs(
        script: Seq<char>,
        started: Seq<char>,
        format: ElapsedFormat,
        files_scanned: u32,
        path: Seq<char>,
        replies: Seq<ReplyView>,
    )
        requires
            PowerShellExecutor::check_scan_running_plan(replies) == StepView::<bool>::Done(
                Ok(true),
            ),
        ensures
            Self::start_plan(script, started, replies) == StepView::<Seq<char>>::Done(Err(BUSY@)),
            Self::scan_plan(script, format, files_scanned, replies) == StepView::<
                ScanResultView,
            >::Done(Err(BUSY@)),
            Self::custom_scan_plan(path, replies) == StepView::<ScanResultView>::Done(Err(BUSY@)),
    {
    }

    /// A scan asks for a script to be run either to check, before any reply
    /// was given, or after the check said that no scan was running.
    pub proof fn lemma_scan_runs_after_the_check(
        script: Seq<char>,
        format: ElapsedFormat,
        files_scanned: u32,
        replies: Seq<ReplyView>,
    )
        requires
            Self::scan_plan(script, format, files_scanned, replies) is Run,
        ensures
            replies.len() == 0 || PowerShellExecutor::check_scan_running_plan(replies)
                == StepView::<bool>::Done(Ok(false)),
            replies.len() == 0 ==> Self::scan_plan(script, format, files_scanned, replies)
                == StepView::<ScanResultView>::Run(CHECK_SCAN_RUNNING@),
    {
    }

    /// A scan that ends well tells the time that the clock gave, the number
    /// of files that it was given, and the number of threats that the count
    /// script printed.
    pub proof fn lemma_scan_result(
        script: Seq<char>,
        format: ElapsedFormat,
        files_scanned: u32,
        replies: Seq<ReplyView>,
    )
        requires
            Self::scan_plan(script, format, files_scanned, replies) matches StepView::Done(Ok(_)),
        ensures
            replies.len() >= 5,
            replies[3] is Elapsed,
            replies[4] matches ReplyView::Output(Ok(printed)) && count(printed) == Ok::<
                u32,
                Seq<char>,
            >(Self::scan_plan(script, format, files_scanned, replies)->Done_0->Ok_0.threats_found),
            Self::scan_plan(script, format, files_scanned, replies) matches StepView::Done(
                Ok(result),
            ) && result.files_scanned == files_scanned && result.scan_time
                == replies[3]->Elapsed_0,
    {
    }

    /// A path between single quotes is read back as it was given: to take
    /// each pair of single quotes in the quoted path for one gives the path.
    pub proof fn lemma_quoted_reads_back(path: Seq<char>)
        ensures
            replace(Self::quoted(path), "''"@, "'"@) == path,
    {
        reveal_strlit("'");
        reveal_strlit("''");
        assert("'"@ == seq!['\'']);
        assert("''"@ == seq!['\'', '\'']);
        lemma_doubled_reads_back(path, '\'');
    }

    /// No scan is started on a state that cannot be read: where the check
    /// fails, every operation that would start a scan fails with it.
    pub proof fn lemma_no_scan_on_unreadable_state(
        script: Seq<char>,
        started: Seq<char>,
        format: ElapsedFormat,
        files_scanned: u32,
        path: Seq<char>,
        replies: Seq<ReplyView>,
        error: Seq<char>,
    )
        requires
            PowerShellExecutor::check_scan_running_plan(replies) == StepView::<bool>::Done(
                Err(error),
            ),
        ensures
            Self::start_plan(script, started, replies) == StepView::<Seq<char>>::Done(Err(error)),
            Self::scan_plan(script, format, files_scanned, replies) == StepView::<
                ScanResultView,
            >::Done(Err(error)),
            Self::custom_scan_plan(path, replies) == StepView::<ScanResultView>::Done(Err(error)),
    {
    }

    /// A scan whose count of threats is no number fails: it does not tell
    /// of a scan that found nothing.
    pub proof fn lemma_scan_fails_on_unreadable_count(
        script: Seq<char>,
        format: ElapsedFormat,
        files_scanned: u32,
        replies: Seq<ReplyView>,
        printed: Seq<char>,
    )
        requires
            replies.len() >= 5,
            replies[4] == ReplyView::Output(Ok(printed)),
            count(printed) is Err,
        ensures
            settled(Self::scan_plan(script, format, files_scanned, replies)),
            !(Self::scan_plan(script, format, files_scanned, replies) matches StepView::Done(
                Ok(_),
            )),
    {
    }
}

} // verus!
