//! The plain commands of the panel: each takes whatever its script printed
//! as the answer, with no report to read.
//!
//! These commands call the interpreter without a prefix and take a script
//! that exits with an error as failed. A scan does not start while the
//! antivirus service says that another has started and not ended, nor where
//! what it says cannot be read; a count that is no number is a failure.

use crate::exchange::{
    ask, ask_plan, decode, decode_plan, keeps_its_end, lemma_reply_stays, outcome_view, read_clock,
    read_clock_plan, settled, start_clock, start_clock_plan, ElapsedFormat, Payload, PayloadView,
    Reply, ReplyView, Schema, Step, StepView,
};
use crate::infra::powershell::{
    decoded_text, utf8_lossy, Launch, PowerShellExecutor, NOT_STARTED,
};
use crate::models::{
    CleanResult, CleanResultView, DefenderStatus, DefenderStatusView, ScanHistoryItem,
    ScanHistoryItemView, ScanResult, ScanResultView, ThreatDetail, ThreatDetailView,
    ThreatSummary, ThreatSummaryView,
};
use crate::scripts::{
    PANEL_ALLOW_THREAT_HEAD, PANEL_ALLOW_THREAT_MIDDLE, PANEL_ALLOW_THREAT_TAIL,
    PANEL_CANCEL_SCAN, PANEL_CHECK_SCAN_RUNNING, PANEL_CLEAN_QUARANTINE, PANEL_CLEAN_TEMP_FILES,
    PANEL_COUNT_THREATS, PANEL_GET_HISTORY, PANEL_GET_STATUS, PANEL_GET_THREAT_DETAILS,
    PANEL_QUARANTINE_THREAT_HEAD, PANEL_QUARANTINE_THREAT_MIDDLE, PANEL_QUARANTINE_THREAT_TAIL,
    PANEL_REMOVE_ALL_THREATS, PANEL_REMOVE_SPECIFIC_THREAT_HEAD,
    PANEL_REMOVE_SPECIFIC_THREAT_TAIL, PANEL_RESTORE_THREAT_HEAD, PANEL_RESTORE_THREAT_TAIL,
};
use crate::report::{count, read_count};
use crate::text::{decimal, decimal_text, replace, replaced, same_text, trim, trimmed};
use vstd::prelude::*;
use vstd::string::StringExecFns;
use vstd::utf8::{decode_utf8, valid_utf8};

verus! {

/// The script that updates the virus definitions.
pub const UPDATE_DEFINITIONS: &'static str = "Update-MpSignature";

/// The script that runs a quick scan.
pub const QUICK_SCAN: &'static str = "Start-MpScan -ScanType QuickScan";

/// The script that runs a full scan.
pub const FULL_SCAN: &'static str = "Start-MpScan -ScanType FullScan";

/// What an update of the definitions answers where its script ran.
pub const DEFINITIONS_UPDATED: &'static str = "Definições atualizadas com sucesso";

/// What the stop of a scan answers where its script ran.
pub const SCAN_CANCELLED: &'static str = "Scan cancelado com sucesso";

/// Why no scan is started while another is under way.
pub const BUSY: &'static str =
    "Já existe uma verificação em andamento. Aguarde ela terminar ou reinicie o Windows.";

/// What precedes the decoder's words where a status is no JSON.
pub const STATUS_PARSE_FAILED: &'static str = "Erro ao parsear JSON: ";

/// What precedes the decoder's words where a list of threats is no JSON.
pub const THREATS_PARSE_FAILED: &'static str = "Erro ao parsear ameaças: ";

/// What precedes the decoder's words where a history is no JSON.
pub const HISTORY_PARSE_FAILED: &'static str = "Erro ao parsear histórico: ";

/// What stands between the decoder's words and the text it was given.
pub const QUOTED_OUTPUT: &'static str = " - Output: ";

/// How many files a quick scan is taken to read.
pub const QUICK_SCAN_FILES: u32 = 50000;

/// How many files a full scan is taken to read.
pub const FULL_SCAN_FILES: u32 = 500000;

/// The arguments with which the interpreter runs `command`.
pub open spec fn arguments_of(command: Seq<char>) -> Seq<Seq<char>> {
    seq!["-NoProfile"@, "-NonInteractive"@, "-Command"@, command]
}

/// What a script that ran to its end amounts to: its output where it
/// succeeded, and otherwise what it wrote to its error stream.
pub open spec fn exit_of(success: bool, stdout: Seq<char>, stderr: Seq<char>) -> Result<
    Seq<char>,
    Seq<char>,
> {
    if success {
        Ok(stdout)
    } else {
        Err(stderr)
    }
}

/// What a call of the interpreter amounts to. Both streams are decoded as
/// UTF-8, lossily.
pub open spec fn outcome_of(launch: Launch) -> Result<Seq<char>, Seq<char>> {
    match launch {
        Launch::NotStarted(reason) => Err(NOT_STARTED@ + reason@),
        Launch::TimedOut { seconds } => Err(PowerShellExecutor::timed_out(seconds)),
        Launch::Exited { success, stdout, stderr } => exit_of(
            success,
            utf8_lossy(stdout@),
            utf8_lossy(stderr@),
        ),
    }
}

/// An operation of one script with a fixed answer: the script is run, and
/// unless it failed the result is `answer`.
pub open spec fn fixed_plan(script: Seq<char>, answer: Seq<char>, replies: Seq<ReplyView>)
    -> StepView<Seq<char>> {
    match ask_plan(script, replies, 0) {
        StepView::Done(Ok(_)) => StepView::Done(Ok(answer)),
        other => other,
    }
}

/// An operation of one script that answers in its output: the script is
/// run, and the result is what it printed, without the whitespace around it.
pub open spec fn plain_plan(script: Seq<char>, replies: Seq<ReplyView>) -> StepView<Seq<char>> {
    match ask_plan(script, replies, 0) {
        StepView::Done(Ok(text)) => StepView::Done(Ok(trim(text))),
        other => other,
    }
}

/// The status: the status script is run, and what it printed is decoded.
pub open spec fn get_defender_status_plan(replies: Seq<ReplyView>) -> StepView<
    DefenderStatusView,
> {
    match ask_plan(PANEL_GET_STATUS@, replies, 0) {
        StepView::Done(Ok(text)) => match decode_plan(
            Schema::Status,
            text,
            STATUS_PARSE_FAILED@,
            None,
            replies,
            1,
        ) {
            StepView::Done(Ok(PayloadView::Status(status))) => StepView::Done(Ok(status)),
            other => other.carry(),
        },
        other => other.carry(),
    }
}

/// A scan that is waited for: the first script tells whether a scan is
/// under way, and the scan ends with [`BUSY`] if one is; then the clock is
/// started, `script` is run, the clock is read and the threats are counted.
/// The scan fails where the first script says neither that a scan is under
/// way nor that none is, and where the count is no number.
pub open spec fn scan_plan(
    script: Seq<char>,
    format: ElapsedFormat,
    files_scanned: u32,
    replies: Seq<ReplyView>,
) -> StepView<ScanResultView> {
    match ask_plan(PANEL_CHECK_SCAN_RUNNING@, replies, 0) {
        StepView::Done(Ok(state)) => match PowerShellExecutor::scan_state(state) {
            Err(error) => StepView::Done(Err(error)),
            Ok(true) => StepView::Done(Err(BUSY@)),
            Ok(false) => match start_clock_plan::<ScanResultView>(replies, 1) {
                Some(step) => step,
                None => match ask_plan(script, replies, 2) {
                    StepView::Done(Ok(_)) => match read_clock_plan(format, replies, 3) {
                        StepView::Done(Ok(time)) => match ask_plan(
                            PANEL_COUNT_THREATS@,
                            replies,
                            4,
                        ) {
                            StepView::Done(Ok(printed)) => match count(printed) {
                                Ok(threats_found) => StepView::Done(
                                    Ok(
                                        ScanResultView {
                                            threats_found,
                                            files_scanned,
                                            scan_time: time,
                                        },
                                    ),
                                ),
                                Err(error) => StepView::Done(Err(error)),
                            },
                            other => other.carry(),
                        },
                        other => other.carry(),
                    },
                    other => other.carry(),
                },
            },
        },
        other => other.carry(),
    }
}

/// The removal of temporary files: the script is run, and the number it
/// printed is the number of files removed; the removal fails where it
/// printed no number. No bytes are counted and no errors told.
pub open spec fn clean_temp_files_plan(replies: Seq<ReplyView>) -> StepView<CleanResultView> {
    match ask_plan(PANEL_CLEAN_TEMP_FILES@, replies, 0) {
        StepView::Done(Ok(printed)) => match count(printed) {
            Ok(files_deleted) => StepView::Done(
                Ok(CleanResultView { files_deleted, size_freed_bytes: 0, errors: None }),
            ),
            Err(error) => StepView::Done(Err(error)),
        },
        other => other.carry(),
    }
}

/// How many of `threats` are of the severity `severity`.
pub open spec fn count_severity(threats: Seq<ThreatDetailView>, severity: Seq<char>) -> nat
    decreases threats.len(),
{
    if threats.len() == 0 {
        0
    } else {
        count_severity(threats.drop_last(), severity) + if threats.last().severity == severity {
            1nat
        } else {
            0nat
        }
    }
}

/// The summary of a list of threats: the list itself, its length, and how
/// many of the threats are of high, of medium and of low severity. Each
/// count is cut to 32 bits.
pub open spec fn summary_of(threats: Seq<ThreatDetailView>) -> ThreatSummaryView {
    ThreatSummaryView {
        total_threats: threats.len() as u32,
        high_severity: count_severity(threats, "High"@) as u32,
        medium_severity: count_severity(threats, "Medium"@) as u32,
        low_severity: count_severity(threats, "Low"@) as u32,
        threats,
    }
}

/// Whether a list script printed that there are no threats.
pub open spec fn no_threats(text: Seq<char>) -> bool {
    trim(text) == ""@ || trim(text) == "null"@
}

/// The list of threats: the list script is run; where it printed that there
/// are none, the summary is empty, and otherwise what it printed is decoded
/// and summed up.
pub open spec fn get_threat_details_plan(replies: Seq<ReplyView>) -> StepView<ThreatSummaryView> {
    match ask_plan(PANEL_GET_THREAT_DETAILS@, replies, 0) {
        StepView::Done(Ok(text)) => if no_threats(text) {
            StepView::Done(Ok(summary_of(Seq::empty())))
        } else {
            match decode_plan(
                Schema::Detections,
                text,
                THREATS_PARSE_FAILED@,
                None,
                replies,
                1,
            ) {
                StepView::Done(Ok(PayloadView::Detections(threats))) => StepView::Done(
                    Ok(summary_of(threats)),
                ),
                other => other.carry(),
            }
        },
        other => other.carry(),
    }
}

/// The script that puts the threat `threat_id` into quarantine.
pub open spec fn quarantine_script(threat_id: u64) -> Seq<char> {
    PANEL_QUARANTINE_THREAT_HEAD@ + decimal(threat_id as nat) + PANEL_QUARANTINE_THREAT_MIDDLE@
        + decimal(threat_id as nat) + PANEL_QUARANTINE_THREAT_TAIL@
}

/// The script that removes the threat `threat_id`.
pub open spec fn remove_script(threat_id: u64) -> Seq<char> {
    PANEL_REMOVE_SPECIFIC_THREAT_HEAD@ + decimal(threat_id as nat)
        + PANEL_REMOVE_SPECIFIC_THREAT_TAIL@
}

/// The script that restores the threat `threat_id`.
pub open spec fn restore_script(threat_id: u64) -> Seq<char> {
    PANEL_RESTORE_THREAT_HEAD@ + decimal(threat_id as nat) + PANEL_RESTORE_THREAT_TAIL@
}

/// The path of a detected file without the marker `file:_` and with a
/// backslash for each `->`.
pub open spec fn plain_path(file_path: Seq<char>) -> Seq<char> {
    replace(replace(file_path, "file:_"@, ""@), "->"@, "\\"@)
}

/// The script that adds `file_path` to the exclusions and takes the threat
/// `threat_id` out of quarantine.
pub open spec fn allow_script(threat_id: u64, file_path: Seq<char>) -> Seq<char> {
    PANEL_ALLOW_THREAT_HEAD@ + plain_path(file_path) + PANEL_ALLOW_THREAT_MIDDLE@ + decimal(
        threat_id as nat,
    ) + PANEL_ALLOW_THREAT_TAIL@
}

/// Whether a history script printed that there is no history.
pub open spec fn no_history(text: Seq<char>) -> bool {
    trim(text) == ""@ || trim(text) == "null"@ || trim(text) == "[]"@
}

/// The history: the history script is run; where it printed that there is
/// none, the history is empty, and otherwise what it printed is decoded. A
/// failure to decode quotes what was printed.
pub open spec fn get_scan_history_plan(replies: Seq<ReplyView>) -> StepView<
    Seq<ScanHistoryItemView>,
> {
    match ask_plan(PANEL_GET_HISTORY@, replies, 0) {
        StepView::Done(Ok(text)) => if no_history(text) {
            StepView::Done(Ok(Seq::empty()))
        } else {
            match decode_plan(
                Schema::History,
                text,
                HISTORY_PARSE_FAILED@,
                Some(QUOTED_OUTPUT@),
                replies,
                1,
            ) {
                StepView::Done(Ok(PayloadView::History(history))) => StepView::Done(Ok(history)),
                other => other.carry(),
            }
        },
        other => other.carry(),
    }
}

/// The arguments with which the interpreter runs `command`.
pub fn arguments(command: &str) -> (r: Vec<String>)
    ensures
        r.deep_view() == arguments_of(command@),
{
    let mut r: Vec<String> = Vec::new();
    r.push(String::from_str("-NoProfile"));
    r.push(String::from_str("-NonInteractive"));
    r.push(String::from_str("-Command"));
    r.push(String::from_str(command));
    r
}

/// Reads the end of a script from its exit status and its two streams.
pub fn read_exit(success: bool, stdout: String, stderr: String) -> (r: Result<String, String>)
    ensures
        outcome_view(r) == exit_of(success, stdout@, stderr@),
{
    if success {
        Ok(stdout)
    } else {
        Err(stderr)
    }
}

/// Reads the outcome of one call of the interpreter. A stream that is UTF-8
/// is decoded as it stands.
pub fn run_powershell(launch: &Launch) -> (r: Result<String, String>)
    ensures
        outcome_view(r) == outcome_of(*launch),
        launch matches Launch::Exited { stdout, stderr, .. } ==> {
            &&& valid_utf8(stdout@) ==> utf8_lossy(stdout@) == decode_utf8(stdout@)
            &&& valid_utf8(stderr@) ==> utf8_lossy(stderr@) == decode_utf8(stderr@)
        },
{
    match launch {
        Launch::NotStarted(reason) => {
            let mut message = String::from_str(NOT_STARTED);
            message.append(reason.as_str());
            Err(message)
        },
        Launch::TimedOut { seconds } => Err(PowerShellExecutor::timed_out_text(*seconds)),
        Launch::Exited { success, stdout, stderr } => read_exit(
            *success,
            decoded_text(stdout),
            decoded_text(stderr),
        ),
    }
}

fn fixed(script: &str, answer: &str, replies: &Vec<Reply>) -> (step: Step<String>)
    ensures
        step.deep_view() == fixed_plan(script@, answer@, replies.deep_view()),
{
    match ask(String::from_str(script), replies, 0) {
        Step::Done(Ok(_)) => Step::Done(Ok(String::from_str(answer))),
        other => other,
    }
}

fn plain(script: String, replies: &Vec<Reply>) -> (step: Step<String>)
    ensures
        step.deep_view() == plain_plan(script@, replies.deep_view()),
{
    match ask(script, replies, 0) {
        Step::Done(Ok(text)) => Step::Done(Ok(String::from_str(trimmed(text.as_str())))),
        other => other,
    }
}

/// The status of the antivirus service.
pub fn get_defender_status(replies: &Vec<Reply>) -> (step: Step<DefenderStatus>)
    ensures
        step.deep_view() == get_defender_status_plan(replies.deep_view()),
{
    match ask(String::from_str(PANEL_GET_STATUS), replies, 0) {
        Step::Done(Ok(text)) => match decode(
            Schema::Status,
            text,
            STATUS_PARSE_FAILED,
            None,
            replies,
            1,
        ) {
            Step::Done(Ok(Payload::Status(status))) => Step::Done(Ok(status)),
            other => other.carry(),
        },
        other => other.carry(),
    }
}

/// Updates the virus definitions.
pub fn update_definitions(replies: &Vec<Reply>) -> (step: Step<String>)
    ensures
        step.deep_view() == fixed_plan(
            UPDATE_DEFINITIONS@,
            DEFINITIONS_UPDATED@,
            replies.deep_view(),
        ),
{
    fixed(UPDATE_DEFINITIONS, DEFINITIONS_UPDATED, replies)
}

fn scan(script: &str, format: ElapsedFormat, files_scanned: u32, replies: &Vec<Reply>) -> (step:
    Step<ScanResult>)
    ensures
        step.deep_view() == scan_plan(script@, format, files_scanned, replies.deep_view()),
{
    match ask(String::from_str(PANEL_CHECK_SCAN_RUNNING), replies, 0) {
        Step::Done(Ok(state)) => match PowerShellExecutor::read_scan_state(state.as_str()) {
            Err(error) => Step::Done(Err(error)),
            Ok(true) => Step::Done(Err(String::from_str(BUSY))),
            Ok(false) => match start_clock::<ScanResult>(replies, 1) {
                Some(step) => step,
                None => match ask(String::from_str(script), replies, 2) {
                    Step::Done(Ok(_)) => match read_clock(format, replies, 3) {
                        Step::Done(Ok(time)) => match ask(
                            String::from_str(PANEL_COUNT_THREATS),
                            replies,
                            4,
                        ) {
                            Step::Done(Ok(printed)) => match read_count(printed.as_str()) {
                                Ok(threats_found) => Step::Done(
                                    Ok(
                                        ScanResult {
                                            threats_found,
                                            files_scanned,
                                            scan_time: time,
                                        },
                                    ),
                                ),
                                Err(error) => Step::Done(Err(error)),
                            },
                            other => other.carry(),
                        },
                        other => other.carry(),
                    },
                    other => other.carry(),
                },
            },
        },
        other => other.carry(),
    }
}

/// Runs a quick scan to its end. The time is told in seconds.
pub fn quick_scan(replies: &Vec<Reply>) -> (step: Step<ScanResult>)
    ensures
        step.deep_view() == scan_plan(
            QUICK_SCAN@,
            ElapsedFormat::Seconds,
            QUICK_SCAN_FILES,
            replies.deep_view(),
        ),
{
    scan(QUICK_SCAN, ElapsedFormat::Seconds, QUICK_SCAN_FILES, replies)
}

/// Runs a full scan to its end. The time is told in minutes.
pub fn full_scan(replies: &Vec<Reply>) -> (step: Step<ScanResult>)
    ensures
        step.deep_view() == scan_plan(
            FULL_SCAN@,
            ElapsedFormat::Minutes,
            FULL_SCAN_FILES,
            replies.deep_view(),
        ),
{
    scan(FULL_SCAN, ElapsedFormat::Minutes, FULL_SCAN_FILES, replies)
}

/// Removes the temporary files and tells how many there were.
pub fn clean_temp_files(replies: &Vec<Reply>) -> (step: Step<CleanResult>)
    ensures
        step.deep_view() == clean_temp_files_plan(replies.deep_view()),
{
    match ask(String::from_str(PANEL_CLEAN_TEMP_FILES), replies, 0) {
        Step::Done(Ok(printed)) => match read_count(printed.as_str()) {
            Ok(files_deleted) => Step::Done(
                Ok(CleanResult { files_deleted, size_freed_bytes: 0, errors: None }),
            ),
            Err(error) => Step::Done(Err(error)),
        },
        other => other.carry(),
    }
}

/// Stops the scanning processes.
pub fn cancel_scan(replies: &Vec<Reply>) -> (step: Step<String>)
    ensures
        step.deep_view() == fixed_plan(PANEL_CANCEL_SCAN@, SCAN_CANCELLED@, replies.deep_view()),
{
    fixed(PANEL_CANCEL_SCAN, SCAN_CANCELLED, replies)
}

/// How many of `threats` are of the severity `severity`.
pub fn count_by_severity(threats: &Vec<ThreatDetail>, severity: &str) -> (r: usize)
    ensures
        r == count_severity(threats.deep_view(), severity@),
{
    let mut count: usize = 0;
    let mut i: usize = 0;
    let ghost all = threats.deep_view();
    while i < threats.len()
        invariant
            i <= threats.len(),
            all == threats.deep_view(),
            count <= i,
            count == count_severity(all.take(i as int), severity@),
        decreases threats.len() - i,
    {
        assert(all.take(i + 1).drop_last() =~= all.take(i as int));
        if same_text(threats[i].severity.as_str(), severity) {
            count += 1;
        }
        i += 1;
    }
    assert(all.take(i as int) =~= all);
    count
}

/// The summary of a list of threats.
pub fn summarize(threats: Vec<ThreatDetail>) -> (r: ThreatSummary)
    ensures
        r.deep_view() == summary_of(threats.deep_view()),
{
    let high = count_by_severity(&threats, "High");
    let medium = count_by_severity(&threats, "Medium");
    let low = count_by_severity(&threats, "Low");
    ThreatSummary {
        total_threats: #[verifier::truncate]
        (threats.len() as u32),
        high_severity: #[verifier::truncate]
        (high as u32),
        medium_severity: #[verifier::truncate]
        (medium as u32),
        low_severity: #[verifier::truncate]
        (low as u32),
        threats,
    }
}

/// Whether a list script printed that there are no threats.
pub fn is_no_threats(text: &str) -> (r: bool)
    ensures
        r == no_threats(text@),
{
    let bare = trimmed(text);
    same_text(bare, "") || same_text(bare, "null")
}

/// All detected threats, counted by severity.
pub fn get_threat_details(replies: &Vec<Reply>) -> (step: Step<ThreatSummary>)
    ensures
        step.deep_view() == get_threat_details_plan(replies.deep_view()),
{
    match ask(String::from_str(PANEL_GET_THREAT_DETAILS), replies, 0) {
        Step::Done(Ok(text)) => if is_no_threats(text.as_str()) {
            let none: Vec<ThreatDetail> = Vec::new();
            assert(none.deep_view() =~= Seq::empty());
            Step::Done(Ok(summarize(none)))
        } else {
            match decode(Schema::Detections, text, THREATS_PARSE_FAILED, None, replies, 1) {
                Step::Done(Ok(Payload::Detections(threats))) => Step::Done(
                    Ok(summarize(threats)),
                ),
                other => other.carry(),
            }
        },
        other => other.carry(),
    }
}

/// Removes every threat and tells what the script printed.
pub fn clean_quarantine(replies: &Vec<Reply>) -> (step: Step<String>)
    ensures
        step.deep_view() == plain_plan(PANEL_CLEAN_QUARANTINE@, replies.deep_view()),
{
    plain(String::from_str(PANEL_CLEAN_QUARANTINE), replies)
}

/// Removes every threat and the history, and tells what the script printed.
pub fn remove_all_threats(replies: &Vec<Reply>) -> (step: Step<String>)
    ensures
        step.deep_view() == plain_plan(PANEL_REMOVE_ALL_THREATS@, replies.deep_view()),
{
    plain(String::from_str(PANEL_REMOVE_ALL_THREATS), replies)
}

/// Puts the threat `threat_id` into quarantine and tells what the script
/// printed.
pub fn quarantine_threat(threat_id: u64, replies: &Vec<Reply>) -> (step: Step<String>)
    ensures
        step.deep_view() == plain_plan(quarantine_script(threat_id), replies.deep_view()),
{
    let id = decimal_text(threat_id);
    let mut script = String::from_str(PANEL_QUARANTINE_THREAT_HEAD);
    script.append(id.as_str());
    script.append(PANEL_QUARANTINE_THREAT_MIDDLE);
    script.append(id.as_str());
    script.append(PANEL_QUARANTINE_THREAT_TAIL);
    plain(script, replies)
}

/// Removes the threat `threat_id` and tells what the script printed.
pub fn remove_specific_threat(threat_id: u64, replies: &Vec<Reply>) -> (step: Step<String>)
    ensures
        step.deep_view() == plain_plan(remove_script(threat_id), replies.deep_view()),
{
    let mut script = String::from_str(PANEL_REMOVE_SPECIFIC_THREAT_HEAD);
    script.append(decimal_text(threat_id).as_str());
    script.append(PANEL_REMOVE_SPECIFIC_THREAT_TAIL);
    plain(script, replies)
}

/// Adds `file_path` to the exclusions, takes the threat `threat_id` out of
/// quarantine and tells what the script printed.
pub fn allow_threat(threat_id: u64, file_path: &str, replies: &Vec<Reply>) -> (step: Step<String>)
    ensures
        step.deep_view() == plain_plan(allow_script(threat_id, file_path@), replies.deep_view()),
{
    let unmarked = replaced(file_path, "file:_", "");
    let path = replaced(unmarked.as_str(), "->", "\\");
    let mut script = String::from_str(PANEL_ALLOW_THREAT_HEAD);
    script.append(path.as_str());
    script.append(PANEL_ALLOW_THREAT_MIDDLE);
    script.append(decimal_text(threat_id).as_str());
    script.append(PANEL_ALLOW_THREAT_TAIL);
    plain(script, replies)
}

/// Restores the threat `threat_id` from quarantine and tells what the script
/// printed.
pub fn restore_threat(threat_id: u64, replies: &Vec<Reply>) -> (step: Step<String>)
    ensures
        step.deep_view() == plain_plan(restore_script(threat_id), replies.deep_view()),
{
    let mut script = String::from_str(PANEL_RESTORE_THREAT_HEAD);
    script.append(decimal_text(threat_id).as_str());
    script.append(PANEL_RESTORE_THREAT_TAIL);
    plain(script, replies)
}

/// Whether a history script printed that there is no history.
pub fn is_no_history(text: &str) -> (r: bool)
    ensures
        r == no_history(text@),
{
    let bare = trimmed(text);
    same_text(bare, "") || same_text(bare, "null") || same_text(bare, "[]")
}

/// The scans that the service remembers.
pub fn get_scan_history(replies: &Vec<Reply>) -> (step: Step<Vec<ScanHistoryItem>>)
    ensures
        step.deep_view() == get_scan_history_plan(replies.deep_view()),
{
    match ask(String::from_str(PANEL_GET_HISTORY), replies, 0) {
        Step::Done(Ok(text)) => if is_no_history(text.as_str()) {
            let none: Vec<ScanHistoryItem> = Vec::new();
            assert(none.deep_view() =~= Seq::empty());
            Step::Done(Ok(none))
        } else {
            match decode(
                Schema::History,
                text,
                HISTORY_PARSE_FAILED,
                Some(QUOTED_OUTPUT),
                replies,
                1,
            ) {
                Step::Done(Ok(Payload::History(history))) => Step::Done(Ok(history)),
                other => other.carry(),
            }
        },
        other => other.carry(),
    }
}

/// An operation with a fixed answer keeps its end, whatever replies follow.
pub proof fn lemma_fixed_keeps_its_end(script: Seq<char>, answer: Seq<char>)
    ensures
        keeps_its_end(|replies: Seq<ReplyView>| fixed_plan(script, answer, replies)),
{
    assert forall|replies: Seq<ReplyView>, more: Seq<ReplyView>|
        settled(fixed_plan(script, answer, replies)) implies
        fixed_plan(script, answer, replies + more)
        == fixed_plan(script, answer, replies) by {
        lemma_reply_stays(replies, more);
    }
}

/// An operation that answers in its output keeps its end, whatever replies follow.
pub proof fn lemma_plain_keeps_its_end(script: Seq<char>)
    ensures
        keeps_its_end(|replies: Seq<ReplyView>| plain_plan(script, replies)),
{
    assert forall|replies: Seq<ReplyView>, more: Seq<ReplyView>|
        settled(plain_plan(script, replies)) implies
        plain_plan(script, replies + more)
        == plain_plan(script, replies) by {
        lemma_reply_stays(replies, more);
    }
}

/// A status that was told stays told, whatever replies follow.
pub proof fn lemma_get_defender_status_keeps_its_end()
    ensures
        keeps_its_end(|replies: Seq<ReplyView>| get_defender_status_plan(replies)),
{
    assert forall|replies: Seq<ReplyView>, more: Seq<ReplyView>|
        settled(get_defender_status_plan(replies)) implies
        get_defender_status_plan(replies + more)
        == get_defender_status_plan(replies) by {
        lemma_reply_stays(replies, more);
    }
}

/// A scan that has ended keeps its result, whatever replies follow.
pub proof fn lemma_scan_keeps_its_end(script: Seq<char>, format: ElapsedFormat, files_scanned: u32)
    ensures
        keeps_its_end(|replies: Seq<ReplyView>| scan_plan(script, format, files_scanned, replies)),
{
    assert forall|replies: Seq<ReplyView>, more: Seq<ReplyView>|
        settled(scan_plan(script, format, files_scanned, replies)) implies
        scan_plan(script, format, files_scanned, replies + more)
        == scan_plan(script, format, files_scanned, replies) by {
        lemma_reply_stays(replies, more);
    }
}

/// A removal that has ended keeps its result, whatever replies follow.
pub proof fn lemma_clean_temp_files_keeps_its_end()
    ensures
        keeps_its_end(|replies: Seq<ReplyView>| clean_temp_files_plan(replies)),
{
    assert forall|replies: Seq<ReplyView>, more: Seq<ReplyView>|
        settled(clean_temp_files_plan(replies)) implies
        clean_temp_files_plan(replies + more)
        == clean_temp_files_plan(replies) by {
        lemma_reply_stays(replies, more);
    }
}

/// A list of threats that was told stays told, whatever replies follow.
pub proof fn lemma_get_threat_details_keeps_its_end()
    ensures
        keeps_its_end(|replies: Seq<ReplyView>| get_threat_details_plan(replies)),
{
    assert forall|replies: Seq<ReplyView>, more: Seq<ReplyView>|
        settled(get_threat_details_plan(replies)) implies
        get_threat_details_plan(replies + more)
        == get_threat_details_plan(replies) by {
        lemma_reply_stays(replies, more);
    }
}

/// A history that was told stays told, whatever replies follow.
pub proof fn lemma_get_scan_history_keeps_its_end()
    ensures
        keeps_its_end(|replies: Seq<ReplyView>| get_scan_history_plan(replies)),
{
    assert forall|replies: Seq<ReplyView>, more: Seq<ReplyView>|
        settled(get_scan_history_plan(replies)) implies
        get_scan_history_plan(replies + more)
        == get_scan_history_plan(replies) by {
        lemma_reply_stays(replies, more);
    }
}

/// No more threats are of one severity than there are threats.
pub proof fn lemma_count_severity_bounded(threats: Seq<ThreatDetailView>, severity: Seq<char>)
    ensures
        count_severity(threats, severity) <= threats.len(),
    decreases threats.len(),
{
    if threats.len() > 0 {
        lemma_count_severity_bounded(threats.drop_last(), severity);
    }
}

/// The threats of two different severities are together no more than there
/// are threats.
pub proof fn lemma_count_severity_apart(
    threats: Seq<ThreatDetailView>,
    one: Seq<char>,
    other: Seq<char>,
    third: Seq<char>,
)
    requires
        one != other,
        one != third,
        other != third,
    ensures
        count_severity(threats, one) + count_severity(threats, other) + count_severity(
            threats,
            third,
        ) <= threats.len(),
    decreases threats.len(),
{
    if threats.len() > 0 {
        lemma_count_severity_apart(threats.drop_last(), one, other, third);
    }
}

/// A scan is not started while another is under way.
pub proof fn lemma_no_scan_while_one_runs(
    script: Seq<char>,
    format: ElapsedFormat,
    files_scanned: u32,
    replies: Seq<ReplyView>,
)
    requires
        replies.len() > 0,
        replies[0] matches ReplyView::Output(Ok(state)) && PowerShellExecutor::scan_state(state)
            == Ok::<bool, Seq<char>>(true),
    ensures
        scan_plan(script, format, files_scanned, replies) == StepView::<ScanResultView>::Done(
            Err(BUSY@),
        ),
{
}

/// A call of the interpreter amounts to an output only where the
/// interpreter ran to its end and succeeded: one that did not start, was
/// given up at the time limit or exited with an error is a failure.
pub proof fn lemma_only_success_is_output(launch: Launch)
    ensures
        outcome_of(launch) is Ok <==> launch matches Launch::Exited { success: true, .. },
{
}

} // verus!
