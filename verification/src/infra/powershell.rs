//! The command interpreter: how it is called, how long it is waited for and
//! how its answer is read.

use crate::exchange::{
    keeps_its_end, lemma_reply_stays, outcome_view, reply_at, settled, slot, value_view, Reply,
    ReplyView, Step, StepView,
};
use crate::scripts::CHECK_SCAN_RUNNING;
use crate::text::{decimal, decimal_text, same_text, trim, trimmed};
use vstd::prelude::*;
use vstd::string::StringExecFns;
use vstd::utf8::{decode_utf8, valid_utf8};

verus! {

/// The program that interprets the scripts.
pub const PROGRAM: &'static str = "powershell";

/// What every script is preceded by, so that its output is UTF-8.
pub const OUTPUT_ENCODING: &'static str =
    "[Console]::OutputEncoding=[System.Text.Encoding]::UTF8; ";

/// How long a script may run before it is given up, in seconds.
pub const TIME_LIMIT_SECONDS: u64 = 21600;

/// What the check script prints while a scan is under way.
pub const RUNNING: &'static str = "RUNNING";

/// What the check script prints while no scan is under way.
pub const IDLE: &'static str = "IDLE";

/// What precedes an answer of the check script that is neither word.
pub const UNREADABLE_STATE: &'static str = "Estado de verificação não reconhecido: ";

/// What precedes the time limit in the failure of a script that was given
/// up.
pub const TIMED_OUT_HEAD: &'static str = "Tempo limite de ";

/// What follows the time limit in the failure of a script that was given
/// up.
pub const TIMED_OUT_TAIL: &'static str = " segundos excedido ao executar PowerShell";

/// What precedes the reason for which the interpreter did not start.
pub const NOT_STARTED: &'static str = "Erro ao executar PowerShell: ";

/// What precedes the error stream in the failure of a script.
pub const STDERR_LABEL: &'static str = "STDERR: ";

/// What stands between the error stream and the output in the failure of a
/// script.
pub const STDOUT_LABEL: &'static str = " | STDOUT: ";

/// What became of one call of the interpreter.
#[derive(Debug, Clone, PartialEq, Eq)]
pub enum Launch {
    /// The interpreter could not be started; the operating system's reason.
    NotStarted(String),
    /// The interpreter had not ended after `seconds` seconds and was given
    /// up.
    TimedOut { seconds: u64 },
    /// The interpreter ran to its end.
    Exited { success: bool, stdout: Vec<u8>, stderr: Vec<u8> },
}

/// The text that a lossy decoding of `bytes` as UTF-8 gives.
pub uninterp spec fn utf8_lossy(bytes: Seq<u8>) -> Seq<char>;

/// Calls `String::from_utf8_lossy`, which decodes bytes as UTF-8 and puts
/// U+FFFD in place of what is no UTF-8. The contract names the text that
/// comes out, and says that bytes which are UTF-8 are decoded as they stand.
#[verifier::external_body]
pub(crate) fn decoded_text(bytes: &Vec<u8>) -> (r: String)
    ensures
        r@ == utf8_lossy(bytes@),
        valid_utf8(bytes@) ==> r@ == decode_utf8(bytes@),
{
    String::from_utf8_lossy(bytes).into_owned()
}

/// Runs scripts in the command interpreter.
pub struct PowerShellExecutor;

impl PowerShellExecutor {
    /// The arguments with which the interpreter runs `command`.
    pub open spec fn arguments_of(command: Seq<char>) -> Seq<Seq<char>> {
        seq![
            "-NoProfile"@,
            "-NonInteractive"@,
            "-ExecutionPolicy"@,
            "Bypass"@,
            "-Command"@,
            OUTPUT_ENCODING@ + command,
        ]
    }

    /// What a script that ran to its end amounts to: its output where it
    /// succeeded, and otherwise a failure that quotes both streams.
    pub open spec fn exit_of(success: bool, stdout: Seq<char>, stderr: Seq<char>) -> Result<
        Seq<char>,
        Seq<char>,
    > {
        if success {
            Ok(stdout)
        } else {
            Err(STDERR_LABEL@ + stderr + STDOUT_LABEL@ + stdout)
        }
    }

    /// The failure of a script that was given up after `seconds` seconds.
    pub open spec fn timed_out(seconds: u64) -> Seq<char> {
        TIMED_OUT_HEAD@ + decimal(seconds as nat) + TIMED_OUT_TAIL@
    }

    /// What a call of the interpreter amounts to: a failure where the
    /// interpreter did not start or was given up, and otherwise what its
    /// exit amounts to. Both streams are decoded as UTF-8, lossily.
    pub open spec fn outcome_of(launch: Launch) -> Result<Seq<char>, Seq<char>> {
        match launch {
            Launch::NotStarted(reason) => Err(NOT_STARTED@ + reason@),
            Launch::TimedOut { seconds } => Err(Self::timed_out(seconds)),
            Launch::Exited { success, stdout, stderr } => Self::exit_of(
                success,
                utf8_lossy(stdout@),
                utf8_lossy(stderr@),
            ),
        }
    }

    /// What the check script says: that a scan is under way, that none is,
    /// or, where it printed neither word, nothing that can be gone by.
    pub open spec fn scan_state(text: Seq<char>) -> Result<bool, Seq<char>> {
        if trim(text) == RUNNING@ {
            Ok(true)
        } else if trim(text) == IDLE@ {
            Ok(false)
        } else {
            Err(UNREADABLE_STATE@ + trim(text))
        }
    }

    /// Whether a scan is under way, asked of the host in one script. An
    /// answer that is neither word is a failure.
    pub open spec fn check_scan_running_plan(replies: Seq<ReplyView>) -> StepView<bool> {
        match reply_at(replies, 0) {
            None => StepView::Run(CHECK_SCAN_RUNNING@),
            Some(ReplyView::Output(Ok(text))) => StepView::Done(Self::scan_state(text)),
            Some(ReplyView::Output(Err(error))) => StepView::Done(Err(error)),
            Some(_) => StepView::Rejected,
        }
    }

    /// The arguments with which the interpreter runs `command`.
    pub fn arguments(command: &str) -> (r: Vec<String>)
        ensures
            r.deep_view() == Self::arguments_of(command@),
    {
        let mut full = String::from_str(OUTPUT_ENCODING);
        full.append(command);
        let mut r: Vec<String> = Vec::new();
        r.push(String::from_str("-NoProfile"));
        r.push(String::from_str("-NonInteractive"));
        r.push(String::from_str("-ExecutionPolicy"));
        r.push(String::from_str("Bypass"));
        r.push(String::from_str("-Command"));
        r.push(full);
        r
    }

    /// Reads the end of a script from its exit status and its two streams.
    pub fn read_exit(success: bool, stdout: String, stderr: String) -> (r: Result<String, String>)
        ensures
            outcome_view(r) == Self::exit_of(success, stdout@, stderr@),
    {
        if success {
            Ok(stdout)
        } else {
            let mut message = String::from_str(STDERR_LABEL);
            message.append(stderr.as_str());
            message.append(STDOUT_LABEL);
            message.append(stdout.as_str());
            Err(message)
        }
    }

    /// The failure of a script that was given up after `seconds` seconds.
    pub fn timed_out_text(seconds: u64) -> (r: String)
        ensures
            r@ == Self::timed_out(seconds),
    {
        let mut message = String::from_str(TIMED_OUT_HEAD);
        message.append(decimal_text(seconds).as_str());
        message.append(TIMED_OUT_TAIL);
        message
    }

    /// What the check script says.
    pub fn read_scan_state(text: &str) -> (r: Result<bool, String>)
        ensures
            value_view(r) == Self::scan_state(text@),
    {
        let bare = trimmed(text);
        if same_text(bare, RUNNING) {
            Ok(true)
        } else if same_text(bare, IDLE) {
            Ok(false)
        } else {
            let mut message = String::from_str(UNREADABLE_STATE);
            message.append(bare);
            Err(message)
        }
    }

    /// Reads the outcome of one call of the interpreter. A stream that is
    /// UTF-8 is decoded as it stands.
    pub fn run(launch: &Launch) -> (r: Result<String, String>)
        ensures
            outcome_view(r) == Self::outcome_of(*launch),
            launch matches Launch::Exited { stdout, stderr, .. } ==> {
                &&& valid_utf8(stdout@) ==> utf8_lossy(stdout@) == decode_utf8(stdout@)
                &&& valid_utf8(stderr@) ==> utf8_lossy(stderr@) == decode_utf8(stderr@)
            },
    {
        match launch {
            Launch::NotStarted(reason) => {
                let mut message = String::from_str(NOT_STARTED);
                message.append(reason.as_str());
                Err(message)
            },
            Launch::TimedOut { seconds } => Err(Self::timed_out_text(*seconds)),
            Launch::Exited { success, stdout, stderr } => Self::read_exit(
                *success,
                decoded_text(stdout),
                decoded_text(stderr),
            ),
        }
    }

    /// Whether a scan is under way: first asks for the check script to be
    /// run, then reads what it printed. What is neither of the script's two
    /// words is a failure.
    pub fn check_scan_running(replies: &Vec<Reply>) -> (step: Step<bool>)
        ensures
            step.deep_view() == Self::check_scan_running_plan(replies.deep_view()),
    {
        match slot(replies, 0) {
            None => Step::Run(String::from_str(CHECK_SCAN_RUNNING)),
            Some(Reply::Output(Ok(text))) => Step::Done(Self::read_scan_state(text.as_str())),
            Some(Reply::Output(Err(error))) => Step::Done(Err(error.clone())),
            Some(_) => Step::Rejected,
        }
    }

    /// An answer to the check stays, whatever replies follow.
    pub proof fn lemma_check_scan_running_keeps_its_end()
        ensures
            keeps_its_end(|replies: Seq<ReplyView>| Self::check_scan_running_plan(replies)),
    {
        assert forall|replies: Seq<ReplyView>, more: Seq<ReplyView>|
            settled(Self::check_scan_running_plan(replies)) implies
            Self::check_scan_running_plan(replies + more)
            == Self::check_scan_running_plan(replies) by {
            lemma_reply_stays(replies, more);
        }
    }

    /// The check answers only where the script printed one of its two
    /// words: that a scan is under way on the one, that none is on the
    /// other.
    pub proof fn lemma_check_goes_by_the_words(replies: Seq<ReplyView>, running: bool)
        requires
            Self::check_scan_running_plan(replies) == StepView::<bool>::Done(Ok(running)),
        ensures
            replies.len() > 0,
            replies[0] matches ReplyView::Output(Ok(text)) && trim(text) == if running {
                RUNNING@
            } else {
                IDLE@
            },
    {
    }

    /// Where the check script printed neither of its two words, the check
    /// fails and quotes what was printed.
    pub proof fn lemma_check_fails_on_other_words(replies: Seq<ReplyView>, text: Seq<char>)
        requires
            replies.len() > 0,
            replies[0] == ReplyView::Output(Ok(text)),
            trim(text) != RUNNING@,
            trim(text) != IDLE@,
        ensures
            Self::check_scan_running_plan(replies) == StepView::<bool>::Done(
                Err(UNREADABLE_STATE@ + trim(text)),
            ),
    {
    }

    /// A call of the interpreter amounts to an output only where the
    /// interpreter ran to its end and succeeded: one that did not start, was
    /// given up at the time limit or exited with an error is a failure.
    pub proof fn lemma_only_success_is_output(launch: Launch)
        ensures
            Self::outcome_of(launch) is Ok <==> launch matches Launch::Exited {
                success: true,
                ..
            },
    {
    }
}

} // verus!
