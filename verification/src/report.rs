//! How a script tells in what it prints whether it succeeded.
//!
//! A script that failed prints `ERROR:` and its reason. One that succeeded
//! prints `SUCCESS: ` and what it did. What the caller is shown is the text
//! without the marker and without the whitespace around it.

use crate::exchange::{
    ask, ask_plan, keeps_its_end, lemma_reply_stays, outcome_view, reply_at, settled, value_view,
    Reply, ReplyView, Step, StepView,
};
use crate::text::{
    all_whitespace, contains, decimal, includes, lemma_decimal_digits, lemma_decimal_reads_back,
    lemma_replace_absent, lemma_trim_of_padded, occurs_at, parse_unsigned, read_unsigned, replace,
    replaced, trim, trimmed,
};
use vstd::prelude::*;
use vstd::string::StringExecFns;

verus! {

/// What a failed script prints somewhere in its output.
pub const ERROR_MARK: &'static str = "ERROR:";

/// What is taken out of the output of a failed script.
pub const ERROR_PREFIX: &'static str = "ERROR: ";

/// What is taken out of the output of a script that succeeded.
pub const SUCCESS_PREFIX: &'static str = "SUCCESS: ";

/// What a script prints where it did only part of its work.
pub const PARTIAL_PREFIX: &'static str = "PARTIAL: ";

/// What precedes an output that was to be a count and is no number.
pub const UNREADABLE_COUNT: &'static str = "Contagem não reconhecida: ";

/// The count that a script printed: the number that the output writes,
/// whitespace around it apart. An output that writes no number of 32 bits
/// is a failure that quotes it.
pub open spec fn count(text: Seq<char>) -> Result<u32, Seq<char>> {
    match parse_unsigned(trim(text), u32::MAX as nat) {
        Some(n) => Ok(n as u32),
        None => Err(UNREADABLE_COUNT@ + trim(text)),
    }
}

/// Whether the script that printed `text` failed.
pub open spec fn failed(text: Seq<char>) -> bool {
    contains(text, ERROR_MARK@)
}

/// The reason that a failed script gave.
pub open spec fn failure(text: Seq<char>) -> Seq<char> {
    trim(replace(text, ERROR_PREFIX@, ""@))
}

/// What a script that succeeded says it did.
pub open spec fn success(text: Seq<char>) -> Seq<char> {
    trim(replace(text, SUCCESS_PREFIX@, ""@))
}

/// What a script that did all or part of its work says it did.
pub open spec fn success_or_partial(text: Seq<char>) -> Seq<char> {
    trim(replace(replace(text, SUCCESS_PREFIX@, ""@), PARTIAL_PREFIX@, ""@))
}

/// What the output of a script amounts to.
pub open spec fn report(text: Seq<char>) -> Result<Seq<char>, Seq<char>> {
    if failed(text) {
        Err(failure(text))
    } else {
        Ok(success(text))
    }
}

/// An operation of one script that reports in its output: the script is
/// run, and its report is the result.
pub open spec fn report_plan(script: Seq<char>, replies: Seq<ReplyView>) -> StepView<Seq<char>> {
    match ask_plan(script, replies, 0) {
        StepView::Done(Ok(text)) => StepView::Done(report(text)),
        other => other,
    }
}

/// The count that a script printed.
pub fn read_count(text: &str) -> (r: Result<u32, String>)
    ensures
        value_view(r) == count(text@),
{
    let bare = trimmed(text);
    match read_unsigned(bare, u32::MAX as u64) {
        Some(n) => Ok(n as u32),
        None => {
            let mut message = String::from_str(UNREADABLE_COUNT);
            message.append(bare);
            Err(message)
        },
    }
}

/// Whether the script that printed `text` failed.
pub fn has_failed(text: &str) -> (r: bool)
    ensures
        r == failed(text@),
{
    includes(text, ERROR_MARK)
}

/// The reason that a failed script gave.
pub fn failure_text(text: &str) -> (r: String)
    ensures
        r@ == failure(text@),
{
    let bare = replaced(text, ERROR_PREFIX, "");
    String::from_str(trimmed(bare.as_str()))
}

/// What a script that succeeded says it did.
pub fn success_text(text: &str) -> (r: String)
    ensures
        r@ == success(text@),
{
    let bare = replaced(text, SUCCESS_PREFIX, "");
    String::from_str(trimmed(bare.as_str()))
}

/// What a script that did all or part of its work says it did.
pub fn success_or_partial_text(text: &str) -> (r: String)
    ensures
        r@ == success_or_partial(text@),
{
    let bare = replaced(text, SUCCESS_PREFIX, "");
    let barer = replaced(bare.as_str(), PARTIAL_PREFIX, "");
    String::from_str(trimmed(barer.as_str()))
}

/// What the output of a script amounts to.
pub fn read_report(text: &str) -> (r: Result<String, String>)
    ensures
        outcome_view(r) == report(text@),
{
    if has_failed(text) {
        Err(failure_text(text))
    } else {
        Ok(success_text(text))
    }
}

/// An operation of one script that reports in its output.
pub fn report_on(script: String, replies: &Vec<Reply>) -> (step: Step<String>)
    ensures
        step.deep_view() == report_plan(script@, replies.deep_view()),
{
    match ask(script, replies, 0) {
        Step::Done(Ok(text)) => Step::Done(read_report(text.as_str())),
        other => other,
    }
}

/// An operation of one script that has reported keeps its report, whatever
/// replies follow.
pub proof fn lemma_report_keeps_its_end(script: Seq<char>)
    ensures
        keeps_its_end(|replies: Seq<ReplyView>| report_plan(script, replies)),
{
    assert forall|replies: Seq<ReplyView>, more: Seq<ReplyView>|
        settled(report_plan(script, replies)) implies report_plan(script, replies + more)
        == report_plan(script, replies) by {
        lemma_reply_stays(replies, more);
    }
}

/// An operation of one script ends in failure exactly where the script
/// could not be run or reports a failure itself.
pub proof fn lemma_report_fails(script: Seq<char>, replies: Seq<ReplyView>)
    ensures
        report_plan(script, replies) matches StepView::Done(Err(_)) <==> match reply_at(
            replies,
            0,
        ) {
            Some(ReplyView::Output(Ok(text))) => failed(text),
            Some(ReplyView::Output(Err(_))) => true,
            _ => false,
        },
{
}

/// An output without any marker is a success, and is shown as it is but
/// for the whitespace around it.
pub proof fn lemma_report_unmarked(text: Seq<char>)
    requires
        !contains(text, ERROR_MARK@),
        !contains(text, SUCCESS_PREFIX@),
    ensures
        report(text) == Ok::<Seq<char>, Seq<char>>(trim(text)),
{
    reveal_strlit("SUCCESS: ");
    lemma_replace_absent(text, SUCCESS_PREFIX@, ""@);
}

/// A script that prints `SUCCESS: ` and what it did, and no failure,
/// succeeds with what it did.
pub proof fn lemma_report_of_success(told: Seq<char>)
    requires
        !contains(SUCCESS_PREFIX@ + told, ERROR_MARK@),
        !contains(told, SUCCESS_PREFIX@),
    ensures
        report(SUCCESS_PREFIX@ + told) == Ok::<Seq<char>, Seq<char>>(trim(told)),
{
    reveal_strlit("SUCCESS: ");
    reveal_strlit("");
    let text = SUCCESS_PREFIX@ + told;
    assert(text.subrange(0, SUCCESS_PREFIX@.len() as int) == SUCCESS_PREFIX@);
    assert(text.skip(SUCCESS_PREFIX@.len() as int) == told);
    lemma_replace_absent(told, SUCCESS_PREFIX@, ""@);
}

/// A script that prints `ERROR: ` and a reason fails with the reason.
pub proof fn lemma_report_of_failure(reason: Seq<char>)
    requires
        !contains(reason, ERROR_PREFIX@),
    ensures
        report(ERROR_PREFIX@ + reason) == Err::<Seq<char>, Seq<char>>(trim(reason)),
{
    reveal_strlit("ERROR: ");
    reveal_strlit("ERROR:");
    reveal_strlit("");
    let text = ERROR_PREFIX@ + reason;
    assert(text.subrange(0, ERROR_MARK@.len() as int) == ERROR_MARK@);
    assert(occurs_at(text, ERROR_MARK@, 0));
    assert(text.subrange(0, ERROR_PREFIX@.len() as int) == ERROR_PREFIX@);
    assert(text.skip(ERROR_PREFIX@.len() as int) == reason);
    lemma_replace_absent(reason, ERROR_PREFIX@, ""@);
}

/// A number that a script prints, with whatever whitespace around it, is
/// read as that number.
pub proof fn lemma_count_reads_back(n: u32, before: Seq<char>, after: Seq<char>)
    requires
        all_whitespace(before),
        all_whitespace(after),
    ensures
        count(before + decimal(n as nat) + after) == Ok::<u32, Seq<char>>(n),
{
    lemma_decimal_digits(n as nat);
    lemma_decimal_reads_back(n as nat, u32::MAX as nat);
    lemma_trim_of_padded(before, decimal(n as nat), after);
}

} // verus!
