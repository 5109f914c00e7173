//! The interpreter: its arguments, the reading of its exit, and the check for
//! a scan under way.

use defender_panel::exchange::{Reply, Step};
use defender_panel::infra::powershell::{Launch, PROGRAM, TIME_LIMIT_SECONDS};
use defender_panel::infra::PowerShellExecutor;
use defender_panel::scripts::CHECK_SCAN_RUNNING;

fn printed(text: &str) -> Reply {
    Reply::Output(Ok(text.to_string()))
}

#[test]
fn program_is_the_interpreter() {
    assert_eq!(PROGRAM, "powershell");
}

#[test]
fn arguments_end_with_the_prefixed_command() {
    assert_eq!(
        PowerShellExecutor::arguments("Get-MpComputerStatus"),
        vec![
            "-NoProfile".to_string(),
            "-NonInteractive".to_string(),
            "-ExecutionPolicy".to_string(),
            "Bypass".to_string(),
            "-Command".to_string(),
            "[Console]::OutputEncoding=[System.Text.Encoding]::UTF8; Get-MpComputerStatus"
                .to_string(),
        ]
    );
}

#[test]
fn arguments_keep_an_empty_command() {
    let arguments = PowerShellExecutor::arguments("");
    assert_eq!(arguments.len(), 6);
    assert_eq!(arguments[5], "[Console]::OutputEncoding=[System.Text.Encoding]::UTF8; ");
}

#[test]
fn run_tells_why_the_interpreter_did_not_start() {
    let launch = Launch::NotStarted("program not found".to_string());
    assert_eq!(
        PowerShellExecutor::run(&launch),
        Err("Erro ao executar PowerShell: program not found".to_string())
    );
}

#[test]
fn run_gives_the_output_of_a_script_that_succeeded() {
    let launch = Launch::Exited {
        success: true,
        stdout: "IDLE\r\n".as_bytes().to_vec(),
        stderr: "warning".as_bytes().to_vec(),
    };
    assert_eq!(PowerShellExecutor::run(&launch), Ok("IDLE\r\n".to_string()));
}

#[test]
fn run_quotes_both_streams_of_a_script_that_failed() {
    let launch = Launch::Exited {
        success: false,
        stdout: "partial".as_bytes().to_vec(),
        stderr: "Acesso negado".as_bytes().to_vec(),
    };
    assert_eq!(
        PowerShellExecutor::run(&launch),
        Err("STDERR: Acesso negado | STDOUT: partial".to_string())
    );
}

#[test]
fn run_decodes_utf8() {
    let launch = Launch::Exited {
        success: true,
        stdout: "Definições 🗑️".as_bytes().to_vec(),
        stderr: Vec::new(),
    };
    assert_eq!(PowerShellExecutor::run(&launch), Ok("Definições 🗑️".to_string()));
}

#[test]
fn run_puts_a_mark_where_bytes_are_no_utf8() {
    let launch = Launch::Exited {
        success: true,
        stdout: vec![b'a', 0xff, b'b', 0xc3],
        stderr: Vec::new(),
    };
    assert_eq!(PowerShellExecutor::run(&launch), Ok("a\u{fffd}b\u{fffd}".to_string()));
    let failed = Launch::Exited { success: false, stdout: vec![0x80], stderr: vec![0xe2, 0x82] };
    assert_eq!(
        PowerShellExecutor::run(&failed),
        Err("STDERR: \u{fffd} | STDOUT: \u{fffd}".to_string())
    );
}

#[test]
fn read_exit_goes_by_the_exit_status() {
    assert_eq!(
        PowerShellExecutor::read_exit(true, "out".to_string(), "err".to_string()),
        Ok("out".to_string())
    );
    assert_eq!(
        PowerShellExecutor::read_exit(false, "out".to_string(), "err".to_string()),
        Err("STDERR: err | STDOUT: out".to_string())
    );
    assert_eq!(
        PowerShellExecutor::read_exit(false, String::new(), String::new()),
        Err("STDERR:  | STDOUT: ".to_string())
    );
}

#[test]
fn check_scan_running_first_asks() {
    assert_eq!(
        PowerShellExecutor::check_scan_running(&vec![]),
        Step::Run(CHECK_SCAN_RUNNING.to_string())
    );
    assert!(CHECK_SCAN_RUNNING.contains("Get-Process -Name \"MpCmdRun\""));
    assert!(CHECK_SCAN_RUNNING.contains("AntivirusScanInProgress"));
}

#[test]
fn check_scan_running_reads_the_answer() {
    assert_eq!(
        PowerShellExecutor::check_scan_running(&vec![printed("RUNNING\r\n")]),
        Step::Done(Ok(true))
    );
    assert_eq!(
        PowerShellExecutor::check_scan_running(&vec![printed("  RUNNING")]),
        Step::Done(Ok(true))
    );
    assert_eq!(
        PowerShellExecutor::check_scan_running(&vec![printed("IDLE\r\n")]),
        Step::Done(Ok(false))
    );
    assert_eq!(
        PowerShellExecutor::check_scan_running(&vec![printed("\tIDLE ")]),
        Step::Done(Ok(false))
    );
}

#[test]
fn check_scan_running_fails_on_what_is_neither_word() {
    assert_eq!(
        PowerShellExecutor::check_scan_running(&vec![printed("")]),
        Step::Done(Err("Estado de verificação não reconhecido: ".to_string()))
    );
    assert_eq!(
        PowerShellExecutor::check_scan_running(&vec![printed(" \r\n")]),
        Step::Done(Err("Estado de verificação não reconhecido: ".to_string()))
    );
    assert_eq!(
        PowerShellExecutor::check_scan_running(&vec![printed("running")]),
        Step::Done(Err("Estado de verificação não reconhecido: running".to_string()))
    );
    assert_eq!(
        PowerShellExecutor::check_scan_running(&vec![printed("RUNNING RUNNING\r\n")]),
        Step::Done(Err("Estado de verificação não reconhecido: RUNNING RUNNING".to_string()))
    );
    assert_eq!(
        PowerShellExecutor::check_scan_running(&vec![printed("Access denied\r\n")]),
        Step::Done(Err("Estado de verificação não reconhecido: Access denied".to_string()))
    );
    assert_eq!(
        PowerShellExecutor::check_scan_running(&vec![printed("IDLE\nRUNNING")]),
        Step::Done(Err("Estado de verificação não reconhecido: IDLE\nRUNNING".to_string()))
    );
}

#[test]
fn read_scan_state_knows_two_words() {
    assert_eq!(PowerShellExecutor::read_scan_state("RUNNING"), Ok(true));
    assert_eq!(PowerShellExecutor::read_scan_state(" IDLE\r\n"), Ok(false));
    assert_eq!(
        PowerShellExecutor::read_scan_state("idle"),
        Err("Estado de verificação não reconhecido: idle".to_string())
    );
}

#[test]
fn run_tells_of_a_script_that_was_given_up() {
    assert_eq!(
        PowerShellExecutor::run(&Launch::TimedOut { seconds: 21600 }),
        Err("Tempo limite de 21600 segundos excedido ao executar PowerShell".to_string())
    );
    assert_eq!(
        PowerShellExecutor::run(&Launch::TimedOut { seconds: 0 }),
        Err("Tempo limite de 0 segundos excedido ao executar PowerShell".to_string())
    );
    assert_eq!(
        PowerShellExecutor::timed_out_text(90),
        "Tempo limite de 90 segundos excedido ao executar PowerShell"
    );
    assert_eq!(TIME_LIMIT_SECONDS, 21600);
}

#[test]
fn check_scan_running_hands_on_a_failure() {
    let replies = vec![Reply::Output(Err("STDERR: x | STDOUT: ".to_string()))];
    assert_eq!(
        PowerShellExecutor::check_scan_running(&replies),
        Step::Done(Err("STDERR: x | STDOUT: ".to_string()))
    );
}

#[test]
fn check_scan_running_rejects_other_replies() {
    assert_eq!(PowerShellExecutor::check_scan_running(&vec![Reply::ClockStarted]), Step::Rejected);
    assert_eq!(
        PowerShellExecutor::check_scan_running(&vec![Reply::Elapsed("1.00s".to_string())]),
        Step::Rejected
    );
    assert_eq!(
        PowerShellExecutor::check_scan_running(&vec![Reply::Decoded(Err("x".to_string()))]),
        Step::Rejected
    );
}

#[test]
fn check_scan_running_looks_at_the_first_reply_only() {
    let replies = vec![printed("IDLE"), printed("RUNNING"), Reply::ClockStarted];
    assert_eq!(PowerShellExecutor::check_scan_running(&replies), Step::Done(Ok(false)));
}
