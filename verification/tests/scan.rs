//! Scans: the guard, the steps of a scan, the history and the summary.

use defender_panel::exchange::{ElapsedFormat, Payload, Reply, Schema, Step};
use defender_panel::infra::PowerShellExecutor;
use defender_panel::models::{DefenderStatus, ScanHistoryItem, ScanResult, ScanSummary};
use defender_panel::scripts::{
    CANCEL_SCAN, CHECK_SCAN_RUNNING, COUNT_THREATS, FULL_SCAN, GET_HISTORY, QUICK_SCAN,
    START_FULL_SCAN, START_QUICK_SCAN,
};
use defender_panel::services::scan_service::{BUSY, FULL_SCAN_FILES, QUICK_SCAN_FILES};
use defender_panel::services::ScanService;

fn out(text: &str) -> Reply {
    Reply::Output(Ok(text.to_string()))
}

fn failed(text: &str) -> Reply {
    Reply::Output(Err(text.to_string()))
}

fn time(text: &str) -> Reply {
    Reply::Elapsed(text.to_string())
}

/// Feeds `answers` one by one and collects each step on the way.
fn steps_of_scan(
    operation: fn(&Vec<Reply>) -> Step<ScanResult>,
    answers: Vec<Reply>,
) -> Vec<Step<ScanResult>> {
    let mut replies: Vec<Reply> = Vec::new();
    let mut steps = vec![operation(&replies)];
    for answer in answers {
        replies.push(answer);
        steps.push(operation(&replies));
    }
    steps
}

#[test]
fn busy_message_is_word_for_word() {
    assert_eq!(BUSY, "Já existe uma verificação em andamento. Aguarde ela terminar.");
}

#[test]
fn guard_asks_lets_pass_or_stops() {
    assert_eq!(
        ScanService::guard::<String>(&vec![]),
        Some(Step::Run(CHECK_SCAN_RUNNING.to_string())),
    );
    assert_eq!(ScanService::guard::<String>(&vec![out("IDLE\r\n")]), None);
    assert_eq!(
        ScanService::guard::<String>(&vec![out("RUNNING\r\n")]),
        Some(Step::Done(Err(BUSY.to_string())))
    );
    assert_eq!(
        ScanService::guard::<String>(&vec![failed("no shell")]),
        Some(Step::Done(Err("no shell".to_string())))
    );
    assert_eq!(ScanService::guard::<String>(&vec![Reply::ClockStarted]), Some(Step::Rejected));
}

#[test]
fn guard_agrees_with_the_check() {
    for text in vec!["RUNNING", "IDLE", "", " RUNNING \n", "RUNNING!", " IDLE\r\n", "idle"] {
        let replies = vec![out(text)];
        let idle = PowerShellExecutor::check_scan_running(&replies) == Step::Done(Ok(false));
        assert_eq!(ScanService::guard::<bool>(&replies).is_none(), idle, "{:?}", text);
    }
}

#[test]
fn guard_stops_on_a_state_it_cannot_read() {
    for text in vec!["", "RUNNING!", "Access denied", "idle"] {
        let expected = format!("Estado de verificação não reconhecido: {}", text);
        let replies = vec![out(text)];
        assert_eq!(
            ScanService::guard::<String>(&replies),
            Some(Step::Done(Err(expected.clone())))
        );
        assert_eq!(ScanService::quick_scan(&replies), Step::Done(Err(expected.clone())));
        assert_eq!(ScanService::full_scan(&replies), Step::Done(Err(expected.clone())));
        assert_eq!(ScanService::custom_scan("C:\\", &replies), Step::Done(Err(expected.clone())));
        assert_eq!(ScanService::start_quick_scan(&replies), Step::Done(Err(expected.clone())));
        assert_eq!(ScanService::start_full_scan(&replies), Step::Done(Err(expected)));
    }
}

#[test]
fn quick_scan_goes_step_by_step() {
    let steps = steps_of_scan(
        ScanService::quick_scan,
        vec![
            out("IDLE\r\n"),
            Reply::ClockStarted,
            out("SUCCESS\r\n"),
            time("12.34s"),
            out("3\r\n"),
        ],
    );
    assert_eq!(
        steps,
        vec![
            Step::Run(CHECK_SCAN_RUNNING.to_string()),
            Step::StartClock,
            Step::Run(QUICK_SCAN.to_string()),
            Step::ReadClock(ElapsedFormat::Seconds),
            Step::Run(COUNT_THREATS.to_string()),
            Step::Done(Ok(ScanResult {
                threats_found: 3,
                files_scanned: 50000,
                scan_time: "12.34s".to_string(),
            })),
        ]
    );
}

#[test]
fn full_scan_goes_step_by_step() {
    let steps = steps_of_scan(
        ScanService::full_scan,
        vec![out("IDLE"), Reply::ClockStarted, out("SUCCESS"), time("42.7min"), out("0")],
    );
    assert_eq!(
        steps,
        vec![
            Step::Run(CHECK_SCAN_RUNNING.to_string()),
            Step::StartClock,
            Step::Run(FULL_SCAN.to_string()),
            Step::ReadClock(ElapsedFormat::Minutes),
            Step::Run(COUNT_THREATS.to_string()),
            Step::Done(Ok(ScanResult {
                threats_found: 0,
                files_scanned: 500000,
                scan_time: "42.7min".to_string(),
            })),
        ]
    );
}

#[test]
fn scan_file_counts_are_fixed() {
    assert_eq!(QUICK_SCAN_FILES, 50000);
    assert_eq!(FULL_SCAN_FILES, 500000);
}

#[test]
fn scan_does_not_start_while_another_runs() {
    let replies = vec![out("RUNNING\r\n")];
    assert_eq!(ScanService::quick_scan(&replies), Step::Done(Err(BUSY.to_string())));
    assert_eq!(ScanService::full_scan(&replies), Step::Done(Err(BUSY.to_string())));
    assert_eq!(ScanService::custom_scan("C:\\", &replies), Step::Done(Err(BUSY.to_string())));
    assert_eq!(ScanService::start_quick_scan(&replies), Step::Done(Err(BUSY.to_string())));
    assert_eq!(ScanService::start_full_scan(&replies), Step::Done(Err(BUSY.to_string())));
}

#[test]
fn scan_ends_where_the_check_fails() {
    let replies = vec![failed("STDERR: x | STDOUT: ")];
    let expected = "STDERR: x | STDOUT: ".to_string();
    assert_eq!(ScanService::quick_scan(&replies), Step::Done(Err(expected.clone())));
    assert_eq!(ScanService::custom_scan("C:\\", &replies), Step::Done(Err(expected.clone())));
    assert_eq!(ScanService::start_full_scan(&replies), Step::Done(Err(expected)));
}

#[test]
fn scan_ends_where_the_scan_script_reports_a_failure() {
    let replies = vec![
        out("IDLE"),
        Reply::ClockStarted,
        out("ERROR: Scan falhou com código 5\r\n"),
    ];
    assert_eq!(
        ScanService::quick_scan(&replies),
        Step::Done(Err("Scan falhou com código 5".to_string()))
    );
    let replies = vec![out("IDLE"), Reply::ClockStarted, failed("killed")];
    assert_eq!(ScanService::full_scan(&replies), Step::Done(Err("killed".to_string())));
}

#[test]
fn scan_ends_where_the_count_fails() {
    let replies =
        vec![out("IDLE"), Reply::ClockStarted, out("SUCCESS"), time("1.00s"), failed("gone")];
    assert_eq!(ScanService::quick_scan(&replies), Step::Done(Err("gone".to_string())));
}

#[test]
fn scan_fails_on_a_count_that_is_no_number() {
    for count in
        vec!["", "none", "-1", "3 threats", "4294967296", "1.5", "Access denied", "\r\n"]
    {
        let replies =
            vec![out("IDLE"), Reply::ClockStarted, out("SUCCESS"), time("1.00s"), out(count)];
        let expected = format!("Contagem não reconhecida: {}", count.trim());
        assert_eq!(ScanService::quick_scan(&replies), Step::Done(Err(expected.clone())));
        assert_eq!(ScanService::full_scan(&replies), Step::Done(Err(expected)));
    }
}

#[test]
fn scan_reads_a_count_up_to_the_limit_of_its_counter() {
    let replies =
        vec![out("IDLE"), Reply::ClockStarted, out("SUCCESS"), time("1.00s"), out("+0007\n")];
    assert_eq!(
        ScanService::quick_scan(&replies),
        Step::Done(Ok(ScanResult {
            threats_found: 7,
            files_scanned: 50000,
            scan_time: "1.00s".to_string(),
        }))
    );
    let replies =
        vec![out("IDLE"), Reply::ClockStarted, out("SUCCESS"), time("1.00s"), out(" 4294967295\n")];
    assert_eq!(
        ScanService::quick_scan(&replies),
        Step::Done(Ok(ScanResult {
            threats_found: 4294967295,
            files_scanned: 50000,
            scan_time: "1.00s".to_string(),
        }))
    );
}

#[test]
fn scan_rejects_replies_out_of_place() {
    assert_eq!(ScanService::quick_scan(&vec![out("IDLE"), out("SUCCESS")]), Step::Rejected);
    assert_eq!(
        ScanService::quick_scan(&vec![out("IDLE"), Reply::ClockStarted, Reply::ClockStarted]),
        Step::Rejected
    );
    assert_eq!(
        ScanService::quick_scan(&vec![
            out("IDLE"),
            Reply::ClockStarted,
            out("SUCCESS"),
            out("1.00s")
        ]),
        Step::Rejected
    );
    assert_eq!(
        ScanService::quick_scan(&vec![
            out("IDLE"),
            Reply::ClockStarted,
            out("SUCCESS"),
            time("1.00s"),
            time("1.00s")
        ]),
        Step::Rejected
    );
    let status = Payload::Status(DefenderStatus { is_enabled: true, last_scan: None });
    assert_eq!(ScanService::quick_scan(&vec![Reply::Decoded(Ok(status))]), Step::Rejected);
}

#[test]
fn scan_result_stays_once_it_is_there() {
    let mut replies =
        vec![out("IDLE"), Reply::ClockStarted, out("SUCCESS"), time("1.00s"), out("2")];
    let done = Step::Done(Ok(ScanResult {
        threats_found: 2,
        files_scanned: 50000,
        scan_time: "1.00s".to_string(),
    }));
    assert_eq!(ScanService::quick_scan(&replies), done);
    replies.push(out("RUNNING"));
    replies.push(Reply::ClockStarted);
    assert_eq!(ScanService::quick_scan(&replies), done);
}

#[test]
fn custom_scan_counts_the_files_first() {
    let mut replies = vec![out("IDLE"), Reply::ClockStarted];
    assert!(matches!(ScanService::custom_scan("C:\\x", &replies), Step::Run(_)));
    replies.push(out(" 1234\r\n"));
    assert!(matches!(ScanService::custom_scan("C:\\x", &replies), Step::Run(_)));
    replies.push(out("SUCCESS\r\n"));
    assert_eq!(
        ScanService::custom_scan("C:\\x", &replies),
        Step::ReadClock(ElapsedFormat::Seconds),
    );
    replies.push(time("7.01s"));
    assert_eq!(ScanService::custom_scan("C:\\x", &replies), Step::Run(COUNT_THREATS.to_string()));
    replies.push(out("1\r\n"));
    assert_eq!(
        ScanService::custom_scan("C:\\x", &replies),
        Step::Done(Ok(ScanResult {
            threats_found: 1,
            files_scanned: 1234,
            scan_time: "7.01s".to_string(),
        }))
    );
}

#[test]
fn custom_scan_fails_on_a_file_count_that_is_no_number() {
    let mut replies = vec![out("IDLE"), Reply::ClockStarted, out("muitos\r\n")];
    assert_eq!(
        ScanService::custom_scan("C:\\x", &replies),
        Step::Done(Err("Contagem não reconhecida: muitos".to_string()))
    );
    replies.push(out("SUCCESS"));
    replies.push(time("0.10s"));
    replies.push(out("0"));
    assert_eq!(
        ScanService::custom_scan("C:\\x", &replies),
        Step::Done(Err("Contagem não reconhecida: muitos".to_string()))
    );
}

#[test]
fn custom_scan_fails_on_a_threat_count_that_is_no_number() {
    let replies = vec![
        out("IDLE"),
        Reply::ClockStarted,
        out("12"),
        out("SUCCESS"),
        time("0.10s"),
        out("Access denied"),
    ];
    assert_eq!(
        ScanService::custom_scan("C:\\x", &replies),
        Step::Done(Err("Contagem não reconhecida: Access denied".to_string()))
    );
}

#[test]
fn custom_scan_ends_where_a_script_fails() {
    let replies = vec![out("IDLE"), Reply::ClockStarted, failed("count failed")];
    assert_eq!(
        ScanService::custom_scan("C:\\x", &replies),
        Step::Done(Err("count failed".to_string())),
    );
    let replies = vec![out("IDLE"), Reply::ClockStarted, out("5"), out("ERROR: Caminho inválido")];
    assert_eq!(
        ScanService::custom_scan("C:\\x", &replies),
        Step::Done(Err("Caminho inválido".to_string()))
    );
}

#[test]
fn start_quick_scan_announces_the_start() {
    assert_eq!(ScanService::start_quick_scan(&vec![]), Step::Run(CHECK_SCAN_RUNNING.to_string()));
    assert_eq!(
        ScanService::start_quick_scan(&vec![out("IDLE")]),
        Step::Run(START_QUICK_SCAN.to_string())
    );
    assert_eq!(
        ScanService::start_quick_scan(&vec![out("IDLE"), out("SUCCESS: whatever it says\r\n")]),
        Step::Done(Ok("Verificação rápida iniciada".to_string()))
    );
    assert_eq!(
        ScanService::start_quick_scan(&vec![out("IDLE"), out("ERROR: sem permissão\r\n")]),
        Step::Done(Err("sem permissão".to_string()))
    );
    assert_eq!(
        ScanService::start_quick_scan(&vec![out("IDLE"), failed("died")]),
        Step::Done(Err("died".to_string()))
    );
    assert_eq!(
        ScanService::start_quick_scan(&vec![out("IDLE"), Reply::ClockStarted]),
        Step::Rejected,
    );
}

#[test]
fn start_full_scan_announces_the_start() {
    assert_eq!(
        ScanService::start_full_scan(&vec![out("IDLE")]),
        Step::Run(START_FULL_SCAN.to_string())
    );
    assert_eq!(
        ScanService::start_full_scan(&vec![out("IDLE"), out("")]),
        Step::Done(Ok("Verificação completa iniciada".to_string()))
    );
}

#[test]
fn cancel_scan_runs_and_reports() {
    assert_eq!(ScanService::cancel_scan(&vec![]), Step::Run(CANCEL_SCAN.to_string()));
    assert_eq!(
        ScanService::cancel_scan(&vec![out("SUCCESS: Verificação cancelada\r\n")]),
        Step::Done(Ok("Verificação cancelada".to_string()))
    );
    assert_eq!(
        ScanService::cancel_scan(&vec![out("SUCCESS: Nenhuma verificação em andamento\r\n")]),
        Step::Done(Ok("Nenhuma verificação em andamento".to_string()))
    );
    assert_eq!(
        ScanService::cancel_scan(&vec![out("ERROR: Acesso negado\r\n")]),
        Step::Done(Err("Acesso negado".to_string()))
    );
}

#[test]
fn history_is_empty_where_the_script_says_so() {
    assert_eq!(ScanService::get_history(&vec![]), Step::Run(GET_HISTORY.to_string()));
    for text in vec!["", "  \r\n", "null", " null\n", "[]", "[]\r\n"] {
        assert!(ScanService::is_no_history(text));
        assert_eq!(
            ScanService::get_history(&vec![out(text)]),
            Step::Done(Ok(vec![])),
            "{:?}",
            text,
        );
    }
    for text in vec!["[ ]", "NULL", "{}", "[{}]"] {
        assert!(!ScanService::is_no_history(text));
        assert_eq!(
            ScanService::get_history(&vec![out(text)]),
            Step::Decode(Schema::History, text.to_string()),
            "{:?}",
            text
        );
    }
}

#[test]
fn history_hands_on_what_was_decoded() {
    let item = ScanHistoryItem {
        scan_type: "Verificação Completa".to_string(),
        start_time: "01/02/2024 10:00:00".to_string(),
        end_time: "01/02/2024 11:30:00".to_string(),
        threats_found: 0,
        files_scanned: 500000,
    };
    let replies =
        vec![out("[{...}]"), Reply::Decoded(Ok(Payload::History(vec![item.clone()])))];
    assert_eq!(ScanService::get_history(&replies), Step::Done(Ok(vec![item])));
    let replies = vec![out("[{...}]"), Reply::Decoded(Err("key must be a string".to_string()))];
    assert_eq!(
        ScanService::get_history(&replies),
        Step::Done(Err("Erro ao parsear histórico: key must be a string".to_string()))
    );
    let replies = vec![
        out("[{...}]"),
        Reply::Decoded(Ok(Payload::Status(DefenderStatus { is_enabled: true, last_scan: None }))),
    ];
    assert_eq!(ScanService::get_history(&replies), Step::Rejected);
    assert_eq!(
        ScanService::get_history(&vec![failed("x")]),
        Step::Done(Err("x".to_string()))
    );
}

#[test]
fn summary_hands_on_what_was_decoded() {
    let summary = ScanSummary {
        scan_type: "quick".to_string(),
        last_scan: Some("01/02/2024 10:00".to_string()),
        threats_found: 2,
        duration: "3 minutos 12 segundos".to_string(),
        files_scanned: 123456789012,
    };
    let text = "{\"scan_type\":\"quick\"}";
    assert_eq!(
        ScanService::get_last_scan_summary("Quick", &vec![out(text)]),
        Step::Decode(Schema::Summary, text.to_string())
    );
    let replies = vec![out(text), Reply::Decoded(Ok(Payload::Summary(summary.clone())))];
    assert_eq!(ScanService::get_last_scan_summary("Quick", &replies), Step::Done(Ok(summary)));
    let replies = vec![out(text), Reply::Decoded(Err("missing field `duration`".to_string()))];
    assert_eq!(
        ScanService::get_last_scan_summary("Quick", &replies),
        Step::Done(Err("Erro ao parsear JSON: missing field `duration`".to_string()))
    );
    assert_eq!(
        ScanService::get_last_scan_summary("Quick", &vec![failed("x")]),
        Step::Done(Err("x".to_string()))
    );
}

#[test]
fn summary_of_a_kind_in_any_case_is_that_of_the_kind_in_lower_case() {
    for kind in vec!["QUICK", "Full", "cUsToM", "", "ÉPOCA"] {
        assert_eq!(
            ScanService::get_last_scan_summary(kind, &vec![]),
            ScanService::last_scan_summary_of(&kind.to_lowercase(), &vec![])
        );
    }
}
