//! The plain commands of the panel.

use defender_panel::exchange::{ElapsedFormat, Payload, Reply, Schema, Step};
use defender_panel::infra::powershell::Launch;
use defender_panel::models::{
    CleanResult, DefenderStatus, ScanHistoryItem, ScanResult, ThreatDetail, ThreatSummary,
};
use defender_panel::panel;
use defender_panel::scripts::{
    PANEL_CANCEL_SCAN, PANEL_CHECK_SCAN_RUNNING, PANEL_CLEAN_QUARANTINE, PANEL_CLEAN_TEMP_FILES,
    PANEL_COUNT_THREATS, PANEL_GET_HISTORY, PANEL_GET_STATUS, PANEL_GET_THREAT_DETAILS,
    PANEL_REMOVE_ALL_THREATS,
};

fn said(text: &str) -> Reply {
    Reply::Output(Ok(text.to_string()))
}

fn threat(id: u64, severity: &str) -> ThreatDetail {
    ThreatDetail {
        threat_id: id,
        threat_name: format!("Unknown Threat (ID: {})", id),
        severity: severity.to_string(),
        status: "Active".to_string(),
        category: "Active".to_string(),
        file_path: "C:\\x".to_string(),
        file_exists: false,
        detected_time: "01/02/2024 10:00:00".to_string(),
        action_taken: "Unknown".to_string(),
    }
}

#[test]
fn panel_arguments_hold_the_bare_command() {
    assert_eq!(
        panel::arguments("Update-MpSignature"),
        vec![
            "-NoProfile".to_string(),
            "-NonInteractive".to_string(),
            "-Command".to_string(),
            "Update-MpSignature".to_string(),
        ]
    );
}

#[test]
fn panel_run_gives_output_or_error_stream() {
    let ok = Launch::Exited { success: true, stdout: b"3\r\n".to_vec(), stderr: b"warn".to_vec() };
    assert_eq!(panel::run_powershell(&ok), Ok("3\r\n".to_string()));
    let failed =
        Launch::Exited {
            success: false,
            stdout: b"out".to_vec(),
            stderr: b"Acesso negado".to_vec(),
        };
    assert_eq!(panel::run_powershell(&failed), Err("Acesso negado".to_string()));
    let absent = Launch::NotStarted("No such file or directory (os error 2)".to_string());
    assert_eq!(
        panel::run_powershell(&absent),
        Err("Erro ao executar PowerShell: No such file or directory (os error 2)".to_string())
    );
    let broken = Launch::Exited { success: false, stdout: Vec::new(), stderr: vec![0xff] };
    assert_eq!(panel::run_powershell(&broken), Err("\u{fffd}".to_string()));
    assert_eq!(panel::read_exit(true, "o".to_string(), "e".to_string()), Ok("o".to_string()));
    assert_eq!(panel::read_exit(false, "o".to_string(), "e".to_string()), Err("e".to_string()));
}

#[test]
fn panel_status_is_decoded_and_handed_on() {
    assert_eq!(panel::get_defender_status(&vec![]), Step::Run(PANEL_GET_STATUS.to_string()));
    assert!(PANEL_GET_STATUS.contains("is_enabled = $status.AntivirusEnabled"));
    assert_eq!(
        panel::get_defender_status(&vec![said("{}")]),
        Step::Decode(Schema::Status, "{}".to_string())
    );
    let status = DefenderStatus { is_enabled: false, last_scan: None };
    assert_eq!(
        panel::get_defender_status(
            &vec![said("{}"), Reply::Decoded(Ok(Payload::Status(status.clone())))],
        ),
        Step::Done(Ok(status))
    );
    assert_eq!(
        panel::get_defender_status(&vec![said("{}"), Reply::Decoded(Err("EOF".to_string()))]),
        Step::Done(Err("Erro ao parsear JSON: EOF".to_string()))
    );
}

#[test]
fn panel_update_answers_with_fixed_words() {
    assert_eq!(panel::update_definitions(&vec![]), Step::Run("Update-MpSignature".to_string()));
    assert_eq!(
        panel::update_definitions(&vec![said("ERROR: whatever")]),
        Step::Done(Ok("Definições atualizadas com sucesso".to_string()))
    );
    assert_eq!(
        panel::update_definitions(&vec![Reply::Output(Err("0x80070005".to_string()))]),
        Step::Done(Err("0x80070005".to_string()))
    );
    assert_eq!(panel::update_definitions(&vec![Reply::ClockStarted]), Step::Rejected);
}

#[test]
fn panel_cancel_answers_with_fixed_words() {
    assert_eq!(panel::cancel_scan(&vec![]), Step::Run(PANEL_CANCEL_SCAN.to_string()));
    assert_eq!(
        panel::cancel_scan(&vec![said("Scan cancelado\r\n")]),
        Step::Done(Ok("Scan cancelado com sucesso".to_string()))
    );
}

#[test]
fn panel_quick_scan_goes_step_by_step() {
    let mut replies: Vec<Reply> = Vec::new();
    assert_eq!(panel::quick_scan(&replies), Step::Run(PANEL_CHECK_SCAN_RUNNING.to_string()));
    replies.push(said("IDLE\r\n"));
    assert_eq!(panel::quick_scan(&replies), Step::StartClock);
    replies.push(Reply::ClockStarted);
    assert_eq!(
        panel::quick_scan(&replies),
        Step::Run("Start-MpScan -ScanType QuickScan".to_string()),
    );
    replies.push(said("ERROR: is not looked at"));
    assert_eq!(panel::quick_scan(&replies), Step::ReadClock(ElapsedFormat::Seconds));
    replies.push(Reply::Elapsed("33.10s".to_string()));
    assert_eq!(panel::quick_scan(&replies), Step::Run(PANEL_COUNT_THREATS.to_string()));
    replies.push(said("2\r\n"));
    assert_eq!(
        panel::quick_scan(&replies),
        Step::Done(Ok(ScanResult {
            threats_found: 2,
            files_scanned: 50000,
            scan_time: "33.10s".to_string(),
        }))
    );
}

#[test]
fn panel_full_scan_tells_minutes() {
    let mut replies = vec![said("IDLE"), Reply::ClockStarted];
    assert_eq!(
        panel::full_scan(&replies),
        Step::Run("Start-MpScan -ScanType FullScan".to_string()),
    );
    replies.push(said(""));
    assert_eq!(panel::full_scan(&replies), Step::ReadClock(ElapsedFormat::Minutes));
    replies.push(Reply::Elapsed("61.5min".to_string()));
    replies.push(said(" 0\r\n"));
    assert_eq!(
        panel::full_scan(&replies),
        Step::Done(Ok(ScanResult {
            threats_found: 0,
            files_scanned: 500000,
            scan_time: "61.5min".to_string(),
        }))
    );
}

#[test]
fn panel_scan_does_not_start_while_another_runs() {
    let busy =
        "Já existe uma verificação em andamento. Aguarde ela terminar ou reinicie o Windows.";
    assert_eq!(panel::quick_scan(&vec![said(" RUNNING\r\n")]), Step::Done(Err(busy.to_string())));
    assert_eq!(panel::full_scan(&vec![said("RUNNING")]), Step::Done(Err(busy.to_string())));
    assert_eq!(panel::BUSY, busy);
}

#[test]
fn panel_scan_ends_where_a_script_fails() {
    assert_eq!(
        panel::quick_scan(&vec![Reply::Output(Err("a".to_string()))]),
        Step::Done(Err("a".to_string()))
    );
    assert_eq!(
        panel::quick_scan(
            &vec![said("IDLE"), Reply::ClockStarted, Reply::Output(Err("b".to_string()))],
        ),
        Step::Done(Err("b".to_string()))
    );
    assert_eq!(
        panel::quick_scan(&vec![
            said("IDLE"),
            Reply::ClockStarted,
            said(""),
            Reply::Elapsed("1.00s".to_string()),
            Reply::Output(Err("c".to_string()))
        ]),
        Step::Done(Err("c".to_string()))
    );
    assert_eq!(panel::quick_scan(&vec![said("IDLE"), said("")]), Step::Rejected);
}

#[test]
fn panel_clean_temp_files_counts_files_only() {
    assert_eq!(panel::clean_temp_files(&vec![]), Step::Run(PANEL_CLEAN_TEMP_FILES.to_string()));
    assert_eq!(
        panel::clean_temp_files(&vec![said("421\r\n")]),
        Step::Done(Ok(CleanResult { files_deleted: 421, size_freed_bytes: 0, errors: None }))
    );
    assert_eq!(
        panel::clean_temp_files(&vec![said("0")]),
        Step::Done(Ok(CleanResult { files_deleted: 0, size_freed_bytes: 0, errors: None }))
    );
    assert_eq!(
        panel::clean_temp_files(&vec![Reply::Output(Err("x".to_string()))]),
        Step::Done(Err("x".to_string()))
    );
}

#[test]
fn panel_clean_temp_files_fails_on_what_is_no_number() {
    assert_eq!(
        panel::clean_temp_files(&vec![said("muitos\r\n")]),
        Step::Done(Err("Contagem não reconhecida: muitos".to_string()))
    );
    assert_eq!(
        panel::clean_temp_files(&vec![said("")]),
        Step::Done(Err("Contagem não reconhecida: ".to_string()))
    );
    assert_eq!(
        panel::clean_temp_files(&vec![said("4294967296")]),
        Step::Done(Err("Contagem não reconhecida: 4294967296".to_string()))
    );
}

#[test]
fn panel_scan_fails_on_a_count_that_is_no_number() {
    let replies = vec![
        said("IDLE"),
        Reply::ClockStarted,
        said(""),
        Reply::Elapsed("1.00s".to_string()),
        said("nothing\r\n"),
    ];
    let expected = "Contagem não reconhecida: nothing".to_string();
    assert_eq!(panel::quick_scan(&replies), Step::Done(Err(expected.clone())));
    assert_eq!(panel::full_scan(&replies), Step::Done(Err(expected)));
}

#[test]
fn panel_scan_fails_on_a_state_it_cannot_read() {
    for state in vec!["", "Access denied", "running"] {
        let expected = format!("Estado de verificação não reconhecido: {}", state);
        assert_eq!(panel::quick_scan(&vec![said(state)]), Step::Done(Err(expected.clone())));
        assert_eq!(panel::full_scan(&vec![said(state)]), Step::Done(Err(expected)));
    }
}

#[test]
fn panel_run_tells_of_a_script_that_was_given_up() {
    assert_eq!(
        panel::run_powershell(&Launch::TimedOut { seconds: 21600 }),
        Err("Tempo limite de 21600 segundos excedido ao executar PowerShell".to_string())
    );
}

#[test]
fn panel_counts_threats_by_severity() {
    let threats = vec![
        threat(1, "High"),
        threat(2, "Low"),
        threat(3, "High"),
        threat(4, "Medium"),
        threat(5, "Severe"),
        threat(6, "high"),
        threat(7, "High"),
    ];
    assert_eq!(panel::count_by_severity(&threats, "High"), 3);
    assert_eq!(panel::count_by_severity(&threats, "Medium"), 1);
    assert_eq!(panel::count_by_severity(&threats, "Low"), 1);
    assert_eq!(panel::count_by_severity(&threats, "Severe"), 1);
    assert_eq!(panel::count_by_severity(&threats, ""), 0);
    assert_eq!(panel::count_by_severity(&vec![], "High"), 0);
    assert_eq!(
        panel::summarize(threats.clone()),
        ThreatSummary {
            total_threats: 7,
            high_severity: 3,
            medium_severity: 1,
            low_severity: 1,
            threats,
        }
    );
}

#[test]
fn panel_threat_details_are_empty_where_the_script_says_so() {
    assert_eq!(panel::get_threat_details(&vec![]), Step::Run(PANEL_GET_THREAT_DETAILS.to_string()));
    let empty = ThreatSummary {
        total_threats: 0,
        high_severity: 0,
        medium_severity: 0,
        low_severity: 0,
        threats: vec![],
    };
    for text in vec!["", "\r\n", "null", " null "] {
        assert!(panel::is_no_threats(text));
        assert_eq!(panel::get_threat_details(&vec![said(text)]), Step::Done(Ok(empty.clone())));
    }
    assert!(!panel::is_no_threats("[]"));
    assert_eq!(
        panel::get_threat_details(&vec![said("[]")]),
        Step::Decode(Schema::Detections, "[]".to_string())
    );
}

#[test]
fn panel_threat_details_are_decoded_and_summed_up() {
    let threats = vec![threat(1, "Low"), threat(2, "Medium"), threat(3, "Medium")];
    let replies = vec![said("[...]"), Reply::Decoded(Ok(Payload::Detections(threats.clone())))];
    assert_eq!(
        panel::get_threat_details(&replies),
        Step::Done(Ok(ThreatSummary {
            total_threats: 3,
            high_severity: 0,
            medium_severity: 2,
            low_severity: 1,
            threats,
        }))
    );
    let replies = vec![said("{...}"), Reply::Decoded(Err("invalid type: map".to_string()))];
    assert_eq!(
        panel::get_threat_details(&replies),
        Step::Done(Err("Erro ao parsear ameaças: invalid type: map".to_string()))
    );
    let summary = ThreatSummary {
        total_threats: 0,
        high_severity: 0,
        medium_severity: 0,
        low_severity: 0,
        threats: vec![],
    };
    let replies = vec![said("{...}"), Reply::Decoded(Ok(Payload::Threats(summary)))];
    assert_eq!(panel::get_threat_details(&replies), Step::Rejected);
}

#[test]
fn panel_answers_with_what_the_script_printed() {
    assert_eq!(panel::clean_quarantine(&vec![]), Step::Run(PANEL_CLEAN_QUARANTINE.to_string()));
    assert_eq!(
        panel::clean_quarantine(&vec![said("Removidas: 3 | Restantes: 0\r\n")]),
        Step::Done(Ok("Removidas: 3 | Restantes: 0".to_string()))
    );
    assert_eq!(panel::remove_all_threats(&vec![]), Step::Run(PANEL_REMOVE_ALL_THREATS.to_string()));
    assert_eq!(
        panel::remove_all_threats(&vec![said("ERROR: is an answer like any other\n")]),
        Step::Done(Ok("ERROR: is an answer like any other".to_string()))
    );
    assert_eq!(
        panel::quarantine_threat(5, &vec![said("Ameaça não encontrada\r\n")]),
        Step::Done(Ok("Ameaça não encontrada".to_string()))
    );
    assert_eq!(
        panel::remove_specific_threat(5, &vec![said("Ameaça removida\r\n")]),
        Step::Done(Ok("Ameaça removida".to_string()))
    );
    assert_eq!(
        panel::restore_threat(5, &vec![Reply::Output(Err("no such cmdlet".to_string()))]),
        Step::Done(Err("no such cmdlet".to_string()))
    );
    assert_eq!(
        panel::allow_threat(5, "C:\\x", &vec![said(" ok ")]),
        Step::Done(Ok("ok".to_string()))
    );
    assert_eq!(panel::allow_threat(5, "C:\\x", &vec![Reply::ClockStarted]), Step::Rejected);
}

#[test]
fn panel_history_quotes_an_output_that_is_no_history() {
    assert_eq!(panel::get_scan_history(&vec![]), Step::Run(PANEL_GET_HISTORY.to_string()));
    for text in vec!["", "null\n", " [] "] {
        assert!(panel::is_no_history(text));
        assert_eq!(panel::get_scan_history(&vec![said(text)]), Step::Done(Ok(vec![])));
    }
    let replies = vec![said("[oops"), Reply::Decoded(Err("EOF while parsing".to_string()))];
    assert_eq!(
        panel::get_scan_history(&replies),
        Step::Done(Err("Erro ao parsear histórico: EOF while parsing - Output: [oops".to_string()))
    );
    let item = ScanHistoryItem {
        scan_type: "Quick Scan".to_string(),
        start_time: "01/02/2024 10:00:00".to_string(),
        end_time: "Em andamento".to_string(),
        threats_found: 0,
        files_scanned: 50000,
    };
    let replies = vec![said("[{}]"), Reply::Decoded(Ok(Payload::History(vec![item.clone()])))];
    assert_eq!(panel::get_scan_history(&replies), Step::Done(Ok(vec![item])));
}
