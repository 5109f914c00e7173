//! What holds of every input, tried on some.

use defender_panel::exchange::{Payload, Reply, Step};
use defender_panel::infra::PowerShellExecutor;
use defender_panel::models::{DefenderStatus, ThreatDetail};
use defender_panel::panel;
use defender_panel::report::{read_count, read_report, report_on};
use defender_panel::services::cleanup_service::{RawAnalysis, RawCategory};
use defender_panel::services::{
    CleanupService, DefenderStatusService, ScanService, ThreatManagementService,
};
use defender_panel::text::{
    char_is_whitespace, decimal_text, includes, read_unsigned, replaced, trimmed,
};

fn texts_to_try() -> Vec<&'static str> {
    vec![
        "",
        "   ",
        "a",
        "  a  b \t\r\n",
        "\u{a0}SUCCESS: ok\u{2003}",
        "ERROR: ERROR: x",
        "12|34",
        "\n\u{3000}\u{85}",
        "ação 🗑️",
    ]
}

fn replies_to_try() -> Vec<Reply> {
    vec![
        Reply::Output(Ok("IDLE\r\n".to_string())),
        Reply::Output(Ok("RUNNING\r\n".to_string())),
        Reply::Output(Ok("SUCCESS: feito\r\n".to_string())),
        Reply::Output(Ok("ERROR: falhou\r\n".to_string())),
        Reply::Output(Ok("3|300\r\n".to_string())),
        Reply::Output(Ok("7".to_string())),
        Reply::Output(Ok("[]".to_string())),
        Reply::Output(Ok("{}".to_string())),
        Reply::Output(Err("STDERR: x | STDOUT: ".to_string())),
        Reply::Decoded(Ok(Payload::Status(DefenderStatus { is_enabled: true, last_scan: None }))),
        Reply::Decoded(Ok(Payload::History(vec![]))),
        Reply::Decoded(Ok(Payload::Detections(vec![]))),
        Reply::Decoded(Err("EOF while parsing".to_string())),
        Reply::ClockStarted,
        Reply::Elapsed("1.50s".to_string()),
    ]
}

/// Every list of up to `length` of the replies to try, by number.
fn lists_of_replies(length: usize) -> Vec<Vec<usize>> {
    let kinds = replies_to_try().len();
    let mut lists: Vec<Vec<usize>> = vec![vec![]];
    let mut last: Vec<Vec<usize>> = vec![vec![]];
    for _ in 0..length {
        let mut next = Vec::new();
        for list in &last {
            for kind in 0..kinds {
                let mut longer = list.clone();
                longer.push(kind);
                next.push(longer);
            }
        }
        lists.extend(next.iter().cloned());
        last = next;
    }
    lists
}

fn replies_of(numbers: &[usize]) -> Vec<Reply> {
    numbers
        .iter()
        .map(|n| replies_to_try().swap_remove(*n))
        .collect()
}

fn is_settled<T>(step: &Step<T>) -> bool {
    matches!(step, Step::Done(_) | Step::Rejected)
}

/// Holds `operation` to its end: once it is done or has rejected, more
/// replies change nothing.
fn keeps_its_end<T: PartialEq + std::fmt::Debug>(operation: impl Fn(&Vec<Reply>) -> Step<T>) {
    for numbers in lists_of_replies(2) {
        let replies = replies_of(&numbers);
        let step = operation(&replies);
        if is_settled(&step) {
            for more in lists_of_replies(1) {
                let mut longer = replies_of(&numbers);
                longer.extend(replies_of(&more));
                assert_eq!(operation(&longer), step, "{:?} then {:?}", numbers, more);
            }
        }
    }
}

fn detection(severity: &str) -> ThreatDetail {
    ThreatDetail {
        threat_id: 1,
        threat_name: "x".to_string(),
        severity: severity.to_string(),
        status: "Active".to_string(),
        category: "Active".to_string(),
        file_path: "C:\\x".to_string(),
        file_exists: false,
        detected_time: "01/02/2024 10:00:00".to_string(),
        action_taken: "Unknown".to_string(),
    }
}

#[test]
fn trimming_twice_is_trimming_once() {
    for s in texts_to_try() {
        assert_eq!(trimmed(trimmed(s)), trimmed(s));
    }
}

#[test]
fn a_trimmed_text_is_bare_and_part_of_the_text() {
    for s in texts_to_try() {
        let t = trimmed(s);
        assert!(s.contains(t));
        if let Some(first) = t.chars().next() {
            assert!(!char_is_whitespace(first));
            assert!(!char_is_whitespace(t.chars().last().unwrap()));
        }
    }
}

#[test]
fn what_is_written_in_base_ten_is_read_back() {
    let mut n: u64 = 1;
    for _ in 0..64 {
        for m in [n - 1, n, n + 1] {
            assert_eq!(read_unsigned(&decimal_text(m), u64::MAX), Some(m));
            assert_eq!(read_unsigned(&decimal_text(m), m), Some(m));
            assert!(decimal_text(m).chars().all(|c| c.is_ascii_digit()));
        }
        n = n.wrapping_mul(2);
    }
}

#[test]
fn replacing_what_does_not_occur_changes_nothing() {
    for s in texts_to_try() {
        for from in vec!["zz", "ERROR:x", "|9", "->"] {
            assert!(!includes(s, from));
            assert_eq!(replaced(s, from, "anything"), s);
        }
    }
}

#[test]
fn operations_of_one_script_keep_their_end() {
    keeps_its_end(|r| report_on("S".to_string(), r));
    keeps_its_end(PowerShellExecutor::check_scan_running);
    keeps_its_end(DefenderStatusService::update_definitions);
    keeps_its_end(ThreatManagementService::clean_threat_history);
    keeps_its_end(|r| ThreatManagementService::quarantine_threat(5, r));
    keeps_its_end(panel::update_definitions);
    keeps_its_end(panel::clean_quarantine);
    keeps_its_end(panel::clean_temp_files);
}

#[test]
fn operations_that_decode_keep_their_end() {
    keeps_its_end(DefenderStatusService::get_status);
    keeps_its_end(ScanService::get_history);
    keeps_its_end(|r| ScanService::get_last_scan_summary("quick", r));
    keeps_its_end(ThreatManagementService::get_threat_details);
    keeps_its_end(panel::get_defender_status);
    keeps_its_end(panel::get_threat_details);
    keeps_its_end(panel::get_scan_history);
    keeps_its_end(|r| {
        assert!(CleanupService::analysis_within_limits(r));
        CleanupService::analyze(r)
    });
}

#[test]
fn scans_keep_their_end() {
    keeps_its_end(ScanService::quick_scan);
    keeps_its_end(ScanService::full_scan);
    keeps_its_end(ScanService::start_quick_scan);
    keeps_its_end(|r| ScanService::custom_scan("C:\\x", r));
    keeps_its_end(panel::quick_scan);
    keeps_its_end(panel::full_scan);
}

#[test]
fn a_scan_that_has_ended_keeps_its_result() {
    let mut replies = vec![
        Reply::Output(Ok("IDLE".to_string())),
        Reply::ClockStarted,
        Reply::Output(Ok("9".to_string())),
        Reply::Output(Ok("SUCCESS".to_string())),
        Reply::Elapsed("2.00s".to_string()),
        Reply::Output(Ok("1".to_string())),
    ];
    let done = ScanService::custom_scan("C:\\x", &replies);
    assert!(matches!(done, Step::Done(Ok(_))));
    for more in replies_to_try() {
        replies.push(more);
        assert_eq!(ScanService::custom_scan("C:\\x", &replies), done);
    }
}

#[test]
fn cleanups_keep_their_end() {
    for categories in vec![
        vec![],
        vec!["temp_files".to_string()],
        vec!["unknown".to_string(), "prefetch".to_string()],
        vec!["prefetch".to_string(), "thumbnails".to_string()],
    ] {
        keeps_its_end(|r| {
            assert!(CleanupService::clean_within_limits(&categories, r));
            CleanupService::clean(&categories, r)
        });
    }
}

#[test]
fn a_cleanup_never_fails_as_a_whole() {
    let categories = vec!["temp_files".to_string(), "cookies".to_string(), "prefetch".to_string()];
    for numbers in lists_of_replies(2) {
        let replies = replies_of(&numbers);
        match CleanupService::clean(&categories, &replies) {
            Step::Done(Err(e)) => panic!("failed with {:?} on {:?}", e, numbers),
            Step::Done(Ok(result)) => {
                if let Some(errors) = result.errors {
                    assert!(!errors.is_empty());
                }
            }
            _ => {}
        }
    }
}

#[test]
fn a_cleanup_passes_over_a_category_it_does_not_know() {
    let known = vec!["temp_files".to_string(), "prefetch".to_string()];
    for unknown in vec!["", "cookies", "temp_files ", "Prefetch"] {
        let mut longer = vec![unknown.to_string()];
        longer.extend(known.iter().cloned());
        for numbers in lists_of_replies(2) {
            let replies = replies_of(&numbers);
            assert_eq!(
                CleanupService::clean(&longer, &replies),
                CleanupService::clean(&known, &replies)
            );
        }
    }
}

#[test]
fn no_scan_starts_while_one_runs() {
    let running = vec![Reply::Output(Ok(" RUNNING \r\n".to_string()))];
    assert_eq!(PowerShellExecutor::check_scan_running(&running), Step::Done(Ok(true)));
    for more in lists_of_replies(1) {
        let mut replies = vec![Reply::Output(Ok(" RUNNING \r\n".to_string()))];
        replies.extend(replies_of(&more));
        assert!(matches!(ScanService::quick_scan(&replies), Step::Done(Err(_))));
        assert!(matches!(ScanService::full_scan(&replies), Step::Done(Err(_))));
        assert!(matches!(ScanService::custom_scan("C:\\", &replies), Step::Done(Err(_))));
        assert!(matches!(ScanService::start_quick_scan(&replies), Step::Done(Err(_))));
        assert!(matches!(ScanService::start_full_scan(&replies), Step::Done(Err(_))));
        assert!(matches!(panel::quick_scan(&replies), Step::Done(Err(_))));
        assert!(matches!(panel::full_scan(&replies), Step::Done(Err(_))));
    }
}

#[test]
fn a_scan_runs_nothing_but_the_check_before_the_check_said_idle() {
    for numbers in lists_of_replies(2) {
        let replies = replies_of(&numbers);
        if let Step::Run(_) = ScanService::quick_scan(&replies) {
            assert!(
                replies.is_empty()
                    || PowerShellExecutor::check_scan_running(&replies) == Step::Done(Ok(false)),
                "{:?}",
                numbers
            );
        }
    }
}

#[test]
fn severities_are_counted_apart() {
    let threats: Vec<ThreatDetail> =
        vec!["High", "Low", "Low", "Medium", "Other", "High", "high", ""]
            .into_iter()
            .map(detection)
            .collect();
    let high = panel::count_by_severity(&threats, "High");
    let medium = panel::count_by_severity(&threats, "Medium");
    let low = panel::count_by_severity(&threats, "Low");
    assert_eq!((high, medium, low), (2, 1, 2));
    assert!(high + medium + low <= threats.len());
    let summary = panel::summarize(threats);
    assert!(summary.high_severity + summary.medium_severity + summary.low_severity
        <= summary.total_threats);
}

#[test]
fn analysis_totals_are_sums_over_the_listing() {
    let one = RawCategory { size: Some(5), count: Some(1) };
    let raw = RawAnalysis {
        temp_files: one,
        windows_temp: one,
        recycle_bin: one,
        chrome_cache: one,
        brave_cache: one,
        edge_cache: one,
        firefox_cache: one,
        windows_logs: one,
        prefetch: one,
        thumbnails: one,
    };
    let analysis = CleanupService::summarize(&raw);
    assert_eq!(analysis.categories.len(), 10);
    assert_eq!(analysis.total_size_bytes, 50);
    assert_eq!(analysis.total_file_count, 10);
}

#[test]
fn padding_is_trimmed_away() {
    for padding in vec!["", " ", "\r\n", "\t \u{a0}\u{3000}\n"] {
        for bare in vec!["a", "12|34", "a  b", "ação"] {
            assert_eq!(trimmed(&format!("{}{}{}", padding, bare, padding)), bare);
        }
    }
}

#[test]
fn what_a_script_prints_of_its_removal_is_read_back() {
    let counts: Vec<u32> = vec![0, 1, 10, 4294967295];
    let sizes: Vec<u64> = vec![0, 9, 1048576, 18446744073709551615];
    for count in &counts {
        for size in &sizes {
            for padding in vec!["", "\r\n", "  "] {
                let printed = format!("{}{}|{}{}", padding, count, size, padding);
                assert_eq!(CleanupService::parse_clean_result(&printed), Ok((*count, *size)));
            }
        }
    }
}

#[test]
fn a_marked_report_is_read_as_what_follows_the_mark() {
    for told in vec!["feito", " 3 ameaça(s) removida(s)\r\n", "", "SUCCESS:x"] {
        assert_eq!(read_report(&format!("SUCCESS: {}", told)), Ok(told.trim().to_string()));
        assert_eq!(read_report(&format!("ERROR: {}", told)), Err(told.trim().to_string()));
    }
}

#[test]
fn an_unmarked_report_is_a_success_as_it_stands() {
    for text in vec![
        "",
        " IDLE\r\n",
        "SUCCESS:",
        "ERROR",
        "error: x",
        "Removidas: 3 | Restantes: 0",
    ] {
        assert_eq!(read_report(text), Ok(text.trim().to_string()));
    }
}

#[test]
fn a_cleanup_of_known_categories_adds_up() {
    let categories = vec![
        "chrome_cache".to_string(),
        "edge_cache".to_string(),
        "prefetch".to_string(),
    ];
    let outputs = vec![("4|400", 4u32, 400u64), ("x|", 0, 0), ("1|", 1, 0), ("|7", 0, 7)];
    for a in &outputs {
        for b in &outputs {
            let replies = vec![
                Reply::Output(Ok(a.0.to_string())),
                Reply::Output(Err("falhou".to_string())),
                Reply::Output(Ok(b.0.to_string())),
            ];
            match CleanupService::clean(&categories, &replies) {
                Step::Done(Ok(result)) => {
                    assert_eq!(result.files_deleted, a.1 + b.1);
                    assert_eq!(result.size_freed_bytes, a.2 + b.2);
                    assert_eq!(result.errors, Some(vec!["edge_cache: falhou".to_string()]));
                }
                other => panic!("{:?}", other),
            }
        }
    }
}

#[test]
fn a_cleanup_names_every_category_of_which_nothing_is_known() {
    let categories = vec![
        "chrome_cache".to_string(),
        "edge_cache".to_string(),
        "prefetch".to_string(),
    ];
    let unreadable = vec!["", "Access denied", "1|2|3", "12"];
    for output in unreadable {
        for place in 0..3 {
            let mut replies = vec![
                Reply::Output(Ok("1|1".to_string())),
                Reply::Output(Ok("1|1".to_string())),
                Reply::Output(Ok("1|1".to_string())),
            ];
            replies[place] = Reply::Output(Ok(output.to_string()));
            match CleanupService::clean(&categories, &replies) {
                Step::Done(Ok(result)) => {
                    assert_eq!(result.files_deleted, 2);
                    let errors = result.errors.expect("an unreadable output is told");
                    assert_eq!(errors.len(), 1);
                    assert!(errors[0].starts_with(&format!("{}: ", categories[place])));
                    assert!(errors[0].ends_with(output));
                }
                other => panic!("{:?}", other),
            }
        }
    }
}

#[test]
fn a_count_that_a_script_prints_is_read_back() {
    for n in vec![0u32, 1, 10, 4294967295] {
        for padding in vec!["", "\r\n", " \t"] {
            assert_eq!(read_count(&format!("{}{}{}", padding, n, padding)), Ok(n));
        }
    }
}

#[test]
fn the_check_answers_only_on_its_two_words() {
    for text in vec!["RUNNING", "IDLE", " IDLE ", "", "idle", "RUNNINGIDLE", "0", "true"] {
        let step = PowerShellExecutor::check_scan_running(&vec![Reply::Output(Ok(
            text.to_string(),
        ))]);
        match step {
            Step::Done(Ok(running)) => {
                assert_eq!(running, text.trim() == "RUNNING");
                assert_eq!(!running, text.trim() == "IDLE");
            }
            Step::Done(Err(error)) => {
                assert!(text.trim() != "RUNNING" && text.trim() != "IDLE");
                assert!(error.ends_with(text.trim()));
            }
            other => panic!("{:?}", other),
        }
    }
}

#[test]
fn a_cleanup_asks_for_the_first_category_without_an_answer() {
    let categories = vec![
        "chrome_cache".to_string(),
        "edge_cache".to_string(),
        "prefetch".to_string(),
    ];
    let scripts = vec![
        CleanupService::clean_chrome_cache(&vec![], 0),
        CleanupService::clean_edge_cache(&vec![], 0),
        CleanupService::clean_prefetch(&vec![], 0),
    ];
    let mut replies: Vec<Reply> = Vec::new();
    for script in scripts {
        assert_eq!(CleanupService::clean(&categories, &replies), script.carry());
        replies.push(Reply::Output(Ok("1|1".to_string())));
    }
}

#[test]
fn a_quoted_path_is_read_back() {
    for path in vec!["", "C:\\x", "it's", "''", "a'b''c'''", "'", "ação'"] {
        let steps = ScanService::custom_scan(
            path,
            &vec![Reply::Output(Ok("IDLE".to_string())), Reply::ClockStarted],
        );
        let quoted = replaced(path, "'", "''");
        match steps {
            Step::Run(script) => assert!(script.contains(&format!("-LiteralPath '{}'", quoted))),
            other => panic!("{:?}", other),
        }
        assert_eq!(replaced(&quoted, "''", "'"), path);
    }
}

#[test]
fn a_cleaned_path_holds_no_slash() {
    for path in vec!["C:/a/b", "file:_C:/x->y/z", "//", " / ", "->/->", "a\\b/c"] {
        assert!(!ThreatManagementService::clean_path(path).contains('/'));
    }
}

#[test]
fn numbers_written_alike_are_the_same() {
    let numbers: Vec<u64> = vec![0, 1, 10, 100, 101, 110, 18446744073709551615];
    for a in &numbers {
        for b in &numbers {
            assert_eq!(decimal_text(*a) == decimal_text(*b), a == b);
        }
    }
}
