//! The record of a scan in progress, threat by threat.

use vstd::prelude::*;

verus! {

/// What kind of threat a finding is.
#[derive(Debug, Clone, Copy, PartialEq, Eq)]
pub enum ThreatType {
    Malware,
    PUA,
    Unwanted,
    Suspicious,
    Unknown,
}

/// One finding of a scan.
#[derive(Debug, Clone, PartialEq, Eq)]
pub struct Threat {
    pub name: String,
    pub threat_type: ThreatType,
    pub file_path: String,
    /// From 1, the mildest, to 5.
    pub severity: u8,
}

/// What a [`Threat`] holds, with each text as its characters.
pub struct ThreatView {
    pub name: Seq<char>,
    pub threat_type: ThreatType,
    pub file_path: Seq<char>,
    pub severity: u8,
}

impl DeepView for Threat {
    type V = ThreatView;

    open spec fn deep_view(&self) -> ThreatView {
        ThreatView {
            name: self.name.deep_view(),
            threat_type: self.threat_type,
            file_path: self.file_path.deep_view(),
            severity: self.severity,
        }
    }
}

/// How far a scan has come and what it has found.
#[derive(Debug, Clone, PartialEq, Eq)]
pub struct ScanResult {
    pub total_files: u32,
    pub total_folders: u32,
    pub issues: u32,
    pub threats: Vec<Threat>,
    pub current_file: String,
    pub files_scanned: u32,
    pub progress_percent: u8,
    pub scan_duration_ms: u64,
}

/// What a [`ScanResult`] holds, with each text as its characters.
pub struct ScanResultView {
    pub total_files: u32,
    pub total_folders: u32,
    pub issues: u32,
    pub threats: Seq<ThreatView>,
    pub current_file: Seq<char>,
    pub files_scanned: u32,
    pub progress_percent: u8,
    pub scan_duration_ms: u64,
}

impl DeepView for ScanResult {
    type V = ScanResultView;

    open spec fn deep_view(&self) -> ScanResultView {
        ScanResultView {
            total_files: self.total_files,
            total_folders: self.total_folders,
            issues: self.issues,
            threats: self.threats.deep_view(),
            current_file: self.current_file.deep_view(),
            files_scanned: self.files_scanned,
            progress_percent: self.progress_percent,
            scan_duration_ms: self.scan_duration_ms,
        }
    }
}

} // verus!
