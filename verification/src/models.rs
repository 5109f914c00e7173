//! The records that the panel hands to its caller.
//!
//! Each record is flat: it mirrors what the antivirus service reported at the
//! moment of the request. Each has a view, in which every text is the sequence
//! of its characters; the contracts of the services speak of these views.

use vstd::prelude::*;

pub mod scan_result;

verus! {

/// A copy of a text that may be absent.
pub fn duplicate_optional_text(text: &Option<String>) -> (r: Option<String>)
    ensures
        r.deep_view() == text.deep_view(),
{
    match text {
        Some(t) => Some(t.clone()),
        None => None,
    }
}

/// Whether real-time protection is on, and when the last scan ended.
#[derive(Debug, Clone, PartialEq, Eq)]
pub struct DefenderStatus {
    pub is_enabled: bool,
    /// `dd/MM/yyyy HH:mm`, absent where no scan has ended yet.
    pub last_scan: Option<String>,
}

/// What a [`DefenderStatus`] holds, with each text as its characters.
pub struct DefenderStatusView {
    pub is_enabled: bool,
    pub last_scan: Option<Seq<char>>,
}

impl DeepView for DefenderStatus {
    type V = DefenderStatusView;

    open spec fn deep_view(&self) -> DefenderStatusView {
        DefenderStatusView {
            is_enabled: self.is_enabled,
            last_scan: self.last_scan.deep_view(),
        }
    }
}

impl DefenderStatus {
    /// A copy that holds the same values.
    pub fn duplicate(&self) -> (r: Self)
        ensures
            r.deep_view() == self.deep_view(),
    {
        DefenderStatus {
            is_enabled: self.is_enabled,
            last_scan: duplicate_optional_text(&self.last_scan),
        }
    }
}

/// The outcome of one scan that ran to its end.
#[derive(Debug, Clone, PartialEq, Eq)]
pub struct ScanResult {
    pub threats_found: u32,
    pub files_scanned: u32,
    /// The elapsed time with its unit, as shown to the user.
    pub scan_time: String,
}

/// What a [`ScanResult`] holds, with each text as its characters.
pub struct ScanResultView {
    pub threats_found: u32,
    pub files_scanned: u32,
    pub scan_time: Seq<char>,
}

impl DeepView for ScanResult {
    type V = ScanResultView;

    open spec fn deep_view(&self) -> ScanResultView {
        ScanResultView {
            threats_found: self.threats_found,
            files_scanned: self.files_scanned,
            scan_time: self.scan_time.deep_view(),
        }
    }
}

/// The last scan of one kind, as the event log tells it.
#[derive(Debug, Clone, PartialEq, Eq)]
pub struct ScanSummary {
    pub scan_type: String,
    pub last_scan: Option<String>,
    pub threats_found: u32,
    pub duration: String,
    pub files_scanned: u64,
}

/// What a [`ScanSummary`] holds, with each text as its characters.
pub struct ScanSummaryView {
    pub scan_type: Seq<char>,
    pub last_scan: Option<Seq<char>>,
    pub threats_found: u32,
    pub duration: Seq<char>,
    pub files_scanned: u64,
}

impl DeepView for ScanSummary {
    type V = ScanSummaryView;

    open spec fn deep_view(&self) -> ScanSummaryView {
        ScanSummaryView {
            scan_type: self.scan_type.deep_view(),
            last_scan: self.last_scan.deep_view(),
            threats_found: self.threats_found,
            duration: self.duration.deep_view(),
            files_scanned: self.files_scanned,
        }
    }
}

impl ScanSummary {
    /// A copy that holds the same values.
    pub fn duplicate(&self) -> (r: Self)
        ensures
            r.deep_view() == self.deep_view(),
    {
        ScanSummary {
            scan_type: self.scan_type.clone(),
            last_scan: duplicate_optional_text(&self.last_scan),
            threats_found: self.threats_found,
            duration: self.duration.clone(),
            files_scanned: self.files_scanned,
        }
    }
}

/// What one cleanup removed, and what went wrong on the way.
#[derive(Debug, Clone, PartialEq, Eq)]
pub struct CleanResult {
    pub files_deleted: u32,
    pub size_freed_bytes: u64,
    /// One line per category whose script failed; absent where none did.
    pub errors: Option<Vec<String>>,
}

/// What a [`CleanResult`] holds, with each text as its characters.
pub struct CleanResultView {
    pub files_deleted: u32,
    pub size_freed_bytes: u64,
    pub errors: Option<Seq<Seq<char>>>,
}

impl DeepView for CleanResult {
    type V = CleanResultView;

    open spec fn deep_view(&self) -> CleanResultView {
        CleanResultView {
            files_deleted: self.files_deleted,
            size_freed_bytes: self.size_freed_bytes,
            errors: self.errors.deep_view(),
        }
    }
}

/// One detected threat.
#[derive(Debug, Clone, PartialEq, Eq)]
pub struct ThreatDetail {
    pub threat_id: u64,
    pub threat_name: String,
    pub severity: String,
    pub status: String,
    pub category: String,
    pub file_path: String,
    pub file_exists: bool,
    pub detected_time: String,
    pub action_taken: String,
}

/// What a [`ThreatDetail`] holds, with each text as its characters.
pub struct ThreatDetailView {
    pub threat_id: u64,
    pub threat_name: Seq<char>,
    pub severity: Seq<char>,
    pub status: Seq<char>,
    pub category: Seq<char>,
    pub file_path: Seq<char>,
    pub file_exists: bool,
    pub detected_time: Seq<char>,
    pub action_taken: Seq<char>,
}

impl DeepView for ThreatDetail {
    type V = ThreatDetailView;

    open spec fn deep_view(&self) -> ThreatDetailView {
        ThreatDetailView {
            threat_id: self.threat_id,
            threat_name: self.threat_name.deep_view(),
            severity: self.severity.deep_view(),
            status: self.status.deep_view(),
            category: self.category.deep_view(),
            file_path: self.file_path.deep_view(),
            file_exists: self.file_exists,
            detected_time: self.detected_time.deep_view(),
            action_taken: self.action_taken.deep_view(),
        }
    }
}

impl ThreatDetail {
    /// A copy that holds the same values.
    pub fn duplicate(&self) -> (r: Self)
        ensures
            r.deep_view() == self.deep_view(),
    {
        ThreatDetail {
            threat_id: self.threat_id,
            threat_name: self.threat_name.clone(),
            severity: self.severity.clone(),
            status: self.status.clone(),
            category: self.category.clone(),
            file_path: self.file_path.clone(),
            file_exists: self.file_exists,
            detected_time: self.detected_time.clone(),
            action_taken: self.action_taken.clone(),
        }
    }

    /// A copy of a list, item by item.
    pub fn duplicate_all(items: &Vec<ThreatDetail>) -> (r: Vec<ThreatDetail>)
        ensures
            r.deep_view() == items.deep_view(),
    {
        let mut r: Vec<ThreatDetail> = Vec::new();
        let mut i: usize = 0;
        while i < items.len()
            invariant
                i <= items.len(),
                r.len() == i,
                forall|k: int| 0 <= k < i ==> r[k].deep_view() == items[k].deep_view(),
            decreases items.len() - i,
        {
            r.push(items[i].duplicate());
            i += 1;
        }
        r
    }
}

/// All detected threats, counted by severity.
#[derive(Debug, Clone, PartialEq, Eq)]
pub struct ThreatSummary {
    pub total_threats: u32,
    pub high_severity: u32,
    pub medium_severity: u32,
    pub low_severity: u32,
    pub threats: Vec<ThreatDetail>,
}

/// What a [`ThreatSummary`] holds, with each text as its characters.
pub struct ThreatSummaryView {
    pub total_threats: u32,
    pub high_severity: u32,
    pub medium_severity: u32,
    pub low_severity: u32,
    pub threats: Seq<ThreatDetailView>,
}

impl DeepView for ThreatSummary {
    type V = ThreatSummaryView;

    open spec fn deep_view(&self) -> ThreatSummaryView {
        ThreatSummaryView {
            total_threats: self.total_threats,
            high_severity: self.high_severity,
            medium_severity: self.medium_severity,
            low_severity: self.low_severity,
            threats: self.threats.deep_view(),
        }
    }
}

impl ThreatSummary {
    /// A copy that holds the same values.
    pub fn duplicate(&self) -> (r: Self)
        ensures
            r.deep_view() == self.deep_view(),
    {
        ThreatSummary {
            total_threats: self.total_threats,
            high_severity: self.high_severity,
            medium_severity: self.medium_severity,
            low_severity: self.low_severity,
            threats: ThreatDetail::duplicate_all(&self.threats),
        }
    }
}

/// One entry of the scan history.
#[derive(Debug, Clone, PartialEq, Eq)]
pub struct ScanHistoryItem {
    pub scan_type: String,
    pub start_time: String,
    pub end_time: String,
    pub threats_found: u32,
    pub files_scanned: u32,
}

/// What a [`ScanHistoryItem`] holds, with each text as its characters.
pub struct ScanHistoryItemView {
    pub scan_type: Seq<char>,
    pub start_time: Seq<char>,
    pub end_time: Seq<char>,
    pub threats_found: u32,
    pub files_scanned: u32,
}

impl DeepView for ScanHistoryItem {
    type V = ScanHistoryItemView;

    open spec fn deep_view(&self) -> ScanHistoryItemView {
        ScanHistoryItemView {
            scan_type: self.scan_type.deep_view(),
            start_time: self.start_time.deep_view(),
            end_time: self.end_time.deep_view(),
            threats_found: self.threats_found,
            files_scanned: self.files_scanned,
        }
    }
}

impl ScanHistoryItem {
    /// A copy that holds the same values.
    pub fn duplicate(&self) -> (r: Self)
        ensures
            r.deep_view() == self.deep_view(),
    {
        ScanHistoryItem {
            scan_type: self.scan_type.clone(),
            start_time: self.start_time.clone(),
            end_time: self.end_time.clone(),
            threats_found: self.threats_found,
            files_scanned: self.files_scanned,
        }
    }

    /// A copy of a list, item by item.
    pub fn duplicate_all(items: &Vec<ScanHistoryItem>) -> (r: Vec<ScanHistoryItem>)
        ensures
            r.deep_view() == items.deep_view(),
    {
        let mut r: Vec<ScanHistoryItem> = Vec::new();
        let mut i: usize = 0;
        while i < items.len()
            invariant
                i <= items.len(),
                r.len() == i,
                forall|k: int| 0 <= k < i ==> r[k].deep_view() == items[k].deep_view(),
            decreases items.len() - i,
        {
            r.push(items[i].duplicate());
            i += 1;
        }
        r
    }
}

/// One kind of disposable files, with what the analysis found of it.
#[derive(Debug, Clone, PartialEq, Eq)]
pub struct CleanupCategory {
    pub id: String,
    pub name: String,
    pub description: String,
    pub icon: String,
    pub size_bytes: u64,
    pub file_count: u32,
    /// Whether the category is ticked when the analysis is first shown.
    pub selected: bool,
}

/// What a [`CleanupCategory`] holds, with each text as its characters.
pub struct CleanupCategoryView {
    pub id: Seq<char>,
    pub name: Seq<char>,
    pub description: Seq<char>,
    pub icon: Seq<char>,
    pub size_bytes: u64,
    pub file_count: u32,
    pub selected: bool,
}

impl DeepView for CleanupCategory {
    type V = CleanupCategoryView;

    open spec fn deep_view(&self) -> CleanupCategoryView {
        CleanupCategoryView {
            id: self.id.deep_view(),
            name: self.name.deep_view(),
            description: self.description.deep_view(),
            icon: self.icon.deep_view(),
            size_bytes: self.size_bytes,
            file_count: self.file_count,
            selected: self.selected,
        }
    }
}

/// What a cleanup could remove, category by category.
#[derive(Debug, Clone, PartialEq, Eq)]
pub struct CleanupAnalysis {
    pub categories: Vec<CleanupCategory>,
    pub total_size_bytes: u64,
    pub total_file_count: u32,
}

/// What a [`CleanupAnalysis`] holds, with each text as its characters.
pub struct CleanupAnalysisView {
    pub categories: Seq<CleanupCategoryView>,
    pub total_size_bytes: u64,
    pub total_file_count: u32,
}

impl DeepView for CleanupAnalysis {
    type V = CleanupAnalysisView;

    open spec fn deep_view(&self) -> CleanupAnalysisView {
        CleanupAnalysisView {
            categories: self.categories.deep_view(),
            total_size_bytes: self.total_size_bytes,
            total_file_count: self.total_file_count,
        }
    }
}

} // verus!
