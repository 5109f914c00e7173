//! The operations of the panel, grouped by what they act on.

pub mod cleanup_service;
pub mod defender_status_service;
pub mod scan_service;
pub mod threat_management_service;

pub use cleanup_service::CleanupService;
pub use defender_status_service::DefenderStatusService;
pub use scan_service::ScanService;
pub use threat_management_service::ThreatManagementService;
