//! What stands between the panel and the operating system.

pub mod powershell;

pub use powershell::PowerShellExecutor;
