//! Structured, human-readable diagnostic reports for command-line tools.

pub use code::Code;
pub use code::CodeView;
pub use fragment::FragView;
pub use fragment::Fragment;
pub use fragment::Role;
pub use report::properties::Properties;
pub use report::report::Report;
pub use report::report::ReportView;
pub use report::token_info::TokenInfo;
pub use report::token_info::TokenInfoView;
pub use report::util::char_count;
pub use severity::ColorRole;
pub use severity::Severity;

mod code;
mod fragment;
mod report;
mod severity;
