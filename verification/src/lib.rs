//! Verified core of the Kiro account manager: application settings, the
//! usage-history journal, machine identifiers, deep links and the Windows
//! protocol association.
pub mod deep_link;
pub mod machine_guid;
pub mod protocol;
pub mod settings;
pub mod text;
pub mod usage_history;
