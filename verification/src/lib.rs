//! A query and selection engine for service-manager units.
//!
//! The library classifies the raw status vocabulary of a service manager,
//! builds name- and status-based filter predicates, plans which bus sessions
//! to open (including the privilege-elevation window needed to reach another
//! identity's session bus), and turns raw enumeration rows into a filtered,
//! name-sorted result set.  Everything that talks to a live bus stays with
//! the caller: this crate takes plain values and hands back plain values,
//! classified errors included.

pub mod errors;
pub mod filter;
pub mod pattern;
pub mod session;
pub mod taxonomy;
pub mod text;
pub mod units;

pub use errors::ParseError;
pub use errors::ResolveError;
pub use filter::StatusFields;
pub use filter::StatusFilter;
pub use pattern::MatchMode;
pub use pattern::NameMatcher;
pub use session::DaemonOpt;
pub use session::DaemonType;
pub use taxonomy::StatusOpt;
pub use taxonomy::StatusOptType;
pub use taxonomy::TypeOpt;
pub use units::ListUnitsItem;
pub use units::RawUnit;
pub use units::SessionResults;
