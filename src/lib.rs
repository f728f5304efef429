//! Decoding of SNSS session-restore containers: the record framing, the
//! aligned "pickle" reader used for command payloads, and the navigation
//! entry decoder with its optional, version-dependent field tail.

mod wire;
mod text;
pub mod iterator;
pub mod transition;
pub mod command;
pub mod navigation;
pub mod snss;

pub use iterator::{PickleError, PickleIterator, Timestamp};
pub use transition::{CoreTransition, PageTransition, Qualifier, QualifierFlag};
pub use command::{CommandIdType, SessionRestoreIdType, SnssFileType, TabRestoreIdType};
pub use navigation::NavigationEntry;
pub use snss::{SessionCommand, SnssError, SnssFile, UnprocessedEntry};
