//! A verified process-injection core: it attaches to a running process,
//! finds a mapped code segment large enough to hold a caller-supplied
//! payload, writes the payload there byte for byte, redirects the target's
//! instruction pointer to it, and resumes the target. The privileged
//! kernel operations go through thin trusted wrappers; everything that
//! decides — region selection, word packing, the protocol order — is
//! verified.

pub mod errors;
pub mod injection;
pub mod plan;
pub mod protocol;
pub mod region;
pub mod registers;
mod sys;
pub mod words;

pub use errors::InjectorError;
pub use injection::Injector;
pub use region::{Perms, Region};
