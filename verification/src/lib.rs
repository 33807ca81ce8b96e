//! The build core of a compile service for untrusted source code.
//!
//! A request carries a program. The service answers with the artifacts of a
//! build or with the compiler's diagnostics. The toolchain works in one
//! shared directory, so builds run one at a time, and the result of each
//! successful build is kept under a hash of its source.
//!
//! Nothing here touches the disk, a process or the network. Those steps are
//! named as values (`Step`); the caller performs them and reports what came
//! of them (`Event`).
//!
//! - [`response`]: the request and the result of a build.
//! - [`codec`]: the bytes that a result travels as.
//! - [`key`]: cache keys and the files of cache entries.
//! - [`cache`]: which keys have an entry.
//! - [`serializer`]: the build section, one ticket at a time.
//! - [`runner`]: one run of the toolchain, event by event.
//! - [`service`]: all of the above, for one request after another.
//! - [`reply`]: outcomes as HTTP statuses and bodies.
//! - [`paste`]: the paste provider's answers.
//! - [`protocol`]: the steps and events that pass between service and caller.
//! - [`laws`]: what holds of the service whatever happens.
//! - [`text`]: text from bytes.

pub mod cache;
pub mod codec;
pub mod key;
pub mod laws;
pub mod paste;
pub mod protocol;
pub mod reply;
pub mod response;
pub mod runner;
pub mod serializer;
pub mod service;
pub mod text;

pub use codec::{decode, encode};
pub use key::CacheKey;
pub use protocol::{Event, Failure, Outcome, Step};
pub use reply::{reply_to, Reply};
pub use response::{CompileRequest, CompileResponse, ResponseView};
pub use service::{Admission, CompileService};
