//! Safe, platform-portable interface to a wavelet-based fingerprint-image
//! compression codec whose compression algorithm is supplied by a native
//! library. The crate verifies the two things the wrapper must get right:
//! the build-time decisions (which strategy, which sources, which link
//! entries, per target platform) and the runtime foreign-memory bridge
//! (validate the request, interpret the native status, copy the output,
//! release the foreign allocation exactly once on every path).

pub mod bindings;
pub mod compile;
pub mod jpeg;
pub mod link;
pub mod orchestrator;
pub mod strategy;
pub mod target;
pub mod wsq;

pub use jpeg::{jpegl_encode, JpegError};
pub use link::{link_plan, artifact_name, LinkDep, LinkEntry, LinkKind};
pub use strategy::{select_strategy, BuildError, BuildStrategy};
pub use target::{Arch, ByteOrder, Os, TargetEnvironment};
pub use wsq::{plan_encode, encode_outcome, decode_outcome, DecodedHeader, EncodePlan, WsqError};
