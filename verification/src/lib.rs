//! A write-only "execute what was written" device, as a sans-I/O core.
//!
//! A session buffers every byte written to it. When the session is released,
//! the buffered payload becomes a program image: an anonymous memory file is
//! created, the payload is written into it, a helper process is prepared with
//! the image installed at a fixed descriptor, and the helper is run to
//! completion.
//!
//! Nothing in this crate touches the host. The session is a plain byte buffer
//! ([`session`]), and finalization is a state machine ([`finalize`]) that tells
//! its driver which host call to make next and is told what the call returned.
//! The order of calls, and the release of the image on every failing path, are
//! proved in [`laws`].

pub mod finalize;
pub mod handle;
pub mod inject;
pub mod laws;
pub mod session;
