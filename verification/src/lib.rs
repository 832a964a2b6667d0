//! Core of a desktop code-runner: an execution supervisor that turns a
//! (code, language, session) request into a planned external process run,
//! accumulates its streamed output, tracks it so it can be cancelled, and
//! guarantees that every scratch artifact is released on every exit path.
//!
//! The modules mirror the components of the supervisor:
//! - [`language`]: per-language pipeline plans (scratch paths, compile and
//!   run command lines, artifact lists).
//! - [`registry`]: the session registry, at most one live process per session.
//! - [`streamer`]: per-stream accumulation of output lines.
//! - [`supervisor`]: the run lifecycle state machine and completion
//!   sequencing, including the cleanup-before-result guarantee.
//! - [`runtime`]: toolchain availability decisions and install hints.
//! - [`models`]: project data carried by the surrounding application.
//! - [`project_store`]: path layout and bookkeeping rules for saved projects.
//! - [`fonts`]: the monospace font list offered to the editor.
//! - [`text`]: the character and string helpers the other modules share.
//!
//! All process spawning, filesystem access and event delivery is performed by
//! the surrounding application, which drives these state machines and obeys
//! their contracts.

pub mod fonts;
pub mod language;
pub mod models;
pub mod project_store;
pub mod registry;
pub mod runtime;
pub mod streamer;
pub mod supervisor;
pub mod text;
