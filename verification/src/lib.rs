//! Verified core of an Ollama buildpack.
//!
//! The crate provisions a versioned server binary into a build environment,
//! reusing a previously installed copy when its provisioning record still
//! matches, gates all work on a bounded-backoff readiness probe against the
//! freshly spawned server, drives a strict two-stage command pipeline
//! (fetch the base model, then derive the custom model), and hands off a
//! process descriptor for supervised relaunch. All decisions live here with
//! contracts; file, network and process I/O stay with the caller, which
//! performs the one action each driver phase names and reports its outcome.

pub mod artifact;
pub mod backoff;
pub mod bytes;
pub mod driver;
pub mod errors;
pub mod launch_env;
pub mod modelfile;
pub mod pipeline;
pub mod probe;
