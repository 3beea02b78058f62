//! Core of a WebAssembly process-execution runtime for guests that speak a
//! POSIX-like system-call interface.
//!
//! The crate verifies the two subsystems that carry the hard logic:
//!
//! * the dynamic loader: a registry of modules loaded at run time into the
//!   guest's address space, with symbol resolution against a module's
//!   exported globals and the shared linear memory, and the guest-visible
//!   `dlopen` / `dlsym` / `dlclose` / `dlerror` operations; and
//! * the bootstrap and deep-sleep scheduler: entering a guest's `_start`,
//!   classifying how it came back, and the suspend / rewind protocol that
//!   lets a suspended guest resume with its stack state restored.
//!
//! The engine that compiles and runs Wasm, the host file system and the
//! task manager are collaborators outside this crate.  Every decision the
//! core takes is a verified function from plain values to plain values;
//! where a step needs the engine, a session machine hands the host an
//! action and takes the outcome back as an event, so the whole protocol —
//! every errno, every state change, the exactly-once recycling — carries a
//! proved contract.

pub mod bytes;
pub mod dl;
pub mod dlopen;
pub mod errno;
pub mod exec;
pub mod memory;
pub mod module;
pub mod rewind;
pub mod spawn;
pub mod utf8;
