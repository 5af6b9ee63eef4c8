//! Host-side core of a binding to a precompiled wake-word engine.
//!
//! The engine is a native library that is loaded at run time. This crate
//! holds everything about the binding that is decided on the host side:
//! which library and which keyword files belong to a platform, which
//! configurations are accepted, how texts become native strings, in which
//! order the native entry points are resolved and called, and how a status
//! and the diagnostics of the native side become an error. The calls
//! themselves are made by the program that uses the crate: each phase of
//! [`engine`] hands out what one call needs and takes what the call gave.

pub mod builder;
pub mod catalog;
pub mod config;
pub mod demo;
pub mod engine;
pub mod error;
pub mod keywords;
pub mod marshal;
pub mod platform;
pub mod sensitivity;
pub mod status;
pub mod text;

pub use builder::PorcupineBuilder;
pub use catalog::{pv_keyword_paths, KeywordCatalog, KeywordFile};
pub use config::{Configuration, FilePresence};
pub use keywords::{BuiltinKeywords, KEYWORDS};
pub use engine::{
    check_fn_call_status, load_library_fn, Announcing, Collecting, Constructing, Describing,
    Detecting,
    Diagnosing, InitArguments, Opening, Porcupine, PorcupineInner, PorcupineInnerVTable,
    Resolution,
};
pub use error::{PorcupineError, PorcupineErrorStatus};
pub use marshal::pathbuf_to_cstring;
pub use platform::{
    base_library_path, find_machine_type, pv_keyword_dir, pv_library_path, pv_model_path,
    pv_platform, Arch, Machine, Os,
};
pub use sensitivity::Sensitivity;
pub use status::PvStatus;
