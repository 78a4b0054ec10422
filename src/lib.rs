//! Visibility of the well-known shell folders in the "This PC" view.
//!
//! The library holds the fixed folder registry, the rules that turn stored
//! policy values into visibility flags, and the step-by-step procedure that
//! writes a flag set back to the configuration store. The store itself is
//! reached by the caller, which performs each requested operation and reports
//! how it went.
pub mod apply;
pub mod flags;
pub mod folders;
pub mod laws;
