//! Packaging and unpacking of `.intunewin` files through two external tools:
//! the decisions of each job (which tool location to try, which inputs to
//! check, what to report and how to judge the tool's work) as a verified
//! session machine, with the records that are reported to the user interface.

pub mod job;
pub mod records;
pub mod session;
pub mod text;
pub mod tool;

pub use job::{
    any_file_with_extension, creation_outcome, extraction_outcome, package_file_name, EntryInfo,
    Lookup, Notice, Outcome, Request, ToolRun,
};
pub use records::{OperationResult, ProgressUpdate, VersionInfo};
pub use session::{Action, Event, Session, Stage};
pub use text::{greet, has_extension};
pub use tool::{Place, Tool, CANDIDATES};
