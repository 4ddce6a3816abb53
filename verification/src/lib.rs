//! A bulk-validation harness: one check function is run once per item of a
//! dataset, each item's assertions are accumulated into a result, results are
//! partitioned into passed, failed and panicked, and a summary table is rendered.

pub mod ansi;
pub mod args;
pub mod harness;
pub mod recap;
pub mod recap_display;
pub mod result;
pub mod text;

pub use args::{ColorSetting, KrarkArgs, TestArgs};
pub use harness::{KrarkHarness, KrarkReport, NamedItem};
pub use recap::KrarkRecap;
pub use recap_display::{output_recap, TableDisplay};
pub use result::{
    CheckOutcome, FailedResult, FailedTc, KrarkResult, KrarkResultStatus, PanicPayload,
    PanickedResult, PassedResult,
};
