//! Turns tabular input (delimited text or a spreadsheet workbook) into text by
//! binding its rows to a template.
//!
//! The pipeline has four stages: the source name selects a [`format::Format`],
//! the bytes are loaded into a workbook of string cells, each sheet is bound to
//! a [`binder::RenderContext`], and a template compiled once is rendered per
//! sheet; the outputs are joined by single newlines.
//!
//! Decoding, record splitting, spreadsheet reading and rendering are done by
//! the crates `encoding_rs`, `csv`, `calamine` and `tera`. Contracts speak of
//! what those return by name. Two of them can panic on input that they took:
//! `calamine` on some malformed containers, `tera` on some templates. The
//! functions that reach them require input from which they come back, and
//! promise no panic of their own.

pub mod binder;
pub mod convert;
pub mod delimited;
pub mod error;
pub mod format;
pub mod spreadsheet;
pub mod table;
pub mod template;

pub use binder::{bind, RenderContext};
pub use convert::{join_outputs, load, render_table, tablify};
pub use delimited::load_csv;
pub use error::TablifyError;
pub use format::{detect_format, Format};
pub use spreadsheet::load_xlsx;
pub use table::{Row, Sheet, Workbook};
pub use template::{compile, render, CompiledTemplate};
