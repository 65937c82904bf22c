//! Core of a command-line helper that drives an external build tool and
//! scaffolds new source files from templates.
//!
//! The library decides what to run, what to write and what to report; the
//! program around it performs those effects and hands the outcomes back.
mod catalog;
mod commands;
mod digits;
mod error;
mod render;
mod runner;
mod scaffold;
mod text;
mod version;

pub use catalog::{strip_dot, TemplateCatalog, TemplateEntry};
pub use commands::{
    push_seconds, tool_step, version_probe, BuildCommand, Cmd, ConfigureCommand,
    DevtoolCliOptions, LogLevel, NewFileCommand, Report, ToolAction, ToolEvent, ToolKind,
    BUILD_TOOL,
};
pub use digits::{push_decimal, push_fixed};
pub use error::{DevtoolError, FileError};
pub use render::{
    lemma_placeholder_replaced, lemma_rendered_has_no_placeholder, lookup_value, render,
    str_equal, trim_name, RenderContext,
};
pub use runner::{
    lemma_verbosity_separates_streams, tool_invocation, ExecutionResult, Invocation, StreamMode,
};
pub use scaffold::{extension_of, file_content, file_name_of, plan_new_file, CalendarDate, FilePlan};
pub use text::{find_char, parse_number};
pub use version::{
    enforce_minimum, minimum_tool_version, parse_version, version_from_output,
    version_from_probe, Version, VERSION_PATTERN,
};
