use crate::digits::{decimal, fixed_digits, push_decimal, push_fixed};
use crate::catalog::TemplateCatalog;
use crate::error::{DevtoolError, FileError};
use crate::render::render_spec;
use crate::scaffold::{
    extension_spec, file_content, file_context, file_name_spec, plan_new_file, CalendarDate,
    FilePlan,
};
use crate::runner::{mode_for, tool_invocation, ExecutionResult, Invocation};
use crate::text::{lossy_text, utf8_lossy};
use crate::version::{
    enforce_minimum, first_capture, minimum_tool_version, triple_at_least, version_from_probe,
    version_of_capture, Version, VERSION_PATTERN,
};
use vstd::prelude::*;
use vstd::string::*;

verus! {

/// The external build tool that the commands drive.
pub const BUILD_TOOL: &'static str = "cmake";

/// How serious a report is.
#[derive(Clone, Copy, Debug, PartialEq, Eq, Structural)]
pub enum LogLevel {
    Info,
    Error,
}

/// How a command ends: its exit code and the one line that it logs.
pub struct Report {
    pub exit_code: u8,
    pub level: LogLevel,
    pub message: String,
}

impl Report {
    pub open spec fn is(&self, exit_code: u8, level: LogLevel, message: Seq<char>) -> bool {
        self.exit_code == exit_code && self.level == level && self.message@ == message
    }
}

/// A version triple written `major.minor.patch`.
pub open spec fn version_text(t: (int, int, int)) -> Seq<char> {
    decimal(t.0 as nat) + seq!['.'] + decimal(t.1 as nat) + seq!['.'] + decimal(t.2 as nat)
}

pub open spec fn too_old_message(found: (int, int, int), minimum: (int, int, int)) -> Seq<char> {
    "CMake must be version "@ + version_text(minimum) + " or newer, found "@ + version_text(found)
}

/// The line logged for each failure.
pub open spec fn error_message(e: DevtoolError) -> Seq<char> {
    match e {
        DevtoolError::ToolNotFound => "Cannot run CMake"@,
        DevtoolError::VersionUnparseable => "Cannot find the CMake version"@,
        DevtoolError::VersionTooOld { found, minimum } => too_old_message(
            found.triple(),
            minimum.triple(),
        ),
        DevtoolError::SpawnError => "Cannot start CMake"@,
        DevtoolError::File(FileError::NoPath) => "No file path was given"@,
        DevtoolError::File(FileError::Create) => "Cannot create the file"@,
        DevtoolError::IdentityUnavailable => "Cannot get the author name"@,
        DevtoolError::RenderError => "Cannot render the template"@,
    }
}

fn push_version(out: &mut String, v: Version)
    ensures
        final(out)@ == old(out)@ + version_text(v.triple()),
{
    proof {
        reveal_strlit(".");
    }
    push_decimal(out, v.major);
    out.append(".");
    push_decimal(out, v.minor);
    out.append(".");
    push_decimal(out, v.patch);
    assert(final(out)@ =~= old(out)@ + version_text(v.triple()));
}

impl DevtoolError {
    /// The line logged for this failure.
    pub fn message(&self) -> (r: String)
        ensures
            r@ == error_message(*self),
    {
        match self {
            DevtoolError::ToolNotFound => String::from_str("Cannot run CMake"),
            DevtoolError::VersionUnparseable => String::from_str("Cannot find the CMake version"),
            DevtoolError::VersionTooOld { found, minimum } => {
                let mut out = String::from_str("CMake must be version ");
                push_version(&mut out, *minimum);
                out.append(" or newer, found ");
                push_version(&mut out, *found);
                out
            },
            DevtoolError::SpawnError => String::from_str("Cannot start CMake"),
            DevtoolError::File(FileError::NoPath) => String::from_str("No file path was given"),
            DevtoolError::File(FileError::Create) => String::from_str("Cannot create the file"),
            DevtoolError::IdentityUnavailable => String::from_str("Cannot get the author name"),
            DevtoolError::RenderError => String::from_str("Cannot render the template"),
        }
    }

    /// The report of a command that ends with this failure.
    pub fn report(&self) -> (r: Report)
        ensures
            r.is(1, LogLevel::Error, error_message(*self)),
    {
        Report { exit_code: self.exit_code(), level: LogLevel::Error, message: self.message() }
    }
}

/// Elapsed milliseconds as seconds with two decimals, rounded half up.
pub open spec fn seconds_text(ms: nat) -> Seq<char> {
    let cs = (ms + 5) / 10;
    decimal(cs / 100) + seq!['.'] + fixed_digits(cs % 100, 2)
}

pub fn push_seconds(out: &mut String, ms: u64)
    ensures
        final(out)@ == old(out)@ + seconds_text(ms as nat),
{
    let cs: u64 = ms / 10 + if ms % 10 >= 5 {
        1
    } else {
        0
    };
    assert(cs == (ms + 5) / 10);
    push_decimal(out, cs / 100);
    out.append(".");
    push_fixed(out, cs % 100, 2);
    proof {
        reveal_strlit(".");
    }
    assert(final(out)@ =~= old(out)@ + seconds_text(ms as nat));
}

/// The build tool asked for its version, with its output captured.
pub fn version_probe() -> (r: Invocation)
    ensures
        r.program@ == BUILD_TOOL@,
        r.args_view() == seq!["--version"@],
        r.stdout == mode_for(false),
        r.stderr == mode_for(false),
{
    let mut args: Vec<String> = Vec::new();
    args.push(String::from_str("--version"));
    let r = tool_invocation(BUILD_TOOL, args, false);
    assert(r.args_view() =~= seq!["--version"@]);
    r
}

/// What a configure or build command is told, one step at a time.
pub enum ToolEvent {
    /// The command starts.
    Started,
    /// The version probe ran and printed these bytes, or could not be
    /// launched.
    Probed(Result<Vec<u8>, ()>),
    /// The tool ran, or could not be started.
    Ran(Result<ExecutionResult, ()>),
}

/// What a configure or build command asks for next.
pub enum ToolAction {
    /// Run this program and report back.
    Spawn(Invocation),
    /// Stop, ending with this report.
    Finish(Report),
}

/// The triple that a version probe's output reports, if any.
pub open spec fn probed_version(out: Seq<u8>) -> Option<(int, int, int)> {
    version_of_capture(first_capture(VERSION_PATTERN@, utf8_lossy(out)))
}

pub open spec fn minimum_triple() -> (int, int, int) {
    (3, 26, 0)
}

/// The line logged when the tool failed: the label, then, unless the
/// output was already shown live, a newline and the captured output.
pub open spec fn failure_message(label: Seq<char>, verbose: bool, out: Seq<u8>) -> Seq<char> {
    if verbose {
        label
    } else {
        label + seq!['\n'] + utf8_lossy(out)
    }
}

fn failure_report(label: &str, verbose: bool, result: &ExecutionResult) -> (r: Report)
    ensures
        r.is(1, LogLevel::Error, failure_message(label@, verbose, result.stdout@)),
{
    let mut message = String::from_str(label);
    if !verbose {
        message.append("\n");
        let out = lossy_text(result.stdout.as_slice());
        message.append(out.as_str());
        proof {
            reveal_strlit("\n");
        }
        assert(message@ =~= failure_message(label@, verbose, result.stdout@));
    }
    Report { exit_code: 1, level: LogLevel::Error, message }
}

/// The two commands that drive the build tool.
#[derive(Clone, Copy, Debug, PartialEq, Eq, Structural)]
pub enum ToolKind {
    Configure,
    Build,
}

/// The arguments that run the tool for `kind` on `preset`:
/// `--preset <preset>` to configure, `--build build/<preset>` to build.
pub open spec fn work_args(kind: ToolKind, preset: Seq<char>) -> Seq<Seq<char>> {
    match kind {
        ToolKind::Configure => seq!["--preset"@, preset],
        ToolKind::Build => seq!["--build"@, "build/"@ + preset],
    }
}

/// The line logged when the tool succeeded after `ms` milliseconds.
pub open spec fn success_message(kind: ToolKind, ms: nat) -> Seq<char> {
    match kind {
        ToolKind::Configure => "Configuring finished"@,
        ToolKind::Build => "Build finished in "@ + seconds_text(ms),
    }
}

pub open spec fn failure_label(kind: ToolKind) -> Seq<char> {
    match kind {
        ToolKind::Configure => "Configuring Failed"@,
        ToolKind::Build => "Build Failed"@,
    }
}

/// `inv` runs the build tool for `kind` on `preset`.
pub open spec fn is_work(inv: Invocation, kind: ToolKind, preset: Seq<char>, verbose: bool) -> bool {
    inv.program@ == BUILD_TOOL@ && inv.args_view() == work_args(kind, preset) && inv.stdout
        == mode_for(verbose) && inv.stderr == mode_for(verbose)
}

/// `r` is the step that follows `event` for the command `kind` on `preset`:
/// probe the version, refuse a tool older than 3.26.0 before running
/// anything, run the tool, and end on its outcome with one report.
pub open spec fn tool_step_spec(
    kind: ToolKind,
    preset: Seq<char>,
    verbose: bool,
    event: ToolEvent,
    r: ToolAction,
) -> bool {
    match event {
        ToolEvent::Started => r matches ToolAction::Spawn(inv) && inv.program@ == BUILD_TOOL@
            && inv.args_view() == seq!["--version"@] && inv.stdout == mode_for(false) && inv.stderr
            == mode_for(false),
        ToolEvent::Probed(Err(_)) => r matches ToolAction::Finish(rep) && rep.is(
            1,
            LogLevel::Error,
            error_message(DevtoolError::ToolNotFound),
        ),
        ToolEvent::Probed(Ok(out)) => match probed_version(out@) {
            None => r matches ToolAction::Finish(rep) && rep.is(
                1,
                LogLevel::Error,
                error_message(DevtoolError::VersionUnparseable),
            ),
            Some(t) => if triple_at_least(t, minimum_triple()) {
                r matches ToolAction::Spawn(inv) && is_work(inv, kind, preset, verbose)
            } else {
                r matches ToolAction::Finish(rep) && rep.is(
                    1,
                    LogLevel::Error,
                    too_old_message(t, minimum_triple()),
                )
            },
        },
        ToolEvent::Ran(Err(_)) => r matches ToolAction::Finish(rep) && rep.is(
            1,
            LogLevel::Error,
            error_message(DevtoolError::SpawnError),
        ),
        ToolEvent::Ran(Ok(res)) => if res.succeeded {
            r matches ToolAction::Finish(rep) && rep.is(
                0,
                LogLevel::Info,
                success_message(kind, res.elapsed_ms as nat),
            )
        } else {
            r matches ToolAction::Finish(rep) && rep.is(
                1,
                LogLevel::Error,
                failure_message(failure_label(kind), verbose, res.stdout@),
            )
        },
    }
}

fn work_invocation(kind: ToolKind, preset: &str, verbose: bool) -> (r: Invocation)
    ensures
        is_work(r, kind, preset@, verbose),
{
    let mut args: Vec<String> = Vec::new();
    match kind {
        ToolKind::Configure => {
            args.push(String::from_str("--preset"));
            args.push(String::from_str(preset));
        },
        ToolKind::Build => {
            args.push(String::from_str("--build"));
            let mut dir = String::from_str("build/");
            dir.append(preset);
            args.push(dir);
        },
    }
    let r = tool_invocation(BUILD_TOOL, args, verbose);
    assert(r.args_view() =~= work_args(kind, preset@));
    r
}

fn success_report(kind: ToolKind, ms: u64) -> (r: Report)
    ensures
        r.is(0, LogLevel::Info, success_message(kind, ms as nat)),
{
    match kind {
        ToolKind::Configure => Report {
            exit_code: 0,
            level: LogLevel::Info,
            message: String::from_str("Configuring finished"),
        },
        ToolKind::Build => {
            let mut message = String::from_str("Build finished in ");
            push_seconds(&mut message, ms);
            Report { exit_code: 0, level: LogLevel::Info, message }
        },
    }
}

/// The next step of the command `kind` on `preset` after `event`.
pub fn tool_step(kind: ToolKind, preset: &str, verbose: bool, event: &ToolEvent) -> (r: ToolAction)
    ensures
        tool_step_spec(kind, preset@, verbose, *event, r),
{
    match event {
        ToolEvent::Started => ToolAction::Spawn(version_probe()),
        ToolEvent::Probed(probe) => {
            let checked = match version_from_probe(probe) {
                Ok(v) => enforce_minimum(v, minimum_tool_version()),
                Err(e) => Err(e),
            };
            match checked {
                Ok(()) => ToolAction::Spawn(work_invocation(kind, preset, verbose)),
                Err(e) => ToolAction::Finish(e.report()),
            }
        },
        ToolEvent::Ran(Err(_)) => ToolAction::Finish(DevtoolError::SpawnError.report()),
        ToolEvent::Ran(Ok(res)) => {
            if res.succeeded {
                ToolAction::Finish(success_report(kind, res.elapsed_ms))
            } else {
                let label = match kind {
                    ToolKind::Configure => "Configuring Failed",
                    ToolKind::Build => "Build Failed",
                };
                ToolAction::Finish(failure_report(label, verbose, res))
            }
        },
    }
}

/// Configures the project with a preset of the build tool.
pub struct ConfigureCommand {
    pub preset: String,
    pub verbose: bool,
}

impl ConfigureCommand {
    pub fn new(preset: String, verbose: bool) -> (r: ConfigureCommand)
        ensures
            r.preset@ == preset@,
            r.verbose == verbose,
    {
        ConfigureCommand { preset, verbose }
    }

    /// The next step after `event`: probe, check, run `--preset <preset>`,
    /// report.
    pub fn step(&self, event: &ToolEvent) -> (r: ToolAction)
        ensures
            tool_step_spec(ToolKind::Configure, self.preset@, self.verbose, *event, r),
    {
        tool_step(ToolKind::Configure, self.preset.as_str(), self.verbose, event)
    }
}

/// Builds the project in the build directory of a preset.
pub struct BuildCommand {
    pub preset: String,
    pub verbose: bool,
}

impl BuildCommand {
    pub fn new(preset: String, verbose: bool) -> (r: BuildCommand)
        ensures
            r.preset@ == preset@,
            r.verbose == verbose,
    {
        BuildCommand { preset, verbose }
    }

    /// The next step after `event`: probe, check, run
    /// `--build build/<preset>`, report.
    pub fn step(&self, event: &ToolEvent) -> (r: ToolAction)
        ensures
            tool_step_spec(ToolKind::Build, self.preset@, self.verbose, *event, r),
    {
        tool_step(ToolKind::Build, self.preset.as_str(), self.verbose, event)
    }
}

/// Creates a new file, from a template where the catalog has one for its
/// extension.
pub struct NewFileCommand {
    pub file_path: Option<String>,
    pub brief: Option<String>,
}

/// The path a new file goes to: the one given on the command line, else the
/// one picked interactively.
pub open spec fn chosen_path(given: Option<String>, picked: Option<String>) -> Option<Seq<char>> {
    match given {
        Some(p) => Some(p@),
        None => match picked {
            Some(p) => Some(p@),
            None => None,
        },
    }
}

impl NewFileCommand {
    pub fn new(file_path: Option<String>, brief: Option<String>) -> (r: NewFileCommand)
        ensures
            r.file_path == file_path,
            r.brief == brief,
    {
        NewFileCommand { file_path, brief }
    }

    /// Whether the target path has to be picked interactively.
    pub fn needs_picker(&self) -> (r: bool)
        ensures
            r == self.file_path.is_none(),
    {
        self.file_path.is_none()
    }

    /// Decides how the new file is made. `picked` is what the file picker
    /// returned, consulted only when no path was given; no path at all, or
    /// one without a final component, is refused.
    pub fn plan(&self, catalog: &TemplateCatalog, picked: &Option<String>) -> (r: Result<
        FilePlan,
        DevtoolError,
    >)
        ensures
            match chosen_path(self.file_path, *picked) {
                None => r == Err::<FilePlan, DevtoolError>(DevtoolError::File(FileError::NoPath)),
                Some(path) => if file_name_spec(path).len() == 0 {
                    r == Err::<FilePlan, DevtoolError>(DevtoolError::File(FileError::NoPath))
                } else {
                    match catalog.spec_get(extension_spec(file_name_spec(path))) {
                        None => r matches Ok(FilePlan::Empty { path: p }) && p@ == path,
                        Some(src) => r matches Ok(
                            FilePlan::FromTemplate { path: p, file_name: f, template: t },
                        ) && p@ == path && f@ == file_name_spec(path) && t@ == src,
                    }
                },
            },
    {
        let path = match &self.file_path {
            Some(p) => p,
            None => match picked {
                Some(p) => p,
                None => {
                    return Err(DevtoolError::File(FileError::NoPath));
                },
            },
        };
        plan_new_file(catalog, path.as_str())
    }

    /// The text of the new file from `template`, with this command's brief.
    pub fn content(
        &self,
        template: &str,
        file_name: &str,
        author: &Result<String, ()>,
        date: &CalendarDate,
    ) -> (r: Result<String, DevtoolError>)
        ensures
            match author {
                Err(_) => r == Err::<String, DevtoolError>(DevtoolError::IdentityUnavailable),
                Ok(a) => {
                    let ctx = file_context(
                        file_name@,
                        a@,
                        date.iso_spec(),
                        match self.brief {
                            Some(b) => Some(b@),
                            None => None,
                        },
                    );
                    match r {
                        Ok(out) => render_spec(template@, ctx) == Some(out@),
                        Err(e) => render_spec(template@, ctx).is_none() && e
                            == DevtoolError::RenderError,
                    }
                },
            },
    {
        file_content(template, file_name, author, date, &self.brief)
    }
}

impl FilePlan {
    /// The report once the planned file has been written.
    pub fn success_report(&self) -> (r: Report)
        ensures
            r.is(
                0,
                LogLevel::Info,
                match self {
                    FilePlan::Empty { .. } => "File created successfully"@,
                    FilePlan::FromTemplate { .. } => "File created from template successfully"@,
                },
            ),
    {
        let message = match self {
            FilePlan::Empty { .. } => String::from_str("File created successfully"),
            FilePlan::FromTemplate { .. } => String::from_str(
                "File created from template successfully",
            ),
        };
        Report { exit_code: 0, level: LogLevel::Info, message }
    }
}

/// The subcommands.
pub enum Cmd {
    /// Configure the project.
    Configure(ConfigureCommand),
    /// Build the project.
    Build(BuildCommand),
    /// Create a new file.
    NewFile(NewFileCommand),
}

/// The parsed command line.
pub struct DevtoolCliOptions {
    pub cmd: Cmd,
}

impl DevtoolCliOptions {
    pub fn new(cmd: Cmd) -> (r: DevtoolCliOptions)
        ensures
            r.cmd == cmd,
    {
        DevtoolCliOptions { cmd }
    }
}

} // verus!
