use devtool::{
    enforce_minimum, extension_of, file_name_of, minimum_tool_version, parse_number,
    parse_version, render, tool_invocation, version_from_output, BuildCommand, CalendarDate,
    ConfigureCommand, DevtoolError, ExecutionResult, FileError, FilePlan, Invocation, LogLevel,
    NewFileCommand, RenderContext, Report, StreamMode, TemplateCatalog, ToolAction, ToolEvent,
    Version,
};

fn spawned(a: ToolAction) -> Invocation {
    match a {
        ToolAction::Spawn(inv) => inv,
        ToolAction::Finish(r) => panic!("finished early: {}", r.message),
    }
}

fn finished(a: ToolAction) -> Report {
    match a {
        ToolAction::Finish(r) => r,
        ToolAction::Spawn(inv) => panic!("spawned {}", inv.program),
    }
}

fn ctx(filename: &str, author: &str, date: &str, brief: &str) -> RenderContext {
    RenderContext {
        filename: filename.to_string(),
        author: author.to_string(),
        date: date.to_string(),
        brief: brief.to_string(),
    }
}

fn run_result(succeeded: bool, stdout: &[u8], elapsed_ms: u64) -> ExecutionResult {
    ExecutionResult {
        succeeded,
        stdout: stdout.to_vec(),
        stderr: Vec::new(),
        elapsed_ms,
    }
}

#[test]
fn minimum_is_compared_numerically() {
    let min = minimum_tool_version();
    assert_eq!(min, Version::new(3, 26, 0));
    assert!(enforce_minimum(Version::new(3, 26, 0), min).is_ok());
    assert!(enforce_minimum(Version::new(3, 100, 0), min).is_ok());
    assert!(enforce_minimum(Version::new(4, 0, 0), min).is_ok());
    assert!(enforce_minimum(Version::new(3, 26, 1), min).is_ok());
    // 3.9.0 sorts after 3.26.0 as text but is older as a version.
    assert_eq!(
        enforce_minimum(Version::new(3, 9, 0), min),
        Err(DevtoolError::VersionTooOld { found: Version::new(3, 9, 0), minimum: min })
    );
    assert!(enforce_minimum(Version::new(2, 99, 99), min).is_err());
    assert!(enforce_minimum(Version::new(3, 25, 9), min).is_err());
}

#[test]
fn version_text_is_parsed_whole() {
    assert_eq!(parse_version("3.28.1"), Ok(Version::new(3, 28, 1)));
    assert_eq!(parse_version("10.0.12"), Ok(Version::new(10, 0, 12)));
    assert_eq!(parse_version("3.28"), Err(DevtoolError::VersionUnparseable));
    assert_eq!(parse_version("3.28.1.4"), Err(DevtoolError::VersionUnparseable));
    assert_eq!(parse_version("3..1"), Err(DevtoolError::VersionUnparseable));
    assert_eq!(parse_version("a.b.c"), Err(DevtoolError::VersionUnparseable));
    assert_eq!(parse_version(""), Err(DevtoolError::VersionUnparseable));
    assert_eq!(
        parse_version("18446744073709551616.0.0"),
        Err(DevtoolError::VersionUnparseable)
    );
}

#[test]
fn numbers_fit_in_64_bits() {
    assert_eq!(parse_number("18446744073709551615"), Some(u64::MAX));
    assert_eq!(parse_number("18446744073709551616"), None);
    assert_eq!(parse_number("0042"), Some(42));
    assert_eq!(parse_number(""), None);
    assert_eq!(parse_number("4x"), None);
}

#[test]
fn version_is_found_in_tool_output() {
    let out = "cmake version 3.28.1\n\nCMake suite maintained and supported by Kitware.\n";
    assert_eq!(version_from_output(out), Ok(Version::new(3, 28, 1)));
    assert_eq!(version_from_output("cmake version   3.20.1"), Ok(Version::new(3, 20, 1)));
    assert_eq!(version_from_output("cmake 3.20.1"), Err(DevtoolError::VersionUnparseable));
    assert_eq!(version_from_output(""), Err(DevtoolError::VersionUnparseable));
}

#[test]
fn probe_output_is_decoded_leniently() {
    let cmd = ConfigureCommand::new("p".to_string(), false);
    let bytes = b"\xff\xfe cmake version 3.29.4\n".to_vec();
    let inv = spawned(cmd.step(&ToolEvent::Probed(Ok(bytes))));
    assert_eq!(inv.args, vec!["--preset".to_string(), "p".to_string()]);
    let failed = finished(cmd.step(&ToolEvent::Ran(Ok(run_result(false, b"bad \xff", 1)))));
    assert_eq!(failed.message, "Configuring Failed\nbad \u{FFFD}");
}

#[test]
fn build_refuses_an_old_tool_without_running_it() {
    let cmd = BuildCommand::new("linux-x64-debug".to_string(), false);
    let probe = spawned(cmd.step(&ToolEvent::Started));
    assert_eq!(probe.program, "cmake");
    assert_eq!(probe.args, vec!["--version".to_string()]);
    assert_eq!(probe.stdout, StreamMode::Capture);
    let report = finished(cmd.step(&ToolEvent::Probed(Ok(b"cmake version 3.20.1\n".to_vec()))));
    assert_eq!(report.exit_code, 1);
    assert_eq!(report.level, LogLevel::Error);
    assert_eq!(report.message, "CMake must be version 3.26.0 or newer, found 3.20.1");
    let err = DevtoolError::VersionTooOld {
        found: Version::new(3, 20, 1),
        minimum: minimum_tool_version(),
    };
    assert_eq!(err.exit_code(), 1);
    assert_eq!(err.message(), report.message);
}

#[test]
fn build_runs_the_preset_build_directory() {
    let cmd = BuildCommand::new("linux-x64-debug".to_string(), false);
    let inv = spawned(cmd.step(&ToolEvent::Probed(Ok(b"cmake version 3.28.0\n".to_vec()))));
    assert_eq!(inv.program, "cmake");
    assert_eq!(inv.args, vec!["--build".to_string(), "build/linux-x64-debug".to_string()]);
    assert_eq!(inv.stdout, StreamMode::Capture);
    assert_eq!(inv.stderr, StreamMode::Capture);
    let ok = finished(cmd.step(&ToolEvent::Ran(Ok(run_result(true, b"", 1234)))));
    assert_eq!(ok.exit_code, 0);
    assert_eq!(ok.level, LogLevel::Info);
    assert_eq!(ok.message, "Build finished in 1.23");
    let ok = finished(cmd.step(&ToolEvent::Ran(Ok(run_result(true, b"", 61005)))));
    assert_eq!(ok.message, "Build finished in 61.01");
    let ok = finished(cmd.step(&ToolEvent::Ran(Ok(run_result(true, b"", 4)))));
    assert_eq!(ok.message, "Build finished in 0.00");
    let failed = finished(cmd.step(&ToolEvent::Ran(Ok(run_result(false, b"boom", 10)))));
    assert_eq!(failed.exit_code, 1);
    assert_eq!(failed.level, LogLevel::Error);
    assert_eq!(failed.message, "Build Failed\nboom");
}

#[test]
fn verbose_failure_does_not_repeat_output() {
    let cmd = BuildCommand::new("p".to_string(), true);
    let inv = spawned(cmd.step(&ToolEvent::Probed(Ok(b"cmake version 3.26.0".to_vec()))));
    assert_eq!(inv.stdout, StreamMode::Inherit);
    assert_eq!(inv.stderr, StreamMode::Inherit);
    let failed = finished(cmd.step(&ToolEvent::Ran(Ok(run_result(false, b"boom", 10)))));
    assert_eq!(failed.message, "Build Failed");
    assert_eq!(failed.exit_code, 1);
}

#[test]
fn configure_runs_the_preset() {
    let cmd = ConfigureCommand::new("windows-x64-debug".to_string(), false);
    let inv = spawned(cmd.step(&ToolEvent::Probed(Ok(b"cmake version 3.30.2".to_vec()))));
    assert_eq!(inv.args, vec!["--preset".to_string(), "windows-x64-debug".to_string()]);
    let ok = finished(cmd.step(&ToolEvent::Ran(Ok(run_result(true, b"", 5)))));
    assert_eq!(ok.message, "Configuring finished");
    assert_eq!(ok.exit_code, 0);
    let failed = finished(cmd.step(&ToolEvent::Ran(Ok(run_result(false, b"bad preset", 5)))));
    assert_eq!(failed.message, "Configuring Failed\nbad preset");
}

#[test]
fn launch_failures_are_reported() {
    let cmd = ConfigureCommand::new("p".to_string(), false);
    let r = finished(cmd.step(&ToolEvent::Probed(Err(()))));
    assert_eq!(r.message, "Cannot run CMake");
    assert_eq!(r.exit_code, 1);
    let r = finished(cmd.step(&ToolEvent::Probed(Ok(b"no version here".to_vec()))));
    assert_eq!(r.message, "Cannot find the CMake version");
    let r = finished(cmd.step(&ToolEvent::Ran(Err(()))));
    assert_eq!(r.message, "Cannot start CMake");
    assert_eq!(r.level, LogLevel::Error);
}

#[test]
fn quiet_runs_capture_and_verbose_runs_do_not() {
    let quiet = tool_invocation("cmake", vec!["--preset".to_string()], false);
    assert_eq!(quiet.stdout, StreamMode::Capture);
    assert_eq!(quiet.stderr, StreamMode::Capture);
    let r = ExecutionResult::from_run(&quiet, true, b"out".to_vec(), b"err".to_vec(), 7);
    assert_eq!(r.stdout, b"out".to_vec());
    assert_eq!(r.stderr, b"err".to_vec());
    assert_eq!(r.elapsed_ms, 7);
    let loud = tool_invocation("cmake", vec![], true);
    assert_eq!(loud.stdout, StreamMode::Inherit);
    assert_eq!(loud.stderr, StreamMode::Inherit);
    let r = ExecutionResult::from_run(&loud, false, b"out".to_vec(), b"err".to_vec(), 7);
    assert!(r.stdout.is_empty());
    assert!(r.stderr.is_empty());
    assert!(!r.succeeded);
}

#[test]
fn catalog_holds_the_builtin_templates() {
    let catalog = TemplateCatalog::builtin();
    assert_eq!(catalog.len(), 7);
    for ext in ["cmake", "cpp", "cs", "hpp", "ps1", "py", "sh"] {
        assert!(catalog.get(ext).is_some(), "{}", ext);
    }
    assert_eq!(catalog.get(".py"), catalog.get("py"));
    assert!(catalog.get("txt").is_none());
    assert!(catalog.get("").is_none());
    assert!(catalog.get("c").is_none());
}

#[test]
fn paths_split_into_name_and_extension() {
    assert_eq!(file_name_of("out/Widget.hpp"), "Widget.hpp");
    assert_eq!(file_name_of("a\\b\\c.py"), "c.py");
    assert_eq!(file_name_of("notes.txt"), "notes.txt");
    assert_eq!(file_name_of("dir/"), "");
    assert_eq!(extension_of("Widget.hpp"), "hpp");
    assert_eq!(extension_of("a.tar.gz"), "gz");
    assert_eq!(extension_of(".profile"), "");
    assert_eq!(extension_of("Makefile"), "");
    assert_eq!(extension_of("name."), "");
}

#[test]
fn dates_are_written_iso() {
    assert_eq!(CalendarDate::new(2024, 3, 1).unwrap().iso_text(), "2024-03-01");
    assert_eq!(CalendarDate::new(987, 12, 31).unwrap().iso_text(), "0987-12-31");
    assert!(CalendarDate::new(2024, 13, 1).is_none());
    assert!(CalendarDate::new(2024, 1, 0).is_none());
    assert!(CalendarDate::new(10000, 1, 1).is_none());
}

#[test]
fn placeholders_are_replaced() {
    let c = ctx("a.py", "Me", "2024-01-02", "short");
    assert_eq!(
        render("{{ filename }} by {{author}} on {{  date }}: {{ brief }}", &c).unwrap(),
        "a.py by Me on 2024-01-02: short"
    );
    assert_eq!(render("no placeholders { } }}", &c).unwrap(), "no placeholders { } }}");
    assert_eq!(render("", &c).unwrap(), "");
    let out = render(devtool_templates_all(), &c).unwrap();
    assert!(!out.contains("{{"));
}

fn devtool_templates_all() -> &'static str {
    "{{ filename }}{{ author }}{{ date }}{{ brief }}{"
}

#[test]
fn unknown_or_open_placeholders_fail() {
    let c = ctx("a", "b", "c", "d");
    assert_eq!(render("{{ nobody }}", &c), Err(DevtoolError::RenderError));
    assert_eq!(render("{{ filename ", &c), Err(DevtoolError::RenderError));
    assert_eq!(render("x {{", &c), Err(DevtoolError::RenderError));
}

#[test]
fn new_file_renders_the_header_template() {
    let catalog = TemplateCatalog::builtin();
    let cmd = NewFileCommand::new(
        Some("out/Widget.hpp".to_string()),
        Some("widget class".to_string()),
    );
    assert!(!cmd.needs_picker());
    let plan = cmd.plan(&catalog, &None).unwrap();
    let (path, file_name, template) = match &plan {
        FilePlan::FromTemplate { path, file_name, template } => (path, file_name, template),
        FilePlan::Empty { .. } => panic!("expected a template"),
    };
    assert_eq!(path, "out/Widget.hpp");
    assert_eq!(file_name, "Widget.hpp");
    assert_eq!(Some(template), catalog.get("hpp"));
    let date = CalendarDate::new(2024, 3, 1).unwrap();
    let text = cmd
        .content(template, file_name, &Ok("A. Dev".to_string()), &date)
        .unwrap();
    assert_eq!(
        text,
        "/**\n * @file Widget.hpp\n * @brief widget class\n * @author A. Dev\n * @date 2024-03-01\n */\n\n#pragma once\n"
    );
    assert!(!text.contains("{{"));
    let report = plan.success_report();
    assert_eq!(report.exit_code, 0);
    assert_eq!(report.message, "File created from template successfully");
}

#[test]
fn new_file_without_template_is_empty() {
    let catalog = TemplateCatalog::builtin();
    let cmd = NewFileCommand::new(Some("notes.txt".to_string()), None);
    let plan = cmd.plan(&catalog, &None).unwrap();
    match &plan {
        FilePlan::Empty { path } => assert_eq!(path, "notes.txt"),
        FilePlan::FromTemplate { .. } => panic!("no template expected"),
    }
    let report = plan.success_report();
    assert_eq!(report.exit_code, 0);
    assert_eq!(report.level, LogLevel::Info);
    assert_eq!(report.message, "File created successfully");
}

#[test]
fn new_file_needs_a_path() {
    let catalog = TemplateCatalog::builtin();
    let cmd = NewFileCommand::new(None, None);
    assert!(cmd.needs_picker());
    assert!(matches!(
        cmd.plan(&catalog, &None),
        Err(DevtoolError::File(FileError::NoPath))
    ));
    assert!(matches!(
        cmd.plan(&catalog, &Some(String::new())),
        Err(DevtoolError::File(FileError::NoPath))
    ));
    match cmd.plan(&catalog, &Some("picked/run.sh".to_string())) {
        Ok(FilePlan::FromTemplate { file_name, .. }) => assert_eq!(file_name, "run.sh"),
        _ => panic!("expected the shell template"),
    }
    assert_eq!(DevtoolError::File(FileError::NoPath).report().exit_code, 1);
}

#[test]
fn new_file_content_needs_an_author_and_empty_brief_defaults() {
    let date = CalendarDate::new(2024, 3, 1).unwrap();
    let cmd = NewFileCommand::new(Some("x.py".to_string()), None);
    assert_eq!(
        cmd.content("{{ author }}", "x.py", &Err(()), &date),
        Err(DevtoolError::IdentityUnavailable)
    );
    assert_eq!(
        cmd.content("[{{ brief }}] {{ date }}", "x.py", &Ok(String::new()), &date),
        Ok("[] 2024-03-01".to_string())
    );
    assert_eq!(
        DevtoolError::IdentityUnavailable.message(),
        "Cannot get the author name"
    );
}
