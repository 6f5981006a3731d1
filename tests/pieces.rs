use intunewin::{
    any_file_with_extension, creation_outcome, extraction_outcome, greet, has_extension,
    package_file_name, EntryInfo, Lookup, Notice, Outcome, Place, ProgressUpdate, Request, Tool,
    ToolRun, VersionInfo, CANDIDATES,
};

fn run(success: bool, stdout: &str, stderr: &str) -> ToolRun {
    ToolRun { success, stdout: stdout.to_string(), stderr: stderr.to_string() }
}

fn entry(name: &str, is_file: bool) -> EntryInfo {
    EntryInfo { name: name.to_string(), is_file }
}

#[test]
fn greet_names_the_caller() {
    assert_eq!(greet("World"), "Hello, World! You've been greeted from Rust!");
    assert_eq!(greet(""), "Hello, ! You've been greeted from Rust!");
}

#[test]
fn extension_follows_last_dot() {
    assert!(has_extension("package.zip", "zip"));
    assert!(has_extension("a.tar.zip", "zip"));
    assert!(!has_extension("a.zip.bak", "zip"));
    assert!(!has_extension("zip", "zip"));
    assert!(!has_extension(".zip", "zip"));
    assert!(has_extension("..zip", "zip"));
    assert!(!has_extension("..", ""));
    assert!(has_extension("a.", ""));
    assert!(!has_extension("a.ZIP", "zip"));
    assert!(has_extension("app.intunewin", "intunewin"));
}

#[test]
fn listing_needs_a_file_with_the_extension() {
    assert!(!any_file_with_extension(&vec![], "zip"));
    assert!(!any_file_with_extension(&vec![entry("out.zip", false)], "zip"));
    assert!(!any_file_with_extension(&vec![entry("out.txt", true), entry("zip", true)], "zip"));
    assert!(any_file_with_extension(&vec![entry("out.txt", true), entry("out.zip", true)], "zip"));
}

#[test]
fn package_name_drops_installer_extensions() {
    assert_eq!(package_file_name("setup.exe"), "setup.intunewin");
    assert_eq!(package_file_name("app.msi"), "app.intunewin");
    assert_eq!(package_file_name("install.ps1"), "install.ps1.intunewin");
    assert_eq!(package_file_name("my.exe.tool.msi"), "my.tool.intunewin");
    assert_eq!(package_file_name("a.m.exesi"), "a.intunewin");
    assert_eq!(package_file_name(""), ".intunewin");
}

#[test]
fn tool_places_in_order() {
    assert_eq!(CANDIDATES, 5);
    let (p, s) = Tool::Decoder.candidate(0);
    assert!(matches!(p, Place::Resources));
    assert_eq!(s, "bin/IntuneWinAppUtilDecoder.exe");
    let (p, s) = Tool::Packager.candidate(1);
    assert!(matches!(p, Place::Executable));
    assert_eq!(s, "bin/IntuneWinAppUtil.exe");
    let (p, s) = Tool::Packager.candidate(2);
    assert!(matches!(p, Place::Working));
    assert_eq!(s, "src-tauri/bin/IntuneWinAppUtil.exe");
    let (_, s) = Tool::Decoder.candidate(3);
    assert_eq!(s, "bin/IntuneWinAppUtilDecoder.exe");
    let (p, s) = Tool::Decoder.candidate(4);
    assert!(matches!(p, Place::Working));
    assert_eq!(s, "IntuneWinAppUtilDecoder.exe");
}

#[test]
fn tool_names_and_missing_message() {
    assert_eq!(Tool::Decoder.label(), "Decoder");
    assert_eq!(Tool::Decoder.program(), "decoder");
    assert_eq!(Tool::Packager.program(), "IntuneWinAppUtil");
    assert_eq!(
        Tool::Packager.missing_message(),
        "IntuneWinAppUtil.exe not found. Please download it from the Microsoft Intune Win32 Content Prep Tool and place it in the bin directory."
    );
}

#[test]
fn failure_message_reports_what_was_printed() {
    assert_eq!(
        Tool::Decoder.failure_message("out", "err"),
        "Decoder failed:\nSTDOUT: out\nSTDERR: err"
    );
    assert_eq!(Tool::Decoder.failure_message("", "err"), "Decoder failed: err");
    assert_eq!(Tool::Packager.failure_message("out", ""), "IntuneWinAppUtil failed: out");
    assert_eq!(Tool::Packager.failure_message("", ""), "IntuneWinAppUtil failed with no output");
}

#[test]
fn notices_carry_progress_and_text() {
    assert_eq!(Notice::Started(Tool::Decoder).progress(), 0);
    assert_eq!(Notice::Started(Tool::Decoder).message(), "Starting extraction...");
    assert_eq!(Notice::Started(Tool::Packager).message(), "Starting package creation...");
    assert_eq!(Notice::Running(Tool::Decoder).progress(), 25);
    assert_eq!(Notice::Running(Tool::Decoder).message(), "Running decoder...");
    assert_eq!(Notice::Running(Tool::Packager).message(), "Running IntuneWinAppUtil...");
    assert_eq!(Notice::Completed(Tool::Decoder, true).progress(), 100);
    assert_eq!(Notice::Completed(Tool::Decoder, true).message(), "Extraction completed successfully");
    assert_eq!(Notice::Completed(Tool::Decoder, false).message(), "Extraction failed");
    assert_eq!(Notice::Completed(Tool::Packager, true).message(), "Package created successfully");
    assert_eq!(Notice::Completed(Tool::Packager, false).message(), "Package creation failed");
}

#[test]
fn stamped_update_is_utc() {
    let u = Notice::Running(Tool::Packager).update();
    assert_eq!(u.progress, 25);
    assert_eq!(u.message, "Running IntuneWinAppUtil...");
    assert!(u.timestamp.len() >= 25);
    assert!(u.timestamp.ends_with("+00:00"));
    assert_eq!(&u.timestamp[4..5], "-");
    let v = ProgressUpdate::stamped(7, "x".to_string());
    assert_eq!(v.progress, 7);
    assert!(v.timestamp.ends_with("+00:00"));
}

#[test]
fn version_falls_back_to_unknown() {
    let v = VersionInfo::new("1.0.0".to_string(), "2.0".to_string(), None, "linux".to_string());
    assert_eq!(v.rust_version, "Unknown");
    assert_eq!(v.app_version, "1.0.0");
    assert_eq!(v.tauri_version, "2.0");
    assert_eq!(v.platform, "linux");
    let w = VersionInfo::new(
        "1".to_string(),
        "2".to_string(),
        Some("1.80.0".to_string()),
        "windows".to_string(),
    );
    assert_eq!(w.rust_version, "1.80.0");
}

#[test]
fn extraction_verdicts() {
    assert!(matches!(
        extraction_outcome(run(true, "", ""), false, false),
        Outcome::Extracted { found_output: false }
    ));
    assert!(matches!(
        extraction_outcome(run(false, "", ""), true, false),
        Outcome::Extracted { found_output: true }
    ));
    assert!(matches!(
        extraction_outcome(run(false, "", ""), false, true),
        Outcome::Extracted { found_output: true }
    ));
    let o = extraction_outcome(run(false, "o", "e"), false, false);
    assert_eq!(o.into_result().unwrap_err(), "Decoder failed:\nSTDOUT: o\nSTDERR: e");
}

#[test]
fn creation_verdicts() {
    let o = creation_outcome(run(true, "", ""), Some("out/setup.intunewin".to_string()), false);
    let r = o.into_result().unwrap();
    assert_eq!(r.status, "success");
    assert_eq!(r.progress, 100);
    assert_eq!(r.message, "Package created successfully: out/setup.intunewin");
    let r = creation_outcome(run(true, "", ""), None, true).into_result().unwrap();
    assert_eq!(r.message, "Package created successfully (check output folder for .intunewin file)");
    let e = creation_outcome(run(true, "done", ""), None, false).into_result().unwrap_err();
    assert_eq!(e, "IntuneWinAppUtil failed: done");
    let e = creation_outcome(run(false, "", "bad"), Some("p".to_string()), false)
        .into_result()
        .unwrap_err();
    assert_eq!(e, "IntuneWinAppUtil failed: bad");
}

#[test]
fn outcome_messages() {
    let ok = |o: Outcome| o.into_result().unwrap().message;
    let err = |o: Outcome| o.into_result().unwrap_err();
    assert_eq!(ok(Outcome::Extracted { found_output: true }), "Package extracted successfully");
    assert_eq!(
        ok(Outcome::Extracted { found_output: false }),
        "Extraction completed (check output directory)"
    );
    assert_eq!(err(Outcome::EmitFailed("closed".to_string())), "closed");
    assert_eq!(
        err(Outcome::ToolMissing(Tool::Decoder)),
        "IntuneWinAppUtilDecoder.exe not found. Please download it from the Microsoft Intune Win32 Content Prep Tool and place it in the bin directory."
    );
    assert_eq!(err(Outcome::SourceMissing(Tool::Decoder)), "Input file does not exist");
    assert_eq!(err(Outcome::SourceMissing(Tool::Packager)), "Setup folder does not exist");
    assert_eq!(
        err(Outcome::SetupFileMissing {
            setup_file: "setup.exe".to_string(),
            setup_folder: "C:/src".to_string()
        }),
        "Setup file 'setup.exe' not found in folder 'C:/src'"
    );
    assert_eq!(
        err(Outcome::OutputDirectory("denied".to_string())),
        "Failed to create output directory: denied"
    );
    assert_eq!(
        err(Outcome::LaunchFailed(Tool::Decoder, "no such file".to_string())),
        "Failed to execute decoder: no such file"
    );
    assert_eq!(
        err(Outcome::LaunchFailed(Tool::Packager, "x".to_string())),
        "Failed to execute IntuneWinAppUtil: x"
    );
    assert_eq!(
        err(Outcome::ToolFailed { tool: Tool::Decoder, stdout: String::new(), stderr: String::new() }),
        "Decoder failed with no output"
    );
}

#[test]
fn request_arguments_and_places() {
    let x = Request::Extract { file_path: "in.intunewin".to_string(), output_dir: "out".to_string() };
    assert_eq!(x.arguments(), vec!["in.intunewin".to_string(), "out".to_string()]);
    assert_eq!(x.output_dir(), "out");
    assert_eq!(x.tool(), Tool::Decoder);
    let c = Request::Create {
        setup_folder: "src".to_string(),
        setup_file: "setup.msi".to_string(),
        output_folder: "dist".to_string(),
    };
    assert_eq!(c.arguments(), vec!["-c", "src", "-s", "setup.msi", "-o", "dist", "-q"]);
    assert_eq!(c.tool(), Tool::Packager);
    let (p, s) = c.locate(Lookup::Package).unwrap();
    assert!(matches!(p, Place::Inside(ref f) if f == "dist"));
    assert_eq!(s, "setup.intunewin");
    let (p, s) = c.locate(Lookup::SetupFile).unwrap();
    assert!(matches!(p, Place::Inside(ref f) if f == "src"));
    assert_eq!(s, "setup.msi");
    let (p, s) = x.locate(Lookup::ExtractedFolder).unwrap();
    assert!(matches!(p, Place::Inside(ref f) if f == "out"));
    assert_eq!(s, "extracted");
    let (p, s) = x.locate(Lookup::Source).unwrap();
    assert!(matches!(p, Place::Working));
    assert_eq!(s, "in.intunewin");
    let (_, s) = c.locate(Lookup::Candidate(2)).unwrap();
    assert_eq!(s, "src-tauri/bin/IntuneWinAppUtil.exe");
    assert!(x.locate(Lookup::Package).is_none());
    assert!(c.locate(Lookup::ExtractedFolder).is_none());
    assert!(c.locate(Lookup::Candidate(5)).is_none());
    assert!(Lookup::ExtractedFolder.wants_directory());
    assert!(!Lookup::Package.wants_directory());
}
