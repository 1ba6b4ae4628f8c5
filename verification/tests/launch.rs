use std::collections::HashMap;
use std::sync::Arc;

use codex::arg0::{arg0_dispatch_or_else, Arg, Launch, LaunchAction, LaunchEvent};
use codex::dotenv::{
    load_dotenv, set_filtered, DotenvAction, DotenvEvent, DotenvSource, DOTENV_FILENAME,
};
use codex::path_entry::{prepend_path_entry_for_apply_patch, PathAction, PathEvent, Platform};

fn args(texts: &[&str]) -> Vec<Arg> {
    texts.iter().map(|text| Arg::Utf8(text.to_string())).collect()
}

fn launch(exe: Option<&str>, args: Vec<Arg>, linux: bool) -> (Launch, LaunchAction<String>) {
    arg0_dispatch_or_else(exe.map(|name| name.to_string()), args, linux)
}

#[test]
fn name_selects_the_command() {
    let (_, sandbox) = launch(Some("codex-linux-sandbox"), args(&["ls"]), true);
    assert!(matches!(sandbox, LaunchAction::RunLinuxSandbox));
    let (_, patch) = launch(Some("apply_patch"), args(&[]), true);
    assert!(matches!(patch, LaunchAction::RunApplyPatch));
    let (_, misspelled) = launch(Some("applypatch"), args(&["--codex-run-as-apply-patch"]), true);
    assert!(matches!(misspelled, LaunchAction::RunApplyPatch));
    let (_, other) = launch(Some("apply_patch.exe"), args(&[]), true);
    assert!(matches!(other, LaunchAction::LoadDotenv));
    let (_, unnamed) = launch(None, args(&[]), true);
    assert!(matches!(unnamed, LaunchAction::LoadDotenv));
}

#[test]
fn first_argument_applies_a_patch() {
    let flag = "--codex-run-as-apply-patch";
    for (ok, expected) in [(true, 0), (false, 1)] {
        let (mut launch, action) = launch(Some("codex"), args(&[flag, "*** Begin Patch"]), true);
        assert!(matches!(action, LaunchAction::ApplyPatch { patch } if patch == "*** Begin Patch"));
        match launch.next::<String>(LaunchEvent::PatchApplied { ok }) {
            Some(LaunchAction::Exit { code, message: None }) => assert_eq!(code, expected),
            _ => panic!("another action"),
        }
        assert!(launch.next::<String>(LaunchEvent::PatchApplied { ok }).is_none());
    }
    let (_, second) = launch(Some("codex"), args(&["x", flag]), true);
    assert!(matches!(second, LaunchAction::LoadDotenv));
}

#[test]
fn missing_patch_is_an_error() {
    let flag = Arg::Utf8("--codex-run-as-apply-patch".to_string());
    for args in [vec![flag.clone()], vec![flag.clone(), Arg::NotUtf8]] {
        match launch(Some("codex"), args, true).1 {
            LaunchAction::Exit { code, message: Some(message) } => {
                assert_eq!(code, 1);
                assert_eq!(
                    message,
                    "Error: --codex-run-as-apply-patch requires a UTF-8 PATCH argument."
                );
            }
            _ => panic!("another action"),
        }
    }
    let (_, not_utf8) = launch(Some("codex"), vec![Arg::NotUtf8], true);
    assert!(matches!(not_utf8, LaunchAction::LoadDotenv));
}

#[test]
fn environment_is_ready_before_the_runtime() {
    let (mut launch, first) = launch(Some("codex"), args(&["exec"]), true);
    assert!(matches!(first, LaunchAction::LoadDotenv));
    assert!(launch.next::<String>(LaunchEvent::RuntimeCreated(Ok(()))).is_none());
    let second = launch.next::<String>(LaunchEvent::DotenvLoaded);
    assert!(matches!(second, Some(LaunchAction::PrependPath)));
    let third = launch.next::<String>(LaunchEvent::PathPrepended(Ok(())));
    assert!(matches!(third, Some(LaunchAction::CreateRuntime { warning: None })));
    let fourth = launch.next::<String>(LaunchEvent::RuntimeCreated(Ok(())));
    assert!(matches!(fourth, Some(LaunchAction::FindCurrentExe)));
    match launch.next(LaunchEvent::CurrentExe(Some("/bin/codex".to_string()))) {
        Some(LaunchAction::RunMain { codex_linux_sandbox_exe }) => {
            assert_eq!(codex_linux_sandbox_exe, Some("/bin/codex".to_string()));
        }
        _ => panic!("another action"),
    }
}

#[test]
fn path_failure_is_a_warning() {
    let (mut launch, _) = launch(Some("codex"), args(&[]), false);
    launch.next::<String>(LaunchEvent::DotenvLoaded);
    match launch.next::<String>(LaunchEvent::PathPrepended(Err("read-only".to_string()))) {
        Some(LaunchAction::CreateRuntime { warning: Some(warning) }) => assert_eq!(
            warning,
            "WARNING: proceeding, even though we could not update PATH: read-only"
        ),
        _ => panic!("another action"),
    }
    let main = launch.next::<String>(LaunchEvent::RuntimeCreated(Ok(())));
    assert!(matches!(main, Some(LaunchAction::RunMain { codex_linux_sandbox_exe: None })));
}

#[test]
fn runtime_failure_is_returned() {
    let (mut launch, _) = launch(Some("codex"), args(&[]), true);
    launch.next::<String>(LaunchEvent::DotenvLoaded);
    launch.next::<String>(LaunchEvent::PathPrepended(Ok(())));
    let failed = launch.next::<String>(LaunchEvent::RuntimeCreated(Err("no threads".to_string())));
    assert!(matches!(failed, Some(LaunchAction::Fail { error }) if error == "no threads"));
}

fn entry(key: &str, value: &str) -> Result<(String, String), String> {
    Ok((key.to_string(), value.to_string()))
}

#[test]
fn protected_variables_are_filtered() {
    assert_eq!(
        set_filtered(entry("OPENAI_API_KEY", "x")),
        Some(("OPENAI_API_KEY".to_string(), "x".to_string()))
    );
    assert_eq!(set_filtered(entry("CODEX_HOME", "x")), None);
    assert_eq!(set_filtered(entry("codex_home", "x")), None);
    assert_eq!(set_filtered(entry("Codex_", "x")), None);
    assert!(set_filtered(entry("CODEX", "x")).is_some());
    assert!(set_filtered(entry("MY_CODEX_HOME", "x")).is_some());
    assert_eq!(set_filtered(Err::<(String, String), String>("bad line".to_string())), None);
}

type Parsed = Result<(String, String), dotenvy::Error>;

fn parsed(text: &str) -> Vec<Parsed> {
    dotenvy::from_read_iter(text.as_bytes()).collect()
}

fn loaded(home: Option<Vec<Parsed>>, working: Option<Vec<Parsed>>) -> HashMap<String, String> {
    let mut environment: HashMap<String, String> = HashMap::new();
    environment.insert("CODEX_HOME".to_string(), "/home/u/.codex".to_string());
    environment.insert("EDITOR".to_string(), "vi".to_string());
    let (mut loader, mut action) = load_dotenv();
    let mut files = vec![working, home];
    let mut entries: Vec<Parsed> = Vec::new();
    loop {
        match action {
            DotenvAction::Open(source) => {
                assert_eq!(source == DotenvSource::CodexHome, files.len() == 2);
                match files.pop() {
                    Some(Some(file)) => {
                        entries = file;
                        entries.reverse();
                    }
                    _ => {
                        action = loader.next::<dotenvy::Error>(DotenvEvent::Unavailable);
                        continue;
                    }
                }
            }
            DotenvAction::SetVar { key, value } => {
                environment.insert(key, value);
            }
            DotenvAction::Skip => {}
            DotenvAction::Finish => return environment,
        }
        action = match entries.pop() {
            Some(entry) => loader.next(DotenvEvent::Entry(entry)),
            None => loader.next::<dotenvy::Error>(DotenvEvent::End),
        };
    }
}

#[test]
fn working_directory_overrides_home() {
    let home = parsed("A=1\nB=2\nCODEX_HOME=/tmp\nnot a line\nEDITOR=ed\n");
    let working = parsed("B=3\nexport codex_sandbox=off\nC=4\n");
    let environment = loaded(Some(home), Some(working));
    assert_eq!(environment.get("A").map(|v| v.as_str()), Some("1"));
    assert_eq!(environment.get("B").map(|v| v.as_str()), Some("3"));
    assert_eq!(environment.get("C").map(|v| v.as_str()), Some("4"));
    assert_eq!(environment.get("EDITOR").map(|v| v.as_str()), Some("ed"));
    assert_eq!(environment.get("CODEX_HOME").map(|v| v.as_str()), Some("/home/u/.codex"));
    assert_eq!(environment.len(), 5);
}

#[test]
fn missing_files_count_as_empty() {
    assert_eq!(loaded(None, None).len(), 2);
    let environment = loaded(None, Some(parsed("A=1\nA=2\n")));
    assert_eq!(environment.get("A").map(|v| v.as_str()), Some("2"));
}

fn display(action: &Option<PathAction<String>>) -> String {
    match action {
        Some(PathAction::CreateTempDir) => "temp".to_string(),
        Some(PathAction::FindCurrentExe) => "exe".to_string(),
        Some(PathAction::CreateSymlink { target, directory, filename }) => {
            format!("link {directory}/{filename} to {target}")
        }
        Some(PathAction::WriteScript { directory, filename, contents }) => {
            format!("write {directory}/{filename}: {contents}")
        }
        Some(PathAction::ReadPath) => "path".to_string(),
        Some(PathAction::SetPath { value }) => format!("set {value}"),
        Some(PathAction::PrefixPath { prefix }) => format!("prefix {prefix}"),
        None => "-".to_string(),
    }
}

fn successes(path: Option<&str>) -> Vec<PathEvent<String>> {
    let directory = Arc::new("DIR".to_string());
    let displayed = "/opt/codex".to_string();
    vec![
        PathEvent::TempDirCreated { directory, displayed: "/tmp/d".to_string() },
        PathEvent::CurrentExe { exe: "EXE".to_string(), displayed: displayed.clone() },
        PathEvent::EntryCreated,
        PathEvent::CurrentExe { exe: "AGAIN".to_string(), displayed },
        PathEvent::EntryCreated,
        PathEvent::Path(path.map(|value| value.to_string())),
    ]
}

fn prepare(platform: Platform, events: Vec<PathEvent<String>>) -> Vec<String> {
    let (mut entry, first) = prepend_path_entry_for_apply_patch(platform);
    let mut shown = vec![display(&Some(first))];
    for event in events {
        shown.push(display(&entry.next(event)));
    }
    shown
}

#[test]
fn unix_gets_links() {
    assert_eq!(
        prepare(Platform::Unix, successes(Some("/usr/bin:/bin"))),
        vec![
            "temp",
            "exe",
            "link DIR/apply_patch to EXE",
            "exe",
            "link DIR/applypatch to AGAIN",
            "path",
            "set /tmp/d:/usr/bin:/bin",
        ]
    );
    let unset = prepare(Platform::Unix, successes(None));
    assert_eq!(unset.last().map(|s| s.as_str()), Some("set /tmp/d"));
    let empty = prepare(Platform::Unix, successes(Some("")));
    assert_eq!(empty.last().map(|s| s.as_str()), Some("set /tmp/d:"));
}

#[test]
fn windows_gets_batch_scripts() {
    let shown = prepare(Platform::Windows, successes(Some("C:\\Windows")));
    let script = "@echo off\n\"/opt/codex\" --codex-run-as-apply-patch %*\n";
    assert_eq!(shown[2], format!("write DIR/apply_patch.bat: {script}"));
    assert_eq!(shown[4], format!("write DIR/applypatch.bat: {script}"));
    assert_eq!(shown[6], "set /tmp/d;C:\\Windows");
}

#[test]
fn path_is_left_alone_after_a_failure() {
    for stage in 0..6 {
        let mut events = successes(Some("/bin"));
        events.insert(stage, PathEvent::Failed);
        let shown = prepare(Platform::Unix, events);
        assert!(shown.iter().all(|action| !action.starts_with("set")));
        let mut events = successes(None);
        events[5] = PathEvent::PathNotUnicode;
        events.insert(stage, PathEvent::Failed);
        let shown = prepare(Platform::Unix, events);
        assert!(shown.iter().all(|action| !action.starts_with("prefix")));
    }
    let early = vec![PathEvent::Path(Some("/bin".to_string())), PathEvent::EntryCreated];
    assert_eq!(prepare(Platform::Unix, early), vec!["temp", "-", "-"]);
}

#[test]
fn created_commands_lead_back_to_the_executable() {
    let (mut entry, _) = prepend_path_entry_for_apply_patch(Platform::Unix);
    let mut links = 0;
    for event in successes(None) {
        if let Some(PathAction::CreateSymlink { filename, .. }) = entry.next(event) {
            let action = launch(Some(&filename), args(&["x"]), true).1;
            assert!(matches!(action, LaunchAction::RunApplyPatch));
            links += 1;
        }
    }
    assert_eq!(links, 2);
    let line = args(&["--codex-run-as-apply-patch", "patch", "more"]);
    match launch(Some("codex.exe"), line, false).1 {
        LaunchAction::ApplyPatch { patch } => assert_eq!(patch, "patch"),
        _ => panic!("not applied"),
    }
}

#[test]
fn path_that_is_not_unicode_stays_behind_the_directory() {
    for (platform, prefix) in
        [(Platform::Unix, "prefix /tmp/d:"), (Platform::Windows, "prefix /tmp/d;")]
    {
        let mut events = successes(None);
        events[5] = PathEvent::PathNotUnicode;
        events.push(PathEvent::PathNotUnicode);
        let shown = prepare(platform, events);
        assert_eq!(shown[5], "path");
        assert_eq!(shown[6], prefix);
        assert_eq!(shown[7], "-");
    }
    let early = prepare(Platform::Unix, vec![PathEvent::PathNotUnicode]);
    assert_eq!(early, vec!["temp", "-"]);
}

#[test]
fn dotenv_files_have_their_usual_name() {
    assert_eq!(DOTENV_FILENAME, ".env");
}

#[test]
fn main_runs_once_and_last() {
    for on_linux in [true, false] {
        let (mut launch, _) = launch(Some("codex"), Vec::new(), on_linux);
        let exe = Some("/opt/codex".to_string());
        let mut runs = Vec::new();
        for _ in 0..2 {
            for event in [
                LaunchEvent::CurrentExe(exe.clone()),
                LaunchEvent::DotenvLoaded,
                LaunchEvent::PathPrepended(Err("no space".to_string())),
                LaunchEvent::RuntimeCreated(Ok(())),
                LaunchEvent::CurrentExe(exe.clone()),
                LaunchEvent::CurrentExe(exe.clone()),
            ] {
                if let Some(LaunchAction::RunMain { codex_linux_sandbox_exe }) = launch.next(event) {
                    runs.push(codex_linux_sandbox_exe);
                }
            }
        }
        assert_eq!(runs, vec![if on_linux { exe } else { None }]);
    }
}
