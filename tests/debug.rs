use odin_extension::debug::{BuildTaskDefinition, DebugRequest, DebugScenario, LaunchRequest, TaskTemplate};
use odin_extension::extension::OdinExtension;
use odin_extension::platform::Os;

fn strings(v: &[&str]) -> Vec<String> {
    v.iter().map(|s| s.to_string()).collect()
}

fn task(command: &str, args: &[&str], cwd: Option<&str>) -> TaskTemplate {
    TaskTemplate {
        label: "task".to_string(),
        command: command.to_string(),
        args: strings(args),
        env: vec![("ODIN_ROOT".to_string(), "/opt/odin".to_string())],
        cwd: cwd.map(|c| c.to_string()),
    }
}

fn scenario(t: TaskTemplate, label: &str, os: Os) -> Option<DebugScenario> {
    OdinExtension::new().dap_locator_create_scenario(
        "odin-locator".to_string(),
        t,
        label.to_string(),
        "CodeLLDB".to_string(),
        os,
    )
}

fn build_args(s: &DebugScenario) -> Vec<String> {
    match &s.build {
        Some(BuildTaskDefinition::Template { template, .. }) => template.args.clone(),
        _ => panic!("expected a build template"),
    }
}

fn launch(r: Result<DebugRequest, String>) -> LaunchRequest {
    match r {
        Ok(DebugRequest::Launch(l)) => l,
        Ok(DebugRequest::Attach(_)) => panic!("expected a launch request"),
        Err(e) => panic!("unexpected error {e}"),
    }
}

#[test]
fn run_task_becomes_debug_build() {
    let s = scenario(task("odin", &["run", "main.odin"], Some("/proj")), "run: main", Os::Linux).unwrap();
    assert_eq!(build_args(&s), strings(&["build", "main.odin", "-out:debug_build", "-debug"]));
    assert_eq!(s.label, "main");
    assert_eq!(s.adapter, "CodeLLDB");
    assert_eq!(s.config, "null");
    assert!(s.tcp_connection.is_none());
    match &s.build {
        Some(BuildTaskDefinition::Template { template, locator_name }) => {
            assert_eq!(template.label, "odin debug build");
            assert_eq!(template.command, "odin");
            assert_eq!(template.cwd.as_deref(), Some("/proj"));
            assert_eq!(template.env, vec![("ODIN_ROOT".to_string(), "/opt/odin".to_string())]);
            assert_eq!(locator_name.as_deref(), Some("odin-locator"));
        }
        _ => panic!("expected a build template"),
    }
}

#[test]
fn windows_debug_build_is_an_exe() {
    let s = scenario(task("odin", &["run", "."], None), "run: app", Os::Windows).unwrap();
    assert_eq!(build_args(&s), strings(&["build", ".", "-out:debug_build.exe", "-debug"]));
}

#[test]
fn debug_flag_is_not_repeated() {
    let s = scenario(task("odin", &["run", ".", "-debug"], None), "app", Os::Mac).unwrap();
    assert_eq!(build_args(&s), strings(&["build", ".", "-debug", "-out:debug_build"]));
    assert_eq!(s.label, "app");
}

#[test]
fn test_task_builds_tests() {
    let s = scenario(task("odin", &["test", "tests"], None), "test: tests", Os::Linux).unwrap();
    assert_eq!(
        build_args(&s),
        strings(&["build", "tests", "-out:debug_build", "-debug", "-build-mode:test"])
    );
    assert_eq!(s.label, "debug test: tests");
}

#[test]
fn other_tasks_get_no_scenario() {
    assert!(scenario(task("make", &["run"], None), "run: x", Os::Linux).is_none());
    assert!(scenario(task("odin", &[], None), "run: x", Os::Linux).is_none());
    assert!(scenario(task("odin", &["build", "."], None), "x", Os::Linux).is_none());
    assert!(scenario(task("odin", &["check", "run"], None), "x", Os::Linux).is_none());
}

#[test]
fn build_task_gives_launch_request() {
    let mut ext = OdinExtension::new();
    let l = launch(ext.run_dap_locator(
        "odin-locator".to_string(),
        task("odin", &["build", "-out:myprog"], Some("/proj")),
        Os::Linux,
    ));
    assert_eq!(l.program, "/proj/myprog");
    assert_eq!(l.cwd.as_deref(), Some("/proj"));
    assert!(l.args.is_empty());
    assert_eq!(l.envs, vec![("ODIN_ROOT".to_string(), "/opt/odin".to_string())]);
}

#[test]
fn windows_launch_path_uses_backslash() {
    let mut ext = OdinExtension::new();
    let l = launch(ext.run_dap_locator(
        "odin-locator".to_string(),
        task("odin", &["build", ".", "-out:myprog.exe"], Some("/proj")),
        Os::Windows,
    ));
    assert_eq!(l.program, "/proj\\myprog.exe");
}

#[test]
fn first_output_flag_wins() {
    let mut ext = OdinExtension::new();
    let l = launch(ext.run_dap_locator(
        "x".to_string(),
        task("odin", &["build", "-out:first", "-out:second"], Some("/p")),
        Os::Mac,
    ));
    assert_eq!(l.program, "/p/first");
}

#[test]
fn missing_output_flag_fails() {
    let mut ext = OdinExtension::new();
    let r = ext.run_dap_locator("x".to_string(), task("odin", &["build", "."], Some("/proj")), Os::Linux);
    match r {
        Err(e) => assert_eq!(e, "Failed to extract output binary name from build task"),
        Ok(_) => panic!("expected an error"),
    }
}

#[test]
fn non_build_task_fails() {
    let mut ext = OdinExtension::new();
    for t in [
        task("odin", &["run", "-out:x"], Some("/p")),
        task("cargo", &["build", "-out:x"], Some("/p")),
        task("odin", &[], Some("/p")),
    ] {
        match ext.run_dap_locator("x".to_string(), t, Os::Linux) {
            Err(e) => assert_eq!(e, "Not an Odin build task"),
            Ok(_) => panic!("expected an error"),
        }
    }
}

#[test]
fn missing_cwd_fails() {
    let mut ext = OdinExtension::new();
    match ext.run_dap_locator("x".to_string(), task("odin", &["build", "-out:x"], None), Os::Linux) {
        Err(e) => assert_eq!(e, "No cwd in build task"),
        Ok(_) => panic!("expected an error"),
    }
}

#[test]
fn created_build_task_leads_to_its_binary() {
    let mut ext = OdinExtension::new();
    let s = ext
        .dap_locator_create_scenario(
            "odin-locator".to_string(),
            task("odin", &["run", "main.odin"], Some("/proj")),
            "run: main".to_string(),
            "CodeLLDB".to_string(),
            Os::Linux,
        )
        .unwrap();
    let template = match s.build {
        Some(BuildTaskDefinition::Template { template, .. }) => template,
        _ => panic!("expected a build template"),
    };
    let build = TaskTemplate {
        label: template.label,
        command: template.command,
        args: template.args,
        env: template.env,
        cwd: template.cwd,
    };
    let l = launch(ext.run_dap_locator("odin-locator".to_string(), build, Os::Linux));
    assert_eq!(l.program, "/proj/debug_build");
}
