use odin_extension::config::DebugConfig;
use odin_extension::debug::{AttachRequest, DebugRequest, LaunchRequest, TaskTemplate};
use odin_extension::extension::OdinExtension;
use odin_extension::platform::Os;

fn config(request: DebugRequest, stop_on_entry: Option<bool>) -> DebugConfig {
    DebugConfig {
        label: "Debug app".to_string(),
        adapter: "CodeLLDB".to_string(),
        request,
        stop_on_entry,
    }
}

fn config_text(c: DebugConfig) -> String {
    let s = OdinExtension::new().dap_config_to_scenario(c).unwrap();
    assert_eq!(s.label, "Debug app");
    assert_eq!(s.adapter, "CodeLLDB");
    assert!(s.build.is_none());
    assert!(s.tcp_connection.is_none());
    s.config
}

#[test]
fn full_launch_config() {
    let launch = LaunchRequest {
        program: "/proj/app".to_string(),
        cwd: Some("/proj".to_string()),
        args: vec!["a".to_string(), "b".to_string()],
        envs: vec![("K".to_string(), "V".to_string()), ("X".to_string(), "1".to_string())],
    };
    let text = config_text(config(DebugRequest::Launch(launch), Some(true)));
    assert_eq!(
        text,
        r#"{"args":["a","b"],"cwd":"/proj","env":[["K","V"],["X","1"]],"program":"/proj/app","request":"launch","stopOnEntry":true}"#
    );
}

#[test]
fn minimal_launch_config_leaves_out_empty_fields() {
    let launch = LaunchRequest { program: "app".to_string(), cwd: None, args: vec![], envs: vec![] };
    let text = config_text(config(DebugRequest::Launch(launch), None));
    assert_eq!(text, r#"{"program":"app","request":"launch"}"#);
}

#[test]
fn attach_config() {
    let text = config_text(config(DebugRequest::Attach(AttachRequest { process_id: Some(4242) }), Some(false)));
    assert_eq!(text, r#"{"pid":4242,"request":"attach","stopOnEntry":false}"#);
    let text = config_text(config(DebugRequest::Attach(AttachRequest { process_id: None }), None));
    assert_eq!(text, r#"{"pid":null,"request":"attach"}"#);
}

#[test]
fn strings_are_escaped() {
    let launch = LaunchRequest {
        program: "C:\\odin \"app\"".to_string(),
        cwd: None,
        args: vec!["line\nbreak".to_string()],
        envs: vec![],
    };
    let text = config_text(config(DebugRequest::Launch(launch), None));
    assert_eq!(text, r#"{"args":["line\nbreak"],"program":"C:\\odin \"app\"","request":"launch"}"#);
}

#[test]
fn located_launch_request_survives_the_config() {
    let mut ext = OdinExtension::new();
    let t = TaskTemplate {
        label: "build".to_string(),
        command: "odin".to_string(),
        args: vec!["build".to_string(), "-out:myprog".to_string()],
        env: vec![("ODIN_ROOT".to_string(), "/opt/odin".to_string())],
        cwd: Some("/proj".to_string()),
    };
    let request = ext.run_dap_locator("odin".to_string(), t, Os::Linux).unwrap();
    let s = ext.dap_config_to_scenario(config(request, None)).unwrap();
    let value: serde_json::Value = serde_json::from_str(&s.config).unwrap();
    assert_eq!(value["program"], "/proj/myprog");
    assert_eq!(value["cwd"], "/proj");
    assert_eq!(value["request"], "launch");
    assert!(value.get("args").is_none());
    assert_eq!(value["env"][0][0], "ODIN_ROOT");
    assert_eq!(value["env"][0][1], "/opt/odin");
}
