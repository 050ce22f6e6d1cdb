//! Debugging Odin programs: a `run` or `test` task becomes a debug build of the
//! program, and that build in turn tells the debugger what to launch.

use vstd::prelude::*;
use crate::extension::OdinExtension;
use crate::json::null_json;
use crate::platform::{exe_suffix, exe_suffix_spec, Os};
use crate::text::{same_text, starts_with_text};

verus! {

/// A task as the editor resolved it: a command with arguments, environment
/// and working directory.
pub struct TaskTemplate {
    pub label: String,
    pub command: String,
    pub args: Vec<String>,
    pub env: Vec<(String, String)>,
    pub cwd: Option<String>,
}

/// A task that builds the program before a debug session starts.
pub struct BuildTaskTemplate {
    pub label: String,
    pub command: String,
    pub args: Vec<String>,
    pub env: Vec<(String, String)>,
    pub cwd: Option<String>,
}

/// How a debug scenario builds its program: by naming an existing task, or
/// with a task of its own that the named locator later turns into a launch.
pub enum BuildTaskDefinition {
    ByName(String),
    Template { template: BuildTaskTemplate, locator_name: Option<String> },
}

/// Connection parameters for a debug adapter reached over TCP.
pub struct TcpArgumentsTemplate {
    pub port: Option<u16>,
    pub host: Option<u32>,
    pub timeout: Option<u64>,
}

/// A debug scenario: what to debug, with which adapter, after which build,
/// and the adapter's configuration as JSON text.
pub struct DebugScenario {
    pub label: String,
    pub adapter: String,
    pub build: Option<BuildTaskDefinition>,
    pub config: String,
    pub tcp_connection: Option<TcpArgumentsTemplate>,
}

/// Start a program under the debugger.
pub struct LaunchRequest {
    pub program: String,
    pub cwd: Option<String>,
    pub args: Vec<String>,
    pub envs: Vec<(String, String)>,
}

/// Attach the debugger to a running process.
pub struct AttachRequest {
    pub process_id: Option<u32>,
}

/// What the debugger is asked to do.
pub enum DebugRequest {
    Launch(LaunchRequest),
    Attach(AttachRequest),
}

/// The toolchain command that every handled task runs.
pub open spec fn toolchain() -> Seq<char> {
    "odin"@
}

/// The flag that names the build output.
pub open spec fn out_flag() -> Seq<char> {
    "-out:"@
}

/// The name of the binary that a debug build writes.
pub open spec fn debug_binary_name(os: Os) -> Seq<char> {
    "debug_build"@ + exe_suffix_spec(os)
}

/// A task is the toolchain run with `verb` as its first argument.
pub open spec fn is_toolchain_task(command: Seq<char>, args: Seq<Seq<char>>, verb: Seq<char>) -> bool {
    command == toolchain() && args.len() > 0 && args[0] == verb
}

/// The arguments of the debug build made from a `run` or `test` task: the verb
/// becomes `build`, the output is named, debug information is asked for when
/// it was not already, and a test task builds its tests.
pub open spec fn debug_build_args(args: Seq<Seq<char>>, os: Os, is_test: bool) -> Seq<Seq<char>> {
    let named = seq!["build"@] + args.drop_first() + seq![out_flag() + debug_binary_name(os)];
    let debug = if args.drop_first().contains("-debug"@) {
        named
    } else {
        named.push("-debug"@)
    };
    if is_test {
        debug.push("-build-mode:test"@)
    } else {
        debug
    }
}

/// `s` without the prefix `p`, when it starts with it.
pub open spec fn strip_prefix_spec(s: Seq<char>, p: Seq<char>) -> Seq<char> {
    if p.is_prefix_of(s) {
        s.subrange(p.len() as int, s.len() as int)
    } else {
        s
    }
}

/// The label of the debug scenario: the editor's label without its verb
/// prefix, since the editor adds its own; test scenarios are marked as such.
pub open spec fn scenario_label(resolved: Seq<char>, is_test: bool) -> Seq<char> {
    if is_test {
        "debug test: "@ + strip_prefix_spec(resolved, "test: "@)
    } else {
        strip_prefix_spec(resolved, "run: "@)
    }
}

/// The output name given by the first `-out:` argument, if any.
pub open spec fn output_name(args: Seq<Seq<char>>) -> Option<Seq<char>>
    decreases args.len(),
{
    if args.len() == 0 {
        None
    } else if out_flag().is_prefix_of(args[0]) {
        Some(args[0].subrange(5, args[0].len() as int))
    } else {
        output_name(args.drop_first())
    }
}

/// The separator between directory and file names on the platform.
pub open spec fn path_separator(os: Os) -> Seq<char> {
    match os {
        Os::Windows => "\\"@,
        _ => "/"@,
    }
}

/// The error for a task that is not an `odin build`.
pub open spec fn not_build_task_message() -> Seq<char> {
    "Not an Odin build task"@
}

/// The error for a build task that does not name its output.
pub open spec fn no_output_message() -> Seq<char> {
    "Failed to extract output binary name from build task"@
}

/// The error for a build task without a working directory.
pub open spec fn no_cwd_message() -> Seq<char> {
    "No cwd in build task"@
}

/// A launch request as text.
pub struct LaunchView {
    pub program: Seq<char>,
    pub cwd: Option<Seq<char>>,
    pub args: Seq<Seq<char>>,
    pub envs: Seq<(Seq<char>, Seq<char>)>,
}

impl View for LaunchRequest {
    type V = LaunchView;

    open spec fn view(&self) -> LaunchView {
        LaunchView {
            program: self.program@,
            cwd: self.cwd.deep_view(),
            args: self.args.deep_view(),
            envs: self.envs.deep_view(),
        }
    }
}

/// The launch that a debug build task leads to: the program it writes,
/// given by an absolute path under the task's working directory, started
/// there with no arguments and with the task's environment. The task must
/// be an `odin build`, name its output and have a working directory.
pub open spec fn launch_for_build(task: TaskTemplate, os: Os) -> Result<LaunchView, Seq<char>> {
    let args = task.args.deep_view();
    if !is_toolchain_task(task.command@, args, "build"@) {
        Err(not_build_task_message())
    } else if output_name(args) is None {
        Err(no_output_message())
    } else if task.cwd is None {
        Err(no_cwd_message())
    } else {
        Ok(
            LaunchView {
                program: task.cwd->0@ + path_separator(os) + output_name(args)->0,
                cwd: task.cwd.deep_view(),
                args: seq![],
                envs: task.env.deep_view(),
            },
        )
    }
}

/// The launch request returned, or the error message.
pub open spec fn request_outcome(r: Result<DebugRequest, String>) -> Option<Result<LaunchView, Seq<char>>> {
    match r {
        Ok(DebugRequest::Launch(l)) => Some(Ok(l@)),
        Ok(DebugRequest::Attach(_)) => None,
        Err(e) => Some(Err(e@)),
    }
}

proof fn lemma_output_name_step(args: Seq<Seq<char>>, i: int)
    requires
        0 <= i < args.len(),
    ensures
        output_name(args.subrange(i, args.len() as int)) == if out_flag().is_prefix_of(args[i]) {
            Some(args[i].subrange(5, args[i].len() as int))
        } else {
            output_name(args.subrange(i + 1, args.len() as int))
        },
{
    let s = args.subrange(i, args.len() as int);
    assert(s[0] == args[i]);
    assert(s.drop_first() =~= args.subrange(i + 1, args.len() as int));
}

/// The name after the first `-out:` argument, if there is one.
fn find_output_name(args: &Vec<String>) -> (r: Option<String>)
    ensures
        r.deep_view() == output_name(args.deep_view()),
{
    let ghost a = args.deep_view();
    proof {
        reveal_strlit("-out:");
        assert(a.subrange(0, a.len() as int) =~= a);
    }
    let mut i: usize = 0;
    while i < args.len()
        invariant
            i <= args.len(),
            a == args.deep_view(),
            output_name(a) == output_name(a.subrange(i as int, a.len() as int)),
        decreases args.len() - i,
    {
        proof {
            lemma_output_name_step(a, i as int);
        }
        let arg = args[i].as_str();
        if starts_with_text(arg, "-out:") {
            let n = arg.unicode_len();
            proof {
                reveal_strlit("-out:");
                assert("-out:"@.len() == 5);
            }
            return Some(String::from_str(arg.substring_char(5, n)));
        }
        i = i + 1;
    }
    assert(a.subrange(i as int, a.len() as int) =~= Seq::<Seq<char>>::empty());
    None
}

proof fn lemma_output_name_concat(a: Seq<Seq<char>>, b: Seq<Seq<char>>)
    ensures
        output_name(a + b) == if output_name(a) is Some {
            output_name(a)
        } else {
            output_name(b)
        },
    decreases a.len(),
{
    if a.len() == 0 {
        assert(a + b =~= b);
    } else {
        assert((a + b)[0] == a[0]);
        assert((a + b).drop_first() =~= a.drop_first() + b);
        lemma_output_name_concat(a.drop_first(), b);
    }
}

/// The debug build made from a `run` or `test` task is an `odin build` whose
/// output, when the task named none of its own, is the debug binary: so the
/// launch read off it starts that binary.
pub proof fn lemma_debug_build_names_its_binary(args: Seq<Seq<char>>, os: Os, is_test: bool)
    requires
        args.len() > 0,
        output_name(args.drop_first()) is None,
    ensures
        is_toolchain_task(toolchain(), debug_build_args(args, os, is_test), "build"@),
        output_name(debug_build_args(args, os, is_test)) == Some(debug_binary_name(os)),
{
    reveal_strlit("build");
    reveal_strlit("-out:");
    reveal_strlit("-debug");
    reveal_strlit("-build-mode:test");
    let head = seq!["build"@];
    let tail = args.drop_first();
    let flag = out_flag() + debug_binary_name(os);
    assert(!out_flag().is_prefix_of("build"@)) by {
        assert("build"@[0] != out_flag()[0]);
    }
    assert(output_name(head) is None) by {
        assert(head[0] == "build"@);
        assert(head.drop_first() =~= Seq::<Seq<char>>::empty());
        reveal_with_fuel(output_name, 2);
    }
    assert(out_flag().is_prefix_of(flag)) by {
        assert(flag.subrange(0, 5) =~= out_flag());
    }
    assert(flag.subrange(5, flag.len() as int) =~= debug_binary_name(os));
    let last = seq![flag];
    assert(output_name(last) == Some(debug_binary_name(os)));
    lemma_output_name_concat(head, tail);
    lemma_output_name_concat(head + tail, last);
    let named = head + tail + last;
    assert(output_name(named) == Some(debug_binary_name(os)));
    let debug = if tail.contains("-debug"@) { named } else { named.push("-debug"@) };
    lemma_output_name_concat(named, seq!["-debug"@]);
    assert(named.push("-debug"@) =~= named + seq!["-debug"@]);
    assert(output_name(debug) == Some(debug_binary_name(os)));
    lemma_output_name_concat(debug, seq!["-build-mode:test"@]);
    assert(debug.push("-build-mode:test"@) =~= debug + seq!["-build-mode:test"@]);
    assert(debug_build_args(args, os, is_test)[0] == "build"@);
}

/// Whether some argument is exactly `flag`.
fn has_arg(args: &Vec<String>, flag: &str) -> (r: bool)
    ensures
        r == args.deep_view().contains(flag@),
{
    let mut i: usize = 0;
    while i < args.len()
        invariant
            i <= args.len(),
            forall|j: int| 0 <= j < i ==> args.deep_view()[j] != flag@,
        decreases args.len() - i,
    {
        if same_text(args[i].as_str(), flag) {
            assert(args.deep_view()[i as int] == flag@);
            return true;
        }
        i = i + 1;
    }
    false
}

/// A copy of the environment.
fn copy_env(env: &Vec<(String, String)>) -> (r: Vec<(String, String)>)
    ensures
        r.deep_view() == env.deep_view(),
{
    let mut out: Vec<(String, String)> = Vec::new();
    let mut i: usize = 0;
    while i < env.len()
        invariant
            i <= env.len(),
            out.deep_view() == env.deep_view().subrange(0, i as int),
        decreases env.len() - i,
    {
        let (k, v) = &env[i];
        let pair = (k.clone(), v.clone());
        let ghost before = out.deep_view();
        out.push(pair);
        assert(out.deep_view() =~= before.push((k@, v@)));
        assert(out.deep_view() =~= env.deep_view().subrange(0, i + 1));
        i = i + 1;
    }
    assert(env.deep_view().subrange(0, env.len() as int) =~= env.deep_view());
    out
}

/// A copy of an optional string.
fn copy_opt(s: &Option<String>) -> (r: Option<String>)
    ensures
        r.deep_view() == s.deep_view(),
{
    match s {
        Some(t) => Some(t.clone()),
        None => None,
    }
}

/// Whether the task is the toolchain run with `verb` first.
fn is_toolchain_task_exec(task: &TaskTemplate, verb: &str) -> (r: bool)
    ensures
        r == is_toolchain_task(task.command@, task.args.deep_view(), verb@),
{
    proof {
        reveal_strlit("odin");
    }
    same_text(task.command.as_str(), "odin") && task.args.len() > 0 && same_text(
        task.args[0].as_str(),
        verb,
    )
}

/// `s` without the prefix `p`, when it starts with it.
fn strip_prefix(s: &str, p: &str) -> (r: String)
    ensures
        r@ == strip_prefix_spec(s@, p@),
{
    if starts_with_text(s, p) {
        let n = s.unicode_len();
        let m = p.unicode_len();
        String::from_str(s.substring_char(m, n))
    } else {
        String::from_str(s)
    }
}

/// What a debug scenario made from `task` holds: the adapter and label, an
/// empty (`null`) configuration, and a debug build of the task that the
/// locator `locator` will turn into a launch.
pub open spec fn is_debug_build_scenario(
    s: DebugScenario,
    locator: Seq<char>,
    task: TaskTemplate,
    resolved: Seq<char>,
    adapter: Seq<char>,
    os: Os,
) -> bool {
    let is_test = task.args.deep_view()[0] == "test"@;
    &&& s.adapter@ == adapter
    &&& s.label@ == scenario_label(resolved, is_test)
    &&& s.config@ == "null"@
    &&& s.tcp_connection is None
    &&& match s.build {
        Some(BuildTaskDefinition::Template { template, locator_name }) => {
            &&& template.label@ == "odin debug build"@
            &&& template.command@ == task.command@
            &&& template.args.deep_view() == debug_build_args(task.args.deep_view(), os, is_test)
            &&& template.env.deep_view() == task.env.deep_view()
            &&& template.cwd.deep_view() == task.cwd.deep_view()
            &&& locator_name.deep_view() == Some(locator)
        },
        _ => false,
    }
}

impl OdinExtension {
    /// Turns an `odin run` or `odin test` task into a debug scenario whose
    /// build step compiles the program with debug information under a known
    /// name. Any other task gets no scenario, so that other locators can try.
    pub fn dap_locator_create_scenario(
        &mut self,
        locator_name: String,
        build_task: TaskTemplate,
        resolved_label: String,
        debug_adapter_name: String,
        os: Os,
    ) -> (r: Option<DebugScenario>)
        ensures
            final(self).cached_binary_path == old(self).cached_binary_path,
            r is Some <==> (is_toolchain_task(build_task.command@, build_task.args.deep_view(), "run"@)
                || is_toolchain_task(build_task.command@, build_task.args.deep_view(), "test"@)),
            r matches Some(s) ==> is_debug_build_scenario(
                s,
                locator_name@,
                build_task,
                resolved_label@,
                debug_adapter_name@,
                os,
            ),
    {
        let is_run = is_toolchain_task_exec(&build_task, "run");
        let is_test = is_toolchain_task_exec(&build_task, "test");
        if !is_run && !is_test {
            return None;
        }
        let ghost args = build_task.args.deep_view();
        proof {
            reveal_strlit("run");
            reveal_strlit("test");
            assert(is_test == (args[0] == "test"@));
        }
        let mut build_args: Vec<String> = Vec::new();
        build_args.push(String::from_str("build"));
        let mut i: usize = 1;
        while i < build_task.args.len()
            invariant
                1 <= i <= build_task.args.len(),
                args == build_task.args.deep_view(),
                build_args.deep_view() == seq!["build"@] + args.subrange(1, i as int),
            decreases build_task.args.len() - i,
        {
            let a = build_task.args[i].clone();
            let ghost before = build_args.deep_view();
            build_args.push(a);
            assert(build_args.deep_view() =~= before.push(args[i as int]));
            assert(build_args.deep_view() =~= seq!["build"@] + args.subrange(1, i + 1));
            i = i + 1;
        }
        assert(args.subrange(1, args.len() as int) =~= args.drop_first());
        let mut out = String::from_str("-out:debug_build");
        out.append(exe_suffix(os));
        let ghost before = build_args.deep_view();
        build_args.push(out);
        proof {
            reveal_strlit("-out:debug_build");
            reveal_strlit("-out:");
            reveal_strlit("debug_build");
            assert("-out:debug_build"@ =~= out_flag() + "debug_build"@);
            assert(out@ =~= out_flag() + debug_binary_name(os));
            assert(build_args.deep_view() =~= before.push(out_flag() + debug_binary_name(os)));
        }
        let had_debug = has_arg(&build_task.args, "-debug");
        proof {
            let tail = args.drop_first();
            if tail.contains("-debug"@) {
                let k = choose|k: int| 0 <= k < tail.len() && tail[k] == "-debug"@;
                assert(args[k + 1] == "-debug"@);
            } else if args.contains("-debug"@) {
                let k = choose|k: int| 0 <= k < args.len() && args[k] == "-debug"@;
                if k > 0 {
                    assert(tail[k - 1] == "-debug"@);
                }
                reveal_strlit("-debug");
                assert(args[0] == "run"@ || args[0] == "test"@);
                assert("run"@.len() != "-debug"@.len());
                assert("test"@.len() != "-debug"@.len());
                assert(args[0] != "-debug"@);
            }
        }
        let ghost named = build_args.deep_view();
        if !had_debug {
            build_args.push(String::from_str("-debug"));
            assert(build_args.deep_view() =~= named.push("-debug"@));
        }
        let ghost debug = build_args.deep_view();
        if is_test {
            build_args.push(String::from_str("-build-mode:test"));
            assert(build_args.deep_view() =~= debug.push("-build-mode:test"@));
        }
        assert(build_args.deep_view() =~= debug_build_args(args, os, is_test));
        let template = BuildTaskTemplate {
            label: String::from_str("odin debug build"),
            command: build_task.command.clone(),
            args: build_args,
            env: copy_env(&build_task.env),
            cwd: copy_opt(&build_task.cwd),
        };
        let config = match null_json() {
            Ok(text) => text,
            Err(_) => {
                return None;
            },
        };
        let label = if is_test {
            let mut l = String::from_str("debug test: ");
            let rest = strip_prefix(resolved_label.as_str(), "test: ");
            l.append(rest.as_str());
            l
        } else {
            strip_prefix(resolved_label.as_str(), "run: ")
        };
        Some(
            DebugScenario {
                adapter: debug_adapter_name,
                label,
                config,
                tcp_connection: None,
                build: Some(
                    BuildTaskDefinition::Template { template, locator_name: Some(locator_name) },
                ),
            },
        )
    }
    /// Reads the launch request off a debug build task made by
    /// `dap_locator_create_scenario`: the program is the build's output,
    /// under the task's working directory.
    pub fn run_dap_locator(&mut self, locator_name: String, build_task: TaskTemplate, os: Os) -> (r:
        Result<DebugRequest, String>)
        ensures
            final(self).cached_binary_path == old(self).cached_binary_path,
            request_outcome(r) == Some(launch_for_build(build_task, os)),
    {
        if !is_toolchain_task_exec(&build_task, "build") {
            return Err(String::from_str("Not an Odin build task"));
        }
        let output = match find_output_name(&build_task.args) {
            Some(name) => name,
            None => {
                return Err(String::from_str("Failed to extract output binary name from build task"));
            },
        };
        let cwd = match &build_task.cwd {
            Some(dir) => dir.clone(),
            None => {
                return Err(String::from_str("No cwd in build task"));
            },
        };
        let separator: &str = match os {
            Os::Windows => "\\",
            _ => "/",
        };
        let mut program = cwd;
        program.append(separator);
        program.append(output.as_str());
        let envs = copy_env(&build_task.env);
        let request = LaunchRequest { program, cwd: build_task.cwd, args: Vec::new(), envs };
        assert(request@.args =~= seq![]);
        Ok(DebugRequest::Launch(request))
    }
}

} // verus!
