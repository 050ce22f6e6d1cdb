//! Debug configurations made in the editor, turned into the JSON object that
//! the debug adapter reads.

use vstd::prelude::*;
use crate::debug::{DebugRequest, DebugScenario, LaunchView};
use crate::extension::OdinExtension;
use crate::json::{
    entry_each, entry_text, json_string_text, lookup, object_text, push_quoted, write_list,
    write_number, write_object, write_pairs, JsonField,
};

verus! {

/// A debug session as the user described it.
pub struct DebugConfig {
    pub label: String,
    pub adapter: String,
    pub request: DebugRequest,
    pub stop_on_entry: Option<bool>,
}

/// The entries of a launch configuration, in key order: the arguments and the
/// environment only when there are any, the working directory when given.
pub open spec fn launch_fields(l: LaunchView) -> Seq<(Seq<char>, JsonField)> {
    (if l.args.len() > 0 {
        seq![("args"@, JsonField::List(l.args))]
    } else {
        seq![]
    }) + (match l.cwd {
        Some(c) => seq![("cwd"@, JsonField::Text(c))],
        None => seq![],
    }) + (if l.envs.len() > 0 {
        seq![("env"@, JsonField::Pairs(l.envs))]
    } else {
        seq![]
    }) + seq![("program"@, JsonField::Text(l.program)), ("request"@, JsonField::Text("launch"@))]
}

/// The entries of the configuration object, in key order.
pub open spec fn config_fields(c: DebugConfig) -> Seq<(Seq<char>, JsonField)> {
    let body = match c.request {
        DebugRequest::Launch(l) => launch_fields(l@),
        DebugRequest::Attach(a) => seq![
            ("pid"@, JsonField::Pid(a.process_id)),
            ("request"@, JsonField::Text("attach"@)),
        ],
    };
    match c.stop_on_entry {
        Some(b) => body.push(("stopOnEntry"@, JsonField::Flag(b))),
        None => body,
    }
}

/// The launch request that a configuration object describes, reading an
/// absent argument list or environment as empty.
pub open spec fn read_launch(fields: Seq<(Seq<char>, JsonField)>) -> Option<LaunchView> {
    match (lookup(fields, "request"@), lookup(fields, "program"@)) {
        (Some(JsonField::Text(req)), Some(JsonField::Text(program))) => if req == "launch"@ {
            Some(
                LaunchView {
                    program,
                    cwd: match lookup(fields, "cwd"@) {
                        Some(JsonField::Text(c)) => Some(c),
                        _ => None,
                    },
                    args: match lookup(fields, "args"@) {
                        Some(JsonField::List(a)) => a,
                        _ => seq![],
                    },
                    envs: match lookup(fields, "env"@) {
                        Some(JsonField::Pairs(e)) => e,
                        _ => seq![],
                    },
                },
            )
        } else {
            None
        },
        _ => None,
    }
}

/// A launch request survives the trip into a configuration object: reading
/// the object back gives the same program, working directory, arguments and
/// environment, whatever the label, adapter and stop-on-entry setting. This
/// holds in particular of every request that `run_dap_locator` produces.
pub proof fn lemma_launch_config_round_trip(config: DebugConfig)
    requires
        config.request is Launch,
    ensures
        read_launch(config_fields(config)) == Some(config.request->Launch_0@),
{
    let l = config.request->Launch_0@;
    let fs = config_fields(config);
    reveal_strlit("args");
    reveal_strlit("cwd");
    reveal_strlit("env");
    reveal_strlit("program");
    reveal_strlit("request");
    reveal_strlit("launch");
    reveal_strlit("stopOnEntry");
    reveal_with_fuel(lookup, 8);
    assert("args"@[0] != "request"@[0] && "args"@[0] != "program"@[0] && "args"@[0] != "cwd"@[0]);
    assert("cwd"@[0] != "request"@[0] && "cwd"@[0] != "program"@[0] && "cwd"@[0] != "env"@[0]);
    assert("env"@[0] != "request"@[0] && "env"@[0] != "program"@[0] && "env"@[0] != "args"@[0]);
    assert("program"@[0] != "request"@[0] && "program"@[1] != "request"@[1]);
    assert("stopOnEntry"@[0] != "request"@[0]);
    let lf = launch_fields(l);
    assert(lf.len() >= 2);
    assert(lf[lf.len() - 1] == ("request"@, JsonField::Text("launch"@)));
    assert(lf[lf.len() - 2] == ("program"@, JsonField::Text(l.program)));
    if l.args.len() == 0 {
        assert(l.args =~= seq![]);
    }
    if l.envs.len() == 0 {
        assert(l.envs =~= seq![]);
    }
}

proof fn lemma_entry_each_push(fs: Seq<(Seq<char>, JsonField)>, e: (Seq<char>, JsonField))
    ensures
        entry_each(fs.push(e)) == entry_each(fs).push(entry_text(e)),
{
    assert(entry_each(fs.push(e)) =~= entry_each(fs).push(entry_text(e)));
}

/// Adds the entry `key: value`, where `value` is already JSON text.
fn push_entry(parts: &mut Vec<String>, key: &str, value: String)
    ensures
        final(parts).deep_view() == old(parts).deep_view().push(
            json_string_text(key@) + ":"@ + value@,
        ),
{
    let mut entry = String::new();
    push_quoted(&mut entry, key);
    entry.append(":");
    entry.append(value.as_str());
    let ghost before = parts.deep_view();
    parts.push(entry);
    assert(parts.deep_view() =~= before.push(json_string_text(key@) + ":"@ + value@));
}

/// A JSON string literal.
fn quoted(s: &str) -> (r: String)
    ensures
        r@ == json_string_text(s@),
{
    let mut out = String::new();
    push_quoted(&mut out, s);
    out
}

impl OdinExtension {
    /// The debug scenario for a configuration: the same adapter and label,
    /// with the request written as the adapter's JSON configuration.
    pub fn dap_config_to_scenario(&mut self, config: DebugConfig) -> (r: Result<DebugScenario, String>)
        ensures
            final(self).cached_binary_path == old(self).cached_binary_path,
            r is Ok,
            r matches Ok(s) ==> {
                &&& s.adapter@ == config.adapter@
                &&& s.label@ == config.label@
                &&& s.config@ == object_text(config_fields(config))
                &&& s.build is None
                &&& s.tcp_connection is None
            },
    {
        let ghost fields = config_fields(config);
        let mut parts: Vec<String> = Vec::new();
        let ghost mut fs: Seq<(Seq<char>, JsonField)> = seq![];
        match &config.request {
            DebugRequest::Launch(launch) => {
                if launch.args.len() > 0 {
                    push_entry(&mut parts, "args", write_list(&launch.args));
                    proof {
                        lemma_entry_each_push(fs, ("args"@, JsonField::List(launch.args.deep_view())));
                        fs = fs.push(("args"@, JsonField::List(launch.args.deep_view())));
                    }
                }
                if let Some(cwd) = &launch.cwd {
                    push_entry(&mut parts, "cwd", quoted(cwd.as_str()));
                    proof {
                        lemma_entry_each_push(fs, ("cwd"@, JsonField::Text(cwd@)));
                        fs = fs.push(("cwd"@, JsonField::Text(cwd@)));
                    }
                }
                if launch.envs.len() > 0 {
                    push_entry(&mut parts, "env", write_pairs(&launch.envs));
                    proof {
                        lemma_entry_each_push(fs, ("env"@, JsonField::Pairs(launch.envs.deep_view())));
                        fs = fs.push(("env"@, JsonField::Pairs(launch.envs.deep_view())));
                    }
                }
                push_entry(&mut parts, "program", quoted(launch.program.as_str()));
                proof {
                    lemma_entry_each_push(fs, ("program"@, JsonField::Text(launch.program@)));
                    fs = fs.push(("program"@, JsonField::Text(launch.program@)));
                }
                push_entry(&mut parts, "request", quoted("launch"));
                proof {
                    lemma_entry_each_push(fs, ("request"@, JsonField::Text("launch"@)));
                    fs = fs.push(("request"@, JsonField::Text("launch"@)));
                    assert(fs =~= launch_fields(launch@));
                }
            },
            DebugRequest::Attach(attach) => {
                let pid = match attach.process_id {
                    Some(n) => write_number(n),
                    None => String::from_str("null"),
                };
                push_entry(&mut parts, "pid", pid);
                proof {
                    lemma_entry_each_push(fs, ("pid"@, JsonField::Pid(attach.process_id)));
                    fs = fs.push(("pid"@, JsonField::Pid(attach.process_id)));
                }
                push_entry(&mut parts, "request", quoted("attach"));
                proof {
                    lemma_entry_each_push(fs, ("request"@, JsonField::Text("attach"@)));
                    fs = fs.push(("request"@, JsonField::Text("attach"@)));
                }
            },
        }
        if let Some(stop) = config.stop_on_entry {
            let flag = if stop {
                String::from_str("true")
            } else {
                String::from_str("false")
            };
            push_entry(&mut parts, "stopOnEntry", flag);
            proof {
                lemma_entry_each_push(fs, ("stopOnEntry"@, JsonField::Flag(stop)));
                fs = fs.push(("stopOnEntry"@, JsonField::Flag(stop)));
            }
        }
        assert(fs =~= fields);
        assert(parts.deep_view() =~= entry_each(fields));
        let text = write_object(&parts);
        Ok(
            DebugScenario {
                adapter: config.adapter,
                label: config.label,
                config: text,
                tcp_connection: None,
                build: None,
            },
        )
    }
}

} // verus!
