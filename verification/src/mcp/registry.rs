//! The fixed name→tool mapping: exactly `exec`, `fs_read` and
//! `fs_write`, sorted by name for stable enumeration, with
//! case-sensitive exact lookup.

use vstd::prelude::*;
use crate::config::Config;
use crate::errors::AppError;
use crate::text::str_eq;
use crate::tools::exec::ExecTool;
use crate::tools::fs_read::FsReadTool;
use crate::tools::fs_write::FsWriteTool;

verus! {

/// One of the three tools, selected by name.
pub enum ToolEntry {
    Exec(ExecTool),
    FsRead(FsReadTool),
    FsWrite(FsWriteTool),
}

impl ToolEntry {
    /// The name the registry lists the tool under.
    pub open spec fn name_view(self) -> Seq<char> {
        match self {
            ToolEntry::Exec(_) => "exec"@,
            ToolEntry::FsRead(_) => "fs_read"@,
            ToolEntry::FsWrite(_) => "fs_write"@,
        }
    }
}

/// The registry, built once at startup.
pub struct ToolRegistry {
    pub tools: Vec<(String, ToolEntry)>,
}

impl ToolRegistry {
    /// Exactly the three tools, each under its name, sorted.
    pub open spec fn wf(self) -> bool {
        &&& self.tools@.len() == 3
        &&& self.tools@[0].0@ == "exec"@ && self.tools@[0].1 is Exec
        &&& self.tools@[1].0@ == "fs_read"@ && self.tools@[1].1 is FsRead
        &&& self.tools@[2].0@ == "fs_write"@ && self.tools@[2].1 is FsWrite
    }

    /// Build the registry over the configuration. Only the exec tool
    /// can refuse, when an allowed command does not resolve; its allow
    /// set carries one canonical path per configured command.
    pub fn new(cfg: &Config) -> (r: Result<Self, AppError>)
        ensures
            r is Ok ==> r->Ok_0.wf(),
            r is Ok ==> (r->Ok_0.tools@[0].1 matches ToolEntry::Exec(t) && t.allowed@.len()
                == cfg.exec_policy.allowed_cmds@.len()),
            cfg.exec_policy.allowed_cmds@.len() == 0 ==> r is Ok,
            r is Err ==> r->Err_0 is Internal,
    {
        let exec_tool = match ExecTool::new(cfg) {
            Ok(t) => t,
            Err(e) => {
                return Err(e);
            },
        };
        let mut tools: Vec<(String, ToolEntry)> = Vec::new();
        tools.push((String::from_str("exec"), ToolEntry::Exec(exec_tool)));
        tools.push((String::from_str("fs_read"), ToolEntry::FsRead(FsReadTool::new(cfg))));
        tools.push((String::from_str("fs_write"), ToolEntry::FsWrite(FsWriteTool::new(cfg))));
        Ok(ToolRegistry { tools })
    }

    /// Case-sensitive exact lookup: a tool for exactly the three
    /// registered names, nothing for any other.
    pub fn get(&self, name: &str) -> (r: Option<&ToolEntry>)
        requires
            self.wf(),
        ensures
            match r {
                Some(t) => t.name_view() == name@,
                None => name@ != "exec"@ && name@ != "fs_read"@ && name@ != "fs_write"@,
            },
    {
        if str_eq(name, "exec") {
            Some(&self.tools[0].1)
        } else if str_eq(name, "fs_read") {
            Some(&self.tools[1].1)
        } else if str_eq(name, "fs_write") {
            Some(&self.tools[2].1)
        } else {
            None
        }
    }

    /// The tool names, in sorted order.
    pub fn list_names(&self) -> (r: Vec<String>)
        requires
            self.wf(),
        ensures
            r@.len() == 3,
            r@[0]@ == "exec"@,
            r@[1]@ == "fs_read"@,
            r@[2]@ == "fs_write"@,
    {
        let mut names: Vec<String> = Vec::new();
        names.push(self.tools[0].0.clone());
        names.push(self.tools[1].0.clone());
        names.push(self.tools[2].0.clone());
        names
    }
}

} // verus!
