use std::collections::HashMap;
use vstd::prelude::*;

verus! {

/// Declares `serde_json::Value` so that tasks can carry the task runner's
/// JSON configuration (environment, tools, usage) through unchanged; nothing
/// here reads it.
#[verifier::external_type_specification]
#[verifier::external_body]
pub struct ExJsonValue(serde_json::Value);

/// A task as listed by the task runner. Replaced wholesale on refresh.
pub struct MiseTask {
    pub name: String,
    pub aliases: Vec<String>,
    pub description: String,
    pub source: String,
    pub depends: Vec<String>,
    pub depends_post: Vec<String>,
    pub wait_for: Vec<String>,
    pub env: Vec<serde_json::Value>,
    pub dir: Option<String>,
    pub hide: bool,
    pub raw: bool,
    pub sources: Vec<String>,
    pub outputs: Vec<String>,
    pub shell: Option<String>,
    pub quiet: bool,
    pub silent: bool,
    pub tools: HashMap<String, serde_json::Value>,
    pub run: Vec<String>,
    pub file: Option<String>,
}

/// The extended record of one task.
pub struct MiseTaskInfo {
    pub name: String,
    pub aliases: Vec<String>,
    pub description: String,
    pub source: String,
    pub depends: Vec<String>,
    pub depends_post: Vec<String>,
    pub wait_for: Vec<String>,
    pub env: Vec<serde_json::Value>,
    pub dir: Option<String>,
    pub hide: bool,
    pub raw: bool,
    pub sources: Vec<String>,
    pub outputs: Vec<String>,
    pub shell: Option<String>,
    pub quiet: bool,
    pub silent: bool,
    pub tools: HashMap<String, serde_json::Value>,
    pub run: Vec<String>,
    pub file: Option<String>,
    pub usage_spec: serde_json::Value,
}

impl MiseTask {
    /// A visible task with the given name and source and no other settings.
    pub fn new(name: String, source: String) -> (r: Self)
        ensures
            r.name == name,
            r.source == source,
            r.description@.len() == 0,
            r.aliases@.len() == 0,
            !r.hide,
            r.file is None,
            r.run@.len() == 0,
            r.depends@.len() == 0,
    {
        MiseTask {
            name,
            aliases: Vec::new(),
            description: String::new(),
            source,
            depends: Vec::new(),
            depends_post: Vec::new(),
            wait_for: Vec::new(),
            env: Vec::new(),
            dir: None,
            hide: false,
            raw: false,
            sources: Vec::new(),
            outputs: Vec::new(),
            shell: None,
            quiet: false,
            silent: false,
            tools: HashMap::new(),
            run: Vec::new(),
            file: None,
        }
    }

    pub fn is_hidden(&self) -> (r: bool)
        ensures
            r == self.hide,
    {
        self.hide
    }
}

} // verus!
