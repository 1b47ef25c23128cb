//! The plugins that a session offers, as a client is told of them.

use vstd::prelude::*;
use crate::json::{decode, is_null, json_decoded, json_text};

verus! {

/// What the registry holds of one plugin.
#[derive(Debug, Clone, PartialEq, Eq)]
pub struct PluginFacts {
    pub name: String,
    pub category: String,
    pub help: String,
    /// The schema of the plugin's arguments, as the text of a JSON document.
    pub config: String,
}

/// A plugin as a client sees it. `config` is the schema of its arguments as
/// a document, so that the client gets JSON and not a string that holds
/// JSON; a schema that is `null` is left out.
#[derive(Debug, PartialEq, Eq)]
pub struct PluginInfo {
    pub name: String,
    pub category: String,
    pub description: String,
    pub config: Option<serde_json::Value>,
}

/// What is shown of a plugin whose schema decodes to `schema`.
pub open spec fn described(facts: PluginFacts, schema: serde_json::Value) -> PluginInfo {
    PluginInfo {
        name: facts.name,
        category: facts.category,
        description: facts.help,
        config: if json_text(schema) == "null"@ {
            None
        } else {
            Some(schema)
        },
    }
}

/// Whether what is shown of a plugin is right for what the registry holds
/// of it: the schema was decoded, and the rest carried over.
pub open spec fn shows(info: PluginInfo, facts: PluginFacts) -> bool {
    &&& info.name == facts.name
    &&& info.category == facts.category
    &&& info.description == facts.help
    &&& match info.config {
        Some(schema) => json_decoded(facts.config@) == Some(json_text(schema)) && json_text(schema)
            != "null"@,
        None => json_decoded(facts.config@) == Some("null"@),
    }
}

/// What is shown of a plugin, given its schema as a document.
pub fn describe(facts: PluginFacts, schema: serde_json::Value) -> (info: PluginInfo)
    ensures
        info == described(facts, schema),
{
    let config = if is_null(&schema) {
        None
    } else {
        Some(schema)
    };
    PluginInfo { name: facts.name, category: facts.category, description: facts.help, config }
}

/// What is shown of a plugin, with its schema decoded here. `None` says
/// that the schema is no JSON document.
pub fn plugin_info(facts: PluginFacts) -> (info: Option<PluginInfo>)
    ensures
        match info {
            Some(info) => shows(info, facts),
            None => json_decoded(facts.config@) is None,
        },
{
    match decode(facts.config.as_str()) {
        Some(schema) => Some(describe(facts, schema)),
        None => None,
    }
}

/// The answer to a question about one plugin. `found` is what the registry
/// holds under the name that was asked for. The answer is `Some(None)`,
/// sent as `null`, where it holds nothing; `None` says that the plugin's
/// schema is no JSON document.
pub fn plugin(found: Option<PluginFacts>) -> (answer: Option<Option<PluginInfo>>)
    ensures
        match found {
            Some(facts) => match answer {
                Some(info) => info is Some && shows(info->0, facts),
                None => json_decoded(facts.config@) is None,
            },
            None => answer == Some(None::<PluginInfo>),
        },
{
    match found {
        Some(facts) => match plugin_info(facts) {
            Some(info) => Some(Some(info)),
            None => None,
        },
        None => Some(None),
    }
}

/// The list of all plugins, in the registry's order. `None` says that the
/// schema of one of them is no JSON document.
pub fn plugins(all: Vec<PluginFacts>) -> (answer: Option<Vec<PluginInfo>>)
    ensures
        match answer {
            Some(list) => list@.len() == all@.len() && forall|i: int|
                0 <= i < list@.len() ==> shows(#[trigger] list@[i], all@[i]),
            None => exists|i: int|
                0 <= i < all@.len() && json_decoded((#[trigger] all@[i]).config@) is None,
        },
{
    let ghost every = all@;
    let mut list: Vec<PluginInfo> = Vec::new();
    for facts in it: all.into_iter()
        invariant
            it.seq() == every,
            list@.len() == it.index(),
            forall|i: int| 0 <= i < list@.len() ==> shows(#[trigger] list@[i], every[i]),
    {
        match plugin_info(facts) {
            Some(info) => {
                list.push(info);
            },
            None => {
                return None;
            },
        }
    }
    Some(list)
}

} // verus!
