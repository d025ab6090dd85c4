//! The agent builder's core: accumulation of the optional identifier and
//! display name before a spawn, and the defaulting rule — a caller-chosen
//! identifier wins, else a fresh one is drawn. Building is infallible once
//! a handler is supplied; nothing here can fail.

use vstd::prelude::*;
use crate::agent::id::AgentId;

verus! {

/// What an agent builder accumulates before producing a running agent: an
/// optional identifier and an optional display name. The specialized
/// builders wrap this and add only conversions and the spawn call.
#[derive(Debug)]
pub struct AgentConfig {
    /// Unique identifier for the agent, if the caller chose one.
    pub id: Option<AgentId>,

    /// A user-friendly name for the agent, if one was given.
    pub name: Option<String>,
}

impl Default for AgentConfig {
    /// A configuration with nothing chosen yet.
    fn default() -> (r: Self)
        ensures
            r.id is None,
            r.name is None,
    {
        AgentConfig { id: None, name: None }
    }
}

impl AgentConfig {
    /// Set the id of the agent, leaving the name as it was.
    pub fn with_id(self, id: AgentId) -> (r: AgentConfig)
        ensures
            r.id == Some(id),
            r.name == self.name,
    {
        AgentConfig { id: Some(id), name: self.name }
    }

    /// Set the name of the agent, leaving the id as it was.
    pub fn with_name(self, name: String) -> (r: AgentConfig)
        ensures
            r.name == Some(name),
            r.id == self.id,
    {
        AgentConfig { id: self.id, name: Option::Some(name) }
    }

    /// The identifier the built agent runs under: the caller's, when one
    /// was set; else a freshly drawn version-4 identifier.
    pub fn resolve_id(&self) -> (r: AgentId)
        ensures
            self.id matches Some(i) ==> r == i,
            self.id is None ==> (r.0 >> 76) & 0xf == 4 && (r.0 >> 62) & 0x3 == 2,
    {
        match self.id {
            Option::Some(i) => i,
            Option::None => AgentId::fresh(),
        }
    }
}

} // verus!
