//! Agents read from the database, and the form that creates one.
use vstd::prelude::*;
use vstd::string::*;

use crate::agents::KeyValueEntry;

verus! {

/// The form of a request that creates an agent.
#[derive(Clone, Debug)]
pub struct UserInput {
    pub private_key: String,
    pub org_id: String,
    pub roles: String,
    pub metadata: String,
}

/// What a create form leads to: a refusal with its message, or the creation of an agent of
/// the given organization (with a fresh key, no roles and no metadata), answered with the
/// given message once submitted.
#[derive(Clone, Debug)]
pub enum CreateAgentStep {
    Rejected(String),
    Submit { org_id: String, roles: Vec<String>, metadata: Vec<KeyValueEntry>, reply: String },
}

/// The answer to a lookup of one agent: the agent when the database found it, and nothing
/// when the lookup failed.
pub fn get_agent<A, E>(found: Result<A, E>) -> (res: Option<A>)
    ensures
        found matches Ok(a) ==> res == Some(a),
        found is Err ==> res is None,
{
    match found {
        Ok(agent) => Some(agent),
        Err(_) => None,
    }
}

/// The answer to a listing of agents: the agents when the database listed them, and the empty
/// list when the listing failed.
pub fn get_agents<A, E>(found: Result<Vec<A>, E>) -> (res: Vec<A>)
    ensures
        found matches Ok(v) ==> res == v,
        found is Err ==> res@.len() == 0,
{
    match found {
        Ok(agents) => agents,
        Err(_) => Vec::new(),
    }
}

/// The refusal of a form without a private key.
pub open spec fn empty_key_message() -> Seq<char> {
    "PrivateKey cannot be empty."@
}

/// The answer once the agent was submitted.
pub open spec fn added_message() -> Seq<char> {
    "Data added."@
}

/// What a create form leads to: refused when its private key is empty; otherwise the agent of
/// its organization is created, with no roles and no metadata.
pub fn create_agent(input: &UserInput) -> (step: CreateAgentStep)
    ensures
        input.private_key@.len() == 0 ==> (step matches CreateAgentStep::Rejected(m) && m@
            == empty_key_message()),
        input.private_key@.len() > 0 ==> (step matches CreateAgentStep::Submit {
            org_id,
            roles,
            metadata,
            reply,
        } && org_id@ == input.org_id@ && roles@.len() == 0 && metadata@.len() == 0 && reply@
            == added_message()),
{
    if input.private_key.as_str().unicode_len() == 0 {
        CreateAgentStep::Rejected(String::from_str("PrivateKey cannot be empty."))
    } else {
        CreateAgentStep::Submit {
            org_id: input.org_id.clone(),
            roles: Vec::new(),
            metadata: Vec::new(),
            reply: String::from_str("Data added."),
        }
    }
}

} // verus!
