use dgc_api::db_agents::{create_agent, get_agent, get_agents, CreateAgentStep, UserInput};

fn form(key: &str) -> UserInput {
    UserInput {
        private_key: key.to_string(),
        org_id: "org".to_string(),
        roles: "r".to_string(),
        metadata: "m".to_string(),
    }
}

#[test]
fn found_agent_is_returned() {
    assert_eq!(get_agent::<u8, String>(Ok(4)), Some(4));
    assert_eq!(get_agent::<u8, String>(Err("no".to_string())), None);
}

#[test]
fn failed_listing_is_empty() {
    assert_eq!(get_agents::<u8, ()>(Ok(vec![1, 2])), vec![1, 2]);
    assert!(get_agents::<u8, ()>(Err(())).is_empty());
}

#[test]
fn empty_private_key_is_refused() {
    match create_agent(&form("")) {
        CreateAgentStep::Rejected(m) => assert_eq!(m, "PrivateKey cannot be empty."),
        other => panic!("unexpected {:?}", other),
    }
}

#[test]
fn form_with_key_is_submitted() {
    match create_agent(&form("ab")) {
        CreateAgentStep::Submit { org_id, roles, metadata, reply } => {
            assert_eq!(org_id, "org");
            assert!(roles.is_empty());
            assert!(metadata.is_empty());
            assert_eq!(reply, "Data added.");
        }
        other => panic!("unexpected {:?}", other),
    }
}
