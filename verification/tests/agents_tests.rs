use dgc_api::agents::{
    agent_creation, by_public_key, check_public_key, login_outcome, metadata_entry,
    parse_metadata, parse_roles, post_agents, post_agents_login, role_entry, ApplyError,
    LoginAgent, LoginAgentData, NewAgent, NewAgentData, UpdateAgent, UpdateUserData,
};
use dgc_api::errors::{Errors, FieldError, FieldValidator};

fn some(s: &str) -> Option<String> {
    Some(s.to_string())
}

fn pairs(e: &Errors) -> Vec<(String, String)> {
    e.errors.iter().map(|f| (f.field.clone(), f.message.clone())).collect()
}

fn full_agent() -> NewAgent {
    NewAgent {
        agent: NewAgentData {
            private_key: some("0a1b"),
            org_id: some("org"),
            roles: some("ab"),
            metadata: some("k,"),
        },
    }
}

#[test]
fn complete_create_request_is_read() {
    let f = post_agents(full_agent(), vec![]).unwrap();
    assert_eq!(f.org_id, "org");
    assert_eq!(f.roles, "ab");
    assert_eq!(f.metadata, "k,");
    assert_eq!(f.private_key, "0a1b");
}

#[test]
fn missing_fields_are_reported_in_order() {
    let e = post_agents(NewAgent {
        agent: NewAgentData { private_key: None, org_id: None, roles: some("r"), metadata: None },
    }, vec![])
    .unwrap_err();
    assert_eq!(
        pairs(&e),
        vec![
            ("org_id".to_string(), "can't be blank".to_string()),
            ("metadata".to_string(), "can't be blank".to_string()),
            ("private_key".to_string(), "can't be blank".to_string()),
        ]
    );
}

#[test]
fn each_role_is_one_character_with_commas_dropped() {
    assert_eq!(parse_roles("a,b"), vec!["a".to_string(), "".to_string(), "b".to_string()]);
    assert_eq!(parse_roles(""), Vec::<String>::new());
    assert_eq!(role_entry(","), "");
    assert_eq!(role_entry("x"), "x");
    assert_eq!(role_entry("a,b"), "ab");
}

#[test]
fn each_metadata_entry_is_one_character() {
    let entries = parse_metadata("k,");
    assert_eq!(entries.len(), 2);
    assert_eq!(entries[0].key, "k");
    assert_eq!(entries[0].value, "Metadata is formated incorrectly");
    assert_eq!(entries[1].key, "");
    assert_eq!(entries[1].value, "");
}

#[test]
fn metadata_entry_takes_first_and_second_part() {
    let e = metadata_entry("color,red,extra");
    assert_eq!(e.key, "color");
    assert_eq!(e.value, "red");
    let e = metadata_entry("");
    assert_eq!(e.key, "");
    assert_eq!(e.value, "Metadata is formated incorrectly");
}

#[test]
fn agent_creation_reads_roles_and_metadata() {
    let f = post_agents(full_agent(), vec![]).unwrap();
    let args = agent_creation(&f, "02abcd".to_string());
    assert_eq!(args.org_id, "org");
    assert_eq!(args.public_key, "02abcd");
    assert_eq!(args.roles, vec!["a".to_string(), "b".to_string()]);
    assert_eq!(args.metadata.len(), 2);
}

#[test]
fn login_needs_email_and_password() {
    let f = post_agents_login(LoginAgent {
        agent: LoginAgentData { email: some("a@b.c"), password: some("pw") },
    })
    .unwrap();
    assert_eq!(f.email, "a@b.c");
    assert_eq!(f.password, "pw");
    let e = post_agents_login(LoginAgent { agent: LoginAgentData { email: None, password: None } })
        .unwrap_err();
    assert_eq!(
        pairs(&e),
        vec![
            ("email".to_string(), "can't be blank".to_string()),
            ("password".to_string(), "can't be blank".to_string()),
        ]
    );
}

#[test]
fn unknown_login_is_invalid() {
    assert_eq!(login_outcome(Some(7)).unwrap(), 7);
    let e = login_outcome::<u8>(None).unwrap_err();
    assert_eq!(pairs(&e), vec![("email or password".to_string(), "is invalid".to_string())]);
}

fn invalid_message(r: Result<Option<u8>, ApplyError>) -> String {
    match r {
        Err(ApplyError::InvalidTransaction(m)) => m,
        other => panic!("unexpected {:?}", other),
    }
}

#[test]
fn empty_public_key_is_refused() {
    assert!(check_public_key("").is_err());
    assert!(check_public_key("02ab").is_ok());
    assert_eq!(invalid_message(by_public_key("", Ok(Some(1)))), "Public key required");
}

#[test]
fn lookup_outcomes() {
    assert_eq!(by_public_key("02ab", Ok(Some(3u8))).unwrap(), Some(3));
    assert_eq!(invalid_message(by_public_key("02ab", Ok(None))), "Agent does not exists: 02ab");
    assert_eq!(
        invalid_message(by_public_key("02ab", Err("timeout".to_string()))),
        "Failed to retrieve state: timeout"
    );
}

#[test]
fn extract_records_blank_fields() {
    let mut v = FieldValidator::default();
    assert_eq!(v.extract("a", some("x")), "x");
    assert!(FieldValidator::default().check().is_ok());
    assert_eq!(v.extract("b", None), "");
    let e = v.check().unwrap_err();
    assert_eq!(pairs(&e), vec![("b".to_string(), "can't be blank".to_string())]);
}

#[test]
fn update_body_holds_optional_fields() {
    let u = UpdateAgent {
        agent: UpdateUserData { username: some("n"), email: None, bio: None, image: None, password: None },
    };
    assert_eq!(u.agent.username.as_deref(), Some("n"));
}

#[test]
fn rule_errors_come_first_and_refuse_the_request() {
    let rule = FieldError { field: "org_id".to_string(), message: "length".to_string() };
    let e = post_agents(full_agent(), vec![rule]).unwrap_err();
    assert_eq!(pairs(&e), vec![("org_id".to_string(), "length".to_string())]);
    let rule = FieldError { field: "roles".to_string(), message: "x".to_string() };
    let mut agent = full_agent();
    agent.agent.private_key = None;
    let e = post_agents(agent, vec![rule]).unwrap_err();
    assert_eq!(
        pairs(&e),
        vec![
            ("roles".to_string(), "x".to_string()),
            ("private_key".to_string(), "can't be blank".to_string()),
        ]
    );
}
