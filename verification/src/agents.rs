//! Agent requests: the bodies that create, update and log in agents, how their fields are
//! read, and how an agent lookup by public key is answered.
use vstd::prelude::*;
use vstd::string::*;

use crate::errors::{blank_error, pairs_of, text_or_empty, Errors, FieldError, FieldValidator};
use crate::text::{concat_pieces, split, split_by};

verus! {

/// The fields of a request that creates an agent; each one may be absent.
#[derive(Clone, Debug)]
pub struct NewAgentData {
    pub private_key: Option<String>,
    pub org_id: Option<String>,
    pub roles: Option<String>,
    pub metadata: Option<String>,
}

/// The body of a request that creates an agent: `{"agent": {...}}`.
#[derive(Clone, Debug)]
pub struct NewAgent {
    pub agent: NewAgentData,
}

/// The fields of an agent that an update may change.
#[derive(Clone, Debug)]
pub struct UpdateUserData {
    pub username: Option<String>,
    pub email: Option<String>,
    pub bio: Option<String>,
    pub image: Option<String>,
    pub password: Option<String>,
}

/// The body of a request that updates an agent: `{"agent": {...}}`.
#[derive(Clone, Debug)]
pub struct UpdateAgent {
    pub agent: UpdateUserData,
}

/// The fields of a login request; each one may be absent.
#[derive(Clone, Debug)]
pub struct LoginAgentData {
    pub email: Option<String>,
    pub password: Option<String>,
}

/// The body of a login request: `{"agent": {...}}`.
#[derive(Clone, Debug)]
pub struct LoginAgent {
    pub agent: LoginAgentData,
}

/// One metadata entry of an agent.
#[derive(Clone, Debug)]
pub struct KeyValueEntry {
    pub key: String,
    pub value: String,
}

impl View for KeyValueEntry {
    type V = (Seq<char>, Seq<char>);

    open spec fn view(&self) -> (Seq<char>, Seq<char>) {
        (self.key@, self.value@)
    }
}

/// The required fields of a create request, once all were found.
#[derive(Clone, Debug)]
pub struct NewAgentFields {
    pub org_id: String,
    pub roles: String,
    pub metadata: String,
    pub private_key: String,
}

/// What an agent is created with: its organization, its public key, its roles and its
/// metadata entries.
#[derive(Clone, Debug)]
pub struct CreateAgentArgs {
    pub org_id: String,
    pub public_key: String,
    pub roles: Vec<String>,
    pub metadata: Vec<KeyValueEntry>,
}

/// The fields of a login request, once both were found.
#[derive(Clone, Debug)]
pub struct LoginFields {
    pub email: String,
    pub password: String,
}

/// Why a transaction is refused.
#[derive(Clone, Debug)]
pub enum ApplyError {
    InvalidTransaction(String),
    InternalError(String),
}

/// The errors met while reading a create request, in the order its fields are read.
pub open spec fn new_agent_errors(data: NewAgentData) -> Seq<(Seq<char>, Seq<char>)> {
    blank_error("org_id"@, data.org_id is Some) + blank_error("roles"@, data.roles is Some)
        + blank_error("metadata"@, data.metadata is Some) + blank_error(
        "private_key"@,
        data.private_key is Some,
    )
}

/// The errors met while reading a login request, in the order its fields are read.
pub open spec fn login_errors(data: LoginAgentData) -> Seq<(Seq<char>, Seq<char>)> {
    blank_error("email"@, data.email is Some) + blank_error("password"@, data.password is Some)
}

/// The separator inside role and metadata pieces.
pub open spec fn separator() -> char {
    ','
}

/// The placeholder stored where a metadata piece lacks a part.
pub open spec fn malformed_metadata() -> Seq<char> {
    "Metadata is formated incorrectly"@
}

/// The role that one piece of the roles text stands for: the parts of the piece between
/// separators, written one after another.
pub open spec fn role_of(piece: Seq<char>) -> Seq<char> {
    split_by(piece, separator()).flatten()
}

/// The (key, value) entry that one piece of the metadata text stands for: its first and its
/// second part between separators, each replaced by the placeholder where it is missing.
pub open spec fn metadata_entry_of(piece: Seq<char>) -> (Seq<char>, Seq<char>) {
    let parts = split_by(piece, separator());
    (
        if parts.len() > 0 {
            parts[0]
        } else {
            malformed_metadata()
        },
        if parts.len() > 1 {
            parts[1]
        } else {
            malformed_metadata()
        },
    )
}

/// The roles of a roles text: one per character, each the role of that character.
pub open spec fn roles_of(s: Seq<char>) -> Seq<Seq<char>> {
    Seq::new(s.len(), |i: int| role_of(s.subrange(i, i + 1)))
}

/// The metadata entries of a metadata text: one per character.
pub open spec fn metadata_of(s: Seq<char>) -> Seq<(Seq<char>, Seq<char>)> {
    Seq::new(s.len(), |i: int| metadata_entry_of(s.subrange(i, i + 1)))
}

/// The view of a list of metadata entries.
pub open spec fn entries_view(v: Seq<KeyValueEntry>) -> Seq<(Seq<char>, Seq<char>)> {
    v.map_values(|e: KeyValueEntry| e@)
}

/// Law: the role of a single character is the character itself, or nothing when it is the
/// separator.
pub proof fn lemma_role_of_char(c: char)
    ensures
        role_of(seq![c]) == (if c == separator() {
            Seq::<char>::empty()
        } else {
            seq![c]
        }),
{
    let s = seq![c];
    assert(s.drop_last() =~= Seq::<char>::empty());
    assert(s.last() == c);
    let prev = split_by(s.drop_last(), separator());
    assert(prev =~= seq![Seq::<char>::empty()]);
    if c == separator() {
        let parts = seq![Seq::<char>::empty(), Seq::<char>::empty()];
        assert(split_by(s, separator()) =~= parts);
        assert(parts.drop_first() =~= seq![Seq::<char>::empty()]);
        assert(parts.drop_first().drop_first() =~= Seq::<Seq<char>>::empty());
        reveal_with_fuel(Seq::<Seq<char>>::flatten, 3);
        assert(parts.flatten() =~= Seq::<char>::empty());
    } else {
        let parts = seq![seq![c]];
        assert(split_by(s, separator()) =~= parts);
        assert(parts.drop_first() =~= Seq::<Seq<char>>::empty());
        reveal_with_fuel(Seq::<Seq<char>>::flatten, 2);
        assert(parts.flatten() =~= seq![c]);
    }
}

/// Law: a single character other than the separator gives the entry (character,
/// placeholder); the separator gives two empty parts.
pub proof fn lemma_metadata_entry_of_char(c: char)
    ensures
        metadata_entry_of(seq![c]) == (if c == separator() {
            (Seq::<char>::empty(), Seq::<char>::empty())
        } else {
            (seq![c], malformed_metadata())
        }),
{
    let s = seq![c];
    assert(s.drop_last() =~= Seq::<char>::empty());
    assert(s.last() == c);
    let prev = split_by(s.drop_last(), separator());
    assert(prev =~= seq![Seq::<char>::empty()]);
    if c == separator() {
        assert(split_by(s, separator()) =~= seq![Seq::<char>::empty(), Seq::<char>::empty()]);
    } else {
        assert(split_by(s, separator()) =~= seq![seq![c]]);
    }
}

/// Law: a roles text gives exactly one role per character, whatever its length: the character
/// itself, or the empty role for a comma.
pub proof fn lemma_roles_one_per_character(s: Seq<char>)
    ensures
        roles_of(s).len() == s.len(),
        forall|i: int|
            0 <= i < s.len() ==> #[trigger] roles_of(s)[i] == (if s[i] == ',' {
                Seq::<char>::empty()
            } else {
                seq![s[i]]
            }),
{
    assert forall|i: int| 0 <= i < s.len() implies #[trigger] roles_of(s)[i] == (if s[i] == ',' {
        Seq::<char>::empty()
    } else {
        seq![s[i]]
    }) by {
        assert(s.subrange(i, i + 1) =~= seq![s[i]]);
        lemma_role_of_char(s[i]);
    }
}

/// Law: a metadata text gives exactly one entry per character, whatever its length: (the
/// character, the placeholder), or two empty parts for a comma.
pub proof fn lemma_metadata_one_per_character(s: Seq<char>)
    ensures
        metadata_of(s).len() == s.len(),
        forall|i: int|
            0 <= i < s.len() ==> #[trigger] metadata_of(s)[i] == (if s[i] == ',' {
                (Seq::<char>::empty(), Seq::<char>::empty())
            } else {
                (seq![s[i]], "Metadata is formated incorrectly"@)
            }),
{
    assert forall|i: int| 0 <= i < s.len() implies #[trigger] metadata_of(s)[i] == (if s[i]
        == ',' {
        (Seq::<char>::empty(), Seq::<char>::empty())
    } else {
        (seq![s[i]], "Metadata is formated incorrectly"@)
    }) by {
        assert(s.subrange(i, i + 1) =~= seq![s[i]]);
        lemma_metadata_entry_of_char(s[i]);
    }
}

/// The role one piece of the roles text stands for.
pub fn role_entry(piece: &str) -> (role: String)
    ensures
        role@ == role_of(piece@),
{
    let parts = split(piece, ',');
    concat_pieces(&parts)
}

/// The metadata entry one piece of the metadata text stands for.
pub fn metadata_entry(piece: &str) -> (entry: KeyValueEntry)
    ensures
        entry@ == metadata_entry_of(piece@),
{
    let parts = split(piece, ',');
    assert(parts.len() == parts.deep_view().len());
    let key = if parts.len() > 0 {
        assert(parts[0]@ == parts.deep_view()[0]);
        parts[0].clone()
    } else {
        String::from_str("Metadata is formated incorrectly")
    };
    let value = if parts.len() > 1 {
        assert(parts[1]@ == parts.deep_view()[1]);
        parts[1].clone()
    } else {
        String::from_str("Metadata is formated incorrectly")
    };
    KeyValueEntry { key, value }
}

/// The roles of a roles text: for each character, the role it stands for.
pub fn parse_roles(roles: &str) -> (res: Vec<String>)
    ensures
        res.deep_view() =~= roles_of(roles@),
        res@.len() == roles@.len(),
        forall|i: int|
            0 <= i < roles@.len() ==> (#[trigger] res@[i])@ == (if roles@[i] == ',' {
                Seq::<char>::empty()
            } else {
                seq![roles@[i]]
            }),
{
    let n = roles.unicode_len();
    let mut res: Vec<String> = Vec::new();
    let mut i: usize = 0;
    while i < n
        invariant
            n == roles@.len(),
            i <= n,
            res.deep_view() =~= roles_of(roles@).take(i as int),
        decreases n - i,
    {
        let piece = roles.substring_char(i, i + 1);
        let role = role_entry(piece);
        let ghost before = res.deep_view();
        res.push(role);
        assert(res.deep_view() =~= before.push(role@));
        i = i + 1;
    }
    proof {
        lemma_roles_one_per_character(roles@);
        assert forall|k: int| 0 <= k < roles@.len() implies (#[trigger] res@[k])@ == (if roles@[k]
            == ',' {
            Seq::<char>::empty()
        } else {
            seq![roles@[k]]
        }) by {
            assert(res@[k]@ == res.deep_view()[k]);
        }
    }
    res
}

/// The metadata entries of a metadata text: for each character, the entry it stands for.
pub fn parse_metadata(metadata: &str) -> (res: Vec<KeyValueEntry>)
    ensures
        entries_view(res@) =~= metadata_of(metadata@),
        res@.len() == metadata@.len(),
        forall|i: int|
            0 <= i < metadata@.len() ==> (#[trigger] res@[i])@ == (if metadata@[i] == ',' {
                (Seq::<char>::empty(), Seq::<char>::empty())
            } else {
                (seq![metadata@[i]], "Metadata is formated incorrectly"@)
            }),
{
    let n = metadata.unicode_len();
    let mut res: Vec<KeyValueEntry> = Vec::new();
    let mut i: usize = 0;
    while i < n
        invariant
            n == metadata@.len(),
            i <= n,
            entries_view(res@) =~= metadata_of(metadata@).take(i as int),
        decreases n - i,
    {
        let piece = metadata.substring_char(i, i + 1);
        let entry = metadata_entry(piece);
        let ghost before = res@;
        res.push(entry);
        assert(res@ =~= before.push(entry));
        assert(entries_view(res@) =~= entries_view(before).push(entry@));
        i = i + 1;
    }
    proof {
        lemma_metadata_one_per_character(metadata@);
        assert forall|k: int| 0 <= k < metadata@.len() implies (#[trigger] res@[k])@ == (
        if metadata@[k] == ',' {
            (Seq::<char>::empty(), Seq::<char>::empty())
        } else {
            (seq![metadata@[k]], "Metadata is formated incorrectly"@)
        }) by {
            assert(res@[k]@ == entries_view(res@)[k]);
        }
    }
    res
}

/// Reads the fields of a create request, starting from the errors that the body's own field
/// rules found. Succeeds exactly when there were none and all four fields are present, with
/// their values; otherwise fails with the rule errors followed by "can't be blank" for each
/// absent field, in the order org_id, roles, metadata, private_key.
pub fn post_agents(new_agent: NewAgent, rule_errors: Vec<FieldError>) -> (res: Result<
    NewAgentFields,
    Errors,
>)
    ensures
        res is Ok <==> (rule_errors@.len() == 0 && new_agent.agent.org_id is Some
            && new_agent.agent.roles is Some && new_agent.agent.metadata is Some
            && new_agent.agent.private_key is Some),
        res matches Ok(f) ==> {
            &&& new_agent.agent.org_id matches Some(v) && f.org_id@ == v@
            &&& new_agent.agent.roles matches Some(v) && f.roles@ == v@
            &&& new_agent.agent.metadata matches Some(v) && f.metadata@ == v@
            &&& new_agent.agent.private_key matches Some(v) && f.private_key@ == v@
            &&& f.org_id@ == text_or_empty(new_agent.agent.org_id)
            &&& f.roles@ == text_or_empty(new_agent.agent.roles)
            &&& f.metadata@ == text_or_empty(new_agent.agent.metadata)
            &&& f.private_key@ == text_or_empty(new_agent.agent.private_key)
        },
        res matches Err(e) ==> e@ == pairs_of(rule_errors@) + new_agent_errors(new_agent.agent),
{
    let data = new_agent.agent;
    let ghost d = data;
    let ghost rules = pairs_of(rule_errors@);
    let mut extractor = FieldValidator::validate(rule_errors);
    let org_id = extractor.extract("org_id", data.org_id);
    let roles = extractor.extract("roles", data.roles);
    let metadata = extractor.extract("metadata", data.metadata);
    let private_key = extractor.extract("private_key", data.private_key);
    assert(extractor@ =~= rules + new_agent_errors(d));
    match extractor.check() {
        Ok(()) => Ok(NewAgentFields { org_id, roles, metadata, private_key }),
        Err(e) => Err(e),
    }
}

/// What an agent is created with, from the fields of its request and the public key that
/// belongs to its private key: the organization and key as given, the roles and the metadata
/// entries read from their texts.
pub fn agent_creation(fields: &NewAgentFields, public_key: String) -> (args: CreateAgentArgs)
    ensures
        args.org_id@ == fields.org_id@,
        args.public_key@ == public_key@,
        args.roles.deep_view() == roles_of(fields.roles@),
        args.roles@.len() == fields.roles@.len(),
        args.metadata@.len() == fields.metadata@.len(),
        entries_view(args.metadata@) == metadata_of(fields.metadata@),
{
    let roles = parse_roles(fields.roles.as_str());
    let metadata = parse_metadata(fields.metadata.as_str());
    CreateAgentArgs { org_id: fields.org_id.clone(), public_key, roles, metadata }
}

/// Reads the fields of a login request. Succeeds exactly when both are present; otherwise
/// fails with "can't be blank" for each absent one, email first.
pub fn post_agents_login(agent: LoginAgent) -> (res: Result<LoginFields, Errors>)
    ensures
        res is Ok <==> (agent.agent.email is Some && agent.agent.password is Some),
        res matches Ok(f) ==> f.email@ == text_or_empty(agent.agent.email) && f.password@
            == text_or_empty(agent.agent.password),
        res matches Ok(f) ==> (agent.agent.email matches Some(e) && f.email@ == e@),
        res matches Ok(f) ==> (agent.agent.password matches Some(p) && f.password@ == p@),
        res matches Err(e) ==> e@ == login_errors(agent.agent),
{
    let data = agent.agent;
    let ghost d = data;
    let mut extractor = FieldValidator::default();
    let email = extractor.extract("email", data.email);
    let password = extractor.extract("password", data.password);
    assert(extractor@ =~= login_errors(d));
    match extractor.check() {
        Ok(()) => Ok(LoginFields { email, password }),
        Err(e) => Err(e),
    }
}

/// The answer to a login once the user was looked up: the user when found, and otherwise the
/// single error ("email or password", "is invalid").
pub fn login_outcome<U>(user: Option<U>) -> (res: Result<U, Errors>)
    ensures
        user matches Some(u) ==> res == Ok::<U, Errors>(u),
        user is None ==> (res matches Err(e) && e@ == seq![("email or password"@, "is invalid"@)]),
{
    match user {
        Some(u) => Ok(u),
        None => Err(Errors::single("email or password", "is invalid")),
    }
}

/// The refusal of a lookup without a public key.
pub open spec fn key_required() -> Seq<char> {
    "Public key required"@
}

/// Refuses a lookup by an empty public key.
pub fn check_public_key(public_key: &str) -> (res: Result<(), ApplyError>)
    ensures
        res is Ok <==> public_key@.len() > 0,
        res matches Err(e) ==> e matches ApplyError::InvalidTransaction(m) && m@ == key_required(),
{
    if public_key.unicode_len() == 0 {
        Err(ApplyError::InvalidTransaction(String::from_str("Public key required")))
    } else {
        Ok(())
    }
}

/// The answer to a lookup of an agent by public key, given what the state returned for it
/// (the agent if any, or the text of the failure): an empty key is refused whatever the state
/// says; a found agent is returned; a missing one, or a failing read, refuses the transaction
/// with a message that names the key or the failure.
pub fn by_public_key<A>(public_key: &str, lookup: Result<Option<A>, String>) -> (res: Result<
    Option<A>,
    ApplyError,
>)
    ensures
        public_key@.len() == 0 ==> (res matches Err(ApplyError::InvalidTransaction(m)) && m@
            == key_required()),
        public_key@.len() > 0 ==> match lookup {
            Ok(Some(agent)) => res == Ok::<Option<A>, ApplyError>(Some(agent)),
            Ok(None) => (res matches Err(ApplyError::InvalidTransaction(m)) && m@
                == "Agent does not exists: "@ + public_key@),
            Err(err) => (res matches Err(ApplyError::InvalidTransaction(m)) && m@
                == "Failed to retrieve state: "@ + err@),
        },
{
    match check_public_key(public_key) {
        Err(e) => Err(e),
        Ok(()) => match lookup {
            Ok(Some(agent)) => Ok(Some(agent)),
            Ok(None) => {
                let mut m = String::from_str("Agent does not exists: ");
                m.append(public_key);
                Err(ApplyError::InvalidTransaction(m))
            },
            Err(err) => {
                let mut m = String::from_str("Failed to retrieve state: ");
                m.append(err.as_str());
                Err(ApplyError::InvalidTransaction(m))
            },
        },
    }
}

} // verus!
