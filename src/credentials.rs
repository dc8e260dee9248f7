use vstd::prelude::*;

use crate::error::ChirpError;

verus! {

/// serde_yaml's error, carried only as far as it is mapped to a `ChirpError`.
#[verifier::external_type_specification]
#[verifier::external_body]
pub struct ExYamlError(serde_yaml::Error);

/// Name of the credential file, kept directly under the user's home directory.
pub const CONFIG_FILE_NAME: &'static str = ".pushover_tokens.yml";

/// Key of the API token in the stored record.
pub const API_TOKEN_FIELD: &'static str = "api_token";

/// Key of the user key in the stored record.
pub const USER_KEY_FIELD: &'static str = "user_key";

/// The text that serde_yaml renders for a mapping of strings to strings.
pub uninterp spec fn yaml_text_of(entries: Seq<(Seq<char>, Seq<char>)>) -> Seq<char>;

/// The string-to-string mapping that serde_yaml reads from a text, in key
/// order, or `None` where the text holds no such mapping.
pub uninterp spec fn yaml_entries_of(text: Seq<char>) -> Option<Seq<(Seq<char>, Seq<char>)>>;

/// The pair of strings used to authenticate with the notification service.
#[derive(Clone, Debug)]
pub struct Credentials {
    pub api_token: String,
    pub user_key: String,
}

impl View for Credentials {
    type V = (Seq<char>, Seq<char>);

    open spec fn view(&self) -> (Seq<char>, Seq<char>) {
        (self.api_token@, self.user_key@)
    }
}

/// What reading the credential file gave.
#[derive(Clone, Debug)]
pub enum StoredFile {
    /// There is no file at the credential path.
    Missing,
    /// The file exists but could not be read.
    Unreadable,
    /// The file's whole text.
    Text(String),
}

/// Entries of strings, as values.
pub open spec fn entries_view(e: Seq<(String, String)>) -> Seq<(Seq<char>, Seq<char>)> {
    e.map_values(|p: (String, String)| (p.0@, p.1@))
}

/// The outcome of reading a credential record, as values.
pub open spec fn credentials_result_view(r: Result<Credentials, ChirpError>) -> Result<
    (Seq<char>, Seq<char>),
    ChirpError,
> {
    match r {
        Ok(c) => Ok(c@),
        Err(e) => Err(e),
    }
}

/// The value of the first entry whose key is `key`.
pub open spec fn lookup(entries: Seq<(Seq<char>, Seq<char>)>, key: Seq<char>) -> Option<Seq<char>>
    decreases entries.len(),
{
    if entries.len() == 0 {
        None
    } else if entries[0].0 == key {
        Some(entries[0].1)
    } else {
        lookup(entries.drop_first(), key)
    }
}

/// The entries that a credential record is stored as.
pub open spec fn spec_record_entries(c: (Seq<char>, Seq<char>)) -> Seq<(Seq<char>, Seq<char>)> {
    seq![(API_TOKEN_FIELD@, c.0), (USER_KEY_FIELD@, c.1)]
}

/// The credential record that a stored mapping holds: both keys must be present.
pub open spec fn spec_credentials_from_entries(entries: Seq<(Seq<char>, Seq<char>)>) -> Result<
    (Seq<char>, Seq<char>),
    ChirpError,
> {
    match (lookup(entries, API_TOKEN_FIELD@), lookup(entries, USER_KEY_FIELD@)) {
        (Some(t), Some(k)) => Ok((t, k)),
        _ => Err(ChirpError::ConfigParse),
    }
}

/// No key occurs twice among the entries.
pub open spec fn distinct_keys(entries: Seq<(Seq<char>, Seq<char>)>) -> bool {
    forall|i: int, j: int| 0 <= i < j < entries.len() ==> entries[i].0 != entries[j].0
}

/// Relies on serde_yaml::to_string, applied to the entries gathered into a
/// `BTreeMap<&str, &str>`: it fails only where a value's `Serialize` impl does,
/// which that of a map of strings never does, and the rendered text depends on
/// the entries alone. The map holds its keys in sorted order, so the entries
/// are written in key order; with distinct keys none is dropped.
#[verifier::external_body]
fn yaml_render(entries: &Vec<(String, String)>) -> (r: Result<String, serde_yaml::Error>)
    requires
        distinct_keys(entries_view(entries@)),
    ensures
        r is Ok,
        r matches Ok(s) ==> s@ == yaml_text_of(entries_view(entries@)),
{
    let m: std::collections::BTreeMap<&str, &str> = entries.iter().map(
        |(k, v)| (k.as_str(), v.as_str()),
    ).collect();
    serde_yaml::to_string(&m)
}

/// Relies on serde_yaml::from_str, read as a `BTreeMap<String, String>` whose
/// entries are handed out in key order: the outcome depends on the text alone.
#[verifier::external_body]
fn yaml_read(text: &str) -> (r: Result<Vec<(String, String)>, serde_yaml::Error>)
    ensures
        match r {
            Ok(e) => yaml_entries_of(text@) == Some(entries_view(e@)),
            Err(_) => yaml_entries_of(text@) is None,
        },
{
    serde_yaml::from_str::<std::collections::BTreeMap<String, String>>(text).map(
        |m| m.into_iter().collect(),
    )
}

proof fn lemma_lookup_skip(entries: Seq<(Seq<char>, Seq<char>)>, key: Seq<char>, i: int)
    requires
        0 <= i < entries.len(),
        entries[i].0 != key,
    ensures
        lookup(entries.subrange(i, entries.len() as int), key) == lookup(
            entries.subrange(i + 1, entries.len() as int),
            key,
        ),
{
    let s = entries.subrange(i, entries.len() as int);
    assert(s.drop_first() =~= entries.subrange(i + 1, entries.len() as int));
}

/// Finds the value stored under `key`, the first one if the key repeats.
pub fn lookup_entry(entries: &Vec<(String, String)>, key: &String) -> (r: Option<String>)
    ensures
        match r {
            Some(v) => lookup(entries_view(entries@), key@) == Some(v@),
            None => lookup(entries_view(entries@), key@) is None,
        },
{
    let ghost ev = entries_view(entries@);
    let mut i: usize = 0;
    proof {
        assert(ev.subrange(0, ev.len() as int) =~= ev);
    }
    while i < entries.len()
        invariant
            i <= entries.len(),
            ev == entries_view(entries@),
            ev.len() == entries.len(),
            lookup(ev, key@) == lookup(ev.subrange(i as int, ev.len() as int), key@),
        decreases entries.len() - i,
    {
        let entry = &entries[i];
        if entry.0 == *key {
            return Some(entry.1.clone());
        }
        proof {
            lemma_lookup_skip(ev, key@, i as int);
        }
        i = i + 1;
    }
    None
}

/// The entries that a credential record is stored as: the API token under
/// `api_token`, then the user key under `user_key`.
pub fn record_entries(c: &Credentials) -> (r: Vec<(String, String)>)
    ensures
        entries_view(r@) == spec_record_entries(c@),
{
    let mut r: Vec<(String, String)> = Vec::new();
    r.push((API_TOKEN_FIELD.to_owned(), c.api_token.clone()));
    r.push((USER_KEY_FIELD.to_owned(), c.user_key.clone()));
    assert(entries_view(r@) =~= spec_record_entries(c@));
    r
}

/// Reads a credential record out of a stored mapping. Fails with `ConfigParse`
/// exactly when either key is absent.
pub fn credentials_from_entries(entries: &Vec<(String, String)>) -> (r: Result<
    Credentials,
    ChirpError,
>)
    ensures
        credentials_result_view(r) == spec_credentials_from_entries(entries_view(entries@)),
{
    let token_key = API_TOKEN_FIELD.to_owned();
    let user_key_key = USER_KEY_FIELD.to_owned();
    let token = lookup_entry(entries, &token_key);
    let key = lookup_entry(entries, &user_key_key);
    match (token, key) {
        (Some(api_token), Some(user_key)) => Ok(Credentials { api_token, user_key }),
        _ => Err(ChirpError::ConfigParse),
    }
}

/// Renders a credential record as the text of the credential file. Any pair
/// of strings can be rendered: no format check is made.
pub fn encode_credentials(c: &Credentials) -> (r: String)
    ensures
        r@ == yaml_text_of(spec_record_entries(c@)),
{
    let entries = record_entries(c);
    proof {
        lemma_field_names_differ();
    }
    yaml_render(&entries).unwrap()
}

/// Reads a credential record from the text of the credential file. Fails with
/// `ConfigParse` where the text is no string mapping or lacks either key.
pub fn decode_credentials(text: &str) -> (r: Result<Credentials, ChirpError>)
    ensures
        match yaml_entries_of(text@) {
            None => r == Err::<Credentials, ChirpError>(ChirpError::ConfigParse),
            Some(e) => credentials_result_view(r) == spec_credentials_from_entries(e),
        },
{
    match yaml_read(text) {
        Ok(entries) => credentials_from_entries(&entries),
        Err(_) => Err(ChirpError::ConfigParse),
    }
}

/// The credential record that loading from `file` yields, as values.
pub open spec fn spec_loaded(file: StoredFile) -> Result<(Seq<char>, Seq<char>), ChirpError> {
    match file {
        StoredFile::Missing => Err(ChirpError::ConfigNotFound),
        StoredFile::Unreadable => Err(ChirpError::ConfigIo),
        StoredFile::Text(t) => match yaml_entries_of(t@) {
            None => Err(ChirpError::ConfigParse),
            Some(e) => spec_credentials_from_entries(e),
        },
    }
}

/// Loads the credential record from what reading the credential file gave: a
/// missing file is `ConfigNotFound`, an unreadable one `ConfigIo`.
pub fn load_credentials(file: &StoredFile) -> (r: Result<Credentials, ChirpError>)
    ensures
        credentials_result_view(r) == spec_loaded(*file),
{
    match file {
        StoredFile::Missing => Err(ChirpError::ConfigNotFound),
        StoredFile::Unreadable => Err(ChirpError::ConfigIo),
        StoredFile::Text(t) => decode_credentials(t.as_str()),
    }
}

proof fn lemma_field_names_differ()
    ensures
        API_TOKEN_FIELD@ != USER_KEY_FIELD@,
{
    reveal_strlit("api_token");
    reveal_strlit("user_key");
    assert(API_TOKEN_FIELD@[0] != USER_KEY_FIELD@[0]);
}

/// Reading back the entries that a record is stored as gives the same record.
pub proof fn lemma_record_round_trip(c: (Seq<char>, Seq<char>))
    ensures
        spec_credentials_from_entries(spec_record_entries(c)) == Ok::<
            (Seq<char>, Seq<char>),
            ChirpError,
        >(c),
{
    lemma_field_names_differ();
    let e = spec_record_entries(c);
    assert(e.drop_first().drop_first().len() == 0);
    assert(lookup(e, API_TOKEN_FIELD@) == Some(c.0));
    assert(lookup(e.drop_first(), USER_KEY_FIELD@) == Some(c.1));
}

} // verus!
