use vstd::prelude::*;
use vstd::string::*;

use crate::task::{text_of, TaskFields};

verus! {

/// Declares `serde_json::Value` to Verus, opaque.
#[verifier::external_type_specification]
#[verifier::external_body]
pub struct ExJsonValue(serde_json::Value);

/// Declares `serde_json::Error` to Verus, opaque.
#[verifier::external_type_specification]
#[verifier::external_body]
pub struct ExJsonError(serde_json::Error);

/// A member of a JSON object: a name, and a text value or `null`.
pub type Member = (String, Option<String>);

/// The characters of a member.
pub open spec fn member_view(m: Member) -> (Seq<char>, Option<Seq<char>>) {
    (m.0@, text_of(m.1))
}

/// The characters of the members of each object.
pub open spec fn objects_view(objects: Seq<Vec<Member>>) -> Seq<Seq<(Seq<char>, Option<Seq<char>>)>> {
    objects.map_values(|o: Vec<Member>| o@.map_values(|m: Member| member_view(m)))
}

/// Whether `serde_json::from_str::<serde_json::Value>` accepts a text.
pub uninterp spec fn spec_is_json(text: Seq<char>) -> bool;

/// The text that `serde_json::to_string_pretty` writes for an array of objects
/// whose members hold texts or `null`.
pub uninterp spec fn spec_pretty_json(objects: Seq<Seq<(Seq<char>, Option<Seq<char>>)>>) -> Seq<char>;

/// Reads a text as JSON with `serde_json::from_str::<serde_json::Value>`.
///
/// Trusted: success is the named `spec_is_json` of the text. The value read is
/// opaque and nothing is said of it.
#[verifier::external_body]
fn parse_json(text: &str) -> (r: Result<serde_json::Value, serde_json::Error>)
    ensures
        r is Ok <==> spec_is_json(text@),
{
    serde_json::from_str(text)
}

/// The OAuth client secret of an application, field by field as a client
/// secret file holds it.
pub struct ClientSecret {
    pub client_id: String,
    pub client_secret: String,
    pub token_uri: String,
    pub auth_uri: String,
    pub redirect_uris: Vec<String>,
    pub project_id: Option<String>,
    pub client_email: Option<String>,
    pub auth_provider_x509_cert_url: Option<String>,
    pub client_x509_cert_url: Option<String>,
}

/// The characters of each field of a client secret.
pub struct ClientSecretView {
    pub client_id: Seq<char>,
    pub client_secret: Seq<char>,
    pub token_uri: Seq<char>,
    pub auth_uri: Seq<char>,
    pub redirect_uris: Seq<Seq<char>>,
    pub project_id: Option<Seq<char>>,
    pub client_email: Option<Seq<char>>,
    pub auth_provider_x509_cert_url: Option<Seq<char>>,
    pub client_x509_cert_url: Option<Seq<char>>,
}

impl View for ClientSecret {
    type V = ClientSecretView;

    open spec fn view(&self) -> ClientSecretView {
        ClientSecretView {
            client_id: self.client_id@,
            client_secret: self.client_secret@,
            token_uri: self.token_uri@,
            auth_uri: self.auth_uri@,
            redirect_uris: self.redirect_uris@.map_values(|u: String| u@),
            project_id: text_of(self.project_id),
            client_email: text_of(self.client_email),
            auth_provider_x509_cert_url: text_of(self.auth_provider_x509_cert_url),
            client_x509_cert_url: text_of(self.client_x509_cert_url),
        }
    }
}

/// The client secret that `serde_json::from_value::<yup_oauth2::ApplicationSecret>`
/// reads from the member `member` of the JSON value that `serde_json::from_str`
/// reads from `text` (indexing gives `null` for a missing member); `None` when
/// either call fails.
pub uninterp spec fn spec_secret(text: Seq<char>, member: Seq<char>) -> Option<ClientSecretView>;

/// Reads the OAuth client secret held in the member `member` of a JSON text:
/// `serde_json::from_str::<serde_json::Value>`, indexing by `member`, then
/// `serde_json::from_value::<yup_oauth2::ApplicationSecret>`, whose fields are
/// moved into a `ClientSecret`.
///
/// Trusted: the result is the named `spec_secret` of the text and the member,
/// and success needs the text to be JSON (`spec_is_json`), since the first call
/// must succeed.
#[verifier::external_body]
fn secret_member(text: &str, member: &str) -> (r: Result<ClientSecret, serde_json::Error>)
    ensures
        r is Ok <==> spec_secret(text@, member@) is Some,
        r matches Ok(s) ==> spec_secret(text@, member@) == Some(s@),
        r is Ok ==> spec_is_json(text@),
{
    let value: serde_json::Value = serde_json::from_str(text)?;
    let s: yup_oauth2::ApplicationSecret = serde_json::from_value(value[member].clone())?;
    Ok(ClientSecret { client_id: s.client_id, client_secret: s.client_secret, token_uri: s.token_uri,
        auth_uri: s.auth_uri, redirect_uris: s.redirect_uris, project_id: s.project_id,
        client_email: s.client_email, auth_provider_x509_cert_url: s.auth_provider_x509_cert_url,
        client_x509_cert_url: s.client_x509_cert_url })
}

/// Writes an array of objects as indented JSON with `serde_json::to_string_pretty`,
/// each member a string or `null`.
///
/// Trusted: the text written is the named `spec_pretty_json` of the members,
/// and writing succeeds. serde_json documents only two ways to fail, a value
/// whose `Serialize` impl fails or a map with keys that are not strings; a
/// `Value` built of strings, `null`, objects with string keys and an array
/// has neither, and the writer is a `Vec<u8>`, which does not fail.
#[verifier::external_body]
fn pretty_json(objects: &Vec<Vec<Member>>) -> (r: Result<String, serde_json::Error>)
    ensures
        r is Ok,
        r matches Ok(s) ==> s@ == spec_pretty_json(objects_view(objects@)),
{
    let mut array: Vec<serde_json::Value> = Vec::new();
    for members in objects.iter() {
        let mut object = serde_json::Map::new();
        for (name, value) in members.iter() {
            let v = match value {
                Some(s) => serde_json::Value::String(s.clone()),
                None => serde_json::Value::Null,
            };
            object.insert(name.clone(), v);
        }
        array.push(serde_json::Value::Object(object));
    }
    serde_json::to_string_pretty(&array)
}

/// Why an OAuth client secret could not be read.
#[derive(Debug)]
pub enum SecretError {
    /// The text is not JSON.
    NotJson(serde_json::Error),
    /// The JSON holds no usable `installed` client secret.
    Malformed(serde_json::Error),
}

/// Checks that a client secret file holds JSON.
pub fn check_secret_json(source: &str) -> (r: Result<(), SecretError>)
    ensures
        r is Ok <==> spec_is_json(source@),
        r matches Err(e) ==> e is NotJson,
{
    match parse_json(source) {
        Ok(_) => Ok(()),
        Err(e) => Err(SecretError::NotJson(e)),
    }
}

/// Reads the client secret of an installed application out of the JSON of a
/// client secret file: the member `installed`.
pub fn load_application_secret(data: &str) -> (r: Result<ClientSecret, SecretError>)
    ensures
        r is Ok <==> spec_secret(data@, "installed"@) is Some,
        r matches Ok(s) ==> spec_secret(data@, "installed"@) == Some(s@),
        r matches Err(SecretError::NotJson(_)) <==> !spec_is_json(data@),
        r matches Err(SecretError::Malformed(_)) <==> spec_is_json(data@) && spec_secret(data@, "installed"@) is None,
{
    match secret_member(data, "installed") {
        Ok(s) => Ok(s),
        Err(e) => match parse_json(data) {
            Err(not_json) => Err(SecretError::NotJson(not_json)),
            Ok(_) => Err(SecretError::Malformed(e)),
        },
    }
}

/// A copy of an optional text.
pub fn copy_text(o: &Option<String>) -> (r: Option<String>)
    ensures
        text_of(r) == text_of(*o),
{
    match o {
        Some(s) => Some(s.clone()),
        None => None,
    }
}

/// The members that describe a task in JSON output, with the name of its list
/// when tasks of every list are shown.
pub open spec fn task_members(task: TaskFields, list_name: Option<Seq<char>>) -> Seq<(Seq<char>, Option<Seq<char>>)> {
    seq![
        ("id"@, text_of(task.id)),
        ("title"@, text_of(task.title)),
        ("status"@, text_of(task.status)),
        ("due"@, text_of(task.due)),
        ("notes"@, text_of(task.notes)),
        ("completed"@, text_of(task.completed)),
    ] + match list_name {
        Some(n) => seq![("list_name"@, Some(n))],
        None => Seq::empty(),
    }
}

/// Each member of a task's JSON record carries the task field of the same
/// name: `id`, `title`, `status`, `due`, `notes` and `completed` each appear
/// once with that field's value, and `list_name` appears, with the list's
/// name, exactly when a list name is given.
pub proof fn lemma_members_by_name(task: TaskFields, list_name: Option<Seq<char>>)
    ensures
        ({
            let m = task_members(task, list_name);
            &&& forall|i: int| 0 <= i < m.len() && m[i].0 == "id"@ ==> m[i].1 == text_of(task.id)
            &&& forall|i: int| 0 <= i < m.len() && m[i].0 == "title"@ ==> m[i].1 == text_of(task.title)
            &&& forall|i: int| 0 <= i < m.len() && m[i].0 == "status"@ ==> m[i].1 == text_of(task.status)
            &&& forall|i: int| 0 <= i < m.len() && m[i].0 == "due"@ ==> m[i].1 == text_of(task.due)
            &&& forall|i: int| 0 <= i < m.len() && m[i].0 == "notes"@ ==> m[i].1 == text_of(task.notes)
            &&& forall|i: int| 0 <= i < m.len() && m[i].0 == "completed"@ ==> m[i].1 == text_of(task.completed)
            &&& forall|i: int| 0 <= i < m.len() && m[i].0 == "list_name"@ ==> list_name is Some && m[i].1 == list_name
            &&& exists|i: int| 0 <= i < m.len() && m[i].0 == "id"@
            &&& exists|i: int| 0 <= i < m.len() && m[i].0 == "title"@
            &&& exists|i: int| 0 <= i < m.len() && m[i].0 == "status"@
            &&& exists|i: int| 0 <= i < m.len() && m[i].0 == "due"@
            &&& exists|i: int| 0 <= i < m.len() && m[i].0 == "notes"@
            &&& exists|i: int| 0 <= i < m.len() && m[i].0 == "completed"@
            &&& (list_name is Some <==> exists|i: int| 0 <= i < m.len() && m[i].0 == "list_name"@)
        }),
{
    reveal_strlit("id");
    reveal_strlit("title");
    reveal_strlit("status");
    reveal_strlit("due");
    reveal_strlit("notes");
    reveal_strlit("completed");
    reveal_strlit("list_name");
    let m = task_members(task, list_name);
    let names = seq!["id"@, "title"@, "status"@, "due"@, "notes"@, "completed"@, "list_name"@];
    assert(names[0].len() == 2 && names[1].len() == 5 && names[2].len() == 6 && names[3].len() == 3);
    assert(names[4].len() == 5 && names[5].len() == 9 && names[6].len() == 9);
    assert(names[1][0] == 't' && names[4][0] == 'n' && names[5][0] == 'c' && names[6][0] == 'l');
    assert forall|a: int, b: int| 0 <= a < 7 && 0 <= b < 7 && a != b implies names[a] != names[b] by {
        if names[a] == names[b] {
            assert(names[a].len() == names[b].len());
            assert(names[a][0] == names[b][0]);
        }
    }
    assert forall|i: int| 0 <= i < m.len() implies m[i].0 == names[i] by {}
}

/// The members that describe a task in JSON output.
pub fn task_record(task: &TaskFields, list_name: Option<&str>) -> (r: Vec<Member>)
    ensures
        r@.map_values(|m: Member| member_view(m)) == task_members(
            *task,
            match list_name {
                Some(n) => Some(n@),
                None => None,
            },
        ),
{
    let mut r: Vec<Member> = Vec::new();
    r.push(("id".to_owned(), copy_text(&task.id)));
    r.push(("title".to_owned(), copy_text(&task.title)));
    r.push(("status".to_owned(), copy_text(&task.status)));
    r.push(("due".to_owned(), copy_text(&task.due)));
    r.push(("notes".to_owned(), copy_text(&task.notes)));
    r.push(("completed".to_owned(), copy_text(&task.completed)));
    if let Some(n) = list_name {
        r.push(("list_name".to_owned(), Some(n.to_owned())));
    }
    assert(r@.map_values(|m: Member| member_view(m)) =~= task_members(
        *task,
        match list_name {
            Some(n) => Some(n@),
            None => None,
        },
    ));
    r
}

/// The records of the tasks of one list, in order.
pub fn task_records(tasks: &Vec<TaskFields>, list_name: Option<&str>) -> (r: Vec<Vec<Member>>)
    ensures
        objects_view(r@) == tasks@.map_values(
            |t: TaskFields|
                task_members(
                    t,
                    match list_name {
                        Some(n) => Some(n@),
                        None => None,
                    },
                ),
        ),
{
    let ghost name = match list_name {
        Some(n) => Some(n@),
        None => None,
    };
    let mut r: Vec<Vec<Member>> = Vec::new();
    let mut i: usize = 0;
    while i < tasks.len()
        invariant
            i <= tasks.len(),
            name == match list_name {
                Some(n) => Some(n@),
                None => None,
            },
            objects_view(r@) =~= tasks@.take(i as int).map_values(|t: TaskFields| task_members(t, name)),
        decreases tasks.len() - i,
    {
        let rec = task_record(&tasks[i], list_name);
        let ghost prev = r@;
        r.push(rec);
        assert(objects_view(r@) =~= objects_view(prev).push(task_members(tasks@[i as int], name)));
        assert(tasks@.take(i + 1).map_values(|t: TaskFields| task_members(t, name)) =~= tasks@.take(i as int).map_values(|t: TaskFields| task_members(t, name)).push(task_members(tasks@[i as int], name)));
        i = i + 1;
    }
    assert(tasks@.take(i as int) =~= tasks@);
    r
}

/// The JSON text that lists task records: always written.
pub fn records_json(records: &Vec<Vec<Member>>) -> (r: Result<String, serde_json::Error>)
    ensures
        r matches Ok(s) && s@ == spec_pretty_json(objects_view(records@)),
{
    pretty_json(records)
}

} // verus!
