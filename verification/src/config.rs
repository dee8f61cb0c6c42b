use vstd::prelude::*;
use vstd::string::*;

verus! {

/// `base` joined with a relative name that holds no separator, as
/// `Path::join` does on Unix: a `/` goes between them unless `base` is empty or
/// already ends with one.
pub open spec fn join(base: Seq<char>, name: Seq<char>) -> Seq<char> {
    if base.len() == 0 {
        name
    } else if base.last() == '/' {
        base + name
    } else {
        base + seq!['/'] + name
    }
}

fn joined(base: &str, name: &str) -> (r: String)
    ensures
        r@ == join(base@, name@),
{
    let n = base.unicode_len();
    let mut r = base.to_owned();
    if n > 0 && base.get_char(n - 1) != '/' {
        proof { reveal_strlit("/"); }
        r.append("/");
    }
    r.append(name);
    r
}

/// Why the configuration directory could not be found.
#[derive(Clone, Copy, Debug, PartialEq, Eq, Structural)]
pub enum ConfigError {
    /// The system names no configuration directory for the user.
    NoHome,
}

impl ConfigError {
    pub open spec fn text(self) -> Seq<char> {
        "ホームディレクトリが見つかりません"@
    }

    /// The message shown for the error.
    pub fn message(&self) -> (m: &'static str)
        ensures
            m@ == self.text(),
    {
        "ホームディレクトリが見つかりません"
    }
}

/// This tool's directory inside the user's configuration directory `base`, if
/// the system names one.
pub fn config_dir(base: Option<&str>) -> (r: Result<String, ConfigError>)
    ensures
        match base {
            Some(b) => r matches Ok(d) && d@ == join(b@, "gtasks-cli"@),
            None => r == Err::<String, ConfigError>(ConfigError::NoHome),
        },
{
    match base {
        Some(b) => Ok(joined(b, "gtasks-cli")),
        None => Err(ConfigError::NoHome),
    }
}

/// Where the OAuth tokens are kept, inside this tool's directory.
pub fn token_path(config_dir: &str) -> (p: String)
    ensures
        p@ == join(config_dir@, "token_cache.json"@),
{
    joined(config_dir, "token_cache.json")
}

/// Where the OAuth client secret is kept, inside this tool's directory.
pub fn secret_path(config_dir: &str) -> (p: String)
    ensures
        p@ == join(config_dir@, "client_secret.json"@),
{
    joined(config_dir, "client_secret.json")
}

/// The OAuth scopes that the tool asks for: reading and writing tasks.
pub fn tasks_scopes() -> (s: Vec<&'static str>)
    ensures
        s@.len() == 2,
        s@[0]@ == "https://www.googleapis.com/auth/tasks"@,
        s@[1]@ == "https://www.googleapis.com/auth/tasks.readonly"@,
{
    let mut s: Vec<&'static str> = Vec::new();
    s.push("https://www.googleapis.com/auth/tasks");
    s.push("https://www.googleapis.com/auth/tasks.readonly");
    s
}

} // verus!
