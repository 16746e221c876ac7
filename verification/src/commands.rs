//! What the desktop client's setup commands decide, apart from the locking,
//! persistence and sidecar restarts around them.
use crate::client_config::ClientConfig;
use crate::text::{chars_of, is_white_space, lemma_trim_shape, push_char, trim, trimmed};
use vstd::prelude::*;

verus! {

/// The configuration behind an optional reference.
pub open spec fn opt_config(config: Option<&ClientConfig>) -> Option<ClientConfig> {
    match config {
        Some(c) => Some(*c),
        None => None,
    }
}

/// Whether the wizard is shown: until setup is completed, and whenever the
/// configuration cannot be read.
pub open spec fn wizard_shown(config: Option<ClientConfig>) -> bool {
    match config {
        Some(c) => !c.first_run_completed,
        None => true,
    }
}

/// The admin token configured in a readable configuration: `None` when the
/// configuration cannot be read or holds no (an empty) token.
pub open spec fn stored_token(config: Option<ClientConfig>) -> Option<String> {
    match config {
        Some(c) => if c.admin_token@.len() == 0 {
            None
        } else {
            Some(c.admin_token)
        },
        None => None,
    }
}

/// The master key that a readable configuration holds.
pub open spec fn stored_key(config: Option<ClientConfig>) -> Option<String> {
    match config {
        Some(c) => Some(c.master_key),
        None => None,
    }
}

/// The sidecar port as reported: 0 when it cannot be read.
pub open spec fn reported_port(port: Option<u16>) -> u16 {
    match port {
        Some(v) => v,
        None => 0,
    }
}

/// Whether the setup wizard should be shown, given the configuration
/// (`None` where its lock is poisoned): until setup is completed, and
/// always when the configuration cannot be read.
pub fn is_first_run(config: Option<&ClientConfig>) -> (b: bool)
    ensures
        b == wizard_shown(opt_config(config)),
{
    match config {
        Some(c) => !c.first_run_completed,
        None => true,
    }
}

/// The stored admin token, so the frontend can log in without the login
/// page; `None` when no token is configured or the configuration cannot be
/// read.
pub fn get_admin_token(config: Option<&ClientConfig>) -> (t: Option<String>)
    ensures
        t == stored_token(opt_config(config)),
{
    match config {
        Some(c) => if c.admin_token.as_str().unicode_len() == 0 {
            None
        } else {
            Some(c.admin_token.clone())
        },
        None => None,
    }
}

/// The stored master key, or `None` when the configuration cannot be read.
pub fn get_master_key(config: Option<&ClientConfig>) -> (k: Option<String>)
    ensures
        k == stored_key(opt_config(config)),
{
    match config {
        Some(c) => Some(c.master_key.clone()),
        None => None,
    }
}

/// The sidecar's port, or 0 when it cannot be read.
pub fn get_server_port(port: Option<u16>) -> (p: u16)
    ensures
        p == reported_port(port),
{
    match port {
        Some(v) => v,
        None => 0,
    }
}

/// The secret to store, or the error to answer: `input` without surrounding
/// white space, refused with `message` when nothing else is left.
pub open spec fn secret_or_error(input: Seq<char>, message: Seq<char>) -> Result<Seq<char>, Seq<char>> {
    if trimmed(input).len() == 0 {
        Err(message)
    } else {
        Ok(trimmed(input))
    }
}

/// The view of a result of strings.
pub open spec fn result_view(r: Result<String, String>) -> Result<Seq<char>, Seq<char>> {
    match r {
        Ok(s) => Ok(s@),
        Err(e) => Err(e@),
    }
}

/// Checks a user-chosen admin token: it is stored trimmed, and a token
/// that is empty or all white space is refused.
pub fn validate_admin_token(token: &str) -> (r: Result<String, String>)
    ensures
        result_view(r) == secret_or_error(token@, "token cannot be empty"@),
{
    let t = trim(token);
    if t.as_str().unicode_len() == 0 {
        Err("token cannot be empty".to_owned())
    } else {
        Ok(t)
    }
}

/// Checks a master key: it is stored trimmed, and a key that is empty or
/// all white space is refused.
pub fn validate_master_key(key: &str) -> (r: Result<String, String>)
    ensures
        result_view(r) == secret_or_error(key@, "master key cannot be empty"@),
{
    let k = trim(key);
    if k.as_str().unicode_len() == 0 {
        Err("master key cannot be empty".to_owned())
    } else {
        Ok(k)
    }
}

/// The database URL for the SQLite file at `db_path`: backslashes become
/// forward slashes, and the file is opened read-write, created if missing.
pub open spec fn sqlite_url(db_path: Seq<char>) -> Seq<char> {
    "sqlite://"@ + db_path.map_values(|c: char| if c == '\\' { '/' } else { c }) + "?mode=rwc"@
}

/// Builds the sidecar's `sqlite://...?mode=rwc` database URL from the
/// database file's path.
pub fn sqlite_database_url(db_path: &str) -> (u: String)
    ensures
        u@ == sqlite_url(db_path@),
{
    let cs = chars_of(db_path);
    let mut u = "sqlite://".to_owned();
    let ghost prefix = u@;
    let mut i: usize = 0;
    while i < cs.len()
        invariant
            i <= cs.len(),
            cs@ == db_path@,
            prefix == "sqlite://"@,
            u@ == prefix + cs@.take(i as int).map_values(|c: char| if c == '\\' { '/' } else { c }),
        decreases cs.len() - i,
    {
        let c = cs[i];
        push_char(&mut u, if c == '\\' { '/' } else { c });
        assert(cs@.take(i + 1).map_values(|c: char| if c == '\\' { '/' } else { c }) =~= cs@.take(
            i as int,
        ).map_values(|c: char| if c == '\\' { '/' } else { c }).push(if c == '\\' { '/' } else { c }));
        i = i + 1;
    }
    assert(cs@.take(i as int) =~= db_path@);
    u.append("?mode=rwc");
    u
}

/// Setting a valid admin token completes setup: afterwards the wizard is
/// no longer shown, and the token read back is the submitted one without
/// its surrounding white space. Passwordless mode completes setup too and
/// keeps the token that was there (reported where one is configured).
pub proof fn lemma_token_setup_completes(c: ClientConfig, input: Seq<char>, token: String)
    requires
        secret_or_error(input, "token cannot be empty"@) == Ok::<Seq<char>, Seq<char>>(token@),
    ensures
        ({
            let with_token = ClientConfig { first_run_completed: true, admin_token: token, ..c };
            let passwordless = ClientConfig { first_run_completed: true, ..c };
            &&& !wizard_shown(Some(with_token))
            &&& stored_token(Some(with_token)) == Some(token)
            &&& token@ == trimmed(input)
            &&& token@.len() > 0
            &&& !wizard_shown(Some(passwordless))
            &&& c.admin_token@.len() > 0 ==> stored_token(Some(passwordless)) == Some(c.admin_token)
        }),
{
}


/// A secret is accepted exactly when it holds a character other than white
/// space; what is stored is the input without surrounding white space, so
/// an input without any white space is stored exactly as given; and the
/// refusal carries the given message.
pub proof fn lemma_secret_validation(input: Seq<char>, message: Seq<char>)
    ensures
        (exists|i: int| 0 <= i < input.len() && !is_white_space(#[trigger] input[i]))
            ==> secret_or_error(input, message) == Ok::<Seq<char>, Seq<char>>(trimmed(input))
            && trimmed(input).len() > 0,
        (forall|i: int| 0 <= i < input.len() ==> is_white_space(#[trigger] input[i]))
            ==> secret_or_error(input, message) == Err::<Seq<char>, Seq<char>>(message),
        input.len() > 0 && (forall|i: int| 0 <= i < input.len() ==> !is_white_space(#[trigger] input[i]))
            ==> secret_or_error(input, message) == Ok::<Seq<char>, Seq<char>>(input),
{
    lemma_trim_shape(input);
    if input.len() > 0 && (forall|i: int| 0 <= i < input.len() ==> !is_white_space(#[trigger] input[i])) {
        let (a, b) = choose|a: int, b: int|
            {
                &&& 0 <= a <= b <= input.len()
                &&& trimmed(input) == input.subrange(a, b)
                &&& forall|i: int| 0 <= i < a ==> is_white_space(#[trigger] input[i])
                &&& forall|i: int| b <= i < input.len() ==> is_white_space(#[trigger] input[i])
                &&& a < b ==> !is_white_space(input[a]) && !is_white_space(input[b - 1])
            };
        if a > 0 {
            assert(is_white_space(input[0]));
        }
        if b < input.len() {
            assert(is_white_space(input[input.len() - 1]));
        }
        assert(input.subrange(a, b) =~= input);
    }
}

/// The database URL is `sqlite://`, then the path with each backslash made
/// a forward slash and every other character kept in place, then `?mode=rwc`.
pub proof fn lemma_sqlite_url_shape(db_path: Seq<char>)
    ensures
        ({
            let u = sqlite_url(db_path);
            let pre = "sqlite://"@;
            let suf = "?mode=rwc"@;
            &&& u.len() == pre.len() + db_path.len() + suf.len()
            &&& u.subrange(0, pre.len() as int) == pre
            &&& forall|i: int| 0 <= i < db_path.len() ==> #[trigger] u[pre.len() + i] == (if db_path[i] == '\\' {
                '/'
            } else {
                db_path[i]
            })
            &&& u.subrange((pre.len() + db_path.len()) as int, u.len() as int) == suf
        }),
{
    let u = sqlite_url(db_path);
    let pre = "sqlite://"@;
    let suf = "?mode=rwc"@;
    let m = db_path.map_values(|c: char| if c == '\\' { '/' } else { c });
    assert(u.subrange(0, pre.len() as int) =~= pre);
    assert(u.subrange((pre.len() + db_path.len()) as int, u.len() as int) =~= suf);
    assert forall|i: int| 0 <= i < db_path.len() implies #[trigger] u[pre.len() + i] == (if db_path[i] == '\\' {
        '/'
    } else {
        db_path[i]
    }) by {
        assert(u[pre.len() + i] == m[i]);
    }
}

/// The token reported for a readable configuration is its admin token
/// exactly when that token is not empty, and nothing is reported otherwise;
/// the wizard shows until setup is completed and when the configuration is
/// unreadable; the master key is reported whenever the configuration is
/// readable; the port is reported as read, or 0.
pub proof fn lemma_reported_token(c: ClientConfig)
    ensures
        c.admin_token@.len() > 0 ==> stored_token(Some(c)) == Some(c.admin_token),
        c.admin_token@.len() == 0 ==> stored_token(Some(c)) is None,
        stored_token(None) is None,
        wizard_shown(Some(c)) == !c.first_run_completed,
        wizard_shown(None),
        stored_key(Some(c)) == Some(c.master_key),
        stored_key(None) is None,
        forall|p: u16| #[trigger] reported_port(Some(p)) == p,
        reported_port(None) == 0,
{
}

} // verus!
