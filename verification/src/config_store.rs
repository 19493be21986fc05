//! The configuration store: the three persisted credentials, the key/value
//! file format they are written in, and the validation rule applied on every
//! start. The file itself is read and written by the binary around this
//! library; everything here works on the file's text.

use vstd::prelude::*;
use vstd::string::*;

use crate::text::{lemma_prefix_len_of_scan, prefix_len, str_eq};
use crate::CliError;

verus! {

/// The three secrets a run needs, as read from the configuration file.
pub struct Credentials {
    pub client_id: String,
    pub client_secret: String,
    pub login: String,
}

/// Largest accepted length, in characters, of `client_id` and
/// `client_secret`.
pub const CLIENT_FIELD_MAX: usize = 256;

/// The invariant on a usable configuration: both OAuth client fields are
/// non-empty and no longer than `CLIENT_FIELD_MAX` characters.
pub open spec fn client_fields_valid(client_id: Seq<char>, client_secret: Seq<char>) -> bool {
    0 < client_id.len() <= CLIENT_FIELD_MAX as nat && 0 < client_secret.len()
        <= CLIENT_FIELD_MAX as nat
}

/// Checks the client-field invariant on credentials.
pub fn check_client(c: &Credentials) -> (r: bool)
    ensures
        r == client_fields_valid(c.client_id@, c.client_secret@),
{
    let id_len = c.client_id.as_str().unicode_len();
    let secret_len = c.client_secret.as_str().unicode_len();
    0 < id_len && id_len <= CLIENT_FIELD_MAX && 0 < secret_len && secret_len <= CLIENT_FIELD_MAX
}

/// One line of the configuration file: `key="value"` and a newline.
pub open spec fn config_line(key: Seq<char>, value: Seq<char>) -> Seq<char> {
    key + seq!['=', '"'] + value + seq!['"', '\n']
}

/// The whole configuration file for the given three values.
pub open spec fn render_config_spec(
    client_id: Seq<char>,
    client_secret: Seq<char>,
    login: Seq<char>,
) -> Seq<char> {
    config_line("client_id"@, client_id) + config_line("client_secret"@, client_secret)
        + config_line("login"@, login)
}

/// Appends one `key="value"` line to `out`.
fn push_config_line(out: &mut String, key: &str, value: &str)
    ensures
        final(out)@ == old(out)@ + config_line(key@, value@),
{
    out.append(key);
    out.append("=\"");
    out.append(value);
    out.append("\"\n");
    proof {
        reveal_strlit("=\"");
        reveal_strlit("\"\n");
        assert("=\""@ =~= seq!['=', '"']);
        assert("\"\n"@ =~= seq!['"', '\n']);
        assert(out@ =~= old(out)@ + config_line(key@, value@));
    }
}

/// The text written to a fresh configuration file for these credentials.
pub fn render_config(c: &Credentials) -> (s: String)
    ensures
        s@ == render_config_spec(c.client_id@, c.client_secret@, c.login@),
{
    let mut s = String::new();
    push_config_line(&mut s, "client_id", c.client_id.as_str());
    push_config_line(&mut s, "client_secret", c.client_secret.as_str());
    push_config_line(&mut s, "login", c.login.as_str());
    proof {
        assert(s@ =~= render_config_spec(c.client_id@, c.client_secret@, c.login@));
    }
    s
}

/// The instruction lines shown before the interactive prompts: where to
/// register the OAuth application and which redirect URL to give it.
pub fn setup_instructions() -> (lines: Vec<String>)
    ensures
        lines@.len() == 3,
        lines@[0]@ == "Browse to: https://profile.intra.42.fr/oauth/applications/new"@,
        lines@[1]@ == "Create new Application"@,
        lines@[2]@ == "Set redirect_url to \"http://localhost:8080\""@,
{
    let mut lines: Vec<String> = Vec::new();
    lines.push(String::from_str("Browse to: https://profile.intra.42.fr/oauth/applications/new"));
    lines.push(String::from_str("Create new Application"));
    lines.push(String::from_str("Set redirect_url to \"http://localhost:8080\""));
    lines
}

/// Parse of one non-empty line. A line is `key="value"`: a non-empty key
/// before the first `=`, then the value between one pair of double quotes,
/// which the value itself cannot contain.
pub open spec fn parse_line(l: Seq<char>) -> Option<(Seq<char>, Seq<char>)> {
    let k = prefix_len(l, '=') as int;
    if k == l.len() || k == 0 {
        None
    } else {
        let rest = l.skip(k + 1);
        if rest.len() < 2 || rest[0] != '"' || rest[rest.len() - 1] != '"' {
            None
        } else {
            let v = rest.subrange(1, rest.len() - 1);
            if v.contains('"') {
                None
            } else {
                Some((l.take(k), v))
            }
        }
    }
}

/// Folds the remaining lines of the file into the three values collected so
/// far. Empty lines are skipped, unknown keys are ignored, the first
/// occurrence of a key wins, and a malformed line rejects the whole file.
pub open spec fn parse_config_rec(
    s: Seq<char>,
    client_id: Option<Seq<char>>,
    client_secret: Option<Seq<char>>,
    login: Option<Seq<char>>,
) -> Option<(Seq<char>, Seq<char>, Seq<char>)>
    decreases s.len(),
{
    if s.len() == 0 {
        match (client_id, client_secret, login) {
            (Some(i), Some(c), Some(l)) => Some((i, c, l)),
            _ => None,
        }
    } else {
        let n = prefix_len(s, '\n') as int;
        let line = s.take(n);
        let rest = if n < s.len() {
            s.skip(n + 1)
        } else {
            Seq::empty()
        };
        if line.len() == 0 {
            parse_config_rec(rest, client_id, client_secret, login)
        } else {
            match parse_line(line) {
                None => None,
                Some((k, v)) => if k == "client_id"@ {
                    parse_config_rec(
                        rest,
                        if client_id is None {
                            Some(v)
                        } else {
                            client_id
                        },
                        client_secret,
                        login,
                    )
                } else if k == "client_secret"@ {
                    parse_config_rec(
                        rest,
                        client_id,
                        if client_secret is None {
                            Some(v)
                        } else {
                            client_secret
                        },
                        login,
                    )
                } else if k == "login"@ {
                    parse_config_rec(
                        rest,
                        client_id,
                        client_secret,
                        if login is None {
                            Some(v)
                        } else {
                            login
                        },
                    )
                } else {
                    parse_config_rec(rest, client_id, client_secret, login)
                },
            }
        }
    }
}

/// Parse of the whole configuration file: the three required values, or
/// nothing if a line is malformed or a required key is missing.
pub open spec fn parse_config_spec(s: Seq<char>) -> Option<(Seq<char>, Seq<char>, Seq<char>)> {
    parse_config_rec(s, None, None, None)
}

/// View of an optional owned string as an optional character sequence.
pub open spec fn opt_view(o: Option<String>) -> Option<Seq<char>> {
    match o {
        Some(s) => Some(s@),
        None => None,
    }
}

/// Parses one non-empty line into its key and value.
fn parse_line_exec(line: &str) -> (r: Option<(String, String)>)
    ensures
        match r {
            Some(p) => parse_line(line@) == Some((p.0@, p.1@)),
            None => parse_line(line@) is None,
        },
{
    let len = line.unicode_len();
    let mut k: usize = 0;
    while k < len && line.get_char(k) != '='
        invariant
            k <= len == line@.len(),
            forall|j: int| 0 <= j < k ==> line@[j] != '=',
        decreases len - k,
    {
        k = k + 1;
    }
    proof {
        lemma_prefix_len_of_scan(line@, '=', k as nat);
    }
    if k == len || k == 0 {
        return None;
    }
    // The rest of the line, after the `=`, must be `"value"`.
    if len - (k + 1) < 2 || line.get_char(k + 1) != '"' || line.get_char(len - 1) != '"' {
        proof {
            let rest = line@.skip(k + 1);
            assert(rest.len() == len - (k + 1));
            if rest.len() >= 2 {
                assert(rest[0] == line@[k + 1]);
                assert(rest[rest.len() - 1] == line@[len - 1]);
            }
        }
        return None;
    }
    let mut j: usize = k + 2;
    while j < len - 1 && line.get_char(j) != '"'
        invariant
            k + 2 <= j <= len - 1,
            len == line@.len(),
            forall|i: int| k + 2 <= i < j ==> line@[i] != '"',
        decreases len - j,
    {
        j = j + 1;
    }
    proof {
        let rest = line@.skip(k + 1 as int);
        let v = rest.subrange(1, rest.len() - 1);
        assert(v =~= line@.subrange(k + 2, len - 1));
        if j < len - 1 {
            assert(v[j - (k + 2)] == line@[j as int]);
            assert(v.contains('"'));
        } else {
            assert(forall|i: int| 0 <= i < v.len() ==> v[i] == line@[i + k + 2] && v[i] != '"');
            assert(!v.contains('"'));
        }
    }
    if j < len - 1 {
        return None;
    }
    let key = line.substring_char(0, k).to_owned();
    let value = line.substring_char(k + 2, len - 1).to_owned();
    proof {
        let rest = line@.skip(k + 1 as int);
        let v = rest.subrange(1, rest.len() - 1);
        assert(key@ =~= line@.take(k as int));
        assert(value@ =~= v);
    }
    Some((key, value))
}

/// Parses the text of a configuration file into credentials.
pub fn parse_config(content: &str) -> (r: Result<Credentials, CliError>)
    ensures
        match r {
            Ok(c) => parse_config_spec(content@) == Some(
                (c.client_id@, c.client_secret@, c.login@),
            ),
            Err(e) => parse_config_spec(content@) is None && e == CliError::ConfigurationInvalid,
        },
{
    let mut rem: &str = content;
    let mut client_id: Option<String> = None;
    let mut client_secret: Option<String> = None;
    let mut login: Option<String> = None;
    loop
        invariant
            parse_config_rec(rem@, opt_view(client_id), opt_view(client_secret), opt_view(login))
                == parse_config_spec(content@),
        ensures
            rem@.len() == 0,
            parse_config_rec(rem@, opt_view(client_id), opt_view(client_secret), opt_view(login))
                == parse_config_spec(content@),
        decreases rem@.len(),
    {
        let len = rem.unicode_len();
        if len == 0 {
            break ;
        }
        let mut n: usize = 0;
        while n < len && rem.get_char(n) != '\n'
            invariant
                n <= len == rem@.len(),
                forall|j: int| 0 <= j < n ==> rem@[j] != '\n',
            decreases len - n,
        {
            n = n + 1;
        }
        proof {
            lemma_prefix_len_of_scan(rem@, '\n', n as nat);
        }
        let line = rem.substring_char(0, n);
        let rest = rem.substring_char(if n < len {
            n + 1
        } else {
            len
        }, len);
        proof {
            assert(line@ =~= rem@.take(n as int));
            if n < len {
                assert(rest@ =~= rem@.skip(n + 1));
            } else {
                assert(rest@ =~= Seq::<char>::empty());
            }
        }
        if line.unicode_len() != 0 {
            match parse_line_exec(line) {
                None => {
                    return Err(CliError::ConfigurationInvalid);
                },
                Some(pair) => {
                    let (key, value) = pair;
                    if str_eq(key.as_str(), "client_id") {
                        if client_id.is_none() {
                            client_id = Some(value);
                        }
                    } else if str_eq(key.as_str(), "client_secret") {
                        if client_secret.is_none() {
                            client_secret = Some(value);
                        }
                    } else if str_eq(key.as_str(), "login") {
                        if login.is_none() {
                            login = Some(value);
                        }
                    }
                },
            }
        }
        rem = rest;
    }
    match (client_id, client_secret, login) {
        (Some(i), Some(c), Some(l)) => Ok(
            Credentials { client_id: i, client_secret: c, login: l },
        ),
        _ => Err(CliError::ConfigurationInvalid),
    }
}

/// Parsing one rendered `key="value"` line at the head of a file recovers
/// the key and the value and leaves exactly the rest of the file.
proof fn lemma_parse_config_line(k: Seq<char>, v: Seq<char>, rest: Seq<char>)
    requires
        k.len() > 0,
        forall|i: int| 0 <= i < k.len() ==> k[i] != '=' && k[i] != '\n',
        !v.contains('"'),
        !v.contains('\n'),
    ensures
        ({
            let s = config_line(k, v) + rest;
            let n = prefix_len(s, '\n') as int;
            &&& n == k.len() + v.len() + 3
            &&& n < s.len()
            &&& s.take(n) == k + seq!['=', '"'] + v + seq!['"']
            &&& s.skip(n + 1) == rest
            &&& parse_line(s.take(n)) == Some((k, v))
        }),
{
    let s = config_line(k, v) + rest;
    let line = k + seq!['=', '"'] + v + seq!['"'];
    let m = line.len() as int;
    assert(s.take(m) =~= line);
    assert(s.skip(m + 1) =~= rest);
    assert forall|j: int| 0 <= j < m implies s[j] != '\n' by {
        if k.len() + 2 <= j < k.len() + 2 + v.len() {
            assert(line[j] == v[j - k.len() - 2]);
            if line[j] == '\n' {
                assert(v.contains('\n'));
            }
        }
    }
    assert(s[m] == '\n');
    lemma_prefix_len_of_scan(s, '\n', line.len());
    // Within the line, the first `=` closes the key.
    assert forall|j: int| 0 <= j < k.len() implies line[j] != '=' by {
        assert(line[j] == k[j]);
    }
    assert(line[k.len() as int] == '=');
    lemma_prefix_len_of_scan(line, '=', k.len());
    let rest_l = line.skip(k.len() as int + 1);
    assert(rest_l.len() == v.len() + 2);
    assert(rest_l[0] == line[k.len() as int + 1]);
    assert(rest_l[0] == '"');
    assert(rest_l[rest_l.len() - 1] == line[m - 1]);
    assert(rest_l[rest_l.len() - 1] == '"');
    assert(rest_l.subrange(1, rest_l.len() - 1) =~= v);
    assert(line.take(k.len() as int) =~= k);
}

/// No character of these three key literals is `=` or a newline, and no two
/// of them are the same text.
proof fn lemma_config_keys()
    ensures
        "client_id"@.len() == 9,
        "client_secret"@.len() == 13,
        "login"@.len() == 5,
        forall|i: int|
            0 <= i < "client_id"@.len() ==> "client_id"@[i] != '=' && "client_id"@[i] != '\n',
        forall|i: int|
            0 <= i < "client_secret"@.len() ==> "client_secret"@[i] != '=' && "client_secret"@[i]
                != '\n',
        forall|i: int| 0 <= i < "login"@.len() ==> "login"@[i] != '=' && "login"@[i] != '\n',
{
    reveal_strlit("client_id");
    reveal_strlit("client_secret");
    reveal_strlit("login");
}

/// Round trip of the configuration store: a file rendered from three values
/// that contain no double quote and no newline parses back to exactly those
/// three values.
pub proof fn lemma_config_round_trip(id: Seq<char>, secret: Seq<char>, login: Seq<char>)
    requires
        !id.contains('"'),
        !id.contains('\n'),
        !secret.contains('"'),
        !secret.contains('\n'),
        !login.contains('"'),
        !login.contains('\n'),
    ensures
        parse_config_spec(render_config_spec(id, secret, login)) == Some((id, secret, login)),
{
    lemma_config_keys();
    let s1 = render_config_spec(id, secret, login);
    let s2 = config_line("client_secret"@, secret) + config_line("login"@, login);
    let s3 = config_line("login"@, login) + Seq::<char>::empty();
    assert(s1 =~= config_line("client_id"@, id) + s2);
    lemma_parse_config_line("client_id"@, id, s2);
    let n1 = prefix_len(s1, '\n') as int;
    assert(parse_config_rec(s1, None, None, None) == parse_config_rec(
        s2,
        Some(id),
        None,
        None,
    ));
    assert(s2 =~= config_line("client_secret"@, secret) + s3);
    lemma_parse_config_line("client_secret"@, secret, s3);
    assert("client_secret"@ != "client_id"@);
    assert(parse_config_rec(s2, Some(id), None, None) == parse_config_rec(
        s3,
        Some(id),
        Some(secret),
        None,
    ));
    assert(s3 =~= config_line("login"@, login) + Seq::<char>::empty());
    lemma_parse_config_line("login"@, login, Seq::<char>::empty());
    assert("login"@ != "client_id"@ && "login"@ != "client_secret"@);
    assert(parse_config_rec(s3, Some(id), Some(secret), None) == parse_config_rec(
        Seq::<char>::empty(),
        Some(id),
        Some(secret),
        Some(login),
    ));
}

/// A well-formed configuration file validates by the client-field invariant
/// alone: rendered credentials whose client fields are non-empty and within
/// the length bound validate as `true`, and ones that break the bound
/// validate as `false`.
pub proof fn lemma_validate_rendered(id: Seq<char>, secret: Seq<char>, login: Seq<char>)
    requires
        !id.contains('"'),
        !id.contains('\n'),
        !secret.contains('"'),
        !secret.contains('\n'),
        !login.contains('"'),
        !login.contains('\n'),
    ensures
        validate_spec(ReadOutcomeModel::Content(render_config_spec(id, secret, login))) == Ok::<
            bool,
            CliError,
        >(client_fields_valid(id, secret)),
{
    lemma_config_round_trip(id, secret, login);
}

/// What the binary found when it tried to read the configuration file.
pub enum ReadOutcome {
    /// The file was read; this is its text.
    Content(String),
    /// The file does not exist.
    NotFound,
    /// The file exists but may not be read.
    PermissionDenied,
    /// The read failed for some other reason.
    OtherError,
}

/// View of a read outcome, with the content as a character sequence.
pub enum ReadOutcomeModel {
    Content(Seq<char>),
    NotFound,
    PermissionDenied,
    OtherError,
}

impl View for ReadOutcome {
    type V = ReadOutcomeModel;

    open spec fn view(&self) -> ReadOutcomeModel {
        match self {
            ReadOutcome::Content(s) => ReadOutcomeModel::Content(s@),
            ReadOutcome::NotFound => ReadOutcomeModel::NotFound,
            ReadOutcome::PermissionDenied => ReadOutcomeModel::PermissionDenied,
            ReadOutcome::OtherError => ReadOutcomeModel::OtherError,
        }
    }
}

/// What validation decides for each way the read can turn out: a file that
/// does not parse is an error, a parsed file reports the client-field
/// invariant, and a file that is missing, unreadable, or failed to read for
/// any other reason reports `false` — a configuration that cannot be read
/// never validates.
pub open spec fn validate_spec(outcome: ReadOutcomeModel) -> Result<bool, CliError> {
    match outcome {
        ReadOutcomeModel::Content(s) => match parse_config_spec(s) {
            Some((id, secret, _)) => Ok(client_fields_valid(id, secret)),
            None => Err(CliError::ConfigurationInvalid),
        },
        ReadOutcomeModel::NotFound => Ok(false),
        ReadOutcomeModel::PermissionDenied => Ok(false),
        ReadOutcomeModel::OtherError => Ok(false),
    }
}

/// Validates the configuration from whatever the read of its file produced.
pub fn validate_config(outcome: &ReadOutcome) -> (r: Result<bool, CliError>)
    ensures
        r == validate_spec(outcome@),
{
    match outcome {
        ReadOutcome::Content(s) => match parse_config(s.as_str()) {
            Ok(c) => Ok(check_client(&c)),
            Err(e) => Err(e),
        },
        ReadOutcome::NotFound => Ok(false),
        ReadOutcome::PermissionDenied => Ok(false),
        ReadOutcome::OtherError => Ok(false),
    }
}

} // verus!
