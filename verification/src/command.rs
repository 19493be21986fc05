//! The closed set of commands, the parse step that selects one from the
//! command-line word, and the renderers that turn a resolved profile into
//! output lines.

use vstd::prelude::*;
use vstd::arithmetic::div_mod::lemma_fundamental_div_mod;
use vstd::string::*;

use crate::profile::{ProfileModel, UserProfile, UserSummary};
use crate::text::{dec_int, first_token, first_token_of, i64_to_string, labeled_line, render_line};
use crate::CliError;

verus! {

/// The commands a run can be asked to perform, one per profile field plus
/// the composite `Me`.
#[derive(Clone, Copy, PartialEq, Eq, Structural, Debug)]
pub enum Command {
    Id,
    Me,
    Email,
    Login,
    CorrectionPoint,
    Wallet,
    Blackhole,
}

/// Which command, if any, a command word names.
pub open spec fn parse_command_spec(s: Seq<char>) -> Option<Command> {
    if s == "id"@ {
        Some(Command::Id)
    } else if s == "me"@ {
        Some(Command::Me)
    } else if s == "email"@ {
        Some(Command::Email)
    } else if s == "login"@ {
        Some(Command::Login)
    } else if s == "correction_point"@ {
        Some(Command::CorrectionPoint)
    } else if s == "wallet"@ {
        Some(Command::Wallet)
    } else if s == "blackhole"@ {
        Some(Command::Blackhole)
    } else {
        None
    }
}

/// Selects the command named by the given word; any other word is the
/// "unknown command" error, never a silent fallback.
pub fn parse_command(s: &str) -> (r: Result<Command, CliError>)
    ensures
        match r {
            Ok(c) => parse_command_spec(s@) == Some(c),
            Err(e) => parse_command_spec(s@) is None && e == CliError::UnknownCommand,
        },
{
    if crate::text::str_eq(s, "id") {
        Ok(Command::Id)
    } else if crate::text::str_eq(s, "me") {
        Ok(Command::Me)
    } else if crate::text::str_eq(s, "email") {
        Ok(Command::Email)
    } else if crate::text::str_eq(s, "login") {
        Ok(Command::Login)
    } else if crate::text::str_eq(s, "correction_point") {
        Ok(Command::CorrectionPoint)
    } else if crate::text::str_eq(s, "wallet") {
        Ok(Command::Wallet)
    } else if crate::text::str_eq(s, "blackhole") {
        Ok(Command::Blackhole)
    } else {
        Err(CliError::UnknownCommand)
    }
}

/// The second count a timestamp text parses to, if it parses at all: a
/// function of the text alone.
pub uninterp spec fn timestamp_of(s: Seq<char>) -> Option<i64>;

/// Relies on chrono's `FromStr` for `DateTime<Utc>` and on
/// `DateTime::timestamp`: whether a text parses as a timestamp, and the
/// seconds since the epoch it denotes, depend on the text alone.
#[verifier::external_body]
pub(crate) fn parse_timestamp(s: &str) -> (r: Option<i64>)
    ensures
        r == timestamp_of(s@),
{
    match s.parse::<chrono::DateTime<chrono::Utc>>() {
        Ok(t) => Some(t.timestamp()),
        Err(_) => None,
    }
}

/// Signed number of whole days from `now` to `ts`, truncated toward zero:
/// negative when `ts` is already past.
pub open spec fn days_between(ts: int, now: int) -> int {
    let d = ts - now;
    if d >= 0 {
        d / 86400
    } else {
        -((-d) / 86400)
    }
}

/// Computes `days_between` on machine integers.
pub fn days_between_exec(ts: i64, now: i64) -> (d: i64)
    ensures
        d as int == days_between(ts as int, now as int),
{
    let diff: i128 = (ts as i128) - (now as i128);
    if diff >= 0 {
        let q: u128 = (diff as u128) / 86400;
        proof {
            lemma_fundamental_div_mod(diff as int, 86400);
            assert(q < 0x8000_0000_0000_0000) by (nonlinear_arith)
                requires
                    86400 * (q as int) <= diff,
                    diff < 0x2_0000_0000_0000_0000,
                    q >= 0,
            ;
        }
        q as i64
    } else {
        let pos: i128 = -diff;
        let q: u128 = (pos as u128) / 86400;
        proof {
            lemma_fundamental_div_mod(pos as int, 86400);
            assert(q < 0x8000_0000_0000_0000) by (nonlinear_arith)
                requires
                    86400 * (q as int) <= pos,
                    pos < 0x2_0000_0000_0000_0000,
                    q >= 0,
            ;
        }
        -(q as i64)
    }
}

/// The `ID` line, from the summary's numeric identifier.
pub open spec fn id_line(id: int) -> Seq<char> {
    labeled_line("ID"@, dec_int(id))
}

/// The `Login` line.
pub open spec fn login_line(p: ProfileModel) -> Seq<char> {
    labeled_line("Login"@, p.login)
}

/// The `Email` line.
pub open spec fn email_line(p: ProfileModel) -> Seq<char> {
    labeled_line("Email"@, p.email)
}

/// The `Wallet` line.
pub open spec fn wallet_line(p: ProfileModel) -> Seq<char> {
    labeled_line("Wallet"@, dec_int(p.wallet))
}

/// The `Correction point` line.
pub open spec fn correction_line(p: ProfileModel) -> Seq<char> {
    labeled_line("Correction point"@, dec_int(p.correction_point))
}

/// The first line of `Me`: display name, then the first word of the first
/// title — or nothing at all when the profile has no titles — then the
/// login.
pub open spec fn me_header(p: ProfileModel) -> Seq<char> {
    let title = if p.titles.len() == 0 {
        Seq::<char>::empty()
    } else {
        first_token(p.titles[0])
    };
    p.displayname + " | "@ + title + " "@ + p.login
}

/// A profile without titles still renders the first line of `Me`: the title
/// segment is simply empty, between the separator and the login, rather
/// than a failure.
pub proof fn lemma_me_header_without_titles(p: ProfileModel)
    requires
        p.titles.len() == 0,
    ensures
        me_header(p) == p.displayname + " | "@ + " "@ + p.login,
{
    assert(me_header(p) =~= p.displayname + " | "@ + " "@ + p.login);
}

/// The `Cursus` line: the name of the enrollment at index 1.
pub open spec fn cursus_line(p: ProfileModel) -> Seq<char> {
    labeled_line("Cursus"@, p.cursus[1].name)
}

/// The `Grade` line: the grade of the enrollment at index 1, or an empty
/// value when there is none.
pub open spec fn grade_line(p: ProfileModel) -> Seq<char> {
    labeled_line(
        "Grade"@,
        match p.cursus[1].grade {
            Some(g) => g,
            None => Seq::<char>::empty(),
        },
    )
}

/// The `Blackhole` line, or why it cannot be rendered: a profile without an
/// enrollment at index 1 does not have the expected shape, and a missing or
/// unparsable `blackholed_at` is a timestamp failure.
pub open spec fn blackhole_spec(p: ProfileModel, now: int) -> Result<Seq<char>, CliError> {
    if p.cursus.len() < 2 {
        Err(CliError::Deserialization)
    } else {
        match p.cursus[1].blackholed_at {
            None => Err(CliError::TimestampParse),
            Some(s) => match timestamp_of(s) {
                None => Err(CliError::TimestampParse),
                Some(ts) => Ok(labeled_line("Blackhole"@, dec_int(days_between(ts as int, now)))),
            },
        }
    }
}

/// Renders the `Blackhole` line for the enrollment at index 1.
pub fn render_blackhole(p: &UserProfile, now: i64) -> (r: Result<String, CliError>)
    ensures
        match r {
            Ok(l) => blackhole_spec(p@, now as int) == Ok::<Seq<char>, CliError>(l@),
            Err(e) => blackhole_spec(p@, now as int) == Err::<Seq<char>, CliError>(e),
        },
{
    if p.cursus.len() < 2 {
        return Err(CliError::Deserialization);
    }
    let entry = &p.cursus[1];
    match &entry.blackholed_at {
        None => Err(CliError::TimestampParse),
        Some(s) => match parse_timestamp(s.as_str()) {
            None => Err(CliError::TimestampParse),
            Some(ts) => {
                let d = days_between_exec(ts, now);
                Ok(render_line("Blackhole", i64_to_string(d).as_str()))
            },
        },
    }
}

/// The lines of `Me` and, where a step of it cannot be rendered, the
/// failure that ends the output after the lines already produced.
pub open spec fn me_spec(p: ProfileModel, now: int) -> (Seq<Seq<char>>, Option<CliError>) {
    let head = seq![me_header(p), wallet_line(p), correction_line(p)];
    if p.cursus.len() < 2 {
        (head, Some(CliError::Deserialization))
    } else {
        let head2 = head + seq![cursus_line(p), grade_line(p)];
        match blackhole_spec(p, now) {
            Ok(l) => (head2 + seq![l], None),
            Err(e) => (head2, Some(e)),
        }
    }
}

/// What a command prints: its output lines in order and, if a step failed,
/// the failure — everything printed before the failure stays printed.
pub open spec fn dispatch_spec(
    cmd: Command,
    summary: UserSummary,
    p: ProfileModel,
    now: int,
) -> (Seq<Seq<char>>, Option<CliError>) {
    match cmd {
        Command::Id => (seq![id_line(summary.id as int)], None),
        Command::Login => (seq![login_line(p)], None),
        Command::Email => (seq![email_line(p)], None),
        Command::Wallet => (seq![wallet_line(p)], None),
        Command::CorrectionPoint => (seq![correction_line(p)], None),
        Command::Blackhole => match blackhole_spec(p, now) {
            Ok(l) => (seq![l], None),
            Err(e) => (Seq::empty(), Some(e)),
        },
        Command::Me => me_spec(p, now),
    }
}

/// Views of the rendered lines.
pub open spec fn lines_view(lines: Seq<String>) -> Seq<Seq<char>> {
    lines.map_values(|l: String| l@)
}

/// Builds the first line of `Me`.
fn render_me_header(p: &UserProfile) -> (s: String)
    ensures
        s@ == me_header(p@),
{
    let mut s = String::from_str(p.displayname.as_str());
    s.append(" | ");
    if p.titles.len() > 0 {
        let title = first_token_of(p.titles[0].as_str());
        s.append(title.as_str());
    }
    s.append(" ");
    s.append(p.login.as_str());
    proof {
        reveal_strlit(" | ");
        reveal_strlit(" ");
        assert(" | "@ =~= seq![' ', '|', ' ']);
        assert(" "@ =~= seq![' ']);
        assert(p@.titles.len() == p.titles@.len());
        if p.titles@.len() > 0 {
            assert(p@.titles[0] == p.titles@[0]@);
        }
        assert(s@ =~= me_header(p@));
    }
    s
}

/// Runs one command against the resolved user: the lines it prints, in
/// order, and the failure that cut the output short, if any.
pub fn dispatch(cmd: Command, summary: &UserSummary, p: &UserProfile, now: i64) -> (r: (
    Vec<String>,
    Option<CliError>,
))
    ensures
        lines_view(r.0@) == dispatch_spec(cmd, *summary, p@, now as int).0,
        r.1 == dispatch_spec(cmd, *summary, p@, now as int).1,
{
    let mut lines: Vec<String> = Vec::new();
    let ghost goal = dispatch_spec(cmd, *summary, p@, now as int);
    match cmd {
        Command::Id => {
            lines.push(render_line("ID", i64_to_string(summary.id).as_str()));
            proof {
                assert(lines_view(lines@) =~~= goal.0);
            }
            (lines, None)
        },
        Command::Login => {
            lines.push(render_line("Login", p.login.as_str()));
            proof {
                assert(lines_view(lines@) =~~= goal.0);
            }
            (lines, None)
        },
        Command::Email => {
            lines.push(render_line("Email", p.email.as_str()));
            proof {
                assert(lines_view(lines@) =~~= goal.0);
            }
            (lines, None)
        },
        Command::Wallet => {
            lines.push(render_line("Wallet", i64_to_string(p.wallet).as_str()));
            proof {
                assert(lines_view(lines@) =~~= goal.0);
            }
            (lines, None)
        },
        Command::CorrectionPoint => {
            lines.push(render_line("Correction point", i64_to_string(p.correction_point).as_str()));
            proof {
                assert(lines_view(lines@) =~~= goal.0);
            }
            (lines, None)
        },
        Command::Blackhole => match render_blackhole(p, now) {
            Ok(l) => {
                lines.push(l);
                proof {
                    assert(lines_view(lines@) =~~= goal.0);
                }
                (lines, None)
            },
            Err(e) => {
                proof {
                    assert(lines_view(lines@) =~~= goal.0);
                }
                (lines, Some(e))
            },
        },
        Command::Me => {
            lines.push(render_me_header(p));
            lines.push(render_line("Wallet", i64_to_string(p.wallet).as_str()));
            lines.push(render_line("Correction point", i64_to_string(p.correction_point).as_str()));
            if p.cursus.len() < 2 {
                proof {
                    assert(lines_view(lines@) =~~= goal.0);
                }
                return (lines, Some(CliError::Deserialization));
            }
            lines.push(render_line("Cursus", p.cursus[1].name.as_str()));
            let grade_value = match &p.cursus[1].grade {
                Some(g) => g.as_str(),
                None => "",
            };
            proof {
                reveal_strlit("");
                assert(""@ =~= Seq::<char>::empty());
                assert(p@.cursus[1] == p.cursus@[1]@);
            }
            lines.push(render_line("Grade", grade_value));
            match render_blackhole(p, now) {
                Ok(l) => {
                    lines.push(l);
                    proof {
                        assert(lines_view(lines@) =~~= goal.0);
                    }
                    (lines, None)
                },
                Err(e) => {
                    proof {
                        assert(lines_view(lines@) =~~= goal.0);
                    }
                    (lines, Some(e))
                },
            }
        },
    }
}

} // verus!
