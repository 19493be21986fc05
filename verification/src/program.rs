//! The run of one invocation, as a state machine. Every decision — when to
//! create the configuration, when to fail fast, which URL to fetch next,
//! what to print — is made here; the binary around the library only carries
//! the actions out (file system, prompts, the authenticated session) and
//! reports each outcome back as an event.

use vstd::prelude::*;
use vstd::string::*;

use crate::command::{dispatch, dispatch_spec, lines_view, parse_command, parse_command_spec, Command};
use crate::config_store::{validate_config, validate_spec, ReadOutcome, ReadOutcomeModel};
use crate::profile::{pick_user, ProfileModel, UserProfile, UserSummary};
use crate::text::{dec_int, i64_to_string};
use crate::{CliError, Config};

verus! {

/// The query pairs of a request, as character sequences.
pub open spec fn pairs_view(ps: Seq<(String, String)>) -> Seq<(Seq<char>, Seq<char>)> {
    ps.map_values(|p: (String, String)| (p.0@, p.1@))
}

/// The URL that the given base and query pairs build, if they build one: a
/// function of base and pairs alone.
pub uninterp spec fn url_with_params_of(base: Seq<char>, params: Seq<(Seq<char>, Seq<char>)>) -> Option<
    Seq<char>,
>;

/// Relies on url's `Url::parse_with_params`: the URL it builds — or its
/// refusal to build one — depends on the base and the query pairs alone.
#[verifier::external_body]
fn url_with_params(base: &str, params: &Vec<(String, String)>) -> (r: Option<String>)
    ensures
        match r {
            Some(u) => url_with_params_of(base@, pairs_view(params@)) == Some(u@),
            None => url_with_params_of(base@, pairs_view(params@)) is None,
        },
{
    match url::Url::parse_with_params(base, params) {
        Ok(u) => Some(u.as_str().to_owned()),
        Err(_) => None,
    }
}

/// Relies on chrono's `From<SystemTime> for DateTime<Utc>` — which handles
/// a clock reading before the Unix epoch rather than aborting — and on
/// `DateTime::timestamp` for the current second count; nothing is promised
/// of the clock's reading.
#[verifier::external_body]
fn now_epoch_seconds() -> i64 {
    chrono::DateTime::<chrono::Utc>::from(std::time::SystemTime::now()).timestamp()
}

/// The URL of the login-filtered users lookup.
pub open spec fn users_url_of(client_id: Seq<char>, login: Seq<char>) -> Option<Seq<char>> {
    url_with_params_of(
        "https://api.intra.42.fr/v2/users"@,
        seq![("client_id"@, client_id), ("filter[login]"@, login)],
    )
}

/// The URL of the single-user lookup for the given numeric id.
pub open spec fn profile_url_of(client_id: Seq<char>, id: int) -> Option<Seq<char>> {
    url_with_params_of(
        "https://api.intra.42.fr/v2/users/"@ + dec_int(id),
        seq![("client_id"@, client_id)],
    )
}

/// Where a run stands between two actions.
pub enum State {
    /// Waiting to hear whether the configuration file exists.
    CheckingConfig,
    /// Waiting for the interactive creation of the configuration.
    CreatingConfig,
    /// Waiting for the configuration file to be read back for validation.
    ValidatingConfig,
    /// Waiting for the authenticated session.
    OpeningSession,
    /// Waiting for the login-filtered users lookup.
    FetchingSummaries { client_id: String },
    /// Waiting for the single-user lookup.
    FetchingProfile { summary: UserSummary },
    /// The run is over; no further event is accepted.
    Finished,
}

/// View of a state.
pub enum StateModel {
    CheckingConfig,
    CreatingConfig,
    ValidatingConfig,
    OpeningSession,
    FetchingSummaries { client_id: Seq<char> },
    FetchingProfile { summary: UserSummary },
    Finished,
}

impl View for State {
    type V = StateModel;

    open spec fn view(&self) -> StateModel {
        match self {
            State::CheckingConfig => StateModel::CheckingConfig,
            State::CreatingConfig => StateModel::CreatingConfig,
            State::ValidatingConfig => StateModel::ValidatingConfig,
            State::OpeningSession => StateModel::OpeningSession,
            State::FetchingSummaries { client_id } => StateModel::FetchingSummaries {
                client_id: client_id@,
            },
            State::FetchingProfile { summary } => StateModel::FetchingProfile { summary: *summary },
            State::Finished => StateModel::Finished,
        }
    }
}

/// How the login-filtered lookup turned out, as the binary reports it.
pub enum SummariesOutcome {
    /// The call succeeded and the body parsed as an array of summaries.
    Summaries(Vec<UserSummary>),
    /// The call itself failed.
    CallFailed,
    /// The body did not parse as the expected array.
    ParseFailed,
}

/// View of a summaries outcome.
pub enum SummariesOutcomeModel {
    Summaries(Seq<UserSummary>),
    CallFailed,
    ParseFailed,
}

impl View for SummariesOutcome {
    type V = SummariesOutcomeModel;

    open spec fn view(&self) -> SummariesOutcomeModel {
        match self {
            SummariesOutcome::Summaries(v) => SummariesOutcomeModel::Summaries(v@),
            SummariesOutcome::CallFailed => SummariesOutcomeModel::CallFailed,
            SummariesOutcome::ParseFailed => SummariesOutcomeModel::ParseFailed,
        }
    }
}

/// How the single-user lookup turned out, as the binary reports it.
pub enum ProfileOutcome {
    /// The call succeeded and the body parsed as a profile.
    Profile(UserProfile),
    /// The call itself failed.
    CallFailed,
    /// The body did not parse as the expected profile.
    ParseFailed,
}

/// View of a profile outcome.
pub enum ProfileOutcomeModel {
    Profile(ProfileModel),
    CallFailed,
    ParseFailed,
}

impl View for ProfileOutcome {
    type V = ProfileOutcomeModel;

    open spec fn view(&self) -> ProfileOutcomeModel {
        match self {
            ProfileOutcome::Profile(p) => ProfileOutcomeModel::Profile(p@),
            ProfileOutcome::CallFailed => ProfileOutcomeModel::CallFailed,
            ProfileOutcome::ParseFailed => ProfileOutcomeModel::ParseFailed,
        }
    }
}

/// What the binary reports back after carrying out an action.
pub enum Event {
    /// Whether the configuration file exists.
    ConfigChecked(bool),
    /// Whether interactive creation wrote the file.
    ConfigCreated(bool),
    /// What reading the configuration file produced.
    ConfigRead(ReadOutcome),
    /// The session's client id and login, or nothing if it failed to open.
    SessionOpened(Option<(String, String)>),
    /// The outcome of the login-filtered lookup.
    SummariesFetched(SummariesOutcome),
    /// The outcome of the single-user lookup.
    ProfileFetched(ProfileOutcome),
}

/// View of an event.
pub enum EventModel {
    ConfigChecked(bool),
    ConfigCreated(bool),
    ConfigRead(ReadOutcomeModel),
    SessionOpened(Option<(Seq<char>, Seq<char>)>),
    SummariesFetched(SummariesOutcomeModel),
    ProfileFetched(ProfileOutcomeModel),
}

impl View for Event {
    type V = EventModel;

    open spec fn view(&self) -> EventModel {
        match self {
            Event::ConfigChecked(b) => EventModel::ConfigChecked(*b),
            Event::ConfigCreated(b) => EventModel::ConfigCreated(*b),
            Event::ConfigRead(o) => EventModel::ConfigRead(o@),
            Event::SessionOpened(o) => EventModel::SessionOpened(
                match o {
                    Some(p) => Some((p.0@, p.1@)),
                    None => None,
                },
            ),
            Event::SummariesFetched(o) => EventModel::SummariesFetched(o@),
            Event::ProfileFetched(o) => EventModel::ProfileFetched(o@),
        }
    }
}

/// What the binary must do next.
pub enum Action {
    /// Report whether the configuration file exists.
    CheckConfig,
    /// Create the configuration interactively and report whether it was
    /// written.
    CreateConfig,
    /// Read the configuration file back and report what came of it.
    ReadConfig,
    /// Open the authenticated session and report its client id and login.
    OpenSession,
    /// Fetch this URL and report the parsed array of user summaries.
    FetchSummaries(String),
    /// Fetch this URL and report the parsed profile.
    FetchProfile(String),
    /// The run is over: print these lines in order, then report the failure
    /// if one is carried.
    Finish(Vec<String>, Option<CliError>),
}

/// View of an action.
pub enum ActionModel {
    CheckConfig,
    CreateConfig,
    ReadConfig,
    OpenSession,
    FetchSummaries(Seq<char>),
    FetchProfile(Seq<char>),
    Finish(Seq<Seq<char>>, Option<CliError>),
}

impl View for Action {
    type V = ActionModel;

    open spec fn view(&self) -> ActionModel {
        match self {
            Action::CheckConfig => ActionModel::CheckConfig,
            Action::CreateConfig => ActionModel::CreateConfig,
            Action::ReadConfig => ActionModel::ReadConfig,
            Action::OpenSession => ActionModel::OpenSession,
            Action::FetchSummaries(u) => ActionModel::FetchSummaries(u@),
            Action::FetchProfile(u) => ActionModel::FetchProfile(u@),
            Action::Finish(lines, err) => ActionModel::Finish(lines_view(lines@), *err),
        }
    }
}

/// Which events a state can be answered with: exactly the report of the
/// action that the state is waiting for.
pub open spec fn accepts(s: StateModel, ev: EventModel) -> bool {
    match (s, ev) {
        (StateModel::CheckingConfig, EventModel::ConfigChecked(_)) => true,
        (StateModel::CreatingConfig, EventModel::ConfigCreated(_)) => true,
        (StateModel::ValidatingConfig, EventModel::ConfigRead(_)) => true,
        (StateModel::OpeningSession, EventModel::SessionOpened(_)) => true,
        (StateModel::FetchingSummaries { .. }, EventModel::SummariesFetched(_)) => true,
        (StateModel::FetchingProfile { .. }, EventModel::ProfileFetched(_)) => true,
        _ => false,
    }
}

/// A run that is over, with no output but a failure.
pub open spec fn failed(e: CliError) -> (StateModel, ActionModel) {
    (StateModel::Finished, ActionModel::Finish(Seq::empty(), Some(e)))
}

/// The transition of the run: from a state and the event it waited for, the
/// next state and the next action.
pub open spec fn next(s: StateModel, cmd: Command, now: int, ev: EventModel) -> (
    StateModel,
    ActionModel,
) {
    match (s, ev) {
        (StateModel::CheckingConfig, EventModel::ConfigChecked(exists)) => if exists {
            (StateModel::OpeningSession, ActionModel::OpenSession)
        } else {
            (StateModel::CreatingConfig, ActionModel::CreateConfig)
        },
        (StateModel::CreatingConfig, EventModel::ConfigCreated(written)) => if written {
            (StateModel::ValidatingConfig, ActionModel::ReadConfig)
        } else {
            failed(CliError::FileSystem)
        },
        (StateModel::ValidatingConfig, EventModel::ConfigRead(outcome)) => match validate_spec(
            outcome,
        ) {
            Ok(valid) => if valid {
                (StateModel::OpeningSession, ActionModel::OpenSession)
            } else {
                failed(CliError::ConfigurationMissing)
            },
            Err(e) => failed(e),
        },
        (StateModel::OpeningSession, EventModel::SessionOpened(opened)) => match opened {
            None => failed(CliError::Session),
            Some(pair) => match users_url_of(pair.0, pair.1) {
                Some(u) => (
                    StateModel::FetchingSummaries { client_id: pair.0 },
                    ActionModel::FetchSummaries(u),
                ),
                None => failed(CliError::UrlConstruction),
            },
        },
        (StateModel::FetchingSummaries { client_id }, EventModel::SummariesFetched(m)) => match m {
            SummariesOutcomeModel::CallFailed => failed(CliError::Session),
            SummariesOutcomeModel::ParseFailed => failed(CliError::Deserialization),
            SummariesOutcomeModel::Summaries(v) => if v.len() == 0 {
                failed(CliError::UserNotFound)
            } else {
                match profile_url_of(client_id, v[0].id as int) {
                    Some(u) => (
                        StateModel::FetchingProfile { summary: v[0] },
                        ActionModel::FetchProfile(u),
                    ),
                    None => failed(CliError::UrlConstruction),
                }
            },
        },
        (StateModel::FetchingProfile { summary }, EventModel::ProfileFetched(m)) => match m {
            ProfileOutcomeModel::CallFailed => failed(CliError::Session),
            ProfileOutcomeModel::ParseFailed => failed(CliError::Deserialization),
            ProfileOutcomeModel::Profile(p) => (
                StateModel::Finished,
                ActionModel::Finish(
                    dispatch_spec(cmd, summary, p, now).0,
                    dispatch_spec(cmd, summary, p, now).1,
                ),
            ),
        },
        // A pair of state and event that `accepts` refuses never reaches
        // `step`; any fixed answer serves here.
        _ => (s, ActionModel::CheckConfig),
    }
}

/// One invocation's orchestration: the selected command, the clock reading
/// the blackhole renderer counts from, and where the run stands.
pub struct Program {
    pub config: Config,
    pub command: Command,
    pub now: i64,
    pub state: State,
}

impl Program {
    /// Starts a run: selects the command named by the configuration's
    /// command word — an unknown word fails loudly here — and asks first
    /// whether the configuration file exists.
    pub fn new(config: Config) -> (r: Result<(Program, Action), CliError>)
        ensures
            match r {
                Ok(pa) => {
                    &&& parse_command_spec(config.command@) == Some(pa.0.command)
                    &&& pa.0.state@ == StateModel::CheckingConfig
                    &&& pa.0.config.command@ == config.command@
                    &&& pa.1@ == ActionModel::CheckConfig
                },
                Err(e) => parse_command_spec(config.command@) is None && e
                    == CliError::UnknownCommand,
            },
    {
        let command = match parse_command(config.command.as_str()) {
            Ok(c) => c,
            Err(e) => {
                return Err(e);
            },
        };
        let now = now_epoch_seconds();
        Ok((Program { config, command, now, state: State::CheckingConfig }, Action::CheckConfig))
    }

    /// Answers the pending action's event and hands back the next action.
    pub fn step(&mut self, ev: Event) -> (a: Action)
        requires
            accepts(old(self).state@, ev@),
        ensures
            final(self).command == old(self).command,
            final(self).now == old(self).now,
            final(self).config.command@ == old(self).config.command@,
            final(self).state@ == next(old(self).state@, old(self).command, old(self).now as int, ev@).0,
            a@ == next(old(self).state@, old(self).command, old(self).now as int, ev@).1,
    {
        match ev {
            Event::ConfigChecked(exists) => if exists {
                self.state = State::OpeningSession;
                Action::OpenSession
            } else {
                self.state = State::CreatingConfig;
                Action::CreateConfig
            },
            Event::ConfigCreated(written) => if written {
                self.state = State::ValidatingConfig;
                Action::ReadConfig
            } else {
                self.fail(CliError::FileSystem)
            },
            Event::ConfigRead(outcome) => match validate_config(&outcome) {
                Ok(valid) => if valid {
                    self.state = State::OpeningSession;
                    Action::OpenSession
                } else {
                    self.fail(CliError::ConfigurationMissing)
                },
                Err(e) => self.fail(e),
            },
            Event::SessionOpened(opened) => match opened {
                None => self.fail(CliError::Session),
                Some(pair) => {
                    let (client_id, login) = pair;
                    let mut params: Vec<(String, String)> = Vec::new();
                    params.push((String::from_str("client_id"), client_id.clone()));
                    params.push((String::from_str("filter[login]"), login));
                    proof {
                        reveal_strlit("client_id");
                        reveal_strlit("filter[login]");
                        assert(pairs_view(params@) =~= seq![
                            ("client_id"@, client_id@),
                            ("filter[login]"@, params@[1].1@),
                        ]);
                    }
                    match url_with_params("https://api.intra.42.fr/v2/users", &params) {
                        Some(u) => {
                            self.state = State::FetchingSummaries { client_id };
                            Action::FetchSummaries(u)
                        },
                        None => self.fail(CliError::UrlConstruction),
                    }
                },
            },
            Event::SummariesFetched(m) => {
                let client_id = match &self.state {
                    State::FetchingSummaries { client_id } => client_id.clone(),
                    _ => vstd::pervasive::unreached(),
                };
                match m {
                    SummariesOutcome::CallFailed => self.fail(CliError::Session),
                    SummariesOutcome::ParseFailed => self.fail(CliError::Deserialization),
                    SummariesOutcome::Summaries(v) => match pick_user(&v) {
                        Err(e) => self.fail(e),
                        Ok(summary) => {
                            let mut base = String::from_str("https://api.intra.42.fr/v2/users/");
                            base.append(i64_to_string(summary.id).as_str());
                            let mut params: Vec<(String, String)> = Vec::new();
                            params.push((String::from_str("client_id"), client_id));
                            proof {
                                reveal_strlit("client_id");
                                assert(pairs_view(params@) =~= seq![
                                    ("client_id"@, params@[0].1@),
                                ]);
                            }
                            match url_with_params(base.as_str(), &params) {
                                Some(u) => {
                                    self.state = State::FetchingProfile { summary };
                                    Action::FetchProfile(u)
                                },
                                None => self.fail(CliError::UrlConstruction),
                            }
                        },
                    },
                }
            },
            Event::ProfileFetched(m) => {
                let summary = match &self.state {
                    State::FetchingProfile { summary } => *summary,
                    _ => vstd::pervasive::unreached(),
                };
                match m {
                    ProfileOutcome::CallFailed => self.fail(CliError::Session),
                    ProfileOutcome::ParseFailed => self.fail(CliError::Deserialization),
                    ProfileOutcome::Profile(p) => {
                        let (lines, err) = dispatch(self.command, &summary, &p, self.now);
                        self.state = State::Finished;
                        Action::Finish(lines, err)
                    },
                }
            },
        }
    }

    /// Ends the run with a failure and no output.
    fn fail(&mut self, e: CliError) -> (a: Action)
        ensures
            final(self).command == old(self).command,
            final(self).now == old(self).now,
            final(self).config.command@ == old(self).config.command@,
            final(self).state@ == StateModel::Finished,
            a@ == ActionModel::Finish(Seq::empty(), Some(e)),
    {
        self.state = State::Finished;
        let a = Action::Finish(Vec::new(), Some(e));
        proof {
            assert(lines_view(Seq::<String>::empty()) =~= Seq::<Seq<char>>::empty());
        }
        a
    }
}

/// How far a run still has to go: every accepted event strictly lowers it,
/// so a run performs finitely many actions and reaches each state at most
/// once.
pub open spec fn remaining(s: StateModel) -> nat {
    match s {
        StateModel::CheckingConfig => 6,
        StateModel::CreatingConfig => 5,
        StateModel::ValidatingConfig => 4,
        StateModel::OpeningSession => 3,
        StateModel::FetchingSummaries { .. } => 2,
        StateModel::FetchingProfile { .. } => 1,
        StateModel::Finished => 0,
    }
}

/// Interactive creation happens exactly once on a run that finds the
/// configuration missing: the check's "does not exist" answer demands it at
/// once, nothing else ever demands it, and no step leads back to the check,
/// so no run can be asked to create the configuration twice.
pub proof fn lemma_interactive_creation_once(cmd: Command, now: int)
    ensures
        next(StateModel::CheckingConfig, cmd, now, EventModel::ConfigChecked(false)).1
            == ActionModel::CreateConfig,
        forall|s: StateModel, ev: EventModel|
            accepts(s, ev) && #[trigger] next(s, cmd, now, ev).1 == ActionModel::CreateConfig ==> s
                == StateModel::CheckingConfig && ev == EventModel::ConfigChecked(false),
        forall|s: StateModel, ev: EventModel| #[trigger]
            accepts(s, ev) ==> remaining(next(s, cmd, now, ev).0) < remaining(s),
{
}

} // verus!
