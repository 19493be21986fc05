//! The two values the resolver produces: the summary of the login-filtered
//! lookup, and the full profile of the id lookup. The binary around this
//! library turns the raw response bodies into these plain values; everything
//! that reads them is verified here.

use vstd::prelude::*;

use crate::CliError;

verus! {

/// What the login-filtered lookup yields per user: the numeric identifier
/// that drives the second lookup.
#[derive(Clone, Copy, PartialEq, Eq, Structural, Debug)]
pub struct UserSummary {
    pub id: i64,
}

/// One cursus enrollment of a profile.
pub struct CursusEntry {
    pub name: String,
    pub grade: Option<String>,
    pub blackholed_at: Option<String>,
}

/// The full user profile, reduced to the fields the renderers read.
pub struct UserProfile {
    pub displayname: String,
    pub login: String,
    pub email: String,
    pub wallet: i64,
    pub correction_point: i64,
    pub titles: Vec<String>,
    pub cursus: Vec<CursusEntry>,
}

/// View of a cursus enrollment.
pub struct CursusModel {
    pub name: Seq<char>,
    pub grade: Option<Seq<char>>,
    pub blackholed_at: Option<Seq<char>>,
}

/// View of a profile: every text field as a character sequence.
pub struct ProfileModel {
    pub displayname: Seq<char>,
    pub login: Seq<char>,
    pub email: Seq<char>,
    pub wallet: int,
    pub correction_point: int,
    pub titles: Seq<Seq<char>>,
    pub cursus: Seq<CursusModel>,
}

impl View for CursusEntry {
    type V = CursusModel;

    open spec fn view(&self) -> CursusModel {
        CursusModel {
            name: self.name@,
            grade: match self.grade {
                Some(g) => Some(g@),
                None => None,
            },
            blackholed_at: match self.blackholed_at {
                Some(b) => Some(b@),
                None => None,
            },
        }
    }
}

impl View for UserProfile {
    type V = ProfileModel;

    open spec fn view(&self) -> ProfileModel {
        ProfileModel {
            displayname: self.displayname@,
            login: self.login@,
            email: self.email@,
            wallet: self.wallet as int,
            correction_point: self.correction_point as int,
            titles: self.titles@.map_values(|t: String| t@),
            cursus: self.cursus@.map_values(|c: CursusEntry| c@),
        }
    }
}

/// Resolves the login-filtered lookup's array to the one user it is assumed
/// to hold: the first element, unchanged; an empty array is the named
/// "user not found" failure rather than an out-of-bounds fault.
pub fn pick_user(summaries: &Vec<UserSummary>) -> (r: Result<UserSummary, CliError>)
    ensures
        summaries@.len() == 0 ==> r == Err::<UserSummary, CliError>(CliError::UserNotFound),
        summaries@.len() > 0 ==> r == Ok::<UserSummary, CliError>(summaries@[0]),
{
    if summaries.len() == 0 {
        Err(CliError::UserNotFound)
    } else {
        Ok(summaries[0])
    }
}

} // verus!
