//! The decision cores of team formation: joining, leaving and the fresh
//! team secret.  The caller reads the user and team rows, checks the
//! verification code, and performs exactly the writes decided here.
use vstd::prelude::*;
use crate::cipher_util::{get_salt, hex_encode, hex_of, lemma_hex_of_len};
use crate::models::Team;

verus! {

/// Privilege a plain participant holds.
pub const PRIVILEGE_MINIMAL: i32 = 0;

/// Privilege of competition staff.
pub const PRIVILEGE_STAFF: i32 = 2;

/// Privilege of administrators.
pub const PRIVILEGE_ADMIN: i32 = 4;

/// Why a privileged request was refused.
#[derive(Debug, PartialEq, Eq, Structural)]
pub enum PrivilegeError {
    /// No identity in the session.
    NotLogin,
    /// Logged in, but below the required privilege.
    Unauthorized,
}

/// Decides a privilege gate from the identity the session holds: both
/// fields must be present and the privilege must reach the bar.
pub fn user_privilege_check(
    user_id: Option<i32>,
    user_privilege: Option<i32>,
    require: i32,
) -> (r: Result<(i32, i32), PrivilegeError>)
    ensures
        match r {
            Ok((id, p)) => user_id == Some(id) && user_privilege == Some(p) && p >= require,
            Err(PrivilegeError::Unauthorized) => user_id is Some && (user_privilege matches Some(p)
                && p < require),
            Err(PrivilegeError::NotLogin) => user_id is None || user_privilege is None,
        },
{
    match (user_id, user_privilege) {
        (Some(id), Some(p)) => {
            if p >= require {
                Ok((id, p))
            } else {
                Err(PrivilegeError::Unauthorized)
            }
        },
        _ => Err(PrivilegeError::NotLogin),
    }
}

/// What `/join_team` answers.
pub enum JoinTeamResponse {
    Success { id: i32 },
    AlreadyInTeam,
    TeamFull,
    AuthError,
}

/// What `/exit_team` answers.
pub enum ExitTeamResponse {
    Success { id: i32 },
    NotInTeam,
    NotAllowed,
}

/// The store updates a decided membership change requires: point the user
/// at the team (or away from it) and record the team's new size.
pub struct MembershipWrite {
    pub user_id: i32,
    /// The user's new team reference.
    pub user_team: Option<i32>,
    pub team_id: i32,
    pub new_size: i32,
}

/// Decides a join request against the fetched rows: the team must exist
/// and have room, a user already on a team may not join another, a staff
/// team takes staff only, and the verification code must have checked out.
pub fn join_team_decision(
    user_id: i32,
    user_team: Option<i32>,
    user_priv: i32,
    team_id: i32,
    team: Option<&Team>,
    totp_ok: bool,
) -> (r: (JoinTeamResponse, Option<MembershipWrite>))
    requires
        team matches Some(t) ==> t.size < i32::MAX,
    ensures
        match team {
            None => r.0 is AuthError && r.1 is None,
            Some(t) => {
                if user_team is Some {
                    &&& r.0 is AlreadyInTeam
                    &&& r.1 is None
                } else if t.max_size <= t.size {
                    &&& r.0 is TeamFull
                    &&& r.1 is None
                } else if t.is_staff && user_priv < PRIVILEGE_STAFF {
                    &&& r.0 is AuthError
                    &&& r.1 is None
                } else if totp_ok {
                    &&& r.0 matches JoinTeamResponse::Success { id } && id == team_id
                    &&& r.1 == Some(
                        MembershipWrite {
                            user_id,
                            user_team: Some(team_id),
                            team_id,
                            new_size: (t.size + 1) as i32,
                        },
                    )
                } else {
                    &&& r.0 is AuthError
                    &&& r.1 is None
                }
            },
        },
{
    match team {
        None => (JoinTeamResponse::AuthError, None),
        Some(t) => {
            if user_team.is_some() {
                (JoinTeamResponse::AlreadyInTeam, None)
            } else if t.max_size <= t.size {
                (JoinTeamResponse::TeamFull, None)
            } else if t.is_staff && user_priv < PRIVILEGE_STAFF {
                (JoinTeamResponse::AuthError, None)
            } else if totp_ok {
                (
                    JoinTeamResponse::Success { id: team_id },
                    Some(
                        MembershipWrite {
                            user_id,
                            user_team: Some(team_id),
                            team_id,
                            new_size: t.size + 1,
                        },
                    ),
                )
            } else {
                (JoinTeamResponse::AuthError, None)
            }
        },
    }
}

/// Decides an exit request: only a team that never confirmed — that never
/// completed an economic transaction — may be left.
pub fn exit_team_decision(user_id: i32, team: Option<&Team>) -> (r: (
    ExitTeamResponse,
    Option<MembershipWrite>,
))
    requires
        team matches Some(t) ==> t.size > i32::MIN,
    ensures
        match team {
            None => r.0 is NotInTeam && r.1 is None,
            Some(t) => {
                if !t.confirmed {
                    &&& r.0 matches ExitTeamResponse::Success { id } && id == t.id
                    &&& r.1 == Some(
                        MembershipWrite {
                            user_id,
                            user_team: None::<i32>,
                            team_id: t.id,
                            new_size: (t.size - 1) as i32,
                        },
                    )
                } else {
                    &&& r.0 is NotAllowed
                    &&& r.1 is None
                }
            },
        },
{
    match team {
        None => (ExitTeamResponse::NotInTeam, None),
        Some(t) => {
            if !t.confirmed {
                (
                    ExitTeamResponse::Success { id: t.id },
                    Some(
                        MembershipWrite {
                            user_id,
                            user_team: None,
                            team_id: t.id,
                            new_size: t.size - 1,
                        },
                    ),
                )
            } else {
                (ExitTeamResponse::NotAllowed, None)
            }
        },
    }
}

/// Draws the secret a fresh team derives its verification codes from:
/// 256 random bits as 64 hex digits.
pub fn new_team_salt() -> (r: String)
    ensures
        exists|b: Seq<u8>| b.len() == 32 && r@ == #[trigger] hex_of(b),
        r@.len() == 64,
{
    proof {
        broadcast use vstd::array::group_array_axioms;

    }
    let salt: [u8; 32] = get_salt::<32>();
    let r = hex_encode(salt.as_slice());
    proof {
        lemma_hex_of_len(salt@);
        assert(salt@.len() == 32 && r@ == hex_of(salt@));
    }
    r
}

} // verus!
