//! What a client makes of the engine's answers to the commands it sends most: the value it asked
//! for, the engine's error, or an answer it did not expect.
use crate::commands::{Error, ResponseAction};
use crate::model::{ChallengeSet, GameSession, InputChallenge, Player, RawChallenge, Zone};
use vstd::prelude::*;

verus! {

/// Why a command sent by a client did not give what it asked for.
#[derive(Debug, Clone)]
pub enum ClientError {
    /// The engine refused the command.
    Truinlag(Error),
    /// The engine answered something else than the command asks for.
    Unexpected(ResponseAction),
    /// The command was not sent: what it carries is not fit for it.
    InvalidSignal(String),
}

/// The zones of an answer to `GetAllZones`.
pub fn zones_reply(r: ResponseAction) -> (res: Result<Vec<Zone>, ClientError>)
    ensures
        match r {
            ResponseAction::SendZones(z) => res == Ok::<Vec<Zone>, ClientError>(z),
            ResponseAction::Error(e) => res == Err::<Vec<Zone>, ClientError>(ClientError::Truinlag(e)),
            _ => res == Err::<Vec<Zone>, ClientError>(ClientError::Unexpected(r)),
        },
{
    match r {
        ResponseAction::SendZones(z) => Ok(z),
        ResponseAction::Error(e) => Err(ClientError::Truinlag(e)),
        other => Err(ClientError::Unexpected(other)),
    }
}

/// The outcome of an answer to a command that answers `Success`.
pub fn success_reply(r: ResponseAction) -> (res: Result<(), ClientError>)
    ensures
        match r {
            ResponseAction::Success => res == Ok::<(), ClientError>(()),
            ResponseAction::Error(e) => res == Err::<(), ClientError>(ClientError::Truinlag(e)),
            _ => res == Err::<(), ClientError>(ClientError::Unexpected(r)),
        },
{
    match r {
        ResponseAction::Success => Ok(()),
        ResponseAction::Error(e) => Err(ClientError::Truinlag(e)),
        other => Err(ClientError::Unexpected(other)),
    }
}

/// The sessions and players of an answer to a global `GetState`; any other answer, an error
/// too, is unexpected.
pub fn global_state_reply(r: ResponseAction) -> (res: Result<(Vec<GameSession>, Vec<Player>), ClientError>)
    ensures
        match r {
            ResponseAction::SendGlobalState { sessions, players } => res == Ok::<
                (Vec<GameSession>, Vec<Player>),
                ClientError,
            >((sessions, players)),
            _ => res == Err::<(Vec<GameSession>, Vec<Player>), ClientError>(ClientError::Unexpected(r)),
        },
{
    match r {
        ResponseAction::SendGlobalState { sessions, players } => Ok((sessions, players)),
        other => Err(ClientError::Unexpected(other)),
    }
}

/// The stored challenges of an answer to `GetRawChallenges`.
pub fn raw_challenges_reply(r: ResponseAction) -> (res: Result<Vec<RawChallenge>, ClientError>)
    ensures
        match r {
            ResponseAction::SendRawChallenges(c) => res == Ok::<Vec<RawChallenge>, ClientError>(c),
            ResponseAction::Error(e) => res == Err::<Vec<RawChallenge>, ClientError>(ClientError::Truinlag(e)),
            _ => res == Err::<Vec<RawChallenge>, ClientError>(ClientError::Unexpected(r)),
        },
{
    match r {
        ResponseAction::SendRawChallenges(c) => Ok(c),
        ResponseAction::Error(e) => Err(ClientError::Truinlag(e)),
        other => Err(ClientError::Unexpected(other)),
    }
}

/// The challenge sets of an answer to `GetChallengeSets`.
pub fn challenge_sets_reply(r: ResponseAction) -> (res: Result<Vec<ChallengeSet>, ClientError>)
    ensures
        match r {
            ResponseAction::SendChallengeSets(s) => res == Ok::<Vec<ChallengeSet>, ClientError>(s),
            ResponseAction::Error(e) => res == Err::<Vec<ChallengeSet>, ClientError>(ClientError::Truinlag(e)),
            _ => res == Err::<Vec<ChallengeSet>, ClientError>(ClientError::Unexpected(r)),
        },
{
    match r {
        ResponseAction::SendChallengeSets(s) => Ok(s),
        ResponseAction::Error(e) => Err(ClientError::Truinlag(e)),
        other => Err(ClientError::Unexpected(other)),
    }
}

/// A challenge can replace a stored one only where it names its id.
pub fn check_replacement(c: &InputChallenge) -> (res: Result<(), ClientError>)
    ensures
        res is Ok <==> c.id is Some,
        res matches Err(ClientError::InvalidSignal(m)) ==> m@ == "Provided challenge has no ID"@,
        res is Err ==> res->Err_0 is InvalidSignal,
{
    match c.id {
        Some(_) => Ok(()),
        None => Err(ClientError::InvalidSignal(String::from_str("Provided challenge has no ID"))),
    }
}

/// A challenge can be added only where it names no id.
pub fn check_addition(c: &InputChallenge) -> (res: Result<(), ClientError>)
    ensures
        res is Ok <==> c.id is None,
        res matches Err(ClientError::InvalidSignal(m)) ==> m@ == "supplied challenge must have an ID"@,
        res is Err ==> res->Err_0 is InvalidSignal,
{
    match c.id {
        None => Ok(()),
        Some(_) => Err(ClientError::InvalidSignal(String::from_str("supplied challenge must have an ID"))),
    }
}

} // verus!
