//! What the engine receives besides client commands, and what it asks of the runtime around it:
//! timers, and work outside the engine (saving, storing pictures) whose result comes back as a
//! command.
use crate::commands::{BroadcastAction, ClientCommand, EngineCommand, ResponsePackage, EngineResponse, Error, ResponseAction};
use crate::text::{decimal, with_number};
use crate::entries::PictureEntry;
use crate::model::{Moment, RawPicture};
use vstd::prelude::*;

verus! {

/// A command for the engine from a client, a timer or the engine's own outside work.
#[derive(Debug, Clone)]
pub enum InternEngineCommand {
    Command(Box<EngineCommand>),
    TeamLeftGracePeriod { session_id: u64, team_id: usize },
    UploadedImages(Vec<u64>),
    AutoSave,
    /// The profile picture of a team was converted (`None` where that failed).
    MadeTeamProfile { session_id: u64, team_id: usize, profile: Option<PictureEntry> },
    /// The profile picture of a player was converted (`None` where that failed).
    MadePlayerProfile { player_id: u64, profile: Option<PictureEntry> },
}

/// Work that the runtime does outside the engine and reports back as a command.
#[derive(Debug, Clone)]
pub enum OutsideWork {
    /// Convert a team's profile picture; report `MadeTeamProfile`.
    MakeTeamProfile { session_id: u64, team_id: usize, picture: RawPicture },
    /// Convert a player's profile picture; report `MadePlayerProfile`.
    MakePlayerProfile { player_id: u64, picture: RawPicture },
}

/// What the engine asks of the runtime after a command.
#[derive(Debug, Clone)]
pub enum RuntimeRequest {
    /// Send `payload` back to the engine after `duration` milliseconds; the timer can be
    /// cancelled by `id`.
    CreateTimer { duration: i64, payload: InternEngineCommand, id: u64 },
    /// Send `payload` back to the engine at `time`; the alarm can be cancelled by `id`.
    CreateAlarm { time: Moment, payload: InternEngineCommand, id: u64 },
    /// Cancel the timer or alarm with this id.
    CancelTimer(u64),
    /// Write the extracted changes and deletions to the database, then send `AutoSave` back
    /// after a second.
    Save(crate::engine::SaveBatch),
    /// Send `AutoSave` back after a second.
    ScheduleAutoSave,
}

/// The immediate answer to a command, or work whose result comes back as a command before the
/// sender is answered.
#[derive(Debug, Clone)]
pub enum InternEngineResponse {
    DirectResponse(EngineResponse),
    DelayedLoopback(OutsideWork),
}

/// The engine's answer to one command.
#[derive(Debug, Clone)]
pub struct InternEngineResponsePackage {
    pub response: InternEngineResponse,
    pub runtime_requests: Option<Vec<RuntimeRequest>>,
}

/// What the engine hands to the connection of a client: a message for the client, or the
/// signal to close the connection.
#[derive(Debug, Clone)]
pub enum IOSignal {
    Command(ClientCommand),
    Shutdown,
}

/// `p` answers the sender with `a` alone: no broadcast and no requests.
pub open spec fn answers(p: InternEngineResponsePackage, a: ResponseAction) -> bool {
    &&& p.response == InternEngineResponse::DirectResponse(
        EngineResponse { response_action: a, broadcast_action: None },
    )
    &&& p.runtime_requests is None
}

/// `p` answers the sender that something was not found, described by `what`.
pub open spec fn not_found(p: InternEngineResponsePackage, what: Seq<char>) -> bool {
    &&& p.runtime_requests is None
    &&& p.response matches InternEngineResponse::DirectResponse(r)
    &&& r.broadcast_action is None
    &&& r.response_action matches ResponseAction::Error(Error::NotFound(m))
    &&& m@ == what
}

/// `p` answers the sender that the data sent is bad, described by `what`.
pub open spec fn bad_data(p: InternEngineResponsePackage, what: Seq<char>) -> bool {
    &&& p.runtime_requests is None
    &&& p.response matches InternEngineResponse::DirectResponse(r)
    &&& r.broadcast_action is None
    &&& r.response_action matches ResponseAction::Error(Error::BadData(m))
    &&& m@ == what
}

/// `p` answers the sender with `Success` and broadcasts `b`, without requests.
pub open spec fn succeeds_broadcasting(p: InternEngineResponsePackage, b: BroadcastAction) -> bool {
    &&& p.response == InternEngineResponse::DirectResponse(
        EngineResponse { response_action: ResponseAction::Success, broadcast_action: Some(b) },
    )
    &&& p.runtime_requests is None
}

/// An answer that `what` was not found, where `what` is `prefix` followed by the number `n`.
pub fn not_found_numbered(prefix: &str, n: u64) -> (p: InternEngineResponsePackage)
    ensures
        not_found(p, prefix@ + decimal(n)),
{
    InternEngineResponsePackage::action(ResponseAction::Error(Error::NotFound(with_number(prefix, n))))
}

impl InternEngineResponsePackage {
    /// A direct response with the given action, no broadcast and no requests.
    pub fn action(value: ResponseAction) -> (p: InternEngineResponsePackage)
        ensures
            p.response matches InternEngineResponse::DirectResponse(r) && r.response_action == value
                && r.broadcast_action is None,
            p.runtime_requests is None,
    {
        InternEngineResponsePackage {
            response: InternEngineResponse::DirectResponse(EngineResponse::from_action(value)),
            runtime_requests: None,
        }
    }

    /// A direct response, without requests.
    pub fn direct(value: EngineResponse) -> (p: InternEngineResponsePackage)
        ensures
            p.response == InternEngineResponse::DirectResponse(value),
            p.runtime_requests is None,
    {
        InternEngineResponsePackage {
            response: InternEngineResponse::DirectResponse(value),
            runtime_requests: None,
        }
    }

    /// A response of the given kind, without requests.
    pub fn from_response(value: InternEngineResponse) -> (p: InternEngineResponsePackage)
        ensures
            p.response == value,
            p.runtime_requests is None,
    {
        InternEngineResponsePackage { response: value, runtime_requests: None }
    }
}

/// What the runtime does with the engine's answer to a command of a client: broadcast a message
/// to every client, answer the sender, or first do outside work whose result goes back to the
/// engine on behalf of the same sender; and serve the requests.
#[derive(Debug)]
pub struct Routing {
    pub broadcast: Option<ClientCommand>,
    pub reply: Option<ClientCommand>,
    pub loopback: Option<OutsideWork>,
    pub requests: Vec<RuntimeRequest>,
}

/// Routes the answer `p` to the command with id `id`: a direct response is broadcast (where it
/// has a broadcast) and answered to the sender under `id`; delayed work is handed on.
pub fn route(p: InternEngineResponsePackage, id: u64) -> (r: Routing)
    ensures
        r.requests@ == match p.runtime_requests {
            Some(v) => v@,
            None => Seq::<RuntimeRequest>::empty(),
        },
        match p.response {
            InternEngineResponse::DirectResponse(resp) => {
                &&& r.loopback is None
                &&& r.reply == Some(
                    ClientCommand::Response(ResponsePackage { action: resp.response_action, id }),
                )
                &&& r.broadcast == match resp.broadcast_action {
                    Some(b) => Some(ClientCommand::Broadcast(b)),
                    None => None,
                }
            },
            InternEngineResponse::DelayedLoopback(w) => {
                &&& r.loopback == Some(w)
                &&& r.reply is None
                &&& r.broadcast is None
            },
        },
{
    let requests = match p.runtime_requests {
        Some(v) => v,
        None => Vec::new(),
    };
    match p.response {
        InternEngineResponse::DirectResponse(resp) => Routing {
            broadcast: match resp.broadcast_action {
                Some(b) => Some(ClientCommand::Broadcast(b)),
                None => None,
            },
            reply: Some(ClientCommand::Response(ResponsePackage { action: resp.response_action, id })),
            loopback: None,
            requests,
        },
        InternEngineResponse::DelayedLoopback(w) => Routing {
            broadcast: None,
            reply: None,
            loopback: Some(w),
            requests,
        },
    }
}

} // verus!
