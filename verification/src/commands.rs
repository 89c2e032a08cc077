//! The commands clients send to the engine, and its responses and broadcasts.
use crate::model::{
    Challenge, ChallengeSet, Colour, DetailedLocation, Event, Game, GameConfig, GameSession,
    InputChallenge, MinimalLocation, Mode, PartialGameConfig, Picture, Player, RawChallenge,
    RawPicture, Team, Zone,
};
use crate::text::{decimal, with_number};
use vstd::prelude::*;

verus! {

/// A command for the engine, optionally addressed to a session.
#[derive(Debug, Clone)]
pub struct EngineCommand {
    pub session: Option<u64>,
    pub action: EngineAction,
}

/// A command with the id that its response will carry.
#[derive(Debug, Clone)]
pub struct EngineCommandPackage {
    pub command: EngineCommand,
    pub id: u64,
}

/// The engine's answer to a command: the response for the sender and, possibly, a broadcast to
/// every client.
#[derive(Debug, Clone)]
pub struct EngineResponse {
    pub response_action: ResponseAction,
    pub broadcast_action: Option<BroadcastAction>,
}

impl EngineResponse {
    /// A response without a broadcast.
    pub fn from_action(value: ResponseAction) -> (r: EngineResponse)
        ensures
            r.response_action == value,
            r.broadcast_action is None,
    {
        EngineResponse { response_action: value, broadcast_action: None }
    }
}

/// A message from the engine to a client.
#[derive(Debug, Clone)]
pub enum ClientCommand {
    Broadcast(BroadcastAction),
    Response(ResponsePackage),
}

/// A response with the id of the command it answers.
#[derive(Debug, Clone)]
pub struct ResponsePackage {
    pub action: ResponseAction,
    pub id: u64,
}

/// What a client asks the engine to do.
#[derive(Debug, Clone)]
pub enum EngineAction {
    AddSession { name: String, mode: Mode },
    AddPlayer {
        name: String,
        discord_id: Option<u64>,
        passphrase: String,
        session: Option<u64>,
    },
    AddTeam { name: String, discord_channel: Option<u64>, colour: Option<Colour> },
    AssignPlayerToTeam { player: u64, team: Option<usize> },
    SetPlayerSession { player: u64, session: Option<u64> },
    SetPlayerName { player: u64, name: String },
    SetPlayerPassphrase { player: u64, passphrase: String },
    RemovePlayer { player: u64 },
    Catch { catcher: usize, caught: usize, period_id: usize },
    Complete { completer: usize, completed: usize, period_id: usize },
    SendLocation { player: u64, location: DetailedLocation },
    SetRawChallenge(InputChallenge),
    AddRawChallenge(InputChallenge),
    GetPlayerByPassphrase(String),
    GetRawChallenges,
    Start,
    Stop,
    Ping(Option<String>),
    GetState,
    MakeTeamCatcher(usize),
    MakeTeamRunner(usize),
    AddChallengeToTeam { team: usize, challenge: Challenge },
    RenameTeam { team: usize, new_name: String },
    GenerateTeamChallenges(usize),
    AddChallengeSet(String),
    GetChallengeSets,
    DeleteAllChallenges,
    GetAllZones,
    AddZone {
        zone: u64,
        num_conn_zones: u64,
        num_connections: u64,
        train_through: bool,
        mongus: bool,
        s_bahn_zone: bool,
    },
    AddMinutesTo { from_zone: u64, to_zone: u64, minutes: u64 },
    GetEvents,
    UploadPeriodPictures { pictures: Vec<RawPicture>, team: usize, period: usize },
    UploadTeamPicture { team_id: usize, picture: RawPicture },
    UploadPlayerPicture { player_id: u64, picture: RawPicture },
    GetThumbnails(Vec<u64>),
    GetPictures(Vec<u64>),
    GetLocations,
    /// `of_past_seconds` is never `Some(0)`.
    GetPastLocations { team_id: usize, of_past_seconds: Option<u32> },
    GetGameConfig,
    SetGameConfig(PartialGameConfig),
}

/// The engine's response to the sender of a command.
#[derive(Debug, Clone)]
pub enum ResponseAction {
    Error(Error),
    Team(Team),
    Player(Player),
    SendRawChallenges(Vec<RawChallenge>),
    SendState { teams: Vec<Team>, events: Vec<Event>, game: Option<Game> },
    SendGlobalState { sessions: Vec<GameSession>, players: Vec<Player> },
    Success,
    SendChallengeSets(Vec<ChallengeSet>),
    SendZones(Vec<Zone>),
    SendEvents(Vec<Event>),
    UploadedPictures(Vec<u64>),
    Period(usize),
    Pictures(Vec<Picture>),
    SendLocations(Vec<(Team, Vec<MinimalLocation>)>),
    SendPastLocations { team_id: usize, locations: Vec<MinimalLocation> },
    SendGameConfig(GameConfig),
}

/// A message the engine sends to every client.
#[derive(Debug, Clone)]
pub enum BroadcastAction {
    Caught { catcher: Team, caught: Team },
    Completed { completer: Team, completed: Challenge },
    Started { teams: Vec<Team>, game: Game },
    Ended,
    Pinged(Option<String>),
    Location { team: usize, location: DetailedLocation },
    PlayerChangedSession { player: Player, from_session: Option<u64>, to_session: Option<u64> },
    PlayerChangedTeam {
        session: u64,
        player: u64,
        from_team: Option<usize>,
        to_team: Option<usize>,
    },
    PlayerDeleted(Player),
    TeamMadeCatcher(Team),
    TeamMadeRunner(Team),
    TeamLeftGracePeriod(Team),
}

/// Why the engine refused a command.
#[derive(Debug, Clone)]
pub enum Error {
    /// A session-specific command was sent without a session.
    NoSessionSupplied,
    /// A global command was sent with a session.
    SessionSupplied,
    /// What was looked for was not found.
    NotFound(String),
    /// A team with a similar name exists.
    TeamExists(String),
    AlreadyExists,
    GameInProgress,
    GameNotRunning,
    AmbiguousData,
    InternalError,
    NotImplemented,
    /// The team is a runner but has to be a catcher.
    TeamIsRunner(usize),
    /// The team is a catcher but has to be a runner.
    TeamIsCatcher(usize),
    TeamsTooFar,
    BadData(String),
    TextError(String),
    PictureProblem,
    TooRapid,
    TooFewChallenges,
}

/// The message that describes the error.
pub open spec fn error_message(e: Error) -> Seq<char> {
    match e {
        Error::NoSessionSupplied => "A sesssion specific command (like 'addTeam') was called without a session being supplied."@,
        Error::SessionSupplied => "A session unspecific command (like 'addPlayer') was called with a session."@,
        Error::NotFound(ctx) => ctx@ + " was not found"@,
        Error::TeamExists(team) => "Team "@ + team@ + " already exists"@,
        Error::AlreadyExists => "Already exists"@,
        Error::GameInProgress => "There is already a game in progress"@,
        Error::GameNotRunning => "There is no game in progress"@,
        Error::AmbiguousData => "Ambiguous data"@,
        Error::InternalError => "There was a truinlag-internal error"@,
        Error::NotImplemented => "Not yet implemented"@,
        Error::TeamIsRunner(n) => "team "@ + decimal(n as u64) + " is runner"@,
        Error::TeamIsCatcher(n) => "team "@ + decimal(n as u64) + " is catcher"@,
        Error::TeamsTooFar => "the teams are too far away from each other"@,
        Error::BadData(text) => "bad data: "@ + text@,
        Error::TextError(text) => text@,
        Error::PictureProblem => "there was a problem processing an image"@,
        Error::TooRapid => "not enough time has passed since the last request, hold your horses"@,
        Error::TooFewChallenges => "there are not enough challenges to start a game in the challenge db"@,
    }
}

impl Error {
    /// The message that describes the error (see `error_message`).
    pub fn message(&self) -> (s: String)
        ensures
            s@ == error_message(*self),
    {
        match self {
            Error::NoSessionSupplied => String::from_str("A sesssion specific command (like 'addTeam') was called without a session being supplied."),
            Error::SessionSupplied => String::from_str("A session unspecific command (like 'addPlayer') was called with a session."),
            Error::NotFound(ctx) => ctx.clone().concat(" was not found"),
            Error::TeamExists(team) => String::from_str("Team ").concat(team.as_str()).concat(" already exists"),
            Error::AlreadyExists => String::from_str("Already exists"),
            Error::GameInProgress => String::from_str("There is already a game in progress"),
            Error::GameNotRunning => String::from_str("There is no game in progress"),
            Error::AmbiguousData => String::from_str("Ambiguous data"),
            Error::InternalError => String::from_str("There was a truinlag-internal error"),
            Error::NotImplemented => String::from_str("Not yet implemented"),
            Error::TeamIsRunner(n) => with_number("team ", *n as u64).concat(" is runner"),
            Error::TeamIsCatcher(n) => with_number("team ", *n as u64).concat(" is catcher"),
            Error::TeamsTooFar => String::from_str("the teams are too far away from each other"),
            Error::BadData(text) => String::from_str("bad data: ").concat(text.as_str()),
            Error::TextError(text) => text.clone(),
            Error::PictureProblem => String::from_str("there was a problem processing an image"),
            Error::TooRapid => String::from_str("not enough time has passed since the last request, hold your horses"),
            Error::TooFewChallenges => String::from_str("there are not enough challenges to start a game in the challenge db"),
        }
    }
}

} // verus!
