use truinlag::commands::{BroadcastAction, ClientCommand, EngineResponse, Error, ResponseAction};
use truinlag::model::{ChallengeSet, InputChallenge};
use truinlag::model::RawPicture;
use truinlag::replies::{
    challenge_sets_reply, check_addition, check_replacement, global_state_reply, success_reply,
    zones_reply, ClientError,
};
use truinlag::runtime::{route, InternEngineCommand, InternEngineResponse, InternEngineResponsePackage, OutsideWork, RuntimeRequest};

#[test]
fn a_direct_answer_is_broadcast_and_answered() {
    let p = InternEngineResponsePackage {
        response: InternEngineResponse::DirectResponse(EngineResponse {
            response_action: ResponseAction::Success,
            broadcast_action: Some(BroadcastAction::Ended),
        }),
        runtime_requests: Some(vec![RuntimeRequest::CancelTimer(3)]),
    };
    let r = route(p, 17);
    assert!(matches!(r.broadcast, Some(ClientCommand::Broadcast(BroadcastAction::Ended))));
    assert!(matches!(r.reply, Some(ClientCommand::Response(ref pkg)) if pkg.id == 17 && matches!(pkg.action, ResponseAction::Success)));
    assert!(r.loopback.is_none());
    assert!(matches!(r.requests[..], [RuntimeRequest::CancelTimer(3)]));
}

#[test]
fn delayed_work_is_handed_on() {
    let p = InternEngineResponsePackage {
        response: InternEngineResponse::DelayedLoopback(OutsideWork::MakePlayerProfile {
            player_id: 2,
            picture: RawPicture::from_jpeg_bytes(vec![1]),
        }),
        runtime_requests: None,
    };
    let r = route(p, 4);
    assert!(r.broadcast.is_none());
    assert!(r.reply.is_none());
    assert!(matches!(r.loopback, Some(OutsideWork::MakePlayerProfile { player_id: 2, .. })));
    assert!(r.requests.is_empty());
    let _unused = InternEngineCommand::AutoSave;
}

#[test]
fn replies_are_read_as_asked() {
    assert!(matches!(success_reply(ResponseAction::Success), Ok(())));
    assert!(matches!(success_reply(ResponseAction::Error(Error::TooRapid)), Err(ClientError::Truinlag(Error::TooRapid))));
    assert!(matches!(success_reply(ResponseAction::Period(1)), Err(ClientError::Unexpected(ResponseAction::Period(1)))));
    assert!(matches!(zones_reply(ResponseAction::SendZones(vec![])), Ok(z) if z.is_empty()));
    let sets = challenge_sets_reply(ResponseAction::SendChallengeSets(vec![ChallengeSet { name: "A".to_string(), id: 3 }])).unwrap();
    assert_eq!(sets[0].id, 3);
    assert!(matches!(
        global_state_reply(ResponseAction::Error(Error::InternalError)),
        Err(ClientError::Unexpected(ResponseAction::Error(Error::InternalError)))
    ));
}

fn input(id: Option<u64>) -> InputChallenge {
    InputChallenge {
        kind: truinlag::model::ChallengeType::Unspezifisch,
        sets: vec![1],
        status: truinlag::model::ChallengeStatus::Approved,
        title: Some("T".to_string()),
        description: Some("D".to_string()),
        random_place: None,
        place: None,
        comment: String::new(),
        kaffskala: None,
        grade: None,
        zone: vec![],
        bias_sat: 0,
        bias_sun: 0,
        walking_time: 0,
        stationary_time: 0,
        additional_points: 0,
        repetitions: truinlag::model::Repetitions { start: 0, end: 0 },
        points_per_rep: 0,
        station_distance: 0,
        time_to_hb: 0,
        departures: 0,
        dead_end: false,
        no_disembark: false,
        fixed: false,
        in_perimeter_override: None,
        translated_titles: std::collections::HashMap::new(),
        translated_descriptions: std::collections::HashMap::new(),
        action: None,
        id,
    }
}

#[test]
fn challenge_ids_are_checked_before_sending() {
    assert!(check_replacement(&input(Some(4))).is_ok());
    assert!(matches!(check_replacement(&input(None)), Err(ClientError::InvalidSignal(s)) if s == "Provided challenge has no ID"));
    assert!(check_addition(&input(None)).is_ok());
    assert!(matches!(check_addition(&input(Some(4))), Err(ClientError::InvalidSignal(s)) if s == "supplied challenge must have an ID"));
}
