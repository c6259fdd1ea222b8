use lcu_helper::decode::{decode_frame, decode_payload, read_chat};
use lcu_helper::errors::HelperError;
use lcu_helper::event::{Event, EventType, GamePhase, MatchReadyResponse, MessageType};
use lcu_helper::json::parse_json;

#[test]
fn test_chat_conversation_deserializer() {
    let json_data = r#"
    {
        "data": {
            "body": "joined_room",
            "fromId": "puuid",
            "fromObfuscatedPuuid": "",
            "fromObfuscatedSummonerId": 0,
            "fromPid": "puuid",
            "fromPuuid": "puuid",
            "fromSummonerId": 1234,
            "id": "message_id",
            "isHistorical": false,
            "timestamp": "2026-01-18T03:03:37.872Z",
            "type": "system"
        },
        "eventType": "Create",
        "uri": "/lol-chat/v1/conversations/b564c626-9349-47f4-844e-5fce22a50d7a%40lol-champ-select.pvp.net/messages/message_id"
    }"#;

    let value = parse_json(json_data).expect("payload must parse");
    let chat = read_chat(&value).expect("Deserialization failed");

    assert_eq!(
        chat.conversation_id,
        "b564c626-9349-47f4-844e-5fce22a50d7a%40lol-champ-select.pvp.net"
    );
    assert_eq!(chat.data.body, "joined_room");
    assert_eq!(chat.data.from_summoner_id, 1234);
    assert_eq!(chat.data.from_puuid, "puuid");
    assert_eq!(chat.data.message_type, MessageType::System);
}

#[test]
fn chat_update_event_is_not_forwarded() {
    let json_data = r#"
    {
        "data": { "body": "joined_room", "fromPuuid": "p", "fromSummonerId": 1, "type": "system" },
        "eventType": "Update",
        "uri": "/lol-chat/v1/conversations/x%40lol-champ-select.pvp.net/messages/m"
    }"#;
    let value = parse_json(json_data).expect("payload must parse");
    assert!(read_chat(&value).is_none());
}

#[test]
fn chat_type_messages_are_not_forwarded() {
    // a plain chat message on a matching conversation is silently dropped
    let json_data = r#"
    {
        "data": { "body": "joined_room", "fromPuuid": "p", "fromSummonerId": 1, "type": "chat" },
        "eventType": "Create",
        "uri": "/lol-chat/v1/conversations/x%40lol-champ-select.pvp.net/messages/m"
    }"#;
    let value = parse_json(json_data).expect("payload must parse");
    assert!(read_chat(&value).is_none());
    assert!(matches!(decode_payload(value), Event::Other(_)));
}

#[test]
fn non_joined_room_bodies_are_not_forwarded() {
    let json_data = r#"
    {
        "data": { "body": "hello there", "fromPuuid": "p", "fromSummonerId": 1, "type": "system" },
        "eventType": "Create",
        "uri": "/lol-chat/v1/conversations/x%40lol-champ-select.pvp.net/messages/m"
    }"#;
    let value = parse_json(json_data).expect("payload must parse");
    assert!(read_chat(&value).is_none());
    assert!(matches!(decode_payload(value), Event::Other(_)));
}

#[test]
fn chat_foreign_uri_is_not_forwarded() {
    let json_data = r#"
    {
        "data": { "body": "joined_room", "fromPuuid": "p", "fromSummonerId": 1, "type": "system" },
        "eventType": "Create",
        "uri": "/lol-chat/v1/conversations/x%40some-other-domain.net/messages/m"
    }"#;
    let value = parse_json(json_data).expect("payload must parse");
    assert!(read_chat(&value).is_none());
    // and the payload as a whole falls back to Other, not an error
    let ev = decode_payload(value);
    assert!(matches!(ev, Event::Other(_)));
}

#[test]
fn game_flow_frame_decodes() {
    let frame = r#"[8, "OnJsonApiEvent_lol-gameflow_v1_session", {
        "uri": "/lol-gameflow/v1/session",
        "eventType": "Update",
        "data": {
            "phase": "ChampSelect",
            "gameData": {
                "gameId": 77,
                "teamOne": [
                    { "cellId": 0, "puuid": "p1", "summonerId": 11, "championId": 0 }
                ],
                "teamTwo": []
            },
            "map": { "gameMode": "ARAM", "name": "Howling Abyss" }
        }
    }]"#;
    match decode_frame(frame) {
        Ok(Event::GameFlowSession { event_type, data }) => {
            assert_eq!(event_type, EventType::Update);
            assert_eq!(data.phase, GamePhase::ChampSelect);
            assert_eq!(data.game_data.game_id, 77);
            assert_eq!(data.game_data.team_one.len(), 1);
            assert_eq!(data.game_data.team_one[0].puuid, "p1");
            assert_eq!(data.game_data.team_two.len(), 0);
            assert_eq!(data.map.game_mode, "ARAM");
            assert_eq!(data.map.name, "Howling Abyss");
        }
        other => panic!("unexpected decode: {:?}", other.is_ok()),
    }
}

#[test]
fn unknown_phase_decodes_to_other_phase() {
    let frame = r#"[8, "OnJsonApiEvent", {
        "uri": "/lol-gameflow/v1/session",
        "eventType": "Update",
        "data": {
            "phase": "SomethingNew",
            "gameData": { "gameId": 1, "teamOne": [], "teamTwo": [] },
            "map": { "gameMode": "", "name": "" }
        }
    }]"#;
    match decode_frame(frame) {
        Ok(Event::GameFlowSession { data, .. }) => assert_eq!(data.phase, GamePhase::Other),
        _ => panic!("expected a game flow event"),
    }
}

#[test]
fn ready_check_frame_decodes() {
    let frame = r#"[8, "OnJsonApiEvent", {
        "uri": "/lol-matchmaking/v1/ready-check",
        "eventType": "Update",
        "data": { "playerResponse": "None", "timer": 1.5 }
    }]"#;
    match decode_frame(frame) {
        Ok(Event::MatchmakingReadyCheck { data, .. }) => {
            let rc = data.expect("a pending check");
            assert_eq!(rc.player_response, MatchReadyResponse::NoResponse);
        }
        _ => panic!("expected a ready check event"),
    }
}

#[test]
fn ready_check_null_data_decodes_to_none() {
    let frame = r#"[8, "OnJsonApiEvent", {
        "uri": "/lol-matchmaking/v1/ready-check",
        "eventType": "Delete",
        "data": null
    }]"#;
    match decode_frame(frame) {
        Ok(Event::MatchmakingReadyCheck { data, .. }) => assert!(data.is_none()),
        _ => panic!("expected a ready check event"),
    }
}

#[test]
fn champ_select_frame_decodes_with_flattened_actions() {
    let frame = r#"[8, "OnJsonApiEvent", {
        "uri": "/lol-champ-select/v1/session",
        "eventType": "Update",
        "data": {
            "benchChampions": [ { "championId": 10 }, { "championId": 20 } ],
            "benchEnabled": true,
            "actions": [
                [ { "actorCellId": 0, "championId": 1, "completed": false, "id": 5, "isInProgress": true, "type": "pick" } ],
                [ { "actorCellId": 1, "championId": 2, "completed": true, "id": 6, "isInProgress": false, "type": "ban" } ]
            ],
            "localPlayerCellId": 0,
            "id": "sess-1",
            "myTeam": [
                { "cellId": 0, "puuid": "me", "summonerId": 7, "championId": 0 },
                { "puuid": "", "summonerId": 8, "championId": 0 }
            ]
        }
    }]"#;
    match decode_frame(frame) {
        Ok(Event::ChampSelectSession { data, .. }) => {
            assert_eq!(data.bench_champions, vec![10, 20]);
            assert!(data.bench_enabled);
            assert_eq!(data.actions.len(), 2);
            assert_eq!(data.actions[0].id, 5);
            assert_eq!(data.actions[0].action_type, "pick");
            assert_eq!(data.actions[1].id, 6);
            assert_eq!(data.local_player_cell_id, 0);
            assert_eq!(data.id, "sess-1");
            assert_eq!(data.my_team.len(), 2);
            // a missing cell id counts as zero
            assert_eq!(data.my_team[1].cell_id, 0);
        }
        _ => panic!("expected a champ select event"),
    }
}

#[test]
fn empty_outer_actions_is_an_empty_result() {
    let frame = r#"[8, "OnJsonApiEvent", {
        "uri": "/lol-champ-select/v1/session",
        "eventType": "Update",
        "data": {
            "benchChampions": [],
            "benchEnabled": false,
            "actions": [],
            "localPlayerCellId": 0,
            "id": "s",
            "myTeam": []
        }
    }]"#;
    match decode_frame(frame) {
        Ok(Event::ChampSelectSession { data, .. }) => {
            assert_eq!(data.actions.len(), 0);
            assert_eq!(data.bench_champions.len(), 0);
        }
        _ => panic!("expected a champ select event"),
    }
}

#[test]
fn subset_and_current_champion_frames_decode() {
    let frame = r#"[8, "OnJsonApiEvent", {
        "uri": "/lol-lobby-team-builder/champ-select/v1/subset-champion-list",
        "eventType": "Update",
        "data": [1, 2, 3]
    }]"#;
    match decode_frame(frame) {
        Ok(Event::SubsetChampionList { data, .. }) => assert_eq!(data, vec![1, 2, 3]),
        _ => panic!("expected a subset list event"),
    }
    let frame = r#"[8, "OnJsonApiEvent", {
        "uri": "/lol-lobby-team-builder/champ-select/v1/current-champion",
        "eventType": "Create",
        "data": 42
    }]"#;
    match decode_frame(frame) {
        Ok(Event::CurrentChampion { event_type, data }) => {
            assert_eq!(event_type, EventType::Create);
            assert_eq!(data, 42);
        }
        _ => panic!("expected a current champion event"),
    }
}

#[test]
fn unknown_discriminator_decodes_to_other() {
    let frame = r#"[8, "OnJsonApiEvent", {
        "uri": "/lol-gameflow/v1/something-else",
        "eventType": "Update",
        "data": { "whatever": true }
    }]"#;
    match decode_frame(frame) {
        Ok(Event::Other(_)) => {}
        _ => panic!("an unknown discriminator must decode to Other"),
    }
}

#[test]
fn malformed_known_payload_decodes_to_other_not_error() {
    // a known uri whose data lacks the required shape never fails decoding
    let frame = r#"[8, "OnJsonApiEvent", {
        "uri": "/lol-gameflow/v1/session",
        "eventType": "Update",
        "data": { "phase": 3 }
    }]"#;
    match decode_frame(frame) {
        Ok(Event::Other(_)) => {}
        _ => panic!("a malformed payload must decode to Other"),
    }
}

#[test]
fn invalid_text_is_one_decode_error_and_the_loop_goes_on() {
    let bad = "this is not structured data";
    match decode_frame(bad) {
        Err(HelperError::DecodeError) => {}
        _ => panic!("invalid text must raise exactly a decode error"),
    }
    // the next frame decodes unaffected
    let frame = r#"[8, "OnJsonApiEvent", { "uri": "/x", "eventType": "Update", "data": 1 }]"#;
    assert!(decode_frame(frame).is_ok());
}

#[test]
fn the_chat_capture_is_greedy() {
    // two plausible splits: the capture takes the longer id, as the
    // pattern's greedy group does
    let json_data = r#"
    {
        "data": { "body": "joined_room", "fromPuuid": "p", "fromSummonerId": 1, "type": "system" },
        "eventType": "Create",
        "uri": "/lol-chat/v1/conversations/a%40lol-champ-select.pvp.net/messages/x-lol-champ-select.pvp.net/messages/y"
    }"#;
    let value = parse_json(json_data).expect("payload must parse");
    let chat = read_chat(&value).expect("the pattern matches");
    assert_eq!(
        chat.conversation_id,
        "a%40lol-champ-select.pvp.net/messages/x-lol-champ-select.pvp.net"
    );
}

#[test]
fn a_frame_must_be_a_triple() {
    assert!(decode_frame(r#"[8, "OnJsonApiEvent"]"#).is_err());
    assert!(decode_frame(r#"{"uri": "/x"}"#).is_err());
    assert!(decode_frame(r#"[99999, "tag", {}]"#).is_err());
    assert!(decode_frame(r#"[8, 7, {}]"#).is_err());
}
