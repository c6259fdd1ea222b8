use lcu_helper::context::{Champion, HelperContext};
use lcu_helper::event::GamePhase;

#[test]
fn an_empty_message_is_a_no_op() {
    let mut ctx = HelperContext::new();
    let out = ctx.handle_message("").expect("empty input is no error");
    assert!(out.accept.is_none());
    assert!(out.analysis.is_none());
    assert!(out.pick.is_empty());
}

#[test]
fn a_game_flow_frame_moves_the_store() {
    let mut ctx = HelperContext::new();
    let frame = r#"[8, "OnJsonApiEvent", {
        "uri": "/lol-gameflow/v1/session",
        "eventType": "Update",
        "data": {
            "phase": "Matchmaking",
            "gameData": { "gameId": 5, "teamOne": [], "teamTwo": [] },
            "map": { "gameMode": "ARAM", "name": "HA" }
        }
    }]"#;
    ctx.handle_message(frame).expect("the frame decodes");
    assert_eq!(ctx.game_phase, GamePhase::Matchmaking);
    assert_eq!(ctx.game_mode, "ARAM");
}

#[test]
fn a_bad_frame_changes_nothing_and_the_next_one_lands() {
    let mut ctx = HelperContext::new();
    assert!(ctx.handle_message("garbage").is_err());
    assert_eq!(ctx.game_phase, GamePhase::NoPhase);
    let frame = r#"[8, "OnJsonApiEvent", {
        "uri": "/lol-gameflow/v1/session",
        "eventType": "Update",
        "data": {
            "phase": "Lobby",
            "gameData": { "gameId": 5, "teamOne": [], "teamTwo": [] },
            "map": { "gameMode": "", "name": "" }
        }
    }]"#;
    assert!(ctx.handle_message(frame).is_ok());
    assert_eq!(ctx.game_phase, GamePhase::Lobby);
}

#[test]
fn a_ready_check_frame_plans_the_accept() {
    let mut ctx = HelperContext::new();
    ctx.auto_accepted_delay = 0;
    let frame = r#"[8, "OnJsonApiEvent", {
        "uri": "/lol-matchmaking/v1/ready-check",
        "eventType": "Update",
        "data": { "playerResponse": "None", "timer": 0.0 }
    }]"#;
    let out = ctx.handle_message(frame).expect("the frame decodes");
    let plan = out.accept.expect("an accept is due");
    assert_eq!(plan.delay_seconds, 0);
    // the caller issues the accept, then latches; a repeat plans nothing
    ctx.commit_accept();
    let out = ctx.handle_message(frame).expect("the frame decodes");
    assert!(out.accept.is_none());
}

#[test]
fn a_subset_list_is_taken_once() {
    let mut ctx = HelperContext::new();
    let frame = r#"[8, "OnJsonApiEvent", {
        "uri": "/lol-lobby-team-builder/champ-select/v1/subset-champion-list",
        "eventType": "Update",
        "data": [4, 5]
    }]"#;
    ctx.handle_message(frame).expect("the frame decodes");
    assert_eq!(ctx.subset_champion_list, vec![4, 5]);
    let frame2 = r#"[8, "OnJsonApiEvent", {
        "uri": "/lol-lobby-team-builder/champ-select/v1/subset-champion-list",
        "eventType": "Update",
        "data": [9]
    }]"#;
    ctx.handle_message(frame2).expect("the frame decodes");
    assert_eq!(ctx.subset_champion_list, vec![4, 5]);
}

#[test]
fn a_current_champion_create_locks_the_champion() {
    let mut ctx = HelperContext::new();
    let frame = r#"[8, "OnJsonApiEvent", {
        "uri": "/lol-lobby-team-builder/champ-select/v1/current-champion",
        "eventType": "Create",
        "data": 42
    }]"#;
    ctx.handle_message(frame).expect("the frame decodes");
    assert_eq!(ctx.champion_id, 42);
    let update = r#"[8, "OnJsonApiEvent", {
        "uri": "/lol-lobby-team-builder/champ-select/v1/current-champion",
        "eventType": "Delete",
        "data": 7
    }]"#;
    ctx.handle_message(update).expect("the frame decodes");
    assert_eq!(ctx.champion_id, 42);
}

#[test]
fn a_champ_select_frame_takes_the_roster_and_plans_the_engines() {
    let mut ctx = HelperContext::new();
    ctx.game_mode = "ARAM".to_string();
    ctx.conversation_id = "room".to_string();
    ctx.auto_pick.selected = vec![Champion(20, "B".to_string())];
    let frame = r#"[8, "OnJsonApiEvent", {
        "uri": "/lol-champ-select/v1/session",
        "eventType": "Update",
        "data": {
            "benchChampions": [ { "championId": 20 } ],
            "benchEnabled": true,
            "actions": [],
            "localPlayerCellId": 0,
            "id": "s",
            "myTeam": [ { "cellId": 0, "puuid": "p9", "summonerId": 1, "championId": 0 } ]
        }
    }]"#;
    let out = ctx.handle_message(frame).expect("the frame decodes");
    assert_eq!(ctx.my_team.len(), 1);
    let analysis = out.analysis.expect("a round is due");
    assert_eq!(analysis.puuids, vec!["p9".to_string()]);
    assert_eq!(out.pick.len(), 1);
    assert_eq!(out.pick[0].champion_id, 20);
}

#[test]
fn a_joined_room_chat_frame_sets_the_conversation_and_plans_analysis() {
    let mut ctx = HelperContext::new();
    ctx.game_mode = "ARAM".to_string();
    let frame = r#"[8, "OnJsonApiEvent", {
        "data": { "body": "joined_room", "fromPuuid": "p", "fromSummonerId": 1, "type": "system" },
        "eventType": "Create",
        "uri": "/lol-chat/v1/conversations/abc%40lol-champ-select.pvp.net/messages/m1"
    }]"#;
    let out = ctx.handle_message(frame).expect("the frame decodes");
    assert_eq!(ctx.conversation_id, "abc%40lol-champ-select.pvp.net");
    assert!(out.analysis.is_some());
    // committed: the same conversation does not trigger again
    ctx.commit_analysis();
    let out = ctx.handle_message(frame).expect("the frame decodes");
    assert!(out.analysis.is_none());
    // a new conversation clears the latch
    let frame2 = r#"[8, "OnJsonApiEvent", {
        "data": { "body": "joined_room", "fromPuuid": "p", "fromSummonerId": 1, "type": "system" },
        "eventType": "Create",
        "uri": "/lol-chat/v1/conversations/zzz%40lol-champ-select.pvp.net/messages/m2"
    }]"#;
    let out = ctx.handle_message(frame2).expect("the frame decodes");
    assert_eq!(ctx.conversation_id, "zzz%40lol-champ-select.pvp.net");
    assert!(out.analysis.is_some());
}
