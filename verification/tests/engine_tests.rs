use lcu_helper::champ_select::{PickAttempt, PickCall};
use lcu_helper::context::{Champion, HelperContext};
use lcu_helper::event::{
    ChampSelectData, ChampSelectPlayer, GameFlowGameData, GameFlowSession, GameMap, GamePhase,
    MatchMakingReadyCheck, MatchReadyResponse,
};

fn session(phase: GamePhase, mode: &str) -> GameFlowSession {
    GameFlowSession {
        phase,
        game_data: GameFlowGameData { game_id: 1, team_one: Vec::new(), team_two: Vec::new() },
        map: GameMap { game_mode: mode.to_string(), name: String::new() },
    }
}

fn empty_champ_select() -> ChampSelectData {
    ChampSelectData {
        bench_champions: Vec::new(),
        bench_enabled: false,
        actions: Vec::new(),
        local_player_cell_id: 0,
        id: String::new(),
        my_team: Vec::new(),
    }
}

#[test]
fn phase_follows_the_last_distinct_report() {
    let mut ctx = HelperContext::new();
    ctx.apply_game_flow(session(GamePhase::Lobby, ""));
    ctx.apply_game_flow(session(GamePhase::Matchmaking, ""));
    ctx.apply_game_flow(session(GamePhase::ChampSelect, "ARAM"));
    assert_eq!(ctx.game_phase, GamePhase::ChampSelect);
    assert_eq!(ctx.game_mode, "ARAM");
    // a duplicate report is suppressed entirely, the mode included
    ctx.apply_game_flow(session(GamePhase::ChampSelect, "CLASSIC"));
    assert_eq!(ctx.game_mode, "ARAM");
}

#[test]
fn entering_lobby_from_another_phase_fires_the_reset() {
    let mut ctx = HelperContext::new();
    ctx.apply_game_flow(session(GamePhase::ChampSelect, "ARAM"));
    ctx.champion_id = 55;
    ctx.subset_champion_list = vec![1, 2];
    ctx.conversation_id = "c".to_string();
    ctx.analysis_sent_flag = true;
    ctx.accepted = true;
    ctx.apply_game_flow(session(GamePhase::Lobby, ""));
    assert_eq!(ctx.game_phase, GamePhase::Lobby);
    assert_eq!(ctx.champion_id, 0);
    assert!(ctx.my_team.is_empty());
    assert!(ctx.subset_champion_list.is_empty());
    assert!(ctx.conversation_id.is_empty());
    assert!(ctx.game_mode.is_empty());
    assert!(!ctx.analysis_sent_flag);
    assert!(!ctx.accepted);
}

#[test]
fn no_reset_without_a_transition_into_lobby() {
    let mut ctx = HelperContext::new();
    ctx.apply_game_flow(session(GamePhase::Lobby, ""));
    ctx.champion_id = 9;
    // Lobby again: same phase, no transition, no reset
    ctx.apply_game_flow(session(GamePhase::Lobby, ""));
    assert_eq!(ctx.champion_id, 9);
    // into a non-idle phase: still no reset
    ctx.apply_game_flow(session(GamePhase::Matchmaking, ""));
    assert_eq!(ctx.champion_id, 9);
}

#[test]
fn requeue_after_matchmaking_clears_the_accept_latch() {
    let mut ctx = HelperContext::new();
    ctx.apply_game_flow(session(GamePhase::ReadyCheck, ""));
    ctx.commit_accept();
    assert!(ctx.accepted);
    ctx.apply_game_flow(session(GamePhase::Matchmaking, ""));
    assert!(!ctx.accepted);
}

#[test]
fn ready_check_with_zero_delay_accepts_immediately_and_only_once() {
    let mut ctx = HelperContext::new();
    ctx.auto_accepted_delay = 0;
    let pending = Some(MatchMakingReadyCheck { player_response: MatchReadyResponse::NoResponse });
    let plan = ctx.on_ready_check(&pending).expect("an accept is due");
    assert_eq!(plan.delay_seconds, 0);
    // the latch is set before any further event can be seen
    ctx.commit_accept();
    assert!(ctx.on_ready_check(&pending).is_none());
}

#[test]
fn negative_delay_means_no_wait() {
    let mut ctx = HelperContext::new();
    ctx.auto_accepted_delay = -1;
    let pending = Some(MatchMakingReadyCheck { player_response: MatchReadyResponse::NoResponse });
    let plan = ctx.on_ready_check(&pending).expect("an accept is due");
    assert_eq!(plan.delay_seconds, 0);
}

#[test]
fn answered_ready_check_triggers_nothing() {
    let ctx = HelperContext::new();
    let answered = Some(MatchMakingReadyCheck { player_response: MatchReadyResponse::Accepted });
    assert!(ctx.on_ready_check(&answered).is_none());
    assert!(ctx.on_ready_check(&None).is_none());
}

#[test]
fn bench_swap_plans_exactly_one_call_for_the_one_eligible_candidate() {
    let mut ctx = HelperContext::new();
    ctx.auto_pick.selected = vec![
        Champion(1, "A".to_string()),
        Champion(2, "B".to_string()),
        Champion(3, "C".to_string()),
    ];
    let mut data = empty_champ_select();
    data.bench_enabled = true;
    data.bench_champions = vec![2];
    let attempts: Vec<PickAttempt> = ctx.auto_pick_attempts(&data);
    assert_eq!(attempts.len(), 1);
    assert_eq!(attempts[0].champion_id, 2);
    assert_eq!(attempts[0].call, PickCall::Swap);
    assert!(attempts[0].record_champion);
    // the swap succeeded: commit, and the episode is latched
    ctx.commit_pick(&attempts[0]);
    assert_eq!(ctx.champion_id, 2);
    assert!(ctx.picked);
    assert!(ctx.auto_pick_attempts(&data).is_empty());
}

#[test]
fn empty_selection_plans_no_call_at_all() {
    let ctx = HelperContext::new();
    let mut data = empty_champ_select();
    data.bench_enabled = true;
    data.bench_champions = vec![1, 2, 3];
    data.actions = vec![lcu_helper::event::Action {
        actor_cell_id: 0,
        champion_id: 0,
        completed: false,
        id: 4,
        is_in_progress: true,
        action_type: "pick".to_string(),
    }];
    assert!(ctx.auto_pick_attempts(&data).is_empty());
}

#[test]
fn pick_paths_come_in_fixed_precedence() {
    let mut ctx = HelperContext::new();
    ctx.auto_pick.selected = vec![Champion(1, "A".to_string()), Champion(2, "B".to_string())];
    ctx.subset_champion_list = vec![1];
    let mut data = empty_champ_select();
    data.local_player_cell_id = 3;
    data.bench_enabled = true;
    data.bench_champions = vec![2];
    data.actions = vec![lcu_helper::event::Action {
        actor_cell_id: 3,
        champion_id: 0,
        completed: false,
        id: 9,
        is_in_progress: true,
        action_type: "pick".to_string(),
    }];
    let attempts = ctx.auto_pick_attempts(&data);
    // subset path for A, bench path for B, then the direct path for both
    assert_eq!(attempts.len(), 4);
    assert_eq!(attempts[0].champion_id, 1);
    assert_eq!(attempts[0].call, PickCall::Pick { action_id: 3 });
    assert!(attempts[0].record_champion);
    assert_eq!(attempts[1].champion_id, 2);
    assert_eq!(attempts[1].call, PickCall::Swap);
    assert_eq!(attempts[2].champion_id, 1);
    assert_eq!(attempts[2].call, PickCall::Pick { action_id: 9 });
    assert!(!attempts[2].record_champion);
    assert_eq!(attempts[3].champion_id, 2);
}

#[test]
fn direct_pick_without_own_action_plans_nothing() {
    let mut ctx = HelperContext::new();
    ctx.auto_pick.selected = vec![Champion(1, "A".to_string())];
    let mut data = empty_champ_select();
    data.actions = vec![lcu_helper::event::Action {
        actor_cell_id: 7,
        champion_id: 0,
        completed: false,
        id: 9,
        is_in_progress: true,
        action_type: "pick".to_string(),
    }];
    assert!(ctx.auto_pick_attempts(&data).is_empty());
}

#[test]
fn locked_in_champion_disables_the_engine() {
    let mut ctx = HelperContext::new();
    ctx.auto_pick.selected = vec![Champion(1, "A".to_string())];
    ctx.champion_id = 1;
    let mut data = empty_champ_select();
    data.bench_enabled = true;
    data.bench_champions = vec![1];
    assert!(ctx.auto_pick_attempts(&data).is_empty());
}

#[test]
fn analysis_posts_once_per_conversation() {
    let mut ctx = HelperContext::new();
    ctx.game_mode = "ARAM".to_string();
    ctx.conversation_id = "room-1".to_string();
    ctx.my_team = vec![
        ChampSelectPlayer {
            cell_id: 0,
            puuid: "p1".to_string(),
            summoner_id: 1,
            champion_id: 0,
        },
        ChampSelectPlayer {
            cell_id: 1,
            puuid: String::new(),
            summoner_id: 2,
            champion_id: 0,
        },
    ];
    let plan = ctx.analysis_plan().expect("a round is due");
    assert_eq!(plan.conversation_id, "room-1");
    assert_eq!(plan.game_mode, "ARAM");
    assert_eq!(plan.puuids, vec!["p1".to_string()]);
    ctx.commit_analysis();
    // the same conversation triggers nothing more, however often delivered
    assert!(ctx.analysis_plan().is_none());
    assert!(ctx.analysis_plan().is_none());
}

#[test]
fn analysis_skips_tft_and_unknown_modes() {
    let mut ctx = HelperContext::new();
    ctx.conversation_id = "room".to_string();
    assert!(ctx.analysis_plan().is_none());
    ctx.game_mode = "TFT".to_string();
    assert!(ctx.analysis_plan().is_none());
}
