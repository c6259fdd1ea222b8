use lcu_helper::score::{analyze_player, parse_matches, MatchRecord, Matches, PlayerScore};

fn aram(kills: u16, deaths: u16, assists: u16, win: bool, damage: u32, duration: u32) -> MatchRecord {
    MatchRecord {
        game_mode: "ARAM".to_string(),
        game_duration: duration,
        kills,
        deaths,
        assists,
        win,
        damage,
    }
}

#[test]
fn three_aram_matches_aggregate_exactly() {
    let ms = Matches(vec![
        aram(5, 2, 3, true, 9000, 1200),
        aram(1, 4, 1, false, 3000, 1100),
        aram(6, 0, 2, true, 12000, 1000),
    ]);
    let score = ms.calculate_player_score("ARAM");
    // KDA = (12 + 6) / (6 + 1) = 18/7 = 2.5714... -> 2.57
    assert_eq!(score.kda_centi, 257);
    // DPM = 24000 / 3300 * 60 = 436.3636... -> 436.36
    assert_eq!(score.dpm_centi, 43636);
    // latest match won, the one before lost: a one-game win streak
    assert_eq!(score.repeats, 1);
    assert_eq!(score.wins, 2);
    assert_eq!(score.total, 3);
    assert_eq!(score.name, "");
}

#[test]
fn streak_counts_consecutive_latest_outcomes() {
    let ms = Matches(vec![
        aram(1, 1, 1, false, 100, 60),
        aram(1, 1, 1, false, 100, 60),
        aram(1, 1, 1, true, 100, 60),
    ]);
    let score = ms.calculate_player_score("ARAM");
    assert_eq!(score.repeats, -2);
    assert_eq!(score.wins, 1);
}

#[test]
fn other_modes_are_filtered_out() {
    let mut rows = vec![aram(5, 2, 3, true, 9000, 1200)];
    rows.push(MatchRecord {
        game_mode: "CLASSIC".to_string(),
        game_duration: 1800,
        kills: 10,
        deaths: 0,
        assists: 10,
        win: true,
        damage: 30000,
    });
    let score = Matches(rows).calculate_player_score("ARAM");
    assert_eq!(score.total, 1);
    // KDA = (5 + 3) / (2 + 1) = 8/3 = 2.666... -> 2.67
    assert_eq!(score.kda_centi, 267);
}

#[test]
fn no_matching_mode_gives_the_default_score() {
    let ms = Matches(vec![aram(5, 2, 3, true, 9000, 1200)]);
    let score = ms.calculate_player_score("CLASSIC");
    assert_eq!(score.total, 0);
    assert_eq!(score.kda_centi, 0);
    assert_eq!(score.dpm_centi, 0);
    assert_eq!(score.repeats, 0);
    assert_eq!(score.wins, 0);
}

#[test]
fn zero_duration_means_zero_dpm() {
    let ms = Matches(vec![aram(1, 0, 0, true, 500, 0)]);
    let score = ms.calculate_player_score("ARAM");
    assert_eq!(score.dpm_centi, 0);
}

#[test]
fn rendered_message_carries_the_exact_numbers() {
    let mut score = PlayerScore::default();
    score.kda_centi = 257;
    score.dpm_centi = 43636;
    score.repeats = 1;
    score.wins = 2;
    score.total = 3;
    score.set_name("Tester");
    let msg = score.render();
    assert_eq!(
        msg,
        "Tester\u{6218}\u{7EE9}\u{4FE1}\u{606F}\u{FF1A}\nkda=2.57\u{FF0C}\u{5206}\u{5747}\u{4F24}\u{5BB3}=436.36\n\u{80DC}\u{7387}=2/3\u{FF0C}1\u{8FDE}\u{80DC}"
    );
}

#[test]
fn loss_streak_renders_with_its_magnitude() {
    let mut score = PlayerScore::default();
    score.repeats = -4;
    score.wins = 0;
    score.total = 6;
    let msg = score.render();
    assert!(msg.ends_with("4\u{8FDE}\u{8D25}"));
}

#[test]
fn history_page_parses_through_the_nested_shape() {
    let body = r#"{
        "games": {
            "games": [
                {
                    "gameMode": "ARAM",
                    "gameDuration": 1200,
                    "participants": [
                        {
                            "stats": {
                                "assists": 3,
                                "deaths": 2,
                                "kills": 5,
                                "win": true,
                                "totalDamageDealtToChampions": 9000
                            }
                        }
                    ]
                }
            ]
        }
    }"#;
    let ms = parse_matches(body).expect("the page must parse");
    assert_eq!(ms.0.len(), 1);
    assert_eq!(ms.0[0].game_mode, "ARAM");
    assert_eq!(ms.0[0].kills, 5);
    assert_eq!(ms.0[0].damage, 9000);
}

#[test]
fn a_match_without_participants_spoils_the_page() {
    let body = r#"{
        "games": { "games": [ { "gameMode": "ARAM", "gameDuration": 10, "participants": [] } ] }
    }"#;
    assert!(parse_matches(body).is_none());
}

#[test]
fn a_page_longer_than_a_fetch_can_return_is_rejected() {
    let one = r#"{ "gameMode": "ARAM", "gameDuration": 10, "participants": [
        { "stats": { "assists": 0, "deaths": 0, "kills": 0, "win": true,
                     "totalDamageDealtToChampions": 1 } } ] }"#;
    let twenty = vec![one; 20].join(",");
    let ok = format!("{{ \"games\": {{ \"games\": [{}] }} }}", twenty);
    assert!(parse_matches(&ok).is_some());
    let twenty_one = vec![one; 21].join(",");
    let too_long = format!("{{ \"games\": {{ \"games\": [{}] }} }}", twenty_one);
    assert!(parse_matches(&too_long).is_none());
}

#[test]
fn full_report_from_raw_bodies() {
    let summoner = r#"{
        "gameName": "Tester",
        "summonerId": 99,
        "summonerLevel": 30,
        "puuid": "p-1"
    }"#;
    let history = r#"{
        "games": {
            "games": [
                {
                    "gameMode": "ARAM",
                    "gameDuration": 1200,
                    "participants": [
                        { "stats": { "assists": 3, "deaths": 2, "kills": 5, "win": true,
                                     "totalDamageDealtToChampions": 9000 } }
                    ]
                }
            ]
        }
    }"#;
    let score = analyze_player(summoner, history, "ARAM").expect("a report is due");
    assert_eq!(score.name, "Tester");
    assert_eq!(score.kda_centi, 267);
    assert_eq!(score.dpm_centi, 45000);
    let msg = score.render();
    assert!(msg.starts_with("Tester"));
    assert!(msg.contains("kda=2.67"));
    // 9000 / 1200 * 60 = 450
    assert!(msg.contains("=450.00"));
    assert!(msg.ends_with("1/1\u{FF0C}1\u{8FDE}\u{80DC}"));
}
