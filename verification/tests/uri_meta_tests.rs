use lcu_helper::context::{parse_owned_champions, parse_summoner, HelperContext, Summoner};
use lcu_helper::errors::HelperError;
use lcu_helper::meta::{first_pid_in_listing, LcuMeta};
use lcu_helper::uri::{LcuUri, MessageBody};

#[test]
fn endpoints_compose_exactly() {
    assert_eq!(LcuUri::me(), "/lol-summoner/v1/current-summoner");
    assert_eq!(LcuUri::accept_game(), "/lol-matchmaking/v1/ready-check/accept");
    assert_eq!(LcuUri::conversations(), "/lol-chat/v1/conversations");
    assert_eq!(LcuUri::owned_champions(), "/lol-champions/v1/owned-champions-minimal");
    assert_eq!(LcuUri::swap_champion(123), "/lol-champ-select/v1/session/bench/swap/123");
    assert_eq!(
        LcuUri::conversation_message("abc%40x"),
        "/lol-chat/v1/conversations/abc%40x/messages"
    );
    assert_eq!(
        LcuUri::summoners_by_puuid("p-1"),
        "/lol-summoner/v2/summoners/puuid/p-1"
    );
    assert_eq!(
        LcuUri::matches("p-1", 0, 19),
        "/lol-match-history/v1/products/lol/p-1/matches?begIndex=0&endIndex=19"
    );
    assert_eq!(LcuUri::bp_champions("7"), "/lol-champ-select/v1/session/actions/7");
}

#[test]
fn subscription_frames_cover_the_fixed_topic_list() {
    let topics = LcuUri::subscribed_events();
    assert_eq!(topics.len(), 5);
    assert_eq!(topics[0], "lol-gameflow_v1_session");
    assert_eq!(topics[4], "lol-chat_v1_conversations");
    assert_eq!(
        LcuUri::subscription_frame(topics[0]),
        "[5, \"OnJsonApiEvent_lol-gameflow_v1_session\"]"
    );
}

#[test]
fn message_body_is_a_chat_post() {
    let body = MessageBody::message("hello");
    assert_eq!(body.body, "hello");
    assert_eq!(body.body_type, "chat");
}

#[test]
fn first_pid_reads_a_process_listing() {
    let listing = "ProcessId\r\n\r\n12345\r\n\r\n";
    assert_eq!(first_pid_in_listing(listing), Some(12345));
    assert_eq!(first_pid_in_listing("ProcessId\nnothing here\n"), None);
    assert_eq!(first_pid_in_listing(""), None);
    // the first numeric line wins
    assert_eq!(first_pid_in_listing("a\n  7  \n9\n"), Some(7));
}

#[test]
fn command_line_yields_port_token_and_host() {
    let mut meta = LcuMeta::default();
    let cmdline = "\"C:\\Riot\\LeagueClientUx.exe\" \"--app-port=52341\" \"--remoting-auth-token=SECRET-REDACTED\" --locale=en_US";
    let url = meta.absorb_cmdline(321, cmdline).expect("discovery must succeed");
    assert_eq!(meta.pid, 321);
    assert_eq!(meta.port, 52341);
    assert_eq!(meta.token, "SECRET-REDACTED");
    assert_eq!(url, "riot:SECRET-REDACTED@127.0.0.1:52341");
    assert_eq!(meta.host_url, url);
    assert!(meta.is_cached(321));
    assert!(!meta.is_cached(322));
}

#[test]
fn a_command_line_without_credentials_is_a_discovery_failure() {
    let mut meta = LcuMeta::default();
    let r = meta.absorb_cmdline(1, "some.exe --nothing-of-note");
    assert!(matches!(r, Err(HelperError::ClientCMDLineFailed)));
    assert!(meta.host_url.is_empty());
}

#[test]
fn a_missing_or_invalid_port_is_a_discovery_failure() {
    // a token alone is not enough
    let mut meta = LcuMeta::default();
    let r = meta.absorb_cmdline(1, "some.exe --remoting-auth-token=t");
    assert!(matches!(r, Err(HelperError::ClientCMDLineFailed)));
    assert_eq!(meta.token, "t");
    // an unparsable port value counts as missing
    let mut meta = LcuMeta::default();
    let r = meta.absorb_cmdline(1, "--app-port=notanumber --remoting-auth-token=t");
    assert!(matches!(r, Err(HelperError::ClientCMDLineFailed)));
    assert_eq!(meta.port, 0);
    // so does one out of range
    let mut meta = LcuMeta::default();
    let r = meta.absorb_cmdline(1, "--app-port=70000 --remoting-auth-token=t");
    assert!(matches!(r, Err(HelperError::ClientCMDLineFailed)));
}

#[test]
fn a_missing_token_is_a_discovery_failure() {
    let mut meta = LcuMeta::default();
    let r = meta.absorb_cmdline(1, "some.exe --app-port=52341");
    assert!(matches!(r, Err(HelperError::ClientCMDLineFailed)));
    assert_eq!(meta.port, 52341);
    assert!(meta.host_url.is_empty());
}

#[test]
fn error_messages_read_as_logged() {
    assert_eq!(
        HelperError::ClientNotFound.message(),
        "Failed to find LCU process"
    );
    assert_eq!(
        HelperError::ResponseError("429".to_string()).message(),
        "Response error: 429"
    );
    assert_eq!(
        HelperError::DecodeError.message(),
        "Failed to decode event frame"
    );
}

#[test]
fn summoner_body_parses() {
    let body = r#"{ "gameName": "N", "summonerId": 5, "summonerLevel": 31, "puuid": "p" }"#;
    let s = parse_summoner(body).expect("must parse");
    assert_eq!(s.game_name, "N");
    assert_eq!(s.summoner_id, 5);
    assert_eq!(s.summoner_level, 31);
    assert_eq!(s.puuid, "p");
    assert!(parse_summoner("{}").is_none());
}

#[test]
fn owned_champions_become_named_champions() {
    let body = r#"[
        { "id": 1, "name": "Annie", "title": "the Dark Child" },
        { "id": 103, "name": "Ahri", "title": "the Nine-Tailed Fox" }
    ]"#;
    let cs = parse_owned_champions(body).expect("must parse");
    assert_eq!(cs.len(), 2);
    assert_eq!(cs[0].0, 1);
    assert_eq!(cs[0].1, "Annie-the Dark Child");
    assert_eq!(cs[1].1, "Ahri-the Nine-Tailed Fox");
}

#[test]
fn summoner_update_skips_an_unchanged_player() {
    let mut ctx = HelperContext::new();
    let s1 = Summoner {
        game_name: "A".to_string(),
        summoner_id: 1,
        summoner_level: 2,
        puuid: "p".to_string(),
    };
    assert!(ctx.update_summoner(s1));
    assert_eq!(ctx.me.game_name, "A");
    let same = Summoner {
        game_name: "B".to_string(),
        summoner_id: 9,
        summoner_level: 9,
        puuid: "p".to_string(),
    };
    assert!(!ctx.update_summoner(same));
    assert_eq!(ctx.me.game_name, "A");
}
