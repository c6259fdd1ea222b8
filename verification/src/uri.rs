//! Endpoints of the client's command API, composed as verified text, and
//! the body of a chat message post.
use vstd::prelude::*;
use vstd::string::*;

use crate::text::{dec_digits, u64_to_string};

verus! {

pub struct LcuUri;

impl LcuUri {
    /// The current-summoner fetch endpoint.
    pub fn me() -> (r: &'static str)
        ensures
            r@ == "/lol-summoner/v1/current-summoner"@,
    {
        "/lol-summoner/v1/current-summoner"
    }

    /// The ready-check acceptance endpoint.
    pub fn accept_game() -> (r: &'static str)
        ensures
            r@ == "/lol-matchmaking/v1/ready-check/accept"@,
    {
        "/lol-matchmaking/v1/ready-check/accept"
    }

    /// The chat conversations root.
    pub fn conversations() -> (r: &'static str)
        ensures
            r@ == "/lol-chat/v1/conversations"@,
    {
        "/lol-chat/v1/conversations"
    }

    /// The owned-champions list endpoint.
    pub fn owned_champions() -> (r: &'static str)
        ensures
            r@ == "/lol-champions/v1/owned-champions-minimal"@,
    {
        "/lol-champions/v1/owned-champions-minimal"
    }

    /// Bench swap by champion id.
    pub fn swap_champion(champion_id: u16) -> (r: String)
        ensures
            r@ == "/lol-champ-select/v1/session/bench/swap/"@ + dec_digits(champion_id as nat),
    {
        let mut s = String::from_str("/lol-champ-select/v1/session/bench/swap/");
        let d = u64_to_string(champion_id as u64);
        s.append(d.as_str());
        s
    }

    /// Message post for one conversation.
    pub fn conversation_message(conversation_id: &str) -> (r: String)
        ensures
            r@ == "/lol-chat/v1/conversations/"@ + conversation_id@ + "/messages"@,
    {
        let mut s = String::from_str("/lol-chat/v1/conversations");
        s.append("/");
        s.append(conversation_id);
        s.append("/messages");
        proof {
            reveal_strlit("/lol-chat/v1/conversations");
            reveal_strlit("/lol-chat/v1/conversations/");
            reveal_strlit("/");
            assert(s@ =~= "/lol-chat/v1/conversations/"@ + conversation_id@ + "/messages"@);
        }
        s
    }

    /// Summoner fetch by player id.
    pub fn summoners_by_puuid(puuid: &str) -> (r: String)
        ensures
            r@ == "/lol-summoner/v2/summoners/puuid/"@ + puuid@,
    {
        let mut s = String::from_str("/lol-summoner/v2/summoners/puuid/");
        s.append(puuid);
        s
    }

    /// Match-history range fetch by player id and index range.
    pub fn matches(puuid: &str, begin: usize, end: usize) -> (r: String)
        ensures
            r@ == "/lol-match-history/v1/products/lol/"@ + puuid@ + "/matches?begIndex="@
                + dec_digits(begin as nat) + "&endIndex="@ + dec_digits(end as nat),
    {
        let mut s = String::from_str("/lol-match-history/v1/products/lol/");
        s.append(puuid);
        s.append("/matches?begIndex=");
        let b = u64_to_string(begin as u64);
        s.append(b.as_str());
        s.append("&endIndex=");
        let e = u64_to_string(end as u64);
        s.append(e.as_str());
        proof {
            assert(s@ =~= "/lol-match-history/v1/products/lol/"@ + puuid@ + "/matches?begIndex="@
                + dec_digits(begin as nat) + "&endIndex="@ + dec_digits(end as nat));
        }
        s
    }

    /// Champ-select action completion (pick) by action id.
    pub fn bp_champions(action: &str) -> (r: String)
        ensures
            r@ == "/lol-champ-select/v1/session/actions/"@ + action@,
    {
        let mut s = String::from_str("/lol-champ-select/v1/session/actions/");
        s.append(action);
        s
    }

    /// One topic-subscription frame for the streaming channel.
    pub fn subscription_frame(topic: &str) -> (r: String)
        ensures
            r@ == "[5, \"OnJsonApiEvent_"@ + topic@ + "\"]"@,
    {
        let mut s = String::from_str("[5, \"OnJsonApiEvent_");
        s.append(topic);
        s.append("\"]");
        s
    }

    /// The fixed, versioned list of event topics the engine subscribes to.
    pub fn subscribed_events() -> (r: Vec<&'static str>)
        ensures
            r@.len() == 5,
            r@[0]@ == "lol-gameflow_v1_session"@,
            r@[1]@ == "lol-matchmaking_v1_ready-check"@,
            r@[2]@ == "lol-lobby-team-builder_v1_matchmaking"@,
            r@[3]@ == "lol-champ-select_v1_session"@,
            r@[4]@ == "lol-chat_v1_conversations"@,
    {
        let mut v: Vec<&'static str> = Vec::new();
        v.push("lol-gameflow_v1_session");
        v.push("lol-matchmaking_v1_ready-check");
        v.push("lol-lobby-team-builder_v1_matchmaking");
        v.push("lol-champ-select_v1_session");
        v.push("lol-chat_v1_conversations");
        v
    }
}

/// Body of a chat message post: the text and the `chat` body type.
pub struct MessageBody {
    pub body: String,
    pub body_type: String,
}

impl MessageBody {
    pub fn message(message: &str) -> (r: MessageBody)
        ensures
            r.body@ == message@,
            r.body_type@ == "chat"@,
    {
        MessageBody { body: message.to_owned(), body_type: String::from_str("chat") }
    }
}

} // verus!
