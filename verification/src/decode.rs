//! The event decoder: structural dispatch on the `uri` discriminator of
//! an inbound frame's payload, with the documented extraction rules for
//! each endpoint. A payload that matches no known shape decodes to
//! `Other`; only text that is not valid JSON is a decode error.
use vstd::prelude::*;

use crate::errors::HelperError;
use crate::event::{
    Action, ActionV, ChampSelectData, ChampSelectDataV, ChampSelectPlayer, ChampSelectPlayerV,
    ChatConversation, ChatConversationV, ChatMessageData, ChatMessageDataV, Event, EventType,
    EventV, GameFlowGameData, GameFlowGameDataV, GameFlowSession, GameFlowSessionV, GameMap,
    GameMapV, GamePhase, MatchMaking, MatchMakingReadyCheck, MatchMakingV, MatchReadyResponse,
    MessageType,
};
use crate::json::{
    get_bool, get_str, int_val, json_get, json_of, parse_json, JsonValue,
};
use crate::text::{ends_with, is_prefix_of, is_suffix_of, starts_with, str_eq};

verus! {

/// The unsigned integer under `key`, when there is one.
pub open spec fn get_u64(v: JsonValue, key: Seq<char>) -> Option<u64> {
    match json_get(v, key) {
        Some(w) => match int_val(w) {
            Some(i) => if 0 <= i <= u64::MAX {
                Some(i as u64)
            } else {
                None
            },
            None => None,
        },
        None => None,
    }
}

/// The integer under `key` when it fits `u16`.
pub open spec fn get_u16(v: JsonValue, key: Seq<char>) -> Option<u16> {
    match json_get(v, key) {
        Some(w) => match int_val(w) {
            Some(i) => if 0 <= i <= u16::MAX {
                Some(i as u16)
            } else {
                None
            },
            None => None,
        },
        None => None,
    }
}

/// The integer under `key` when it fits `u32`.
pub open spec fn get_u32(v: JsonValue, key: Seq<char>) -> Option<u32> {
    match json_get(v, key) {
        Some(w) => match int_val(w) {
            Some(i) => if 0 <= i <= u32::MAX {
                Some(i as u32)
            } else {
                None
            },
            None => None,
        },
        None => None,
    }
}

/// The integer under `key` when it fits `u8`.
pub open spec fn get_u8(v: JsonValue, key: Seq<char>) -> Option<u8> {
    match json_get(v, key) {
        Some(w) => match int_val(w) {
            Some(i) => if 0 <= i <= u8::MAX {
                Some(i as u8)
            } else {
                None
            },
            None => None,
        },
        None => None,
    }
}

/// As `get_u8`, but a missing field counts as zero, the way the feed
/// omits a defaulted cell id.
pub open spec fn get_u8_or_zero(v: JsonValue, key: Seq<char>) -> Option<u8> {
    match json_get(v, key) {
        Some(w) => match int_val(w) {
            Some(i) => if 0 <= i <= u8::MAX {
                Some(i as u8)
            } else {
                None
            },
            None => None,
        },
        None => Some(0),
    }
}

/// The array under `key`, when there is one.
pub open spec fn get_arr(v: JsonValue, key: Seq<char>) -> Option<Seq<JsonValue>> {
    match json_get(v, key) {
        Some(JsonValue::Array(a)) => Some(a@),
        _ => None,
    }
}

pub fn read_u64(v: &JsonValue, key: &str) -> (r: Option<u64>)
    ensures
        r == get_u64(*v, key@),
{
    match v.get(key) {
        Some(w) => w.as_u64(),
        None => None,
    }
}

pub fn read_u16(v: &JsonValue, key: &str) -> (r: Option<u16>)
    ensures
        r == get_u16(*v, key@),
{
    match v.get(key) {
        Some(w) => match w.as_u64() {
            Some(x) => if x <= 0xFFFF {
                Some(x as u16)
            } else {
                None
            },
            None => None,
        },
        None => None,
    }
}

pub fn read_u32(v: &JsonValue, key: &str) -> (r: Option<u32>)
    ensures
        r == get_u32(*v, key@),
{
    match v.get(key) {
        Some(w) => match w.as_u64() {
            Some(x) => if x <= 0xFFFF_FFFF {
                Some(x as u32)
            } else {
                None
            },
            None => None,
        },
        None => None,
    }
}

pub fn read_u8(v: &JsonValue, key: &str) -> (r: Option<u8>)
    ensures
        r == get_u8(*v, key@),
{
    match v.get(key) {
        Some(w) => match w.as_u64() {
            Some(x) => if x <= 0xFF {
                Some(x as u8)
            } else {
                None
            },
            None => None,
        },
        None => None,
    }
}

pub fn read_u8_or_zero(v: &JsonValue, key: &str) -> (r: Option<u8>)
    ensures
        r == get_u8_or_zero(*v, key@),
{
    match v.get(key) {
        Some(w) => match w.as_u64() {
            Some(x) => if x <= 0xFF {
                Some(x as u8)
            } else {
                None
            },
            None => None,
        },
        None => Some(0),
    }
}

pub fn read_str<'a>(v: &'a JsonValue, key: &str) -> (r: Option<&'a String>)
    ensures
        match r {
            Some(s) => get_str(*v, key@) == Some(s@),
            None => get_str(*v, key@) is None,
        },
{
    match v.get(key) {
        Some(w) => match w {
            JsonValue::Str(s) => Some(s),
            _ => None,
        },
        None => None,
    }
}

pub fn read_bool(v: &JsonValue, key: &str) -> (r: Option<bool>)
    ensures
        r == get_bool(*v, key@),
{
    match v.get(key) {
        Some(w) => match w {
            JsonValue::Bool(b) => Some(*b),
            _ => None,
        },
        None => None,
    }
}

pub fn read_arr<'a>(v: &'a JsonValue, key: &str) -> (r: Option<&'a Vec<JsonValue>>)
    ensures
        match r {
            Some(a) => get_arr(*v, key@) == Some(a@),
            None => get_arr(*v, key@) is None,
        },
{
    match v.get(key) {
        Some(w) => match w {
            JsonValue::Array(a) => Some(a),
            _ => None,
        },
        None => None,
    }
}

/// Whether the value under `key` is a number of any kind.
pub fn read_has_number(v: &JsonValue, key: &str) -> (r: bool)
    ensures
        r == crate::json::has_number(*v, key@),
{
    match v.get(key) {
        Some(w) => w.is_number(),
        None => false,
    }
}

pub open spec fn event_type_of_str(s: Seq<char>) -> Option<EventType> {
    if s == "Update"@ {
        Some(EventType::Update)
    } else if s == "Delete"@ {
        Some(EventType::Delete)
    } else if s == "Create"@ {
        Some(EventType::Create)
    } else {
        None
    }
}

/// The `eventType` discriminator of a payload.
pub open spec fn event_type_of(p: JsonValue) -> Option<EventType> {
    match get_str(p, "eventType"@) {
        Some(s) => event_type_of_str(s),
        None => None,
    }
}

pub fn read_event_type(p: &JsonValue) -> (r: Option<EventType>)
    ensures
        r == event_type_of(*p),
{
    match read_str(p, "eventType") {
        Some(s) => {
            let t = s.as_str();
            if str_eq(t, "Update") {
                Some(EventType::Update)
            } else if str_eq(t, "Delete") {
                Some(EventType::Delete)
            } else if str_eq(t, "Create") {
                Some(EventType::Create)
            } else {
                None
            }
        },
        None => None,
    }
}

/// A reported phase string; anything unknown is the `Other` phase.
pub open spec fn phase_of_str(s: Seq<char>) -> GamePhase {
    if s == "ChampSelect"@ {
        GamePhase::ChampSelect
    } else if s == "GameStart"@ {
        GamePhase::GameStart
    } else if s == "InProgress"@ {
        GamePhase::InProgress
    } else if s == "Lobby"@ {
        GamePhase::Lobby
    } else if s == "Matchmaking"@ {
        GamePhase::Matchmaking
    } else if s == "None"@ {
        GamePhase::NoPhase
    } else if s == "PreEndOfGame"@ {
        GamePhase::PreEndOfGame
    } else if s == "ReadyCheck"@ {
        GamePhase::ReadyCheck
    } else {
        GamePhase::Other
    }
}

pub fn parse_phase(s: &str) -> (r: GamePhase)
    ensures
        r == phase_of_str(s@),
{
    if str_eq(s, "ChampSelect") {
        GamePhase::ChampSelect
    } else if str_eq(s, "GameStart") {
        GamePhase::GameStart
    } else if str_eq(s, "InProgress") {
        GamePhase::InProgress
    } else if str_eq(s, "Lobby") {
        GamePhase::Lobby
    } else if str_eq(s, "Matchmaking") {
        GamePhase::Matchmaking
    } else if str_eq(s, "None") {
        GamePhase::NoPhase
    } else if str_eq(s, "PreEndOfGame") {
        GamePhase::PreEndOfGame
    } else if str_eq(s, "ReadyCheck") {
        GamePhase::ReadyCheck
    } else {
        GamePhase::Other
    }
}

pub open spec fn response_of_str(s: Seq<char>) -> Option<MatchReadyResponse> {
    if s == "Accepted"@ {
        Some(MatchReadyResponse::Accepted)
    } else if s == "Declined"@ {
        Some(MatchReadyResponse::Declined)
    } else if s == "None"@ {
        Some(MatchReadyResponse::NoResponse)
    } else {
        None
    }
}

pub fn parse_response(s: &str) -> (r: Option<MatchReadyResponse>)
    ensures
        r == response_of_str(s@),
{
    if str_eq(s, "Accepted") {
        Some(MatchReadyResponse::Accepted)
    } else if str_eq(s, "Declined") {
        Some(MatchReadyResponse::Declined)
    } else if str_eq(s, "None") {
        Some(MatchReadyResponse::NoResponse)
    } else {
        None
    }
}

/// Chat message types arrive lower-case on the wire.
pub open spec fn message_type_of_str(s: Seq<char>) -> Option<MessageType> {
    if s == "chat"@ {
        Some(MessageType::Chat)
    } else if s == "system"@ {
        Some(MessageType::System)
    } else {
        None
    }
}

pub fn parse_message_type(s: &str) -> (r: Option<MessageType>)
    ensures
        r == message_type_of_str(s@),
{
    if str_eq(s, "chat") {
        Some(MessageType::Chat)
    } else if str_eq(s, "system") {
        Some(MessageType::System)
    } else {
        None
    }
}

/// One roster entry: a missing cell id counts as zero, everything else
/// must be present and well-typed.
pub open spec fn player_of(v: JsonValue) -> Option<ChampSelectPlayerV> {
    match (
        get_u8_or_zero(v, "cellId"@),
        get_str(v, "puuid"@),
        get_u64(v, "summonerId"@),
        get_u16(v, "championId"@),
    ) {
        (Some(c), Some(pu), Some(sid), Some(cid)) => Some(
            ChampSelectPlayerV { cell_id: c, puuid: pu, summoner_id: sid, champion_id: cid },
        ),
        _ => None,
    }
}

pub fn read_player(v: &JsonValue) -> (r: Option<ChampSelectPlayer>)
    ensures
        match r {
            Some(p) => player_of(*v) == Some(p@),
            None => player_of(*v) is None,
        },
{
    let cell = read_u8_or_zero(v, "cellId");
    let puuid = read_str(v, "puuid");
    let sid = read_u64(v, "summonerId");
    let cid = read_u16(v, "championId");
    match (cell, puuid, sid, cid) {
        (Some(c), Some(pu), Some(s), Some(ci)) => Some(
            ChampSelectPlayer {
                cell_id: c,
                puuid: pu.clone(),
                summoner_id: s,
                champion_id: ci,
            },
        ),
        _ => None,
    }
}

/// A whole roster array; one bad entry spoils the array.
pub open spec fn players_of(a: Seq<JsonValue>) -> Option<Seq<ChampSelectPlayerV>>
    decreases a.len(),
{
    if a.len() == 0 {
        Some(Seq::empty())
    } else {
        match (player_of(a.first()), players_of(a.drop_first())) {
            (Some(p), Some(rest)) => Some(seq![p] + rest),
            _ => None,
        }
    }
}

pub fn read_players(a: &Vec<JsonValue>) -> (r: Option<Vec<ChampSelectPlayer>>)
    ensures
        match r {
            Some(ps) => players_of(a@) == Some(ps@.map_values(|p: ChampSelectPlayer| p@)),
            None => players_of(a@) is None,
        },
{
    let n = a.len();
    let mut out: Vec<ChampSelectPlayer> = Vec::new();
    let mut i: usize = 0;
    proof {
        assert(a@.skip(0) =~= a@);
        assert(out@.map_values(|p: ChampSelectPlayer| p@) =~= Seq::<
            ChampSelectPlayerV,
        >::empty());
    }
    while i < n
        invariant
            0 <= i <= n == a@.len(),
            match players_of(a@.skip(i as int)) {
                Some(rest) => players_of(a@) == Some(
                    out@.map_values(|p: ChampSelectPlayer| p@) + rest,
                ),
                None => players_of(a@) is None,
            },
        decreases n - i,
    {
        proof {
            assert(a@.skip(i as int).first() == a@[i as int]);
            assert(a@.skip(i as int).drop_first() =~= a@.skip(i + 1));
        }
        match read_player(&a[i]) {
            Some(p) => {
                let ghost before = out@;
                out.push(p);
                proof {
                    assert(out@.map_values(|q: ChampSelectPlayer| q@) =~= before.map_values(
                        |q: ChampSelectPlayer| q@,
                    ).push(p@));
                    if players_of(a@.skip(i + 1)) is Some {
                        assert(before.map_values(|q: ChampSelectPlayer| q@) + (seq![p@]
                            + players_of(a@.skip(i + 1)).unwrap()) =~= out@.map_values(
                            |q: ChampSelectPlayer| q@,
                        ) + players_of(a@.skip(i + 1)).unwrap());
                    }
                }
            },
            None => {
                return None;
            },
        }
        i = i + 1;
    }
    proof {
        assert(a@.skip(n as int) =~= Seq::<JsonValue>::empty());
        assert(players_of(a@) == Some(out@.map_values(|p: ChampSelectPlayer| p@) + Seq::<
            ChampSelectPlayerV,
        >::empty()));
        assert(out@.map_values(|p: ChampSelectPlayer| p@) + Seq::<ChampSelectPlayerV>::empty()
            =~= out@.map_values(|p: ChampSelectPlayer| p@));
    }
    Some(out)
}

/// A bench entry is a wrapper object; only its champion id is kept.
pub open spec fn bench_ids_of(a: Seq<JsonValue>) -> Option<Seq<u16>>
    decreases a.len(),
{
    if a.len() == 0 {
        Some(Seq::empty())
    } else {
        match (get_u16(a.first(), "championId"@), bench_ids_of(a.drop_first())) {
            (Some(id), Some(rest)) => Some(seq![id] + rest),
            _ => None,
        }
    }
}

pub fn read_bench_ids(a: &Vec<JsonValue>) -> (r: Option<Vec<u16>>)
    ensures
        match r {
            Some(ids) => bench_ids_of(a@) == Some(ids@),
            None => bench_ids_of(a@) is None,
        },
{
    let n = a.len();
    let mut out: Vec<u16> = Vec::new();
    let mut i: usize = 0;
    proof {
        assert(a@.skip(0) =~= a@);
    }
    while i < n
        invariant
            0 <= i <= n == a@.len(),
            match bench_ids_of(a@.skip(i as int)) {
                Some(rest) => bench_ids_of(a@) == Some(out@ + rest),
                None => bench_ids_of(a@) is None,
            },
        decreases n - i,
    {
        proof {
            assert(a@.skip(i as int).first() == a@[i as int]);
            assert(a@.skip(i as int).drop_first() =~= a@.skip(i + 1));
        }
        match read_u16(&a[i], "championId") {
            Some(id) => {
                let ghost before = out@;
                out.push(id);
                proof {
                    if bench_ids_of(a@.skip(i + 1)) is Some {
                        assert(before + (seq![id] + bench_ids_of(a@.skip(i + 1)).unwrap())
                            =~= out@ + bench_ids_of(a@.skip(i + 1)).unwrap());
                    }
                }
            },
            None => {
                return None;
            },
        }
        i = i + 1;
    }
    proof {
        assert(a@.skip(n as int) =~= Seq::<JsonValue>::empty());
        assert(out@ + Seq::<u16>::empty() =~= out@);
    }
    Some(out)
}

/// A subset-list entry is a bare champion id.
pub open spec fn u16s_of(a: Seq<JsonValue>) -> Option<Seq<u16>>
    decreases a.len(),
{
    if a.len() == 0 {
        Some(Seq::empty())
    } else {
        match int_val(a.first()) {
            Some(i) => if 0 <= i <= u16::MAX {
                match u16s_of(a.drop_first()) {
                    Some(rest) => Some(seq![i as u16] + rest),
                    None => None,
                }
            } else {
                None
            },
            None => None,
        }
    }
}

pub fn read_u16s(a: &Vec<JsonValue>) -> (r: Option<Vec<u16>>)
    ensures
        match r {
            Some(ids) => u16s_of(a@) == Some(ids@),
            None => u16s_of(a@) is None,
        },
{
    let n = a.len();
    let mut out: Vec<u16> = Vec::new();
    let mut i: usize = 0;
    proof {
        assert(a@.skip(0) =~= a@);
    }
    while i < n
        invariant
            0 <= i <= n == a@.len(),
            match u16s_of(a@.skip(i as int)) {
                Some(rest) => u16s_of(a@) == Some(out@ + rest),
                None => u16s_of(a@) is None,
            },
        decreases n - i,
    {
        proof {
            assert(a@.skip(i as int).first() == a@[i as int]);
            assert(a@.skip(i as int).drop_first() =~= a@.skip(i + 1));
        }
        let id = match a[i].as_u64() {
            Some(x) => if x <= 0xFFFF {
                Some(x as u16)
            } else {
                None
            },
            None => None,
        };
        match id {
            Some(idv) => {
                let ghost before = out@;
                out.push(idv);
                proof {
                    if u16s_of(a@.skip(i + 1)) is Some {
                        assert(before + (seq![idv] + u16s_of(a@.skip(i + 1)).unwrap()) =~= out@
                            + u16s_of(a@.skip(i + 1)).unwrap());
                    }
                }
            },
            None => {
                return None;
            },
        }
        i = i + 1;
    }
    proof {
        assert(a@.skip(n as int) =~= Seq::<JsonValue>::empty());
        assert(out@ + Seq::<u16>::empty() =~= out@);
    }
    Some(out)
}

/// One pick/ban action entry.
pub open spec fn action_of(v: JsonValue) -> Option<ActionV> {
    match (
        get_u8(v, "actorCellId"@),
        get_u16(v, "championId"@),
        get_bool(v, "completed"@),
        get_u8(v, "id"@),
        get_bool(v, "isInProgress"@),
        get_str(v, "type"@),
    ) {
        (Some(ac), Some(ch), Some(co), Some(id), Some(ip), Some(ty)) => Some(
            ActionV {
                actor_cell_id: ac,
                champion_id: ch,
                completed: co,
                id: id,
                is_in_progress: ip,
                action_type: ty,
            },
        ),
        _ => None,
    }
}

pub fn read_action(v: &JsonValue) -> (r: Option<Action>)
    ensures
        match r {
            Some(a) => action_of(*v) == Some(a@),
            None => action_of(*v) is None,
        },
{
    let ac = read_u8(v, "actorCellId");
    let ch = read_u16(v, "championId");
    let co = read_bool(v, "completed");
    let id = read_u8(v, "id");
    let ip = read_bool(v, "isInProgress");
    let ty = read_str(v, "type");
    match (ac, ch, co, id, ip, ty) {
        (Some(a), Some(c), Some(cm), Some(i), Some(p), Some(t)) => Some(
            Action {
                actor_cell_id: a,
                champion_id: c,
                completed: cm,
                id: i,
                is_in_progress: p,
                action_type: t.clone(),
            },
        ),
        _ => None,
    }
}

/// One turn's worth of actions.
pub open spec fn inner_actions_of(a: Seq<JsonValue>) -> Option<Seq<ActionV>>
    decreases a.len(),
{
    if a.len() == 0 {
        Some(Seq::empty())
    } else {
        match (action_of(a.first()), inner_actions_of(a.drop_first())) {
            (Some(x), Some(rest)) => Some(seq![x] + rest),
            _ => None,
        }
    }
}

fn read_inner_actions(a: &Vec<JsonValue>) -> (r: Option<Vec<Action>>)
    ensures
        match r {
            Some(xs) => inner_actions_of(a@) == Some(xs@.map_values(|x: Action| x@)),
            None => inner_actions_of(a@) is None,
        },
{
    let n = a.len();
    let mut out: Vec<Action> = Vec::new();
    let mut i: usize = 0;
    proof {
        assert(a@.skip(0) =~= a@);
        assert(out@.map_values(|x: Action| x@) =~= Seq::<ActionV>::empty());
    }
    while i < n
        invariant
            0 <= i <= n == a@.len(),
            match inner_actions_of(a@.skip(i as int)) {
                Some(rest) => inner_actions_of(a@) == Some(
                    out@.map_values(|x: Action| x@) + rest,
                ),
                None => inner_actions_of(a@) is None,
            },
        decreases n - i,
    {
        proof {
            assert(a@.skip(i as int).first() == a@[i as int]);
            assert(a@.skip(i as int).drop_first() =~= a@.skip(i + 1));
        }
        match read_action(&a[i]) {
            Some(x) => {
                let ghost before = out@;
                out.push(x);
                proof {
                    assert(out@.map_values(|y: Action| y@) =~= before.map_values(
                        |y: Action| y@,
                    ).push(x@));
                    if inner_actions_of(a@.skip(i + 1)) is Some {
                        assert(before.map_values(|y: Action| y@) + (seq![x@]
                            + inner_actions_of(a@.skip(i + 1)).unwrap()) =~= out@.map_values(
                            |y: Action| y@,
                        ) + inner_actions_of(a@.skip(i + 1)).unwrap());
                    }
                }
            },
            None => {
                return None;
            },
        }
        i = i + 1;
    }
    proof {
        assert(a@.skip(n as int) =~= Seq::<JsonValue>::empty());
        assert(out@.map_values(|x: Action| x@) + Seq::<ActionV>::empty() =~= out@.map_values(
            |x: Action| x@,
        ));
    }
    Some(out)
}

/// Actions arrive as one array per simultaneous turn; they are flattened
/// to a single ordered sequence, and an empty outer array is an empty
/// result, not an error.
pub open spec fn actions_of(outer: Seq<JsonValue>) -> Option<Seq<ActionV>>
    decreases outer.len(),
{
    if outer.len() == 0 {
        Some(Seq::empty())
    } else {
        match outer.first() {
            JsonValue::Array(inner) => match (
                inner_actions_of(inner@),
                actions_of(outer.drop_first()),
            ) {
                (Some(xs), Some(rest)) => Some(xs + rest),
                _ => None,
            },
            _ => None,
        }
    }
}

pub fn read_actions(outer: &Vec<JsonValue>) -> (r: Option<Vec<Action>>)
    ensures
        match r {
            Some(xs) => actions_of(outer@) == Some(xs@.map_values(|x: Action| x@)),
            None => actions_of(outer@) is None,
        },
{
    let n = outer.len();
    let mut out: Vec<Action> = Vec::new();
    let mut i: usize = 0;
    proof {
        assert(outer@.skip(0) =~= outer@);
        assert(out@.map_values(|x: Action| x@) =~= Seq::<ActionV>::empty());
    }
    while i < n
        invariant
            0 <= i <= n == outer@.len(),
            match actions_of(outer@.skip(i as int)) {
                Some(rest) => actions_of(outer@) == Some(
                    out@.map_values(|x: Action| x@) + rest,
                ),
                None => actions_of(outer@) is None,
            },
        decreases n - i,
    {
        proof {
            assert(outer@.skip(i as int).first() == outer@[i as int]);
            assert(outer@.skip(i as int).drop_first() =~= outer@.skip(i + 1));
        }
        match &outer[i] {
            JsonValue::Array(inner) => {
                match read_inner_actions(inner) {
                    Some(mut xs) => {
                        let ghost before = out@;
                        let ghost xs_v = xs@;
                        out.append(&mut xs);
                        proof {
                            assert(out@.map_values(|y: Action| y@) =~= before.map_values(
                                |y: Action| y@,
                            ) + xs_v.map_values(|y: Action| y@));
                            if actions_of(outer@.skip(i + 1)) is Some {
                                assert(before.map_values(|y: Action| y@) + (xs_v.map_values(
                                    |y: Action| y@,
                                ) + actions_of(outer@.skip(i + 1)).unwrap())
                                    =~= out@.map_values(|y: Action| y@) + actions_of(
                                    outer@.skip(i + 1),
                                ).unwrap());
                            }
                        }
                    },
                    None => {
                        return None;
                    },
                }
            },
            _ => {
                return None;
            },
        }
        i = i + 1;
    }
    proof {
        assert(outer@.skip(n as int) =~= Seq::<JsonValue>::empty());
        assert(out@.map_values(|x: Action| x@) + Seq::<ActionV>::empty() =~= out@.map_values(
            |x: Action| x@,
        ));
    }
    Some(out)
}

/// The game-flow session payload: phase, game data with both rosters,
/// and the map block.
pub open spec fn gameflow_of(p: JsonValue) -> Option<GameFlowSessionV> {
    match json_get(p, "data"@) {
        Some(d) => match (get_str(d, "phase"@), json_get(d, "gameData"@), json_get(d, "map"@)) {
            (Some(ph), Some(gd), Some(m)) => match (
                get_u64(gd, "gameId"@),
                get_arr(gd, "teamOne"@),
                get_arr(gd, "teamTwo"@),
                get_str(m, "gameMode"@),
                get_str(m, "name"@),
            ) {
                (Some(gid), Some(a1), Some(a2), Some(mode), Some(nm)) => match (
                    players_of(a1),
                    players_of(a2),
                ) {
                    (Some(t1), Some(t2)) => Some(
                        GameFlowSessionV {
                            phase: phase_of_str(ph),
                            game_data: GameFlowGameDataV {
                                game_id: gid,
                                team_one: t1,
                                team_two: t2,
                            },
                            map: GameMapV { game_mode: mode, name: nm },
                        },
                    ),
                    _ => None,
                },
                _ => None,
            },
            _ => None,
        },
        None => None,
    }
}

pub fn read_gameflow(p: &JsonValue) -> (r: Option<GameFlowSession>)
    ensures
        match r {
            Some(s) => gameflow_of(*p) == Some(s@),
            None => gameflow_of(*p) is None,
        },
{
    let d = match p.get("data") {
        Some(d) => d,
        None => {
            return None;
        },
    };
    let ph = match read_str(d, "phase") {
        Some(s) => s.as_str(),
        None => {
            return None;
        },
    };
    let gd = match d.get("gameData") {
        Some(x) => x,
        None => {
            return None;
        },
    };
    let m = match d.get("map") {
        Some(x) => x,
        None => {
            return None;
        },
    };
    let gid = match read_u64(gd, "gameId") {
        Some(x) => x,
        None => {
            return None;
        },
    };
    let a1 = match read_arr(gd, "teamOne") {
        Some(x) => x,
        None => {
            return None;
        },
    };
    let a2 = match read_arr(gd, "teamTwo") {
        Some(x) => x,
        None => {
            return None;
        },
    };
    let mode = match read_str(m, "gameMode") {
        Some(x) => x,
        None => {
            return None;
        },
    };
    let nm = match read_str(m, "name") {
        Some(x) => x,
        None => {
            return None;
        },
    };
    let t1 = match read_players(a1) {
        Some(x) => x,
        None => {
            return None;
        },
    };
    let t2 = match read_players(a2) {
        Some(x) => x,
        None => {
            return None;
        },
    };
    Some(
        GameFlowSession {
            phase: parse_phase(ph),
            game_data: GameFlowGameData { game_id: gid, team_one: t1, team_two: t2 },
            map: GameMap { game_mode: mode.clone(), name: nm.clone() },
        },
    )
}

/// The champ-select session payload.
pub open spec fn champ_select_of(p: JsonValue) -> Option<ChampSelectDataV> {
    match json_get(p, "data"@) {
        Some(d) => match (
            get_arr(d, "benchChampions"@),
            get_bool(d, "benchEnabled"@),
            get_arr(d, "actions"@),
            get_u8(d, "localPlayerCellId"@),
            get_str(d, "id"@),
            get_arr(d, "myTeam"@),
        ) {
            (Some(ba), Some(be), Some(aa), Some(cell), Some(id), Some(ta)) => match (
                bench_ids_of(ba),
                actions_of(aa),
                players_of(ta),
            ) {
                (Some(bench), Some(acts), Some(team)) => Some(
                    ChampSelectDataV {
                        bench_champions: bench,
                        bench_enabled: be,
                        actions: acts,
                        local_player_cell_id: cell,
                        id: id,
                        my_team: team,
                    },
                ),
                _ => None,
            },
            _ => None,
        },
        None => None,
    }
}

pub fn read_champ_select(p: &JsonValue) -> (r: Option<ChampSelectData>)
    ensures
        match r {
            Some(s) => champ_select_of(*p) == Some(s@),
            None => champ_select_of(*p) is None,
        },
{
    let d = match p.get("data") {
        Some(d) => d,
        None => {
            return None;
        },
    };
    let ba = match read_arr(d, "benchChampions") {
        Some(x) => x,
        None => {
            return None;
        },
    };
    let be = match read_bool(d, "benchEnabled") {
        Some(x) => x,
        None => {
            return None;
        },
    };
    let aa = match read_arr(d, "actions") {
        Some(x) => x,
        None => {
            return None;
        },
    };
    let cell = match read_u8(d, "localPlayerCellId") {
        Some(x) => x,
        None => {
            return None;
        },
    };
    let id = match read_str(d, "id") {
        Some(x) => x,
        None => {
            return None;
        },
    };
    let ta = match read_arr(d, "myTeam") {
        Some(x) => x,
        None => {
            return None;
        },
    };
    let bench = match read_bench_ids(ba) {
        Some(x) => x,
        None => {
            return None;
        },
    };
    let acts = match read_actions(aa) {
        Some(x) => x,
        None => {
            return None;
        },
    };
    let team = match read_players(ta) {
        Some(x) => x,
        None => {
            return None;
        },
    };
    Some(
        ChampSelectData {
            bench_champions: bench,
            bench_enabled: be,
            actions: acts,
            local_player_cell_id: cell,
            id: id.clone(),
            my_team: team,
        },
    )
}

/// A ready check block: the player's response, with the timer checked
/// for presence and dropped.
pub open spec fn ready_check_of(v: JsonValue) -> Option<MatchMakingReadyCheck> {
    match get_str(v, "playerResponse"@) {
        Some(s) => match response_of_str(s) {
            Some(pr) => if crate::json::has_number(v, "timer"@) {
                Some(MatchMakingReadyCheck { player_response: pr })
            } else {
                None
            },
            None => None,
        },
        None => None,
    }
}

pub fn read_ready_check(v: &JsonValue) -> (r: Option<MatchMakingReadyCheck>)
    ensures
        r == ready_check_of(*v),
{
    let pr = match read_str(v, "playerResponse") {
        Some(s) => match parse_response(s.as_str()) {
            Some(pr) => pr,
            None => {
                return None;
            },
        },
        None => {
            return None;
        },
    };
    if read_has_number(v, "timer") {
        Some(MatchMakingReadyCheck { player_response: pr })
    } else {
        None
    }
}

/// The data of a ready-check event: absent or null means no check is
/// pending, anything else must be a well-formed ready check block.
pub open spec fn ready_check_data_of(p: JsonValue) -> Option<Option<MatchMakingReadyCheck>> {
    match json_get(p, "data"@) {
        None => Some(None),
        Some(JsonValue::Null) => Some(None),
        Some(d) => match ready_check_of(d) {
            Some(rc) => Some(Some(rc)),
            None => None,
        },
    }
}

pub fn read_ready_check_data(p: &JsonValue) -> (r: Option<Option<MatchMakingReadyCheck>>)
    ensures
        r == ready_check_data_of(*p),
{
    match p.get("data") {
        None => Some(None),
        Some(d) => match d {
            JsonValue::Null => Some(None),
            _ => match read_ready_check(d) {
                Some(rc) => Some(Some(rc)),
                None => None,
            },
        },
    }
}

/// The lobby matchmaking block.
pub open spec fn matchmaking_of(v: JsonValue) -> Option<MatchMakingV> {
    match (get_u16(v, "queueId"@), get_str(v, "searchState"@), json_get(v, "readyCheck"@)) {
        (Some(q), Some(st), Some(rcv)) => match ready_check_of(rcv) {
            Some(rc) => Some(MatchMakingV { queue_id: q, search_state: st, ready_check: rc }),
            None => None,
        },
        _ => None,
    }
}

pub fn read_matchmaking(v: &JsonValue) -> (r: Option<MatchMaking>)
    ensures
        match r {
            Some(m) => matchmaking_of(*v) == Some(m@),
            None => matchmaking_of(*v) is None,
        },
{
    let q = match read_u16(v, "queueId") {
        Some(x) => x,
        None => {
            return None;
        },
    };
    let st = match read_str(v, "searchState") {
        Some(x) => x,
        None => {
            return None;
        },
    };
    let rcv = match v.get("readyCheck") {
        Some(x) => x,
        None => {
            return None;
        },
    };
    let rc = match read_ready_check(rcv) {
        Some(x) => x,
        None => {
            return None;
        },
    };
    Some(MatchMaking { queue_id: q, search_state: st.clone(), ready_check: rc })
}

/// The data of a lobby matchmaking event, absent or null meaning none.
pub open spec fn lobby_data_of(p: JsonValue) -> Option<Option<MatchMakingV>> {
    match json_get(p, "data"@) {
        None => Some(None),
        Some(JsonValue::Null) => Some(None),
        Some(d) => match matchmaking_of(d) {
            Some(m) => Some(Some(m)),
            None => None,
        },
    }
}

pub fn read_lobby_data(p: &JsonValue) -> (r: Option<Option<MatchMaking>>)
    ensures
        match r {
            Some(Some(m)) => lobby_data_of(*p) == Some(Some(m@)),
            Some(None) => lobby_data_of(*p) == Some(None::<MatchMakingV>),
            None => lobby_data_of(*p) is None,
        },
{
    match p.get("data") {
        None => Some(None),
        Some(d) => match d {
            JsonValue::Null => Some(None),
            _ => match read_matchmaking(d) {
                Some(m) => Some(Some(m)),
                None => None,
            },
        },
    }
}

/// The heuristic that identifies a champ-select lobby chat URI: after the
/// conversations prefix, a conversation id ending in the champ-select
/// domain, then a messages segment with something after it. `m` is the
/// index where the id ends.
pub open spec fn chat_cond(u: Seq<char>, m: int) -> bool {
    &&& is_prefix_of("/lol-chat/v1/conversations/"@, u)
    &&& "/lol-chat/v1/conversations/"@.len() + "lol-champ-select.pvp.net"@.len() < m
    &&& m < u.len()
    &&& u.len() - m > "/messages/"@.len()
    &&& u.subrange(m, m + "/messages/"@.len() as int) == "/messages/"@
    &&& is_suffix_of(
        "lol-champ-select.pvp.net"@,
        u.subrange("/lol-chat/v1/conversations/"@.len() as int, m),
    )
}

/// The largest id end that satisfies the pattern, scanning down from `m`:
/// the greedy capture of the URI matcher.
pub open spec fn chat_split_from(u: Seq<char>, m: int) -> Option<int>
    decreases m,
{
    if m < "/lol-chat/v1/conversations/"@.len() + "lol-champ-select.pvp.net"@.len() + 1 {
        None
    } else if chat_cond(u, m) {
        Some(m)
    } else {
        chat_split_from(u, m - 1)
    }
}

/// Where the conversation id of a champ-select lobby chat URI ends, if
/// the URI matches the pattern at all.
pub open spec fn chat_split(u: Seq<char>) -> Option<int> {
    if u.len() > "/messages/"@.len() {
        chat_split_from(u, u.len() - "/messages/"@.len() - 1)
    } else {
        None
    }
}

proof fn lemma_chat_split_props(u: Seq<char>, m0: int)
    ensures
        match chat_split_from(u, m0) {
            Some(m) => chat_cond(u, m) && m <= m0,
            None => true,
        },
    decreases m0,
{
    if m0 >= "/lol-chat/v1/conversations/"@.len() + "lol-champ-select.pvp.net"@.len() + 1
        && !chat_cond(u, m0) {
        lemma_chat_split_props(u, m0 - 1);
    }
}

fn chat_cond_exec(u: &str, m: usize) -> (r: bool)
    requires
        m <= u@.len(),
    ensures
        r == chat_cond(u@, m as int),
{
    proof {
        reveal_strlit("/lol-chat/v1/conversations/");
        reveal_strlit("lol-champ-select.pvp.net");
        reveal_strlit("/messages/");
    }
    let pre_len = "/lol-chat/v1/conversations/".unicode_len();
    let suf_len = "lol-champ-select.pvp.net".unicode_len();
    let msg_len = "/messages/".unicode_len();
    let n = u.unicode_len();
    if !starts_with(u, "/lol-chat/v1/conversations/") {
        return false;
    }
    if m <= pre_len + suf_len {
        return false;
    }
    if m >= n || n - m <= msg_len {
        return false;
    }
    let mseg = u.substring_char(m, m + msg_len);
    if !str_eq(mseg, "/messages/") {
        return false;
    }
    let cap = u.substring_char(pre_len, m);
    ends_with(cap, "lol-champ-select.pvp.net")
}

pub fn find_chat_split(u: &str) -> (r: Option<usize>)
    ensures
        match r {
            Some(m) => chat_split(u@) == Some(m as int),
            None => chat_split(u@) is None,
        },
{
    proof {
        reveal_strlit("/lol-chat/v1/conversations/");
        reveal_strlit("lol-champ-select.pvp.net");
        reveal_strlit("/messages/");
    }
    let pre_len = "/lol-chat/v1/conversations/".unicode_len();
    let suf_len = "lol-champ-select.pvp.net".unicode_len();
    let msg_len = "/messages/".unicode_len();
    let n = u.unicode_len();
    if n <= msg_len {
        return None;
    }
    let mut m: usize = n - msg_len - 1;
    loop
        invariant
            m <= u@.len(),
            chat_split(u@) == chat_split_from(u@, m as int),
            "/lol-chat/v1/conversations/"@.len() == pre_len,
            "lol-champ-select.pvp.net"@.len() == suf_len,
            "/messages/"@.len() == msg_len,
            pre_len == 27,
            suf_len == 24,
            msg_len == 10,
        decreases m,
    {
        if m <= pre_len + suf_len {
            return None;
        }
        if chat_cond_exec(u, m) {
            return Some(m);
        }
        proof {
            assert(chat_split_from(u@, m as int) == chat_split_from(u@, m as int - 1));
        }
        m = m - 1;
    }
}

/// A chat conversation event: a URI matching the champ-select lobby
/// pattern, a `Create` event type, and a system-type joined-room message
/// body. Anything else on the chat endpoint is silently dropped rather
/// than forwarded.
pub open spec fn chat_of(p: JsonValue) -> Option<ChatConversationV> {
    match get_str(p, "uri"@) {
        Some(u) => match chat_split(u) {
            Some(m) => if get_str(p, "eventType"@) == Some("Create"@) {
                match json_get(p, "data"@) {
                    Some(d) => match (
                        get_str(d, "body"@),
                        get_u64(d, "fromSummonerId"@),
                        get_str(d, "fromPuuid"@),
                        get_str(d, "type"@),
                    ) {
                        (Some(b), Some(fs), Some(fp), Some(mt)) => if message_type_of_str(mt)
                            == Some(MessageType::System) && b == "joined_room"@ {
                            Some(
                                ChatConversationV {
                                    conversation_id: u.subrange(
                                        "/lol-chat/v1/conversations/"@.len() as int,
                                        m,
                                    ),
                                    data: ChatMessageDataV {
                                        body: b,
                                        from_summoner_id: fs,
                                        from_puuid: fp,
                                        message_type: MessageType::System,
                                    },
                                },
                            )
                        } else {
                            None
                        },
                        _ => None,
                    },
                    None => None,
                }
            } else {
                None
            },
            None => None,
        },
        None => None,
    }
}

pub fn read_chat(p: &JsonValue) -> (r: Option<ChatConversation>)
    ensures
        match r {
            Some(c) => chat_of(*p) == Some(c@),
            None => chat_of(*p) is None,
        },
{
    let u = match read_str(p, "uri") {
        Some(s) => s,
        None => {
            return None;
        },
    };
    let us = u.as_str();
    let m = match find_chat_split(us) {
        Some(m) => m,
        None => {
            return None;
        },
    };
    proof {
        if u@.len() > "/messages/"@.len() {
            lemma_chat_split_props(u@, u@.len() - "/messages/"@.len() - 1);
        }
    }
    let et = match read_str(p, "eventType") {
        Some(s) => s,
        None => {
            return None;
        },
    };
    if !str_eq(et.as_str(), "Create") {
        return None;
    }
    let d = match p.get("data") {
        Some(d) => d,
        None => {
            return None;
        },
    };
    let b = match read_str(d, "body") {
        Some(x) => x,
        None => {
            return None;
        },
    };
    let fs = match read_u64(d, "fromSummonerId") {
        Some(x) => x,
        None => {
            return None;
        },
    };
    let fp = match read_str(d, "fromPuuid") {
        Some(x) => x,
        None => {
            return None;
        },
    };
    let mt = match read_str(d, "type") {
        Some(x) => match parse_message_type(x.as_str()) {
            Some(MessageType::System) => MessageType::System,
            _ => {
                return None;
            },
        },
        None => {
            return None;
        },
    };
    if !str_eq(b.as_str(), "joined_room") {
        return None;
    }
    proof {
        reveal_strlit("/lol-chat/v1/conversations/");
    }
    let pre_len = "/lol-chat/v1/conversations/".unicode_len();
    let cid = us.substring_char(pre_len, m);
    Some(
        ChatConversation {
            conversation_id: cid.to_owned(),
            data: ChatMessageData {
                body: b.clone(),
                from_summoner_id: fs,
                from_puuid: fp.clone(),
                message_type: mt,
            },
        },
    )
}

/// Structural dispatch on the payload's `uri` discriminator. A payload
/// with no usable discriminator, or whose shape does not match its
/// endpoint, decodes to `Other` and never fails.
pub open spec fn decode_event(p: JsonValue) -> EventV {
    match get_str(p, "uri"@) {
        Some(u) => if u == "/lol-gameflow/v1/session"@ {
            match (event_type_of(p), gameflow_of(p)) {
                (Some(et), Some(d)) => EventV::GameFlowSession { event_type: et, data: d },
                _ => EventV::Other(p),
            }
        } else if u == "/lol-matchmaking/v1/ready-check"@ {
            match (event_type_of(p), ready_check_data_of(p)) {
                (Some(et), Some(d)) => EventV::MatchmakingReadyCheck {
                    event_type: et,
                    data: d,
                },
                _ => EventV::Other(p),
            }
        } else if u == "/lol-lobby-team-builder/v1/matchmaking"@ {
            match (event_type_of(p), lobby_data_of(p)) {
                (Some(et), Some(d)) => EventV::LobbyTeamBuilderMatchmaking {
                    event_type: et,
                    data: d,
                },
                _ => EventV::Other(p),
            }
        } else if u == "/lol-champ-select/v1/session"@ {
            match (event_type_of(p), champ_select_of(p)) {
                (Some(et), Some(d)) => EventV::ChampSelectSession { event_type: et, data: d },
                _ => EventV::Other(p),
            }
        } else if u == "/lol-lobby-team-builder/champ-select/v1/current-champion"@ {
            match (event_type_of(p), get_u16(p, "data"@)) {
                (Some(et), Some(c)) => EventV::CurrentChampion { event_type: et, data: c },
                _ => EventV::Other(p),
            }
        } else if u == "/lol-lobby-team-builder/champ-select/v1/subset-champion-list"@ {
            match (event_type_of(p), get_arr(p, "data"@)) {
                (Some(et), Some(a)) => match u16s_of(a) {
                    Some(ids) => EventV::SubsetChampionList { event_type: et, data: ids },
                    None => EventV::Other(p),
                },
                _ => EventV::Other(p),
            }
        } else {
            match chat_of(p) {
                Some(c) => EventV::ChatConversation(c),
                None => EventV::Other(p),
            }
        },
        None => EventV::Other(p),
    }
}

/// Decode one frame payload into a typed event.
pub fn decode_payload(p: JsonValue) -> (r: Event)
    ensures
        r@ == decode_event(p),
{
    let uri_s: Option<String> = match read_str(&p, "uri") {
        Some(s) => Some(s.clone()),
        None => None,
    };
    match uri_s {
        None => Event::Other(p),
        Some(u) => {
            let us = u.as_str();
            if str_eq(us, "/lol-gameflow/v1/session") {
                let et = read_event_type(&p);
                let d = read_gameflow(&p);
                match (et, d) {
                    (Some(e), Some(dd)) => Event::GameFlowSession { event_type: e, data: dd },
                    _ => Event::Other(p),
                }
            } else if str_eq(us, "/lol-matchmaking/v1/ready-check") {
                let et = read_event_type(&p);
                let d = read_ready_check_data(&p);
                match (et, d) {
                    (Some(e), Some(dd)) => Event::MatchmakingReadyCheck {
                        event_type: e,
                        data: dd,
                    },
                    _ => Event::Other(p),
                }
            } else if str_eq(us, "/lol-lobby-team-builder/v1/matchmaking") {
                let et = read_event_type(&p);
                let d = read_lobby_data(&p);
                match (et, d) {
                    (Some(e), Some(dd)) => Event::LobbyTeamBuilderMatchmaking {
                        event_type: e,
                        data: dd,
                    },
                    _ => Event::Other(p),
                }
            } else if str_eq(us, "/lol-champ-select/v1/session") {
                let et = read_event_type(&p);
                let d = read_champ_select(&p);
                match (et, d) {
                    (Some(e), Some(dd)) => Event::ChampSelectSession {
                        event_type: e,
                        data: dd,
                    },
                    _ => Event::Other(p),
                }
            } else if str_eq(us, "/lol-lobby-team-builder/champ-select/v1/current-champion") {
                let et = read_event_type(&p);
                let d = read_u16(&p, "data");
                match (et, d) {
                    (Some(e), Some(c)) => Event::CurrentChampion { event_type: e, data: c },
                    _ => Event::Other(p),
                }
            } else if str_eq(us, "/lol-lobby-team-builder/champ-select/v1/subset-champion-list")
                 {
                let et = read_event_type(&p);
                let ids = match read_arr(&p, "data") {
                    Some(a) => read_u16s(a),
                    None => None,
                };
                match (et, ids) {
                    (Some(e), Some(v)) => Event::SubsetChampionList { event_type: e, data: v },
                    _ => Event::Other(p),
                }
            } else {
                match read_chat(&p) {
                    Some(c) => Event::ChatConversation(c),
                    None => Event::Other(p),
                }
            }
        },
    }
}

/// The payload of a well-formed frame: a three-element array of a small
/// numeric opcode, a string tag, and the payload itself.
pub open spec fn frame_payload(v: JsonValue) -> Option<JsonValue> {
    match v {
        JsonValue::Array(elems) => if elems@.len() == 3 && (match int_val(elems@[0]) {
            Some(c) => 0 <= c <= 255,
            None => false,
        }) && elems@[1] is Str {
            Some(elems@[2])
        } else {
            None
        },
        _ => None,
    }
}

/// What decoding a whole frame text yields: a decode error exactly when
/// the text is not valid JSON or not a well-formed frame triple.
pub open spec fn decode_frame_spec(s: Seq<char>) -> Result<EventV, HelperError> {
    match json_of(s) {
        Some(v) => match frame_payload(v) {
            Some(p) => Ok(decode_event(p)),
            None => Err(HelperError::DecodeError),
        },
        None => Err(HelperError::DecodeError),
    }
}

/// Decoding never fails on content: a payload without a usable `uri`
/// discriminator decodes to `Other`, as does one whose discriminator is
/// known but whose shape is not; only text that is not valid structured
/// data is a decode error, and it is exactly one error for that frame.
pub proof fn lemma_decode_robustness(s: Seq<char>, p: JsonValue)
    ensures
        json_of(s) is None ==> decode_frame_spec(s) == Err::<EventV, HelperError>(
            HelperError::DecodeError,
        ),
        get_str(p, "uri"@) is None ==> decode_event(p) == EventV::Other(p),
        decode_frame_spec(s) is Err ==> decode_frame_spec(s) == Err::<EventV, HelperError>(
            HelperError::DecodeError,
        ),
{
}

/// Decode one inbound frame. Only text that is not valid structured data
/// is an error; an unknown payload decodes to `Other`.
pub fn decode_frame(text: &str) -> (r: Result<Event, HelperError>)
    ensures
        ({
            let s = decode_frame_spec(text@);
            match r {
                Ok(ev) => s == Ok::<EventV, HelperError>(ev@),
                Err(e) => s == Err::<EventV, HelperError>(e),
            }
        }),
{
    let v = match parse_json(text) {
        Some(v) => v,
        None => {
            return Err(HelperError::DecodeError);
        },
    };
    match v {
        JsonValue::Array(mut elems) => {
            if elems.len() == 3 {
                let code_ok = match elems[0].as_u64() {
                    Some(c) => c <= 255,
                    None => false,
                };
                let tag_ok = match &elems[1] {
                    JsonValue::Str(_) => true,
                    _ => false,
                };
                if code_ok && tag_ok {
                    let p = match elems.pop() {
                        Some(p) => p,
                        None => {
                            return Err(HelperError::DecodeError);
                        },
                    };
                    Ok(decode_payload(p))
                } else {
                    Err(HelperError::DecodeError)
                }
            } else {
                Err(HelperError::DecodeError)
            }
        },
        _ => Err(HelperError::DecodeError),
    }
}

} // verus!
