//! The closed set of typed events the engine consumes, decoded from
//! inbound frames. Each carrier type has a mathematical model (its view)
//! over which the decoder's and the engines' contracts are stated.
use vstd::prelude::*;

use crate::json::JsonValue;

verus! {

#[derive(Debug, PartialEq, Eq, Structural, Clone, Copy)]
pub enum EventType {
    Update,
    Delete,
    Create,
}

/// The match-flow phase reported by the client. An unknown phase string
/// decodes to `Other` rather than failing.
#[derive(Debug, PartialEq, Eq, Structural, Clone, Copy)]
pub enum GamePhase {
    ChampSelect,
    GameStart,
    InProgress,
    Lobby,
    Matchmaking,
    /// No phase: the client is idle outside any match flow.
    NoPhase,
    PreEndOfGame,
    ReadyCheck,
    Other,
}

impl Default for GamePhase {
    fn default() -> (r: Self)
        ensures
            r == GamePhase::NoPhase,
    {
        GamePhase::NoPhase
    }
}

#[derive(Debug, PartialEq, Eq, Structural, Clone, Copy)]
pub enum MatchReadyResponse {
    Accepted,
    Declined,
    /// The player has not answered the ready check yet.
    NoResponse,
}

#[derive(Debug, PartialEq, Eq, Structural, Clone, Copy)]
pub enum MessageType {
    Chat,
    System,
}

pub struct ChampSelectPlayer {
    pub cell_id: u8,
    pub puuid: String,
    pub summoner_id: u64,
    pub champion_id: u16,
}

pub ghost struct ChampSelectPlayerV {
    pub cell_id: u8,
    pub puuid: Seq<char>,
    pub summoner_id: u64,
    pub champion_id: u16,
}

impl View for ChampSelectPlayer {
    type V = ChampSelectPlayerV;

    open spec fn view(&self) -> ChampSelectPlayerV {
        ChampSelectPlayerV {
            cell_id: self.cell_id,
            puuid: self.puuid@,
            summoner_id: self.summoner_id,
            champion_id: self.champion_id,
        }
    }
}

pub struct Action {
    pub actor_cell_id: u8,
    pub champion_id: u16,
    pub completed: bool,
    pub id: u8,
    pub is_in_progress: bool,
    pub action_type: String,
}

pub ghost struct ActionV {
    pub actor_cell_id: u8,
    pub champion_id: u16,
    pub completed: bool,
    pub id: u8,
    pub is_in_progress: bool,
    pub action_type: Seq<char>,
}

impl View for Action {
    type V = ActionV;

    open spec fn view(&self) -> ActionV {
        ActionV {
            actor_cell_id: self.actor_cell_id,
            champion_id: self.champion_id,
            completed: self.completed,
            id: self.id,
            is_in_progress: self.is_in_progress,
            action_type: self.action_type@,
        }
    }
}

pub struct ChampSelectData {
    pub bench_champions: Vec<u16>,
    pub bench_enabled: bool,
    pub actions: Vec<Action>,
    pub local_player_cell_id: u8,
    pub id: String,
    pub my_team: Vec<ChampSelectPlayer>,
}

pub ghost struct ChampSelectDataV {
    pub bench_champions: Seq<u16>,
    pub bench_enabled: bool,
    pub actions: Seq<ActionV>,
    pub local_player_cell_id: u8,
    pub id: Seq<char>,
    pub my_team: Seq<ChampSelectPlayerV>,
}

impl View for ChampSelectData {
    type V = ChampSelectDataV;

    open spec fn view(&self) -> ChampSelectDataV {
        ChampSelectDataV {
            bench_champions: self.bench_champions@,
            bench_enabled: self.bench_enabled,
            actions: self.actions@.map_values(|a: Action| a@),
            local_player_cell_id: self.local_player_cell_id,
            id: self.id@,
            my_team: self.my_team@.map_values(|p: ChampSelectPlayer| p@),
        }
    }
}

pub struct GameFlowGameData {
    pub game_id: u64,
    pub team_one: Vec<ChampSelectPlayer>,
    pub team_two: Vec<ChampSelectPlayer>,
}

pub ghost struct GameFlowGameDataV {
    pub game_id: u64,
    pub team_one: Seq<ChampSelectPlayerV>,
    pub team_two: Seq<ChampSelectPlayerV>,
}

impl View for GameFlowGameData {
    type V = GameFlowGameDataV;

    open spec fn view(&self) -> GameFlowGameDataV {
        GameFlowGameDataV {
            game_id: self.game_id,
            team_one: self.team_one@.map_values(|p: ChampSelectPlayer| p@),
            team_two: self.team_two@.map_values(|p: ChampSelectPlayer| p@),
        }
    }
}

/// The map block of a game-flow session; only the mode drives decisions.
pub struct GameMap {
    pub game_mode: String,
    pub name: String,
}

pub ghost struct GameMapV {
    pub game_mode: Seq<char>,
    pub name: Seq<char>,
}

impl View for GameMap {
    type V = GameMapV;

    open spec fn view(&self) -> GameMapV {
        GameMapV { game_mode: self.game_mode@, name: self.name@ }
    }
}

pub struct GameFlowSession {
    pub phase: GamePhase,
    pub game_data: GameFlowGameData,
    pub map: GameMap,
}

pub ghost struct GameFlowSessionV {
    pub phase: GamePhase,
    pub game_data: GameFlowGameDataV,
    pub map: GameMapV,
}

impl View for GameFlowSession {
    type V = GameFlowSessionV;

    open spec fn view(&self) -> GameFlowSessionV {
        GameFlowSessionV { phase: self.phase, game_data: self.game_data@, map: self.map@ }
    }
}

/// A pending ready check. The feed also carries a timer; no engine reads
/// it, so the decoder checks its presence and drops it.
#[derive(Debug, PartialEq, Eq, Structural, Clone, Copy)]
pub struct MatchMakingReadyCheck {
    pub player_response: MatchReadyResponse,
}

impl View for MatchMakingReadyCheck {
    type V = MatchMakingReadyCheck;

    open spec fn view(&self) -> MatchMakingReadyCheck {
        *self
    }
}

pub struct MatchMaking {
    pub queue_id: u16,
    pub search_state: String,
    pub ready_check: MatchMakingReadyCheck,
}

pub ghost struct MatchMakingV {
    pub queue_id: u16,
    pub search_state: Seq<char>,
    pub ready_check: MatchMakingReadyCheck,
}

impl View for MatchMaking {
    type V = MatchMakingV;

    open spec fn view(&self) -> MatchMakingV {
        MatchMakingV {
            queue_id: self.queue_id,
            search_state: self.search_state@,
            ready_check: self.ready_check,
        }
    }
}

pub struct ChatMessageData {
    pub body: String,
    pub from_summoner_id: u64,
    pub from_puuid: String,
    pub message_type: MessageType,
}

pub ghost struct ChatMessageDataV {
    pub body: Seq<char>,
    pub from_summoner_id: u64,
    pub from_puuid: Seq<char>,
    pub message_type: MessageType,
}

impl View for ChatMessageData {
    type V = ChatMessageDataV;

    open spec fn view(&self) -> ChatMessageDataV {
        ChatMessageDataV {
            body: self.body@,
            from_summoner_id: self.from_summoner_id,
            from_puuid: self.from_puuid@,
            message_type: self.message_type,
        }
    }
}

/// A joined-room chat event forwarded to the analysis engine: the
/// decoder produces one only for a `Create`-typed match of the lobby
/// URI pattern carrying a system-type `joined_room` body.
pub struct ChatConversation {
    pub conversation_id: String,
    pub data: ChatMessageData,
}

pub ghost struct ChatConversationV {
    pub conversation_id: Seq<char>,
    pub data: ChatMessageDataV,
}

impl View for ChatConversation {
    type V = ChatConversationV;

    open spec fn view(&self) -> ChatConversationV {
        ChatConversationV { conversation_id: self.conversation_id@, data: self.data@ }
    }
}

/// One decoded inbound event, keyed by the endpoint it reports on.
pub enum Event {
    GameFlowSession { event_type: EventType, data: GameFlowSession },
    MatchmakingReadyCheck { event_type: EventType, data: Option<MatchMakingReadyCheck> },
    LobbyTeamBuilderMatchmaking { event_type: EventType, data: Option<MatchMaking> },
    ChampSelectSession { event_type: EventType, data: ChampSelectData },
    CurrentChampion { event_type: EventType, data: u16 },
    SubsetChampionList { event_type: EventType, data: Vec<u16> },
    ChatConversation(ChatConversation),
    /// Any payload that matches no known endpoint shape, kept raw.
    Other(JsonValue),
}

pub ghost enum EventV {
    GameFlowSession { event_type: EventType, data: GameFlowSessionV },
    MatchmakingReadyCheck { event_type: EventType, data: Option<MatchMakingReadyCheck> },
    LobbyTeamBuilderMatchmaking { event_type: EventType, data: Option<MatchMakingV> },
    ChampSelectSession { event_type: EventType, data: ChampSelectDataV },
    CurrentChampion { event_type: EventType, data: u16 },
    SubsetChampionList { event_type: EventType, data: Seq<u16> },
    ChatConversation(ChatConversationV),
    Other(JsonValue),
}

impl View for Event {
    type V = EventV;

    open spec fn view(&self) -> EventV {
        match self {
            Event::GameFlowSession { event_type, data } => EventV::GameFlowSession {
                event_type: *event_type,
                data: data@,
            },
            Event::MatchmakingReadyCheck { event_type, data } => EventV::MatchmakingReadyCheck {
                event_type: *event_type,
                data: match data {
                    Some(d) => Some(*d),
                    None => None,
                },
            },
            Event::LobbyTeamBuilderMatchmaking {
                event_type,
                data,
            } => EventV::LobbyTeamBuilderMatchmaking {
                event_type: *event_type,
                data: match data {
                    Some(d) => Some(d@),
                    None => None,
                },
            },
            Event::ChampSelectSession { event_type, data } => EventV::ChampSelectSession {
                event_type: *event_type,
                data: data@,
            },
            Event::CurrentChampion { event_type, data } => EventV::CurrentChampion {
                event_type: *event_type,
                data: *data,
            },
            Event::SubsetChampionList { event_type, data } => EventV::SubsetChampionList {
                event_type: *event_type,
                data: data@,
            },
            Event::ChatConversation(c) => EventV::ChatConversation(c@),
            Event::Other(v) => EventV::Other(*v),
        }
    }
}

} // verus!
