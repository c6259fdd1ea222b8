//! The frame handler: decodes one inbound frame, applies its store
//! transition, and plans the engines' outbound work. The caller performs
//! the planned calls and commits the corresponding latches; a single bad
//! frame yields one decode error and changes nothing.
use vstd::prelude::*;
use vstd::string::*;

use crate::analysis::{analysis_plan_spec, AnalysisPlan, AnalysisPlanV};
use crate::champ_select::{pick_plan_spec, PickAttempt, PickAttemptV};
use crate::context::{HelperContext, HelperContextV};
use crate::decode::{decode_frame, decode_frame_spec};
use crate::errors::HelperError;
use crate::event::{
    ChampSelectDataV, ChampSelectPlayer, ChatConversationV, Event, EventType, EventV,
};
use crate::game_flow::gf_step;
use crate::matchmaking::{accept_decision, AcceptPlan};
use crate::text::str_eq;

verus! {

/// Everything one frame asks the caller to do: at most one accept, at
/// most one analysis round, and a list of pick attempts to try in order.
pub struct HandlerOutput {
    pub accept: Option<AcceptPlan>,
    pub analysis: Option<AnalysisPlan>,
    pub pick: Vec<PickAttempt>,
}

/// What a champ-select event makes of the store: the roster is taken
/// once, when the store has none and the event brings one.
pub open spec fn cs_store_step(m: HelperContextV, d: ChampSelectDataV) -> HelperContextV {
    if m.my_team.len() == 0 && d.my_team.len() > 0 {
        HelperContextV { my_team: d.my_team, ..m }
    } else {
        m
    }
}

/// What a chat event makes of the store: a new conversation id replaces
/// the old one and clears the per-conversation analysis latch.
pub open spec fn chat_store_step(m: HelperContextV, c: ChatConversationV) -> HelperContextV {
    if c.conversation_id != m.conversation_id {
        HelperContextV {
            conversation_id: c.conversation_id,
            analysis_sent_flag: false,
            ..m
        }
    } else {
        m
    }
}

/// The store transition of one decoded event.
pub open spec fn handle_step(m: HelperContextV, e: EventV) -> HelperContextV {
    match e {
        EventV::GameFlowSession { event_type: _, data } => gf_step(m, data),
        EventV::MatchmakingReadyCheck { event_type: _, data: _ } => m,
        EventV::LobbyTeamBuilderMatchmaking { event_type: _, data: _ } => m,
        EventV::ChampSelectSession { event_type: _, data } => cs_store_step(m, data),
        EventV::CurrentChampion { event_type, data } => if event_type == EventType::Create {
            HelperContextV { champion_id: data, ..m }
        } else {
            m
        },
        EventV::SubsetChampionList { event_type: _, data } => if m.subset_champion_list.len()
            == 0 {
            HelperContextV { subset_champion_list: data, ..m }
        } else {
            m
        },
        EventV::ChatConversation(c) => chat_store_step(m, c),
        EventV::Other(_) => m,
    }
}

/// The accept the event calls for, if any.
pub open spec fn handle_accept(m: HelperContextV, e: EventV) -> Option<u8> {
    match e {
        EventV::MatchmakingReadyCheck { event_type: _, data } => accept_decision(m, data),
        _ => None,
    }
}

/// The analysis round the event calls for, if any: a champ-select update
/// triggers it outright, and so does a chat join — the decoder forwards
/// a chat event only for a system joined-room message.
pub open spec fn handle_analysis(m: HelperContextV, e: EventV) -> Option<AnalysisPlanV> {
    match e {
        EventV::ChampSelectSession { event_type: _, data } => analysis_plan_spec(
            cs_store_step(m, data),
        ),
        EventV::ChatConversation(c) => analysis_plan_spec(chat_store_step(m, c)),
        _ => None,
    }
}

/// The pick attempts the event calls for.
pub open spec fn handle_pick(m: HelperContextV, e: EventV) -> Seq<PickAttemptV> {
    match e {
        EventV::ChampSelectSession { event_type: _, data } => pick_plan_spec(
            cs_store_step(m, data),
            data,
        ),
        _ => Seq::empty(),
    }
}

fn clone_players(v: &Vec<ChampSelectPlayer>) -> (r: Vec<ChampSelectPlayer>)
    ensures
        r@.map_values(|p: ChampSelectPlayer| p@) == v@.map_values(|p: ChampSelectPlayer| p@),
{
    let n = v.len();
    let mut out: Vec<ChampSelectPlayer> = Vec::new();
    let mut i: usize = 0;
    while i < n
        invariant
            0 <= i <= n == v@.len(),
            out@.len() == i,
            forall|j: int| 0 <= j < i ==> #[trigger] out@[j]@ == v@[j]@,
        decreases n - i,
    {
        let p = &v[i];
        out.push(
            ChampSelectPlayer {
                cell_id: p.cell_id,
                puuid: p.puuid.clone(),
                summoner_id: p.summoner_id,
                champion_id: p.champion_id,
            },
        );
        i = i + 1;
    }
    proof {
        assert(out@.map_values(|p: ChampSelectPlayer| p@) =~= v@.map_values(
            |p: ChampSelectPlayer| p@,
        ));
    }
    out
}

impl HelperContext {
    /// Consume one decoded event: apply its store transition and plan the
    /// engines' outbound work.
    pub fn handle_event(&mut self, event: Event) -> (r: HandlerOutput)
        ensures
            final(self)@ == handle_step(old(self)@, event@),
            match r.accept {
                Some(p) => handle_accept(old(self)@, event@) == Some(p.delay_seconds),
                None => handle_accept(old(self)@, event@) is None,
            },
            match r.analysis {
                Some(p) => handle_analysis(old(self)@, event@) == Some(p@),
                None => handle_analysis(old(self)@, event@) is None,
            },
            r.pick@.map_values(|a: PickAttempt| a@) == handle_pick(old(self)@, event@),
    {
        let mut out = HandlerOutput { accept: None, analysis: None, pick: Vec::new() };
        proof {
            assert(out.pick@.map_values(|a: PickAttempt| a@) =~= Seq::<PickAttemptV>::empty());
        }
        match event {
            Event::GameFlowSession { event_type: _, data } => {
                self.apply_game_flow(data);
            },
            Event::MatchmakingReadyCheck { event_type: _, data } => {
                out.accept = self.on_ready_check(&data);
            },
            Event::LobbyTeamBuilderMatchmaking { event_type: _, data: _ } => {},
            Event::ChampSelectSession { event_type: _, data } => {
                if self.my_team.len() == 0 && data.my_team.len() > 0 {
                    self.my_team = clone_players(&data.my_team);
                    proof {
                        assert(self@ =~= cs_store_step(old(self)@, data@));
                    }
                }
                out.analysis = self.analysis_plan();
                out.pick = self.auto_pick_attempts(&data);
            },
            Event::CurrentChampion { event_type, data } => {
                if event_type == EventType::Create {
                    self.champion_id = data;
                    proof {
                        assert(self@ =~= (HelperContextV {
                            champion_id: data,
                            ..old(self)@
                        }));
                    }
                }
            },
            Event::SubsetChampionList { event_type: _, data } => {
                if self.subset_champion_list.len() == 0 {
                    self.subset_champion_list = data;
                    proof {
                        assert(self@ =~= (HelperContextV {
                            subset_champion_list: self.subset_champion_list@,
                            ..old(self)@
                        }));
                    }
                }
            },
            Event::ChatConversation(c) => {
                if !str_eq(self.conversation_id.as_str(), c.conversation_id.as_str()) {
                    self.conversation_id = c.conversation_id;
                    self.analysis_sent_flag = false;
                    proof {
                        assert(self@ =~= chat_store_step(old(self)@, (ChatConversationV {
                            conversation_id: self.conversation_id@,
                            data: c.data@,
                        })));
                    }
                }
                out.analysis = self.analysis_plan();
            },
            Event::Other(_) => {},
        }
        out
    }

    /// Consume one raw frame: an empty message is ignored, text that is
    /// not a well-formed frame is one decode error with nothing changed,
    /// and a decoded event is handled as `handle_event` says.
    pub fn handle_message(&mut self, text: &str) -> (r: Result<HandlerOutput, HelperError>)
        ensures
            text@.len() == 0 ==> *final(self) == *old(self) && (r matches Ok(out) && out.accept
                is None && out.analysis is None && out.pick@.len() == 0),
            text@.len() > 0 ==> match decode_frame_spec(text@) {
                Ok(ev) => {
                    &&& final(self)@ == handle_step(old(self)@, ev)
                    &&& r matches Ok(out) && ({
                        &&& match out.accept {
                            Some(p) => handle_accept(old(self)@, ev) == Some(p.delay_seconds),
                            None => handle_accept(old(self)@, ev) is None,
                        }
                        &&& match out.analysis {
                            Some(p) => handle_analysis(old(self)@, ev) == Some(p@),
                            None => handle_analysis(old(self)@, ev) is None,
                        }
                        &&& out.pick@.map_values(|a: PickAttempt| a@) == handle_pick(
                            old(self)@,
                            ev,
                        )
                    })
                },
                Err(e) => *final(self) == *old(self) && r == Err::<HandlerOutput, HelperError>(e),
            },
    {
        if text.unicode_len() == 0 {
            return Ok(HandlerOutput { accept: None, analysis: None, pick: Vec::new() });
        }
        match decode_frame(text) {
            Ok(event) => Ok(self.handle_event(event)),
            Err(e) => Err(e),
        }
    }
}

} // verus!
