//! The game-flow state machine: phase-transition events drive the store.
//! A duplicate phase report is a no-op; entering Lobby or no phase fires
//! the full reset; re-entering Matchmaking clears the accept latch; the
//! new phase and game mode are stored on every real transition.
use vstd::prelude::*;

use crate::context::{reset_model, HelperContext, HelperContextV};
use crate::event::{GameFlowSession, GameFlowSessionV, GamePhase};

verus! {

/// What one game-flow event makes of the store.
pub open spec fn gf_step(m: HelperContextV, e: GameFlowSessionV) -> HelperContextV {
    if m.game_phase == e.phase {
        m
    } else {
        let base = if e.phase == GamePhase::Lobby || e.phase == GamePhase::NoPhase {
            reset_model(m)
        } else if e.phase == GamePhase::Matchmaking {
            HelperContextV { accepted: false, ..m }
        } else {
            m
        };
        HelperContextV { game_phase: e.phase, game_mode: e.map.game_mode, ..base }
    }
}

/// The store after a whole sequence of game-flow events.
pub open spec fn gf_run(m: HelperContextV, evs: Seq<GameFlowSessionV>) -> HelperContextV
    decreases evs.len(),
{
    if evs.len() == 0 {
        m
    } else {
        gf_step(gf_run(m, evs.drop_last()), evs.last())
    }
}

impl HelperContext {
    /// Consume one game-flow session event.
    pub fn apply_game_flow(&mut self, data: GameFlowSession)
        ensures
            final(self)@ == gf_step(old(self)@, data@),
    {
        if self.game_phase == data.phase {
            return;
        }
        match data.phase {
            GamePhase::Lobby | GamePhase::NoPhase => {
                self.reset();
            },
            GamePhase::Matchmaking => {
                if self.accepted {
                    self.accepted = false;
                }
                proof {
                    assert(self@ =~= (HelperContextV { accepted: false, ..old(self)@ }));
                }
            },
            _ => {},
        }
        self.game_phase = data.phase;
        self.game_mode = data.map.game_mode;
        proof {
            assert(self@ =~= gf_step(old(self)@, data@));
        }
    }
}

/// After any non-empty sequence of game-flow events, the store's phase is
/// the phase of the last event: the feed's last distinct report wins, and
/// suppressing duplicates never changes the stored phase.
pub proof fn lemma_phase_follows_feed(m: HelperContextV, evs: Seq<GameFlowSessionV>)
    requires
        evs.len() > 0,
    ensures
        gf_run(m, evs).game_phase == evs.last().phase,
    decreases evs.len(),
{
    if evs.len() > 1 {
        lemma_phase_follows_feed(m, evs.drop_last());
    }
}

/// One game-flow event fires the full reset exactly when it moves the
/// store into Lobby or no phase from a different phase; any other event
/// leaves the episode fields (roster, subset list, conversation, latches)
/// untouched.
pub proof fn lemma_reset_iff_entering_idle(m: HelperContextV, e: GameFlowSessionV)
    ensures
        (e.phase != m.game_phase && (e.phase == GamePhase::Lobby || e.phase
            == GamePhase::NoPhase)) ==> ({
            let n = gf_step(m, e);
            &&& n.champion_id == 0
            &&& n.my_team.len() == 0
            &&& n.subset_champion_list.len() == 0
            &&& n.conversation_id.len() == 0
            &&& !n.analysis_sent_flag
            &&& !n.accepted
            &&& n.game_mode == e.map.game_mode
        }),
        !(e.phase != m.game_phase && (e.phase == GamePhase::Lobby || e.phase
            == GamePhase::NoPhase)) ==> ({
            let n = gf_step(m, e);
            &&& n.champion_id == m.champion_id
            &&& n.my_team == m.my_team
            &&& n.subset_champion_list == m.subset_champion_list
            &&& n.conversation_id == m.conversation_id
            &&& n.analysis_sent_flag == m.analysis_sent_flag
            &&& n.picked == m.picked
        }),
{
}

/// Over a whole feed that never reports Lobby or no phase, the episode
/// fields survive every transition: only an entry into an idle phase can
/// clear them.
pub proof fn lemma_episode_fields_survive(m: HelperContextV, evs: Seq<GameFlowSessionV>)
    requires
        forall|k: int|
            0 <= k < evs.len() ==> (#[trigger] evs[k].phase) != GamePhase::Lobby && evs[k].phase
                != GamePhase::NoPhase,
    ensures
        gf_run(m, evs).champion_id == m.champion_id,
        gf_run(m, evs).my_team == m.my_team,
        gf_run(m, evs).subset_champion_list == m.subset_champion_list,
        gf_run(m, evs).conversation_id == m.conversation_id,
        gf_run(m, evs).analysis_sent_flag == m.analysis_sent_flag,
        gf_run(m, evs).picked == m.picked,
    decreases evs.len(),
{
    if evs.len() > 0 {
        lemma_episode_fields_survive(m, evs.drop_last());
    }
}

} // verus!
