//! The match-analysis and notify engine: when analysis is enabled, the
//! mode is known and not the objectless TFT mode, a conversation is known
//! and nothing was posted for it yet, plan one fetch-and-post per
//! teammate with a known player id. The caller performs the fetches and
//! posts, skipping failed teammates, and commits the latch at the end of
//! the roster.
use vstd::prelude::*;

use crate::context::{HelperContext, HelperContextV};
use crate::event::{ChampSelectPlayer, ChampSelectPlayerV};
use crate::text::str_eq;

verus! {

/// What one analysis round needs: the target conversation, the mode the
/// histories are filtered to, and the teammates to report on.
pub struct AnalysisPlan {
    pub conversation_id: String,
    pub game_mode: String,
    pub puuids: Vec<String>,
}

pub ghost struct AnalysisPlanV {
    pub conversation_id: Seq<char>,
    pub game_mode: Seq<char>,
    pub puuids: Seq<Seq<char>>,
}

impl View for AnalysisPlan {
    type V = AnalysisPlanV;

    open spec fn view(&self) -> AnalysisPlanV {
        AnalysisPlanV {
            conversation_id: self.conversation_id@,
            game_mode: self.game_mode@,
            puuids: self.puuids@.map_values(|s: String| s@),
        }
    }
}

/// The known player ids of a roster, in roster order.
pub open spec fn roster_puuids(team: Seq<ChampSelectPlayerV>) -> Seq<Seq<char>>
    decreases team.len(),
{
    if team.len() == 0 {
        Seq::empty()
    } else {
        (if team.first().puuid.len() > 0 {
            seq![team.first().puuid]
        } else {
            Seq::empty()
        }) + roster_puuids(team.drop_first())
    }
}

/// The preconditions of one analysis round.
pub open spec fn analysis_guard(m: HelperContextV) -> bool {
    &&& m.auto_send_analysis
    &&& m.game_mode.len() > 0
    &&& m.game_mode != "TFT"@
    &&& m.conversation_id.len() > 0
    &&& !m.analysis_sent_flag
}

/// The plan of one analysis round, or nothing when a precondition fails.
pub open spec fn analysis_plan_spec(m: HelperContextV) -> Option<AnalysisPlanV> {
    if analysis_guard(m) {
        Some(
            AnalysisPlanV {
                conversation_id: m.conversation_id,
                game_mode: m.game_mode,
                puuids: roster_puuids(m.my_team),
            },
        )
    } else {
        None
    }
}

impl HelperContext {
    /// Plan one analysis round over the current roster.
    pub fn analysis_plan(&self) -> (r: Option<AnalysisPlan>)
        ensures
            match r {
                Some(p) => analysis_plan_spec(self@) == Some(p@),
                None => analysis_plan_spec(self@) is None,
            },
    {
        if !self.auto_send_analysis || self.analysis_sent_flag {
            return None;
        }
        if self.game_mode.as_str().unicode_len() == 0 {
            return None;
        }
        if str_eq(self.game_mode.as_str(), "TFT") {
            return None;
        }
        if self.conversation_id.as_str().unicode_len() == 0 {
            return None;
        }
        let ghost teamv = self.my_team@.map_values(|p: ChampSelectPlayer| p@);
        let n = self.my_team.len();
        let mut puuids: Vec<String> = Vec::new();
        let mut i: usize = 0;
        proof {
            assert(teamv.skip(0) =~= teamv);
            assert(puuids@.map_values(|s: String| s@) =~= Seq::<Seq<char>>::empty());
        }
        while i < n
            invariant
                0 <= i <= n == self.my_team@.len(),
                teamv == self.my_team@.map_values(|p: ChampSelectPlayer| p@),
                puuids@.map_values(|s: String| s@) + roster_puuids(teamv.skip(i as int))
                    == roster_puuids(teamv),
            decreases n - i,
        {
            proof {
                assert(teamv.skip(i as int).first() == teamv[i as int]);
                assert(teamv.skip(i as int).drop_first() =~= teamv.skip(i + 1));
            }
            let p = &self.my_team[i];
            if p.puuid.as_str().unicode_len() > 0 {
                puuids.push(p.puuid.clone());
            }
            proof {
                assert(puuids@.map_values(|s: String| s@) + roster_puuids(teamv.skip(i + 1))
                    =~= roster_puuids(teamv));
            }
            i = i + 1;
        }
        proof {
            assert(teamv.skip(n as int) =~= Seq::<ChampSelectPlayerV>::empty());
            assert(puuids@.map_values(|s: String| s@) =~= roster_puuids(teamv));
        }
        Some(
            AnalysisPlan {
                conversation_id: self.conversation_id.clone(),
                game_mode: self.game_mode.clone(),
                puuids,
            },
        )
    }

    /// Latch the analysis for the current conversation once the roster
    /// has been walked (or immediately when it is empty).
    pub fn commit_analysis(&mut self)
        ensures
            final(self)@ == (HelperContextV { analysis_sent_flag: true, ..old(self)@ }),
    {
        self.analysis_sent_flag = true;
        proof {
            assert(self@ =~= (HelperContextV { analysis_sent_flag: true, ..old(self)@ }));
        }
    }
}

/// A round posts for exactly the roster's known players: every planned
/// id is non-empty, there is at most one per roster member (none when
/// the roster is empty), and each is some roster member's id.
pub proof fn lemma_roster_puuids_known(team: Seq<ChampSelectPlayerV>)
    ensures
        forall|j: int|
            0 <= j < roster_puuids(team).len() ==> #[trigger] roster_puuids(team)[j].len() > 0,
        roster_puuids(team).len() <= team.len(),
        forall|j: int|
            0 <= j < roster_puuids(team).len() ==> exists|k: int|
                0 <= k < team.len() && #[trigger] roster_puuids(team)[j] == team[k].puuid,
    decreases team.len(),
{
    if team.len() > 0 {
        lemma_roster_puuids_known(team.drop_first());
        let rest = roster_puuids(team.drop_first());
        assert forall|j: int| 0 <= j < roster_puuids(team).len() implies exists|k: int|
            0 <= k < team.len() && #[trigger] roster_puuids(team)[j] == team[k].puuid by {
            if team.first().puuid.len() > 0 && j == 0 {
                assert(roster_puuids(team)[0] == team[0].puuid);
            } else {
                let o = if team.first().puuid.len() > 0 {
                    1int
                } else {
                    0int
                };
                assert(roster_puuids(team)[j] == rest[j - o]);
                let k0 = choose|k0: int|
                    0 <= k0 < team.drop_first().len() && rest[j - o]
                        == team.drop_first()[k0].puuid;
                assert(roster_puuids(team)[j] == team[k0 + 1].puuid);
            }
        }
    }
}

/// Analysis posts at most once per conversation: with the latch set — in
/// particular right after a commit — a repeated triggering event plans
/// nothing, until a new conversation id clears the latch.
pub proof fn lemma_analysis_once(m: HelperContextV)
    ensures
        m.analysis_sent_flag ==> analysis_plan_spec(m) is None,
        analysis_plan_spec(HelperContextV { analysis_sent_flag: true, ..m }) is None,
{
}

} // verus!
