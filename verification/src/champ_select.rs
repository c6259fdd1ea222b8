//! The auto-pick engine: evaluates the priority-ordered selection against
//! the three mutually exclusive selection surfaces — the mode's subset
//! list, the bench, and the player's own in-progress pick action — and
//! plans the pick/swap calls in that fixed precedence. The caller issues
//! the calls in order and commits on the first success.
use vstd::prelude::*;

use crate::context::{ChampionV, HelperContext, HelperContextV};
use crate::event::{ActionV, ChampSelectData, ChampSelectDataV};
use crate::text::str_eq;

verus! {

/// Which command a pick attempt issues.
#[derive(Debug, PartialEq, Eq, Structural, Clone, Copy)]
pub enum PickCall {
    /// Complete the pick action with this id.
    Pick { action_id: u8 },
    /// Swap with the bench.
    Swap,
}

/// One planned attempt: the candidate, the call to make, and whether a
/// success records the champion into the store (the direct-pick path
/// only sets the latch).
pub struct PickAttempt {
    pub champion_id: u16,
    pub champion_name: String,
    pub call: PickCall,
    pub record_champion: bool,
}

pub ghost struct PickAttemptV {
    pub champion_id: u16,
    pub champion_name: Seq<char>,
    pub call: PickCall,
    pub record_champion: bool,
}

impl View for PickAttempt {
    type V = PickAttemptV;

    open spec fn view(&self) -> PickAttemptV {
        PickAttemptV {
            champion_id: self.champion_id,
            champion_name: self.champion_name@,
            call: self.call,
            record_champion: self.record_champion,
        }
    }
}

/// The engine only acts while it is enabled, nothing is picked yet, and
/// no champion is locked in.
pub open spec fn pick_guard(m: HelperContextV) -> bool {
    m.auto_pick.enabled && !m.picked && m.champion_id == 0
}

/// Subset-list path: each candidate that is a member of the subset, in
/// priority order, as a direct pick against the player's own slot.
pub open spec fn subset_attempts(sel: Seq<ChampionV>, subset: Seq<u16>, cell: u8) -> Seq<
    PickAttemptV,
>
    decreases sel.len(),
{
    if sel.len() == 0 {
        Seq::empty()
    } else {
        (if subset.contains(sel.first().id) {
            seq![
                PickAttemptV {
                    champion_id: sel.first().id,
                    champion_name: sel.first().name,
                    call: PickCall::Pick { action_id: cell },
                    record_champion: true,
                },
            ]
        } else {
            Seq::empty()
        }) + subset_attempts(sel.drop_first(), subset, cell)
    }
}

/// Bench-swap path: each candidate sitting on the bench, in priority
/// order, when bench swapping is enabled this session.
pub open spec fn bench_attempts(sel: Seq<ChampionV>, bench: Seq<u16>, enabled: bool) -> Seq<
    PickAttemptV,
>
    decreases sel.len(),
{
    if !enabled || sel.len() == 0 {
        Seq::empty()
    } else {
        (if bench.contains(sel.first().id) {
            seq![
                PickAttemptV {
                    champion_id: sel.first().id,
                    champion_name: sel.first().name,
                    call: PickCall::Swap,
                    record_champion: true,
                },
            ]
        } else {
            Seq::empty()
        }) + bench_attempts(sel.drop_first(), bench, enabled)
    }
}

/// The player's own in-progress pick action, by actor-cell identity.
pub open spec fn find_own_action(actions: Seq<ActionV>, cell: u8) -> Option<u8>
    decreases actions.len(),
{
    if actions.len() == 0 {
        None
    } else if actions.first().actor_cell_id == cell && actions.first().action_type == "pick"@
        && actions.first().is_in_progress {
        Some(actions.first().id)
    } else {
        find_own_action(actions.drop_first(), cell)
    }
}

/// Direct-pick path: every candidate in priority order against the own
/// action's id; without an own in-progress pick action, no attempt.
pub open spec fn action_attempts(sel: Seq<ChampionV>, action: Option<u8>) -> Seq<PickAttemptV>
    decreases sel.len(),
{
    match action {
        None => Seq::empty(),
        Some(aid) => if sel.len() == 0 {
            Seq::empty()
        } else {
            seq![
                PickAttemptV {
                    champion_id: sel.first().id,
                    champion_name: sel.first().name,
                    call: PickCall::Pick { action_id: aid },
                    record_champion: false,
                },
            ] + action_attempts(sel.drop_first(), action)
        },
    }
}

/// The whole plan of one evaluation round, in the fixed precedence.
pub open spec fn pick_plan_spec(m: HelperContextV, d: ChampSelectDataV) -> Seq<PickAttemptV> {
    if !pick_guard(m) {
        Seq::empty()
    } else {
        subset_attempts(m.auto_pick.selected, m.subset_champion_list, d.local_player_cell_id)
            + bench_attempts(m.auto_pick.selected, d.bench_champions, d.bench_enabled)
            + action_attempts(
            m.auto_pick.selected,
            find_own_action(d.actions, d.local_player_cell_id),
        )
    }
}

fn vec_contains_u16(v: &Vec<u16>, x: u16) -> (r: bool)
    ensures
        r == v@.contains(x),
{
    let n = v.len();
    let mut i: usize = 0;
    while i < n
        invariant
            0 <= i <= n == v@.len(),
            forall|j: int| 0 <= j < i ==> v@[j] != x,
        decreases n - i,
    {
        if v[i] == x {
            return true;
        }
        i = i + 1;
    }
    false
}

/// The player's own in-progress pick action, as the feed lists them.
fn find_own_action_exec(actions: &Vec<crate::event::Action>, cell: u8) -> (r: Option<u8>)
    ensures
        r == find_own_action(actions@.map_values(|a: crate::event::Action| a@), cell),
{
    let ghost av = actions@.map_values(|a: crate::event::Action| a@);
    let n = actions.len();
    let mut i: usize = 0;
    proof {
        assert(av.skip(0) =~= av);
    }
    while i < n
        invariant
            0 <= i <= n == actions@.len(),
            av == actions@.map_values(|a: crate::event::Action| a@),
            find_own_action(av, cell) == find_own_action(av.skip(i as int), cell),
        decreases n - i,
    {
        proof {
            assert(av.skip(i as int).first() == av[i as int]);
            assert(av.skip(i as int).drop_first() =~= av.skip(i + 1));
        }
        let a = &actions[i];
        if a.actor_cell_id == cell && str_eq(a.action_type.as_str(), "pick")
            && a.is_in_progress {
            return Some(a.id);
        }
        i = i + 1;
    }
    None
}

impl HelperContext {
    /// Plan one auto-pick round for a champ-select event. The caller
    /// issues the attempts in order and commits the first success.
    pub fn auto_pick_attempts(&self, data: &ChampSelectData) -> (r: Vec<PickAttempt>)
        ensures
            r@.map_values(|a: PickAttempt| a@) == pick_plan_spec(self@, data@),
    {
        let mut out: Vec<PickAttempt> = Vec::new();
        proof {
            assert(out@.map_values(|a: PickAttempt| a@) =~= Seq::<PickAttemptV>::empty());
        }
        if !self.auto_pick.enabled || self.picked || self.champion_id != 0 {
            return out;
        }
        let sel = &self.auto_pick.selected;
        let ghost selv = sel@.map_values(|c: crate::context::Champion| c@);
        let n = sel.len();
        // subset-list path
        let mut i: usize = 0;
        proof {
            assert(selv.skip(0) =~= selv);
        }
        while i < n
            invariant
                0 <= i <= n == sel@.len(),
                selv == sel@.map_values(|c: crate::context::Champion| c@),
                *sel == self.auto_pick.selected,
                out@.map_values(|a: PickAttempt| a@) + subset_attempts(
                    selv.skip(i as int),
                    self@.subset_champion_list,
                    data@.local_player_cell_id,
                ) == subset_attempts(
                    selv,
                    self@.subset_champion_list,
                    data@.local_player_cell_id,
                ),
            decreases n - i,
        {
            proof {
                assert(selv.skip(i as int).first() == selv[i as int]);
                assert(selv.skip(i as int).drop_first() =~= selv.skip(i + 1));
            }
            let c = &sel[i];
            let ghost before = out@;
            if vec_contains_u16(&self.subset_champion_list, c.0) {
                out.push(
                    PickAttempt {
                        champion_id: c.0,
                        champion_name: c.1.clone(),
                        call: PickCall::Pick { action_id: data.local_player_cell_id },
                        record_champion: true,
                    },
                );
            }
            proof {
                assert(out@.map_values(|a: PickAttempt| a@) + subset_attempts(
                    selv.skip(i + 1),
                    self@.subset_champion_list,
                    data@.local_player_cell_id,
                ) =~= subset_attempts(
                    selv,
                    self@.subset_champion_list,
                    data@.local_player_cell_id,
                ));
            }
            i = i + 1;
        }
        proof {
            assert(selv.skip(n as int) =~= Seq::<ChampionV>::empty());
            assert(out@.map_values(|a: PickAttempt| a@) =~= subset_attempts(
                selv,
                self@.subset_champion_list,
                data@.local_player_cell_id,
            ));
        }
        let ghost after_subset = out@.map_values(|a: PickAttempt| a@);
        // bench-swap path
        let mut i: usize = 0;
        proof {
            assert(selv.skip(0) =~= selv);
        }
        while i < n
            invariant
                0 <= i <= n == sel@.len(),
                selv == sel@.map_values(|c: crate::context::Champion| c@),
                *sel == self.auto_pick.selected,
                out@.map_values(|a: PickAttempt| a@) + bench_attempts(
                    selv.skip(i as int),
                    data@.bench_champions,
                    data@.bench_enabled,
                ) == after_subset + bench_attempts(
                    selv,
                    data@.bench_champions,
                    data@.bench_enabled,
                ),
            decreases n - i,
        {
            proof {
                assert(selv.skip(i as int).first() == selv[i as int]);
                assert(selv.skip(i as int).drop_first() =~= selv.skip(i + 1));
            }
            let c = &sel[i];
            if data.bench_enabled && vec_contains_u16(&data.bench_champions, c.0) {
                out.push(
                    PickAttempt {
                        champion_id: c.0,
                        champion_name: c.1.clone(),
                        call: PickCall::Swap,
                        record_champion: true,
                    },
                );
            }
            proof {
                assert(out@.map_values(|a: PickAttempt| a@) + bench_attempts(
                    selv.skip(i + 1),
                    data@.bench_champions,
                    data@.bench_enabled,
                ) =~= after_subset + bench_attempts(
                    selv,
                    data@.bench_champions,
                    data@.bench_enabled,
                ));
            }
            i = i + 1;
        }
        proof {
            assert(selv.skip(n as int) =~= Seq::<ChampionV>::empty());
            assert(out@.map_values(|a: PickAttempt| a@) =~= after_subset + bench_attempts(
                selv,
                data@.bench_champions,
                data@.bench_enabled,
            ));
        }
        let ghost after_bench = out@.map_values(|a: PickAttempt| a@);
        // direct-pick path
        let own = find_own_action_exec(&data.actions, data.local_player_cell_id);
        match own {
            None => {},
            Some(aid) => {
                let mut i: usize = 0;
                proof {
                    assert(selv.skip(0) =~= selv);
                }
                while i < n
                    invariant
                        0 <= i <= n == sel@.len(),
                        selv == sel@.map_values(|c: crate::context::Champion| c@),
                        *sel == self.auto_pick.selected,
                        out@.map_values(|a: PickAttempt| a@) + action_attempts(
                            selv.skip(i as int),
                            Some(aid),
                        ) == after_bench + action_attempts(selv, Some(aid)),
                    decreases n - i,
                {
                    proof {
                        assert(selv.skip(i as int).first() == selv[i as int]);
                        assert(selv.skip(i as int).drop_first() =~= selv.skip(i + 1));
                    }
                    let c = &sel[i];
                    out.push(
                        PickAttempt {
                            champion_id: c.0,
                            champion_name: c.1.clone(),
                            call: PickCall::Pick { action_id: aid },
                            record_champion: false,
                        },
                    );
                    proof {
                        assert(out@.map_values(|a: PickAttempt| a@) + action_attempts(
                            selv.skip(i + 1),
                            Some(aid),
                        ) =~= after_bench + action_attempts(selv, Some(aid)));
                    }
                    i = i + 1;
                }
                proof {
                    assert(selv.skip(n as int) =~= Seq::<ChampionV>::empty());
                    assert(out@.map_values(|a: PickAttempt| a@) =~= after_bench
                        + action_attempts(selv, Some(aid)));
                }
            },
        }
        proof {
            assert(out@.map_values(|a: PickAttempt| a@) =~= pick_plan_spec(self@, data@));
        }
        out
    }

    /// Commit the first successful attempt: latch the pick, and record
    /// the champion on the paths that record it.
    pub fn commit_pick(&mut self, attempt: &PickAttempt)
        ensures
            final(self)@ == (HelperContextV {
                picked: true,
                champion_id: if attempt.record_champion {
                    attempt.champion_id
                } else {
                    old(self)@.champion_id
                },
                ..old(self)@
            }),
    {
        self.picked = true;
        if attempt.record_champion {
            self.champion_id = attempt.champion_id;
        }
        proof {
            assert(self@ =~= (HelperContextV {
                picked: true,
                champion_id: if attempt.record_champion {
                    attempt.champion_id
                } else {
                    old(self)@.champion_id
                },
                ..old(self)@
            }));
        }
    }
}

/// Once `picked` is latched — in particular right after a commit — an
/// evaluation round plans no call at all, so no second pick or swap can
/// be issued within the episode.
pub proof fn lemma_pick_latch(
    m: HelperContextV,
    d: ChampSelectDataV,
    committed: HelperContextV,
    later: ChampSelectDataV,
)
    ensures
        m.picked ==> pick_plan_spec(m, d).len() == 0,
        committed.picked ==> pick_plan_spec(committed, later).len() == 0,
{
}

/// An empty selection plans no outbound call, whatever the event says.
pub proof fn lemma_empty_selection_no_calls(m: HelperContextV, d: ChampSelectDataV)
    requires
        m.auto_pick.selected.len() == 0,
    ensures
        pick_plan_spec(m, d).len() == 0,
{
}

} // verus!
