//! The auto-accept engine: a pending ready check that the player has not
//! answered, and no accept issued yet this episode, yields exactly one
//! accept command, after the configured delay (no wait when the delay is
//! zero or negative).
use vstd::prelude::*;

use crate::context::{HelperContext, HelperContextV};
use crate::event::{MatchMakingReadyCheck, MatchReadyResponse};

verus! {

/// The one outbound action of the auto-accept engine: issue the accept
/// after this many seconds.
pub struct AcceptPlan {
    pub delay_seconds: u8,
}

/// When a ready-check event triggers an accept, and with what delay: only
/// while the accept latch is clear and the player's own response is still
/// outstanding; a negative configured delay means no wait.
pub open spec fn accept_decision(m: HelperContextV, data: Option<MatchMakingReadyCheck>) -> Option<
    u8,
> {
    if !m.accepted && (data matches Some(d) && d.player_response
        == MatchReadyResponse::NoResponse) {
        Some(
            if m.auto_accepted_delay >= 0 {
                m.auto_accepted_delay as u8
            } else {
                0
            },
        )
    } else {
        None
    }
}

impl HelperContext {
    /// Decide on a ready-check event. The caller performs the accept call
    /// and then commits the latch, whatever the call's outcome.
    pub fn on_ready_check(&self, data: &Option<MatchMakingReadyCheck>) -> (r: Option<AcceptPlan>)
        ensures
            match r {
                Some(p) => accept_decision(self@, *data) == Some(p.delay_seconds),
                None => accept_decision(self@, *data) is None,
            },
    {
        if self.accepted {
            return None;
        }
        match data {
            Some(d) => match d.player_response {
                MatchReadyResponse::NoResponse => Some(
                    AcceptPlan {
                        delay_seconds: if self.auto_accepted_delay >= 0 {
                            self.auto_accepted_delay as u8
                        } else {
                            0
                        },
                    },
                ),
                _ => None,
            },
            None => None,
        }
    }

    /// Latch the accept for this episode; set whatever the accept call
    /// returned, so the episode never issues a second accept.
    pub fn commit_accept(&mut self)
        ensures
            final(self)@ == (HelperContextV { accepted: true, ..old(self)@ }),
    {
        self.accepted = true;
        proof {
            assert(self@ =~= (HelperContextV { accepted: true, ..old(self)@ }));
        }
    }
}

/// With a zero or negative configured delay the accept is issued with no
/// wait; and once the accept latch is set, no ready-check event of the
/// episode can trigger a second accept.
pub proof fn lemma_accept_once(
    m: HelperContextV,
    data: Option<MatchMakingReadyCheck>,
    later: Option<MatchMakingReadyCheck>,
)
    ensures
        m.auto_accepted_delay <= 0 && accept_decision(m, data) is Some ==> accept_decision(
            m,
            data,
        ) == Some(0u8),
        accept_decision(HelperContextV { accepted: true, ..m }, later) is None,
{
}

} // verus!
