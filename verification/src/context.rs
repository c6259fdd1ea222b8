//! The shared game-state store: one record of match-flow state, derived
//! from decoded events and the action engines' own commits. Its model
//! (`HelperContextV`) is what every engine contract speaks over.
use vstd::prelude::*;
use vstd::string::*;

use crate::decode::{get_u16, get_u64, read_str, read_u16, read_u64};
use crate::event::{ChampSelectPlayer, ChampSelectPlayerV, GamePhase};
use crate::json::{get_str, json_of, parse_json, JsonValue};

verus! {

/// The player's own profile snapshot.
pub struct Summoner {
    pub game_name: String,
    pub summoner_id: u64,
    pub summoner_level: u16,
    pub puuid: String,
}

pub ghost struct SummonerV {
    pub game_name: Seq<char>,
    pub summoner_id: u64,
    pub summoner_level: u16,
    pub puuid: Seq<char>,
}

impl View for Summoner {
    type V = SummonerV;

    open spec fn view(&self) -> SummonerV {
        SummonerV {
            game_name: self.game_name@,
            summoner_id: self.summoner_id,
            summoner_level: self.summoner_level,
            puuid: self.puuid@,
        }
    }
}

impl Default for Summoner {
    fn default() -> (r: Self)
        ensures
            r@.game_name == Seq::<char>::empty(),
            r@.summoner_id == 0,
            r@.summoner_level == 0,
            r@.puuid == Seq::<char>::empty(),
    {
        Summoner {
            game_name: String::new(),
            summoner_id: 0,
            summoner_level: 0,
            puuid: String::new(),
        }
    }
}

/// A champion: its id, which is its identity, and a display name.
pub struct Champion(pub u16, pub String);

pub ghost struct ChampionV {
    pub id: u16,
    pub name: Seq<char>,
}

impl View for Champion {
    type V = ChampionV;

    open spec fn view(&self) -> ChampionV {
        ChampionV { id: self.0, name: self.1@ }
    }
}

/// One row of the owned-champions listing.
pub struct OwnedChampionRow {
    pub id: u16,
    pub name: String,
    pub title: String,
}

impl OwnedChampionRow {
    /// The champion this row stands for, named `name-title`.
    pub fn to_champion(&self) -> (r: Champion)
        ensures
            r@.id == self.id,
            r@.name == self.name@ + "-"@ + self.title@,
    {
        let mut s = self.name.clone();
        s.append("-");
        s.append(self.title.as_str());
        proof {
            assert(s@ =~= self.name@ + "-"@ + self.title@);
        }
        Champion(self.id, s)
    }
}

/// The auto-pick preferences: the priority-ordered selection (earlier is
/// higher), the remaining pool, and the engine switch.
pub struct AutoPick {
    pub selected: Vec<Champion>,
    pub unselected: Vec<Champion>,
    pub enabled: bool,
}

#[verifier::ext_equal]
pub ghost struct AutoPickV {
    pub selected: Seq<ChampionV>,
    pub unselected: Seq<ChampionV>,
    pub enabled: bool,
}

impl View for AutoPick {
    type V = AutoPickV;

    open spec fn view(&self) -> AutoPickV {
        AutoPickV {
            selected: self.selected@.map_values(|c: Champion| c@),
            unselected: self.unselected@.map_values(|c: Champion| c@),
            enabled: self.enabled,
        }
    }
}

impl Default for AutoPick {
    fn default() -> (r: Self)
        ensures
            r@.selected.len() == 0,
            r@.unselected.len() == 0,
            !r@.enabled,
    {
        let r = AutoPick { selected: Vec::new(), unselected: Vec::new(), enabled: false };
        proof {
            assert(r@.selected =~= Seq::<ChampionV>::empty());
            assert(r@.unselected =~= Seq::<ChampionV>::empty());
        }
        r
    }
}

/// The game-state store.
pub struct HelperContext {
    pub listening: bool,
    /// The locked-in champion; zero means none.
    pub champion_id: u16,
    pub me: Summoner,
    pub my_team: Vec<ChampSelectPlayer>,
    pub game_phase: GamePhase,
    pub game_mode: String,
    /// The target chat conversation; empty means none.
    pub conversation_id: String,
    /// Eligible champion ids in draft-less modes; empty elsewhere.
    pub subset_champion_list: Vec<u16>,
    /// Latched once a pick or swap succeeded this champ-select episode.
    pub picked: bool,
    /// Latched once an accept was issued this ready-check episode.
    pub accepted: bool,
    /// Latched once the analysis was posted for this conversation.
    pub analysis_sent_flag: bool,
    pub auto_pick: AutoPick,
    /// Seconds to wait before accepting; negative means immediately.
    pub auto_accepted_delay: i8,
    pub auto_send_analysis: bool,
}

#[verifier::ext_equal]
pub ghost struct HelperContextV {
    pub listening: bool,
    pub champion_id: u16,
    pub me: SummonerV,
    pub my_team: Seq<ChampSelectPlayerV>,
    pub game_phase: GamePhase,
    pub game_mode: Seq<char>,
    pub conversation_id: Seq<char>,
    pub subset_champion_list: Seq<u16>,
    pub picked: bool,
    pub accepted: bool,
    pub analysis_sent_flag: bool,
    pub auto_pick: AutoPickV,
    pub auto_accepted_delay: i8,
    pub auto_send_analysis: bool,
}

impl View for HelperContext {
    type V = HelperContextV;

    open spec fn view(&self) -> HelperContextV {
        HelperContextV {
            listening: self.listening,
            champion_id: self.champion_id,
            me: self.me@,
            my_team: self.my_team@.map_values(|p: ChampSelectPlayer| p@),
            game_phase: self.game_phase,
            game_mode: self.game_mode@,
            conversation_id: self.conversation_id@,
            subset_champion_list: self.subset_champion_list@,
            picked: self.picked,
            accepted: self.accepted,
            analysis_sent_flag: self.analysis_sent_flag,
            auto_pick: self.auto_pick@,
            auto_accepted_delay: self.auto_accepted_delay,
            auto_send_analysis: self.auto_send_analysis,
        }
    }
}

/// What a full reset makes of a store.
pub open spec fn reset_model(m: HelperContextV) -> HelperContextV {
    HelperContextV {
        champion_id: 0,
        my_team: Seq::empty(),
        subset_champion_list: Seq::empty(),
        conversation_id: Seq::empty(),
        game_mode: Seq::empty(),
        analysis_sent_flag: false,
        accepted: false,
        ..m
    }
}

impl HelperContext {
    /// The store a fresh run starts with: default values, a three-second
    /// accept delay, analysis on, and the auto-pick engine enabled.
    pub fn new() -> (r: Self)
        ensures
            !r@.listening,
            r@.champion_id == 0,
            r@.me.game_name.len() == 0,
            r@.me.puuid.len() == 0,
            r@.my_team.len() == 0,
            r@.game_phase == GamePhase::NoPhase,
            r@.game_mode.len() == 0,
            r@.conversation_id.len() == 0,
            r@.subset_champion_list.len() == 0,
            !r@.picked,
            !r@.accepted,
            !r@.analysis_sent_flag,
            r@.auto_pick.selected.len() == 0,
            r@.auto_pick.unselected.len() == 0,
            r@.auto_pick.enabled,
            r@.auto_accepted_delay == 3,
            r@.auto_send_analysis,
    {
        let mut auto_pick = AutoPick::default();
        auto_pick.enabled = true;
        let r = HelperContext {
            listening: false,
            champion_id: 0,
            me: Summoner::default(),
            my_team: Vec::new(),
            game_phase: GamePhase::default(),
            game_mode: String::new(),
            conversation_id: String::new(),
            subset_champion_list: Vec::new(),
            picked: false,
            accepted: false,
            analysis_sent_flag: false,
            auto_pick,
            auto_accepted_delay: 3,
            auto_send_analysis: true,
        };
        proof {
            assert(r@.my_team =~= Seq::<ChampSelectPlayerV>::empty());
        }
        r
    }

    /// The full reset performed exactly on entry into Lobby or no phase:
    /// everything episode-bound is cleared, everything else is kept.
    pub fn reset(&mut self)
        ensures
            final(self)@ == reset_model(old(self)@),
    {
        self.champion_id = 0;
        self.analysis_sent_flag = false;
        self.accepted = false;
        self.my_team = Vec::new();
        self.subset_champion_list = Vec::new();
        self.conversation_id = String::new();
        self.game_mode = String::new();
        proof {
            assert(self@ =~= reset_model(old(self)@));
        }
    }
}

/// The summoner payload of a profile fetch.
pub open spec fn summoner_of(v: JsonValue) -> Option<SummonerV> {
    match (
        get_str(v, "gameName"@),
        get_u64(v, "summonerId"@),
        get_u16(v, "summonerLevel"@),
        get_str(v, "puuid"@),
    ) {
        (Some(n), Some(id), Some(lvl), Some(p)) => Some(
            SummonerV { game_name: n, summoner_id: id, summoner_level: lvl, puuid: p },
        ),
        _ => None,
    }
}

/// The summoner a raw fetch body describes, if it is well-formed.
pub open spec fn summoner_text_of(s: Seq<char>) -> Option<SummonerV> {
    match json_of(s) {
        Some(v) => summoner_of(v),
        None => None,
    }
}

/// Parse a profile fetch body.
pub fn parse_summoner(text: &str) -> (r: Option<Summoner>)
    ensures
        match r {
            Some(s) => summoner_text_of(text@) == Some(s@),
            None => summoner_text_of(text@) is None,
        },
{
    let v = match parse_json(text) {
        Some(v) => v,
        None => {
            return None;
        },
    };
    let n = read_str(&v, "gameName");
    let id = read_u64(&v, "summonerId");
    let lvl = read_u16(&v, "summonerLevel");
    let p = read_str(&v, "puuid");
    match (n, id, lvl, p) {
        (Some(n), Some(id), Some(lvl), Some(p)) => Some(
            Summoner {
                game_name: n.clone(),
                summoner_id: id,
                summoner_level: lvl,
                puuid: p.clone(),
            },
        ),
        _ => None,
    }
}

/// One owned-champion row as a champion, named `name-title`.
pub open spec fn owned_champion_of(v: JsonValue) -> Option<ChampionV> {
    match (get_u16(v, "id"@), get_str(v, "name"@), get_str(v, "title"@)) {
        (Some(id), Some(n), Some(t)) => Some(ChampionV { id: id, name: n + "-"@ + t }),
        _ => None,
    }
}

/// A whole owned-champions listing; one bad row spoils the listing.
pub open spec fn owned_champions_of(a: Seq<JsonValue>) -> Option<Seq<ChampionV>>
    decreases a.len(),
{
    if a.len() == 0 {
        Some(Seq::empty())
    } else {
        match (owned_champion_of(a.first()), owned_champions_of(a.drop_first())) {
            (Some(c), Some(rest)) => Some(seq![c] + rest),
            _ => None,
        }
    }
}

/// The champions a raw owned-champions body lists, if it is well-formed.
pub open spec fn owned_champions_text_of(s: Seq<char>) -> Option<Seq<ChampionV>> {
    match json_of(s) {
        Some(JsonValue::Array(a)) => owned_champions_of(a@),
        _ => None,
    }
}

/// Parse an owned-champions fetch body into champions.
pub fn parse_owned_champions(text: &str) -> (r: Option<Vec<Champion>>)
    ensures
        match r {
            Some(cs) => owned_champions_text_of(text@) == Some(
                cs@.map_values(|c: Champion| c@),
            ),
            None => owned_champions_text_of(text@) is None,
        },
{
    let v = match parse_json(text) {
        Some(v) => v,
        None => {
            return None;
        },
    };
    let a = match v {
        JsonValue::Array(a) => a,
        _ => {
            return None;
        },
    };
    let n = a.len();
    let mut out: Vec<Champion> = Vec::new();
    let mut i: usize = 0;
    proof {
        assert(a@.skip(0) =~= a@);
        assert(out@.map_values(|c: Champion| c@) =~= Seq::<ChampionV>::empty());
    }
    while i < n
        invariant
            0 <= i <= n == a@.len(),
            json_of(text@) == Some(JsonValue::Array(a)),
            match owned_champions_of(a@.skip(i as int)) {
                Some(rest) => owned_champions_of(a@) == Some(
                    out@.map_values(|c: Champion| c@) + rest,
                ),
                None => owned_champions_of(a@) is None,
            },
        decreases n - i,
    {
        proof {
            assert(a@.skip(i as int).first() == a@[i as int]);
            assert(a@.skip(i as int).drop_first() =~= a@.skip(i + 1));
        }
        let id = read_u16(&a[i], "id");
        let nm = read_str(&a[i], "name");
        let t = read_str(&a[i], "title");
        match (id, nm, t) {
            (Some(id), Some(nm), Some(t)) => {
                let row = OwnedChampionRow { id: id, name: nm.clone(), title: t.clone() };
                let c = row.to_champion();
                let ghost before = out@;
                let ghost cv = c@;
                out.push(c);
                proof {
                    assert(out@.map_values(|x: Champion| x@) =~= before.map_values(
                        |x: Champion| x@,
                    ).push(cv));
                    if owned_champions_of(a@.skip(i + 1)) is Some {
                        assert(before.map_values(|x: Champion| x@) + (seq![cv]
                            + owned_champions_of(a@.skip(i + 1)).unwrap()) =~= out@.map_values(
                            |x: Champion| x@,
                        ) + owned_champions_of(a@.skip(i + 1)).unwrap());
                    }
                }
            },
            _ => {
                return None;
            },
        }
        i = i + 1;
    }
    proof {
        assert(a@.skip(n as int) =~= Seq::<JsonValue>::empty());
        assert(out@.map_values(|c: Champion| c@) + Seq::<ChampionV>::empty() =~= out@.map_values(
            |c: Champion| c@,
        ));
    }
    Some(out)
}

impl HelperContext {
    /// Take a freshly fetched profile: an unchanged player id is skipped,
    /// a new one replaces the snapshot.
    pub fn update_summoner(&mut self, data: Summoner) -> (updated: bool)
        ensures
            data@.puuid == old(self)@.me.puuid ==> *final(self) == *old(self) && !updated,
            data@.puuid != old(self)@.me.puuid ==> final(self)@ == (HelperContextV {
                me: data@,
                ..old(self)@
            }) && updated,
    {
        if crate::text::str_eq(self.me.puuid.as_str(), data.puuid.as_str()) {
            return false;
        }
        self.me = data;
        proof {
            assert(self@ =~= (HelperContextV { me: self.me@, ..old(self)@ }));
        }
        true
    }
}

} // verus!
