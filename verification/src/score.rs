//! Match-history aggregation: filter a player's recent matches to the
//! current game mode and fold them into one score — KDA and damage per
//! minute in hundredths, the win/loss streak, and the win and match totals.
use vstd::prelude::*;
use vstd::string::*;

use crate::MAX_MATCHES;
use crate::decode::{get_arr, get_u16, get_u32, read_arr, read_bool, read_str, read_u16, read_u32};
use crate::json::{get_bool, get_str, json_get, JsonValue};
use crate::text::{centi_digits, centi_to_string, dec_digits, str_eq, u64_to_string};

verus! {

/// One match as the analysis engine reads it: the mode, the duration, and
/// the tracked player's own line.
pub struct MatchRecord {
    pub game_mode: String,
    /// Seconds.
    pub game_duration: u32,
    pub kills: u16,
    pub deaths: u16,
    pub assists: u16,
    pub win: bool,
    /// Total damage dealt to champions.
    pub damage: u32,
}

/// A fetched page of matches, most recent first.
pub struct Matches(pub Vec<MatchRecord>);

pub ghost struct MatchRecordV {
    pub game_mode: Seq<char>,
    pub game_duration: u32,
    pub kills: u16,
    pub deaths: u16,
    pub assists: u16,
    pub win: bool,
    pub damage: u32,
}

impl View for MatchRecord {
    type V = MatchRecordV;

    open spec fn view(&self) -> MatchRecordV {
        MatchRecordV {
            game_mode: self.game_mode@,
            game_duration: self.game_duration,
            kills: self.kills,
            deaths: self.deaths,
            assists: self.assists,
            win: self.win,
            damage: self.damage,
        }
    }
}

/// The matches of `ms` whose mode is `mode`, in order.
pub open spec fn filtered_matches(ms: Seq<MatchRecordV>, mode: Seq<char>) -> Seq<MatchRecordV>
    decreases ms.len(),
{
    if ms.len() == 0 {
        Seq::empty()
    } else {
        (if ms.first().game_mode == mode {
            seq![ms.first()]
        } else {
            Seq::empty()
        }) + filtered_matches(ms.drop_first(), mode)
    }
}

pub open spec fn sum_kills(f: Seq<MatchRecordV>) -> int
    decreases f.len(),
{
    if f.len() == 0 {
        0
    } else {
        sum_kills(f.drop_last()) + f.last().kills
    }
}

pub open spec fn sum_deaths(f: Seq<MatchRecordV>) -> int
    decreases f.len(),
{
    if f.len() == 0 {
        0
    } else {
        sum_deaths(f.drop_last()) + f.last().deaths
    }
}

pub open spec fn sum_assists(f: Seq<MatchRecordV>) -> int
    decreases f.len(),
{
    if f.len() == 0 {
        0
    } else {
        sum_assists(f.drop_last()) + f.last().assists
    }
}

pub open spec fn sum_wins(f: Seq<MatchRecordV>) -> int
    decreases f.len(),
{
    if f.len() == 0 {
        0
    } else {
        sum_wins(f.drop_last()) + if f.last().win {
            1int
        } else {
            0int
        }
    }
}

pub open spec fn sum_damage(f: Seq<MatchRecordV>) -> int
    decreases f.len(),
{
    if f.len() == 0 {
        0
    } else {
        sum_damage(f.drop_last()) + f.last().damage
    }
}

pub open spec fn sum_duration(f: Seq<MatchRecordV>) -> int
    decreases f.len(),
{
    if f.len() == 0 {
        0
    } else {
        sum_duration(f.drop_last()) + f.last().game_duration
    }
}

/// Index at which the opening streak of outcomes equal to the latest
/// match's outcome ends, scanning from `i`.
pub open spec fn streak_end(f: Seq<MatchRecordV>, i: int) -> int
    decreases f.len() - i,
{
    if i < 1 || i >= f.len() || f[i].win != f[0].win {
        i
    } else {
        streak_end(f, i + 1)
    }
}

/// `num / den` in hundredths, rounded half away from zero.
pub open spec fn rounded_centi(num: int, den: int) -> int {
    let p = num * 100;
    p / den + if 2 * (p % den) >= den {
        1int
    } else {
        0int
    }
}

pub open spec fn score_total(ms: Seq<MatchRecordV>, mode: Seq<char>) -> int {
    filtered_matches(ms, mode).len() as int
}

pub open spec fn score_wins(ms: Seq<MatchRecordV>, mode: Seq<char>) -> int {
    sum_wins(filtered_matches(ms, mode))
}

pub open spec fn score_kda_centi(ms: Seq<MatchRecordV>, mode: Seq<char>) -> int {
    let f = filtered_matches(ms, mode);
    if f.len() == 0 {
        0
    } else {
        rounded_centi(sum_kills(f) + sum_assists(f), sum_deaths(f) + 1)
    }
}

pub open spec fn score_dpm_centi(ms: Seq<MatchRecordV>, mode: Seq<char>) -> int {
    let f = filtered_matches(ms, mode);
    if f.len() == 0 || sum_duration(f) == 0 {
        0
    } else {
        rounded_centi(sum_damage(f) * 60, sum_duration(f))
    }
}

/// Positive for a win streak, negative for a loss streak, zero only when
/// no match was kept.
pub open spec fn score_repeats(ms: Seq<MatchRecordV>, mode: Seq<char>) -> int {
    let f = filtered_matches(ms, mode);
    if f.len() == 0 {
        0
    } else if f[0].win {
        streak_end(f, 1)
    } else {
        -streak_end(f, 1)
    }
}

proof fn lemma_sum_wins_bounds(f: Seq<MatchRecordV>)
    ensures
        0 <= sum_wins(f) <= f.len(),
    decreases f.len(),
{
    if f.len() > 0 {
        lemma_sum_wins_bounds(f.drop_last());
    }
}

/// Only matches of the requested mode contribute, and of those the wins
/// can never outnumber the total: `0 <= wins <= total`.
pub proof fn lemma_wins_within_total(ms: Seq<MatchRecordV>, mode: Seq<char>)
    ensures
        0 <= score_wins(ms, mode) <= score_total(ms, mode),
{
    lemma_sum_wins_bounds(filtered_matches(ms, mode));
}

proof fn lemma_streak_run(f: Seq<MatchRecordV>, i: int)
    requires
        1 <= i <= f.len(),
    ensures
        i <= streak_end(f, i) <= f.len(),
        forall|j: int| i <= j < streak_end(f, i) ==> #[trigger] f[j].win == f[0].win,
        streak_end(f, i) < f.len() ==> f[streak_end(f, i)].win != f[0].win,
    decreases f.len() - i,
{
    if i < f.len() && f[i].win == f[0].win {
        lemma_streak_run(f, i + 1);
    }
}

/// The streak is the maximal opening run of the latest outcome: every
/// kept match before the break shares the latest match's outcome, the
/// first match after the run (if any) differs, the sign says whether
/// the latest match was won, and the count covers at least the latest
/// match and at most every kept match.
pub proof fn lemma_streak_is_opening_run(ms: Seq<MatchRecordV>, mode: Seq<char>)
    requires
        filtered_matches(ms, mode).len() > 0,
    ensures
        ({
            let f = filtered_matches(ms, mode);
            let k = streak_end(f, 1);
            &&& 1 <= k <= f.len()
            &&& forall|j: int| 0 <= j < k ==> #[trigger] f[j].win == f[0].win
            &&& k < f.len() ==> f[k].win != f[0].win
            &&& score_repeats(ms, mode) == if f[0].win {
                k
            } else {
                -k
            }
            &&& abs_of(score_repeats(ms, mode)) == k
            &&& 1 <= abs_of(score_repeats(ms, mode)) <= score_total(ms, mode)
        }),
{
    let f = filtered_matches(ms, mode);
    lemma_streak_run(f, 1);
}

/// The aggregate score posted for one player. KDA and damage per minute
/// are kept in hundredths so that the score is exact.
pub struct PlayerScore {
    pub name: String,
    /// `(kills + assists) / (deaths + 1)`, in hundredths.
    pub kda_centi: u32,
    /// `damage / duration * 60`, in hundredths.
    pub dpm_centi: u64,
    /// Greater than zero for a win streak, otherwise a loss streak.
    pub repeats: i8,
    pub wins: u32,
    pub total: u32,
}

impl Default for PlayerScore {
    fn default() -> (r: Self)
        ensures
            r.name@ == Seq::<char>::empty(),
            r.kda_centi == 0,
            r.dpm_centi == 0,
            r.repeats == 0,
            r.wins == 0,
            r.total == 0,
    {
        PlayerScore {
            name: String::new(),
            kda_centi: 0,
            dpm_centi: 0,
            repeats: 0,
            wins: 0,
            total: 0,
        }
    }
}

impl PlayerScore {
    pub fn set_name(&mut self, name: &str)
        ensures
            final(self).name@ == name@,
            final(self).kda_centi == old(self).kda_centi,
            final(self).dpm_centi == old(self).dpm_centi,
            final(self).repeats == old(self).repeats,
            final(self).wins == old(self).wins,
            final(self).total == old(self).total,
    {
        self.name = name.to_owned();
    }
}

/// The absolute value, for the streak count in the posted text.
pub open spec fn abs_of(i: int) -> nat {
    if i >= 0 {
        i as nat
    } else {
        (-i) as nat
    }
}

/// The chat message posted for one player's score.
pub open spec fn score_text(
    name: Seq<char>,
    kda_centi: nat,
    dpm_centi: nat,
    repeats: int,
    wins: nat,
    total: nat,
) -> Seq<char> {
    name + "\u{6218}\u{7EE9}\u{4FE1}\u{606F}\u{FF1A}\nkda="@ + centi_digits(kda_centi)
        + "\u{FF0C}\u{5206}\u{5747}\u{4F24}\u{5BB3}="@ + centi_digits(dpm_centi) + "\n\u{80DC}\u{7387}="@
        + dec_digits(wins) + "/"@ + dec_digits(total) + "\u{FF0C}"@ + dec_digits(abs_of(repeats)) + (
    if repeats > 0 {
        "\u{8FDE}\u{80DC}"@
    } else {
        "\u{8FDE}\u{8D25}"@
    })
}

impl PlayerScore {
    /// The text posted to the chat for this score.
    pub fn render(&self) -> (r: String)
        ensures
            r@ == score_text(
                self.name@,
                self.kda_centi as nat,
                self.dpm_centi as nat,
                self.repeats as int,
                self.wins as nat,
                self.total as nat,
            ),
    {
        let mut s = self.name.clone();
        s.append("\u{6218}\u{7EE9}\u{4FE1}\u{606F}\u{FF1A}\nkda=");
        let kda = centi_to_string(self.kda_centi as u64);
        s.append(kda.as_str());
        s.append("\u{FF0C}\u{5206}\u{5747}\u{4F24}\u{5BB3}=");
        let dpm = centi_to_string(self.dpm_centi);
        s.append(dpm.as_str());
        s.append("\n\u{80DC}\u{7387}=");
        let w = u64_to_string(self.wins as u64);
        s.append(w.as_str());
        s.append("/");
        let t = u64_to_string(self.total as u64);
        s.append(t.as_str());
        s.append("\u{FF0C}");
        let rep: i64 = self.repeats as i64;
        let mag: u64 = if rep >= 0 {
            rep as u64
        } else {
            (-rep) as u64
        };
        let a = u64_to_string(mag);
        s.append(a.as_str());
        if self.repeats > 0 {
            s.append("\u{8FDE}\u{80DC}");
        } else {
            s.append("\u{8FDE}\u{8D25}");
        }
        proof {
            assert(s@ =~= score_text(
                self.name@,
                self.kda_centi as nat,
                self.dpm_centi as nat,
                self.repeats as int,
                self.wins as nat,
                self.total as nat,
            ));
        }
        s
    }
}

/// Length of the opening run of matches sharing the latest match's outcome.
fn streak_len(f: &Vec<MatchRecord>) -> (k: usize)
    requires
        f@.len() >= 1,
    ensures
        k == streak_end(f@.map_values(|m: MatchRecord| m@), 1),
        1 <= k <= f@.len(),
{
    let ghost fv = f@.map_values(|m: MatchRecord| m@);
    let total = f.len();
    let mut k: usize = 1;
    proof {
        lemma_streak_end_bounds(fv, 1);
    }
    while k < total
        invariant
            1 <= k <= total == f@.len(),
            fv == f@.map_values(|m: MatchRecord| m@),
            streak_end(fv, 1) == streak_end(fv, k as int),
            1 <= streak_end(fv, 1) <= fv.len(),
        decreases total - k,
    {
        if f[k].win != f[0].win {
            return k;
        }
        k = k + 1;
    }
    k
}

proof fn lemma_streak_end_bounds(f: Seq<MatchRecordV>, i: int)
    requires
        1 <= i <= f.len(),
    ensures
        i <= streak_end(f, i) <= f.len(),
    decreases f.len() - i,
{
    if i < f.len() && f[i].win == f[0].win {
        lemma_streak_end_bounds(f, i + 1);
    }
}

impl Matches {
    /// Aggregate this page of matches, filtered to `game_mode`, into one
    /// score. The page is at most `MAX_MATCHES` long, as fetched.
    pub fn calculate_player_score(self, game_mode: &str) -> (r: PlayerScore)
        requires
            self.0@.len() <= MAX_MATCHES,
        ensures
            ({
                let ms = self.0@.map_values(|m: MatchRecord| m@);
                &&& r.name@ == Seq::<char>::empty()
                &&& r.total == score_total(ms, game_mode@)
                &&& r.wins == score_wins(ms, game_mode@)
                &&& r.kda_centi == score_kda_centi(ms, game_mode@)
                &&& r.dpm_centi == score_dpm_centi(ms, game_mode@)
                &&& r.repeats == score_repeats(ms, game_mode@)
            }),
    {
        let ghost orig = self.0@.map_values(|m: MatchRecord| m@);
        let mut rest = self.0;
        let mut f: Vec<MatchRecord> = Vec::new();
        proof {
            assert(f@.map_values(|m: MatchRecord| m@) + filtered_matches(
                rest@.map_values(|m: MatchRecord| m@),
                game_mode@,
            ) =~= filtered_matches(orig, game_mode@));
        }
        while rest.len() > 0
            invariant
                f@.map_values(|m: MatchRecord| m@) + filtered_matches(
                    rest@.map_values(|m: MatchRecord| m@),
                    game_mode@,
                ) == filtered_matches(orig, game_mode@),
                f@.len() + rest@.len() <= MAX_MATCHES,
            decreases rest@.len(),
        {
            let ghost prev = rest@.map_values(|m: MatchRecord| m@);
            let ghost fprev = f@.map_values(|m: MatchRecord| m@);
            let m = rest.remove(0);
            proof {
                assert(prev.drop_first() =~= rest@.map_values(|x: MatchRecord| x@));
                assert(prev.first() == m@);
            }
            if str_eq(m.game_mode.as_str(), game_mode) {
                f.push(m);
                proof {
                    assert(f@.map_values(|x: MatchRecord| x@) =~= fprev.push(prev.first()));
                }
            }
            proof {
                assert(f@.map_values(|x: MatchRecord| x@) + filtered_matches(
                    rest@.map_values(|x: MatchRecord| x@),
                    game_mode@,
                ) =~= filtered_matches(orig, game_mode@));
            }
        }
        proof {
            assert(rest@.map_values(|x: MatchRecord| x@) =~= Seq::<MatchRecordV>::empty());
            assert(f@.map_values(|x: MatchRecord| x@) =~= filtered_matches(orig, game_mode@));
        }
        let ghost fv = f@.map_values(|x: MatchRecord| x@);
        let total = f.len();
        if total == 0 {
            return PlayerScore::default();
        }
        let mut kills: u32 = 0;
        let mut deaths: u32 = 0;
        let mut assists: u32 = 0;
        let mut wins: u32 = 0;
        let mut damage: u64 = 0;
        let mut duration: u64 = 0;
        let mut i: usize = 0;
        while i < total
            invariant
                total == f@.len() <= MAX_MATCHES,
                fv == f@.map_values(|x: MatchRecord| x@),
                0 <= i <= total,
                kills == sum_kills(fv.subrange(0, i as int)),
                deaths == sum_deaths(fv.subrange(0, i as int)),
                assists == sum_assists(fv.subrange(0, i as int)),
                wins == sum_wins(fv.subrange(0, i as int)),
                damage == sum_damage(fv.subrange(0, i as int)),
                duration == sum_duration(fv.subrange(0, i as int)),
                kills <= i * 0xFFFF,
                deaths <= i * 0xFFFF,
                assists <= i * 0xFFFF,
                wins <= i,
                damage <= i * 0xFFFF_FFFF,
                duration <= i * 0xFFFF_FFFF,
            decreases total - i,
        {
            proof {
                assert(fv.subrange(0, i + 1).drop_last() =~= fv.subrange(0, i as int));
                assert(fv[i as int] == f@[i as int]@);
            }
            kills = kills + f[i].kills as u32;
            deaths = deaths + f[i].deaths as u32;
            assists = assists + f[i].assists as u32;
            wins = wins + if f[i].win {
                1
            } else {
                0
            };
            damage = damage + f[i].damage as u64;
            duration = duration + f[i].game_duration as u64;
            i = i + 1;
        }
        proof {
            assert(fv.subrange(0, total as int) =~= fv);
        }
        // streak of the latest outcome, scanned from the most recent match
        let latest_win = f[0].win;
        let k = streak_len(&f);
        let repeats: i8 = if latest_win {
            k as i8
        } else {
            -(k as i8)
        };
        // KDA in hundredths: (kills + assists) / (deaths + 1)
        let kda_num: u32 = (kills + assists) * 100;
        let kda_den: u32 = deaths + 1;
        let kda_q = kda_num / kda_den;
        let kda_r = kda_num % kda_den;
        let kda_centi: u32 = kda_q + if 2 * kda_r >= kda_den {
            1
        } else {
            0
        };
        // damage per minute in hundredths: damage / duration * 60
        let dpm_centi: u64 = if duration > 0 {
            let dpm_num: u64 = damage * 6000;
            let dpm_q = dpm_num / duration;
            let dpm_r = dpm_num % duration;
            dpm_q + if 2 * dpm_r >= duration {
                1
            } else {
                0
            }
        } else {
            0
        };
        PlayerScore {
            name: String::new(),
            kda_centi,
            dpm_centi,
            repeats,
            wins,
            total: total as u32,
        }
    }
}

/// The tracked player's own line inside one participant entry.
pub ghost struct StatsV {
    pub assists: u16,
    pub deaths: u16,
    pub kills: u16,
    pub win: bool,
    pub damage: u32,
}

/// The stats block of one participant entry.
pub open spec fn stats_of(p: JsonValue) -> Option<StatsV> {
    match json_get(p, "stats"@) {
        Some(s) => match (
            get_u16(s, "assists"@),
            get_u16(s, "deaths"@),
            get_u16(s, "kills"@),
            get_bool(s, "win"@),
            get_u32(s, "totalDamageDealtToChampions"@),
        ) {
            (Some(a), Some(d), Some(k), Some(w), Some(dm)) => Some(
                StatsV { assists: a, deaths: d, kills: k, win: w, damage: dm },
            ),
            _ => None,
        },
        None => None,
    }
}

fn read_stats(p: &JsonValue) -> (r: Option<(u16, u16, u16, bool, u32)>)
    ensures
        match r {
            Some(t) => stats_of(*p) == Some(
                StatsV { assists: t.0, deaths: t.1, kills: t.2, win: t.3, damage: t.4 },
            ),
            None => stats_of(*p) is None,
        },
{
    let s = match p.get("stats") {
        Some(s) => s,
        None => {
            return None;
        },
    };
    let a = read_u16(s, "assists");
    let d = read_u16(s, "deaths");
    let k = read_u16(s, "kills");
    let w = read_bool(s, "win");
    let dm = read_u32(s, "totalDamageDealtToChampions");
    match (a, d, k, w, dm) {
        (Some(a), Some(d), Some(k), Some(w), Some(dm)) => Some((a, d, k, w, dm)),
        _ => None,
    }
}

/// Every participant entry of a match must carry a readable stats block.
pub open spec fn participants_ok(a: Seq<JsonValue>) -> bool
    decreases a.len(),
{
    if a.len() == 0 {
        true
    } else {
        stats_of(a.first()) is Some && participants_ok(a.drop_first())
    }
}

/// One match entry of a history page: the mode, the duration, and the
/// first participant's stats; a match with no participants is rejected.
pub open spec fn match_of(v: JsonValue) -> Option<MatchRecordV> {
    match (get_str(v, "gameMode"@), get_u32(v, "gameDuration"@), get_arr(v, "participants"@)) {
        (Some(mode), Some(dur), Some(parts)) => if participants_ok(parts) && parts.len() > 0 {
            match stats_of(parts[0]) {
                Some(st) => Some(
                    MatchRecordV {
                        game_mode: mode,
                        game_duration: dur,
                        kills: st.kills,
                        deaths: st.deaths,
                        assists: st.assists,
                        win: st.win,
                        damage: st.damage,
                    },
                ),
                None => None,
            }
        } else {
            None
        },
        _ => None,
    }
}

fn read_match(v: &JsonValue) -> (r: Option<MatchRecord>)
    ensures
        match r {
            Some(m) => match_of(*v) == Some(m@),
            None => match_of(*v) is None,
        },
{
    let mode = match read_str(v, "gameMode") {
        Some(x) => x,
        None => {
            return None;
        },
    };
    let dur = match read_u32(v, "gameDuration") {
        Some(x) => x,
        None => {
            return None;
        },
    };
    let parts = match read_arr(v, "participants") {
        Some(x) => x,
        None => {
            return None;
        },
    };
    let n = parts.len();
    if n == 0 {
        return None;
    }
    // every participant entry must be readable, as the feed's page is
    // parsed as a whole
    let mut i: usize = 0;
    proof {
        assert(parts@.skip(0) =~= parts@);
    }
    while i < n
        invariant
            0 <= i <= n == parts@.len(),
            participants_ok(parts@) == participants_ok(parts@.skip(i as int)),
            get_str(*v, "gameMode"@) is Some,
            get_u32(*v, "gameDuration"@) is Some,
            get_arr(*v, "participants"@) == Some(parts@),
        decreases n - i,
    {
        proof {
            assert(parts@.skip(i as int).first() == parts@[i as int]);
            assert(parts@.skip(i as int).drop_first() =~= parts@.skip(i + 1));
        }
        match read_stats(&parts[i]) {
            Some(_) => {},
            None => {
                return None;
            },
        }
        i = i + 1;
    }
    proof {
        assert(parts@.skip(n as int) =~= Seq::<JsonValue>::empty());
    }
    let st = match read_stats(&parts[0]) {
        Some(x) => x,
        None => {
            return None;
        },
    };
    Some(
        MatchRecord {
            game_mode: mode.clone(),
            game_duration: dur,
            kills: st.2,
            deaths: st.1,
            assists: st.0,
            win: st.3,
            damage: st.4,
        },
    )
}

/// A whole history page; one bad entry spoils the page.
pub open spec fn matches_list_of(a: Seq<JsonValue>) -> Option<Seq<MatchRecordV>>
    decreases a.len(),
{
    if a.len() == 0 {
        Some(Seq::empty())
    } else {
        match (match_of(a.first()), matches_list_of(a.drop_first())) {
            (Some(m), Some(rest)) => Some(seq![m] + rest),
            _ => None,
        }
    }
}

/// The nested page shape of a history fetch: the match entries sit under
/// `games.games`.
pub open spec fn matches_payload_of(v: JsonValue) -> Option<Seq<MatchRecordV>> {
    match json_get(v, "games"@) {
        Some(g) => match get_arr(g, "games"@) {
            Some(a) => matches_list_of(a),
            None => None,
        },
        None => None,
    }
}

/// Parse one fetched history page. A page that is not valid JSON, not of
/// the page shape, or longer than a fetch can return, is rejected.
pub fn parse_matches(text: &str) -> (r: Option<Matches>)
    ensures
        match r {
            Some(m) => matches_text_of(text@) == Some(
                m.0@.map_values(|x: MatchRecord| x@),
            ) && m.0@.len() <= MAX_MATCHES,
            None => matches_text_of(text@) is None,
        },
{
    let v = match crate::json::parse_json(text) {
        Some(v) => v,
        None => {
            return None;
        },
    };
    let g = match v.get("games") {
        Some(g) => g,
        None => {
            return None;
        },
    };
    let a = match crate::decode::read_arr(g, "games") {
        Some(a) => a,
        None => {
            return None;
        },
    };
    let n = a.len();
    let mut out: Vec<MatchRecord> = Vec::new();
    let mut i: usize = 0;
    proof {
        assert(a@.skip(0) =~= a@);
        assert(out@.map_values(|x: MatchRecord| x@) =~= Seq::<MatchRecordV>::empty());
    }
    while i < n
        invariant
            0 <= i <= n == a@.len(),
            crate::json::json_of(text@) == Some(v),
            json_get(v, "games"@) == Some(*g),
            get_arr(*g, "games"@) == Some(a@),
            match matches_list_of(a@.skip(i as int)) {
                Some(rest) => matches_list_of(a@) == Some(
                    out@.map_values(|x: MatchRecord| x@) + rest,
                ),
                None => matches_list_of(a@) is None,
            },
        decreases n - i,
    {
        proof {
            assert(a@.skip(i as int).first() == a@[i as int]);
            assert(a@.skip(i as int).drop_first() =~= a@.skip(i + 1));
        }
        match read_match(&a[i]) {
            Some(m) => {
                let ghost before = out@;
                let ghost mv = m@;
                out.push(m);
                proof {
                    assert(out@.map_values(|x: MatchRecord| x@) =~= before.map_values(
                        |x: MatchRecord| x@,
                    ).push(mv));
                    if matches_list_of(a@.skip(i + 1)) is Some {
                        assert(before.map_values(|x: MatchRecord| x@) + (seq![mv]
                            + matches_list_of(a@.skip(i + 1)).unwrap()) =~= out@.map_values(
                            |x: MatchRecord| x@,
                        ) + matches_list_of(a@.skip(i + 1)).unwrap());
                    }
                }
            },
            None => {
                return None;
            },
        }
        i = i + 1;
    }
    proof {
        assert(a@.skip(n as int) =~= Seq::<JsonValue>::empty());
        assert(out@.map_values(|x: MatchRecord| x@) + Seq::<MatchRecordV>::empty()
            =~= out@.map_values(|x: MatchRecord| x@));
    }
    if out.len() > MAX_MATCHES {
        return None;
    }
    Some(Matches(out))
}

/// The parsed history page of a raw fetch body.
pub open spec fn matches_text_of(s: Seq<char>) -> Option<Seq<MatchRecordV>> {
    match crate::json::json_of(s) {
        Some(v) => match matches_payload_of(v) {
            Some(ms) => if ms.len() <= MAX_MATCHES {
                Some(ms)
            } else {
                None
            },
            None => None,
        },
        None => None,
    }
}

/// Turn one player's fetched profile and history bodies into their
/// score for the current mode, under their name; nothing when either
/// body is malformed.
pub fn analyze_player(summoner_text: &str, matches_text: &str, game_mode: &str) -> (r: Option<
    PlayerScore,
>)
    ensures
        match r {
            Some(score) => match (
                crate::context::summoner_text_of(summoner_text@),
                matches_text_of(matches_text@),
            ) {
                (Some(sm), Some(ms)) => {
                    &&& score.name@ == sm.game_name
                    &&& score.total == score_total(ms, game_mode@)
                    &&& score.wins == score_wins(ms, game_mode@)
                    &&& score.kda_centi == score_kda_centi(ms, game_mode@)
                    &&& score.dpm_centi == score_dpm_centi(ms, game_mode@)
                    &&& score.repeats == score_repeats(ms, game_mode@)
                },
                _ => false,
            },
            None => crate::context::summoner_text_of(summoner_text@) is None
                || matches_text_of(matches_text@) is None,
        },
{
    let sm = match crate::context::parse_summoner(summoner_text) {
        Some(s) => s,
        None => {
            return None;
        },
    };
    let ms = match parse_matches(matches_text) {
        Some(m) => m,
        None => {
            return None;
        },
    };
    let mut score = ms.calculate_player_score(game_mode);
    score.set_name(sm.game_name.as_str());
    Some(score)
}

} // verus!
