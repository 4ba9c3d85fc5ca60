//! Historical replay: reconstructing which player and team records were
//! current at a point in time, and accumulating per-day stat sheets into
//! the collections a snapshot holds.
//!
//! Times are plain epoch seconds; update lists come newest first, as the
//! archive serves them.

use vstd::prelude::*;
use vstd::pervasive::VecAdditionalExecFns;

use crate::lookup::{find_first, lemma_find_first_none, lemma_find_first_some};
use crate::models::{AtBatLeader, Game, Player, PitchingStats, StrikeoutLeader, Team, RATING_BOUND};
use crate::state::{at_bats_player_is, strikeouts_player_is};

verus! {

/// One archived player record, stamped with when it was first seen.
#[derive(Debug, Clone)]
pub struct PlayerUpdate {
    pub data: Player,
    pub first_seen: i64,
}

/// One archived team record, stamped with when it was first seen.
#[derive(Debug, Clone)]
pub struct TeamUpdate {
    pub data: Team,
    pub first_seen: i64,
}

/// The predicate "this update was first seen at or before `time`".
pub open spec fn player_seen_by(time: i64) -> spec_fn(PlayerUpdate) -> bool {
    |u: PlayerUpdate| u.first_seen <= time
}

/// The predicate "this player update describes player `id`".
pub open spec fn player_update_id_is(id: Seq<char>) -> spec_fn(PlayerUpdate) -> bool {
    |u: PlayerUpdate| u.data.id@ == id
}

/// The predicate "this update was first seen at or before `time`".
pub open spec fn team_seen_by(time: i64) -> spec_fn(TeamUpdate) -> bool {
    |u: TeamUpdate| u.first_seen <= time
}

/// The predicate "this team update describes team `id`".
pub open spec fn team_update_id_is(id: Seq<char>) -> spec_fn(TeamUpdate) -> bool {
    |u: TeamUpdate| u.data.id@ == id
}

/// A list of id strings contains the given id.
pub open spec fn seq_contains_str(s: Seq<String>, id: Seq<char>) -> bool {
    exists|i: int| 0 <= i < s.len() && s[i]@ == id
}

/// Linear membership test over id strings.
fn contains_string(v: &Vec<String>, id: &String) -> (r: bool)
    ensures
        r == seq_contains_str(v@, id@),
{
    let n = v.len();
    for i in 0..n
        invariant
            n == v@.len(),
            forall|j: int| 0 <= j < i ==> v@[j]@ != id@,
    {
        if v[i] == *id {
            return true;
        }
    }
    false
}

/// The distinct player ids of the first `n` updates, in order of first
/// appearance.
pub open spec fn spec_distinct_player_ids(us: Seq<PlayerUpdate>, n: int) -> Seq<String>
    decreases n,
{
    if n <= 0 {
        Seq::empty()
    } else {
        let prefix = spec_distinct_player_ids(us, n - 1);
        if seq_contains_str(prefix, us[n - 1].data.id@) {
            prefix
        } else {
            prefix.push(us[n - 1].data.id)
        }
    }
}

/// The distinct team ids of the first `n` updates, in order of first
/// appearance.
pub open spec fn spec_distinct_team_ids(us: Seq<TeamUpdate>, n: int) -> Seq<String>
    decreases n,
{
    if n <= 0 {
        Seq::empty()
    } else {
        let prefix = spec_distinct_team_ids(us, n - 1);
        if seq_contains_str(prefix, us[n - 1].data.id@) {
            prefix
        } else {
            prefix.push(us[n - 1].data.id)
        }
    }
}

/// Where the scan for a point-in-time record starts: the updates are
/// newest first, so everything before the first update seen by `time` is
/// too new to count.
pub open spec fn spec_player_cutoff(us: Seq<PlayerUpdate>, time: i64) -> int {
    match find_first(us, player_seen_by(time)) {
        Some(k) => k,
        None => us.len() as int,
    }
}

/// Where the scan for a point-in-time team record starts.
pub open spec fn spec_team_cutoff(us: Seq<TeamUpdate>, time: i64) -> int {
    match find_first(us, team_seen_by(time)) {
        Some(k) => k,
        None => us.len() as int,
    }
}

/// For each id in order, the index of its first update at or past the
/// cutoff; ids with none are dropped.
pub open spec fn spec_player_picks(us: Seq<PlayerUpdate>, from: int, ids: Seq<String>) -> Seq<usize>
    decreases ids.len(),
{
    if ids.len() == 0 {
        Seq::empty()
    } else {
        let prefix = spec_player_picks(us, from, ids.drop_last());
        match find_first(us.subrange(from, us.len() as int), player_update_id_is(ids.last()@)) {
            Some(j) => prefix.push((from + j) as usize),
            None => prefix,
        }
    }
}

/// For each team id in order, the index of its first update at or past
/// the cutoff; ids with none are dropped.
pub open spec fn spec_team_picks(us: Seq<TeamUpdate>, from: int, ids: Seq<String>) -> Seq<usize>
    decreases ids.len(),
{
    if ids.len() == 0 {
        Seq::empty()
    } else {
        let prefix = spec_team_picks(us, from, ids.drop_last());
        match find_first(us.subrange(from, us.len() as int), team_update_id_is(ids.last()@)) {
            Some(j) => prefix.push((from + j) as usize),
            None => prefix,
        }
    }
}

/// The update indices that describe each distinct player as of `time`.
pub open spec fn spec_players_at(us: Seq<PlayerUpdate>, time: i64) -> Seq<usize> {
    spec_player_picks(
        us,
        spec_player_cutoff(us, time),
        spec_distinct_player_ids(us, us.len() as int),
    )
}

/// The update indices that describe each distinct team as of `time`.
pub open spec fn spec_teams_at(us: Seq<TeamUpdate>, time: i64) -> Seq<usize> {
    spec_team_picks(us, spec_team_cutoff(us, time), spec_distinct_team_ids(us, us.len() as int))
}

/// A field-for-field copy of a player record.
fn clone_player(p: &Player) -> (r: Player)
    ensures
        r == *p,
{
    Player {
        id: p.id.clone(),
        name: p.name.clone(),
        ruthlessness: p.ruthlessness,
        patheticism: p.patheticism,
        pitching_rating: p.pitching_rating,
        hitting_rating: p.hitting_rating,
    }
}

/// A copy of a list of id strings, element for element.
fn clone_string_vec(v: &Vec<String>) -> (r: Vec<String>)
    ensures
        r@ == v@,
{
    let mut r: Vec<String> = Vec::new();
    let n = v.len();
    for i in 0..n
        invariant
            n == v@.len(),
            r@.len() == i,
            forall|j: int| 0 <= j < i ==> #[trigger] r@[j] == v@[j],
    {
        r.push(v[i].clone());
    }
    proof {
        assert(r@ =~= v@);
    }
    r
}

/// Two team records carry the same data, field for field (list fields
/// compared by contents).
pub open spec fn team_eq(a: Team, b: Team) -> bool {
    &&& a.id == b.id
    &&& a.full_name == b.full_name
    &&& a.lineup@ == b.lineup@
    &&& a.rotation@ == b.rotation@
    &&& a.bullpen@ == b.bullpen@
    &&& a.bench@ == b.bench@
    &&& a.perm_attr@ == b.perm_attr@
}

/// A field-for-field copy of a team record.
fn clone_team(t: &Team) -> (r: Team)
    ensures
        team_eq(r, *t),
{
    Team {
        id: t.id.clone(),
        full_name: t.full_name.clone(),
        lineup: clone_string_vec(&t.lineup),
        rotation: clone_string_vec(&t.rotation),
        bullpen: clone_string_vec(&t.bullpen),
        bench: clone_string_vec(&t.bench),
        perm_attr: clone_string_vec(&t.perm_attr),
    }
}

/// The distinct player ids of the archive, in order of first appearance.
fn distinct_player_ids(updates: &Vec<PlayerUpdate>) -> (r: Vec<String>)
    ensures
        r@ == spec_distinct_player_ids(updates@, updates@.len() as int),
{
    let mut r: Vec<String> = Vec::new();
    let n = updates.len();
    for i in 0..n
        invariant
            n == updates@.len(),
            r@ == spec_distinct_player_ids(updates@, i as int),
    {
        if !contains_string(&r, &updates[i].data.id) {
            r.push(updates[i].data.id.clone());
        }
    }
    r
}

/// The distinct team ids of the archive, in order of first appearance.
fn distinct_team_ids(updates: &Vec<TeamUpdate>) -> (r: Vec<String>)
    ensures
        r@ == spec_distinct_team_ids(updates@, updates@.len() as int),
{
    let mut r: Vec<String> = Vec::new();
    let n = updates.len();
    for i in 0..n
        invariant
            n == updates@.len(),
            r@ == spec_distinct_team_ids(updates@, i as int),
    {
        if !contains_string(&r, &updates[i].data.id) {
            r.push(updates[i].data.id.clone());
        }
    }
    r
}

/// The first player update at or past `from` describing player `id`.
fn find_player_from(updates: &Vec<PlayerUpdate>, from: usize, id: &String) -> (r: Option<usize>)
    requires
        from <= updates@.len(),
    ensures
        ({
            let found = find_first(
                updates@.subrange(from as int, updates@.len() as int),
                player_update_id_is(id@),
            );
            match r {
                Some(k) => from <= k < updates@.len() && found == Some(k - from),
                None => found is None,
            }
        }),
{
    let ghost sub = updates@.subrange(from as int, updates@.len() as int);
    let n = updates.len();
    let mut i = from;
    while i < n
        invariant
            from <= i <= n,
            n == updates@.len(),
            sub == updates@.subrange(from as int, updates@.len() as int),
            forall|j: int| 0 <= j < i - from ==> !player_update_id_is(id@)(#[trigger] sub[j]),
        decreases n - i,
    {
        if updates[i].data.id == *id {
            proof {
                assert(sub[i - from] == updates@[i as int]);
                lemma_find_first_some(sub, player_update_id_is(id@), i - from);
            }
            return Some(i);
        }
        proof {
            assert(sub[i - from] == updates@[i as int]);
        }
        i = i + 1;
    }
    proof {
        lemma_find_first_none(sub, player_update_id_is(id@));
    }
    None
}

/// The first team update at or past `from` describing team `id`.
fn find_team_from(updates: &Vec<TeamUpdate>, from: usize, id: &String) -> (r: Option<usize>)
    requires
        from <= updates@.len(),
    ensures
        ({
            let found = find_first(
                updates@.subrange(from as int, updates@.len() as int),
                team_update_id_is(id@),
            );
            match r {
                Some(k) => from <= k < updates@.len() && found == Some(k - from),
                None => found is None,
            }
        }),
{
    let ghost sub = updates@.subrange(from as int, updates@.len() as int);
    let n = updates.len();
    let mut i = from;
    while i < n
        invariant
            from <= i <= n,
            n == updates@.len(),
            sub == updates@.subrange(from as int, updates@.len() as int),
            forall|j: int| 0 <= j < i - from ==> !team_update_id_is(id@)(#[trigger] sub[j]),
        decreases n - i,
    {
        if updates[i].data.id == *id {
            proof {
                assert(sub[i - from] == updates@[i as int]);
                lemma_find_first_some(sub, team_update_id_is(id@), i - from);
            }
            return Some(i);
        }
        proof {
            assert(sub[i - from] == updates@[i as int]);
        }
        i = i + 1;
    }
    proof {
        lemma_find_first_none(sub, team_update_id_is(id@));
    }
    None
}

/// The newest-first scan's starting point for players: skip updates newer
/// than `time`.
fn player_cutoff(updates: &Vec<PlayerUpdate>, time: i64) -> (r: usize)
    ensures
        r as int == spec_player_cutoff(updates@, time),
        r <= updates@.len(),
{
    let n = updates.len();
    let mut k: usize = 0;
    while k < n && updates[k].first_seen > time
        invariant
            k <= n,
            n == updates@.len(),
            forall|j: int| 0 <= j < k ==> !player_seen_by(time)(#[trigger] updates@[j]),
        decreases n - k,
    {
        k = k + 1;
    }
    proof {
        if k < n {
            lemma_find_first_some(updates@, player_seen_by(time), k as int);
        } else {
            lemma_find_first_none(updates@, player_seen_by(time));
        }
    }
    k
}

/// The newest-first scan's starting point for teams.
fn team_cutoff(updates: &Vec<TeamUpdate>, time: i64) -> (r: usize)
    ensures
        r as int == spec_team_cutoff(updates@, time),
        r <= updates@.len(),
{
    let n = updates.len();
    let mut k: usize = 0;
    while k < n && updates[k].first_seen > time
        invariant
            k <= n,
            n == updates@.len(),
            forall|j: int| 0 <= j < k ==> !team_seen_by(time)(#[trigger] updates@[j]),
        decreases n - k,
    {
        k = k + 1;
    }
    proof {
        if k < n {
            lemma_find_first_some(updates@, team_seen_by(time), k as int);
        } else {
            lemma_find_first_none(updates@, team_seen_by(time));
        }
    }
    k
}

/// The player records current at `time`, as indices into the archive:
/// for each distinct player, its first record not newer than `time`. Use
/// [`player_record_at`] to materialise a record.
pub fn players_at(updates: &Vec<PlayerUpdate>, time: i64) -> (r: Vec<usize>)
    ensures
        r@ == spec_players_at(updates@, time),
        forall|i: int| 0 <= i < r@.len() ==> #[trigger] r@[i] < updates@.len(),
{
    let ids = distinct_player_ids(updates);
    let from = player_cutoff(updates, time);
    let mut r: Vec<usize> = Vec::new();
    let m = ids.len();
    for i in 0..m
        invariant
            m == ids@.len(),
            from <= updates@.len(),
            from as int == spec_player_cutoff(updates@, time),
            ids@ == spec_distinct_player_ids(updates@, updates@.len() as int),
            r@ == spec_player_picks(updates@, from as int, ids@.take(i as int)),
            forall|j: int| 0 <= j < r@.len() ==> #[trigger] r@[j] < updates@.len(),
    {
        proof {
            assert(ids@.take(i + 1).drop_last() =~= ids@.take(i as int));
            assert(ids@.take(i + 1).last() == ids@[i as int]);
        }
        if let Some(k) = find_player_from(updates, from, &ids[i]) {
            r.push(k);
        }
    }
    proof {
        assert(ids@.take(m as int) =~= ids@);
    }
    r
}

/// Materialise the archived player record at `idx` as a free-agent
/// position (the archive does not carry team affiliation).
pub fn player_record_at(updates: &Vec<PlayerUpdate>, idx: usize) -> (r: crate::models::Position)
    requires
        idx < updates@.len(),
    ensures
        r.id == updates@[idx as int].data.id,
        r.data == updates@[idx as int].data,
        r.team_id@ == Seq::<char>::empty(),
{
    crate::models::Position {
        id: updates[idx].data.id.clone(),
        team_id: String::new(),
        data: clone_player(&updates[idx].data),
    }
}

/// The team records current at `time`, as indices into the archive: for
/// each distinct team, its first record not newer than `time`. Use
/// [`team_record_at`] to materialise a record.
pub fn teams_at(updates: &Vec<TeamUpdate>, time: i64) -> (r: Vec<usize>)
    ensures
        r@ == spec_teams_at(updates@, time),
        forall|i: int| 0 <= i < r@.len() ==> #[trigger] r@[i] < updates@.len(),
{
    let ids = distinct_team_ids(updates);
    let from = team_cutoff(updates, time);
    let mut r: Vec<usize> = Vec::new();
    let m = ids.len();
    for i in 0..m
        invariant
            m == ids@.len(),
            from <= updates@.len(),
            from as int == spec_team_cutoff(updates@, time),
            ids@ == spec_distinct_team_ids(updates@, updates@.len() as int),
            r@ == spec_team_picks(updates@, from as int, ids@.take(i as int)),
            forall|j: int| 0 <= j < r@.len() ==> #[trigger] r@[j] < updates@.len(),
    {
        proof {
            assert(ids@.take(i + 1).drop_last() =~= ids@.take(i as int));
            assert(ids@.take(i + 1).last() == ids@[i as int]);
        }
        if let Some(k) = find_team_from(updates, from, &ids[i]) {
            r.push(k);
        }
    }
    proof {
        assert(ids@.take(m as int) =~= ids@);
    }
    r
}

/// Materialise the archived team record at `idx`.
pub fn team_record_at(updates: &Vec<TeamUpdate>, idx: usize) -> (r: Team)
    requires
        idx < updates@.len(),
    ensures
        team_eq(r, updates@[idx as int].data),
{
    clone_team(&updates[idx].data)
}

/// Addition that stops at the top of the range instead of overflowing.
fn sat_add(a: u64, b: u64) -> (r: u64)
    ensures
        r as int == if a + b <= u64::MAX {
            a + b
        } else {
            u64::MAX as int
        },
{
    if a <= u64::MAX - b {
        a + b
    } else {
        u64::MAX
    }
}

/// A pitcher's accumulated strikeouts and innings.
#[derive(Debug, Clone, Copy, PartialEq, Eq, Structural)]
pub struct PitchingData {
    pub strikeouts: u64,
    pub innings_pitched: u64,
}

/// One pitcher's accumulator entry.
#[derive(Debug, Clone)]
pub struct PitcherEntry {
    pub player_id: String,
    pub data: PitchingData,
}

/// One player's stat sheet for one day.
#[derive(Debug, Clone)]
pub struct PlayerStatsheet {
    pub player_id: String,
    pub team_id: String,
    pub strikeouts: u64,
    pub at_bats: u64,
    pub struckouts: u64,
}

/// The predicate "this accumulator entry belongs to player `id`".
pub open spec fn pitcher_entry_id_is(id: Seq<char>) -> spec_fn(PitcherEntry) -> bool {
    |e: PitcherEntry| e.player_id@ == id
}

/// Running totals accumulated from per-day stat sheets, each list keyed by
/// player id with first-match lookup.
#[derive(Debug)]
pub struct StatState {
    pub pitchers: Vec<PitcherEntry>,
    pub strikeouts: Vec<StrikeoutLeader>,
    pub at_bats: Vec<AtBatLeader>,
}

impl StatState {
    /// An empty accumulator.
    pub fn new() -> (r: StatState)
        ensures
            r.pitchers@ == Seq::<PitcherEntry>::empty(),
            r.strikeouts@ == Seq::<StrikeoutLeader>::empty(),
            r.at_bats@ == Seq::<AtBatLeader>::empty(),
    {
        StatState { pitchers: Vec::new(), strikeouts: Vec::new(), at_bats: Vec::new() }
    }

    /// Fold a batter's sheet into the totals: their struck-out count and
    /// at-bats are added to their entries, which are created at zero on
    /// first sight. Totals stop at the top of the range instead of
    /// overflowing.
    pub fn update_batter(&mut self, sheet: &PlayerStatsheet)
        ensures
            ({
                let old_so = old(self).strikeouts@;
                match find_first(old_so, strikeouts_player_is(sheet.player_id@)) {
                    Some(i) => final(self).strikeouts@ == old_so.update(
                        i,
                        StrikeoutLeader {
                            player_id: old_so[i].player_id,
                            strikeouts: if old_so[i].strikeouts + sheet.struckouts <= u64::MAX {
                                (old_so[i].strikeouts + sheet.struckouts) as u64
                            } else {
                                u64::MAX
                            },
                        },
                    ),
                    None => final(self).strikeouts@ == old_so.push(
                        StrikeoutLeader { player_id: sheet.player_id, strikeouts: sheet.struckouts },
                    ),
                }
            }),
            ({
                let old_ab = old(self).at_bats@;
                match find_first(old_ab, at_bats_player_is(sheet.player_id@)) {
                    Some(i) => final(self).at_bats@ == old_ab.update(
                        i,
                        AtBatLeader {
                            player_id: old_ab[i].player_id,
                            at_bats: if old_ab[i].at_bats + sheet.at_bats <= u64::MAX {
                                (old_ab[i].at_bats + sheet.at_bats) as u64
                            } else {
                                u64::MAX
                            },
                        },
                    ),
                    None => final(self).at_bats@ == old_ab.push(
                        AtBatLeader { player_id: sheet.player_id, at_bats: sheet.at_bats },
                    ),
                }
            }),
            final(self).pitchers@ == old(self).pitchers@,
    {
        let so_idx = find_strikeout_entry(&self.strikeouts, &sheet.player_id);
        match so_idx {
            Some(i) => {
                let entry = StrikeoutLeader {
                    player_id: self.strikeouts[i].player_id.clone(),
                    strikeouts: sat_add(self.strikeouts[i].strikeouts, sheet.struckouts),
                };
                self.strikeouts.set(i, entry);
            },
            None => {
                self.strikeouts.push(
                    StrikeoutLeader {
                        player_id: sheet.player_id.clone(),
                        strikeouts: sheet.struckouts,
                    },
                );
            },
        }
        let ab_idx = find_at_bat_entry(&self.at_bats, &sheet.player_id);
        match ab_idx {
            Some(i) => {
                let entry = AtBatLeader {
                    player_id: self.at_bats[i].player_id.clone(),
                    at_bats: sat_add(self.at_bats[i].at_bats, sheet.at_bats),
                };
                self.at_bats.set(i, entry);
            },
            None => {
                self.at_bats.push(
                    AtBatLeader { player_id: sheet.player_id.clone(), at_bats: sheet.at_bats },
                );
            },
        }
    }

    /// Fold a pitcher's sheet into the totals, given the game it came
    /// from: their strikeouts grow by the sheet's count and their innings
    /// by the game's progress counter plus one.
    pub fn update_pitcher(&mut self, sheet: &PlayerStatsheet, game: &Game)
        requires
            0 <= game.inning < i64::MAX,
        ensures
            ({
                let old_p = old(self).pitchers@;
                let innings = (game.inning + 1) as u64;
                match find_first(old_p, pitcher_entry_id_is(sheet.player_id@)) {
                    Some(i) => final(self).pitchers@ == old_p.update(
                        i,
                        PitcherEntry {
                            player_id: old_p[i].player_id,
                            data: PitchingData {
                                strikeouts: if old_p[i].data.strikeouts + sheet.strikeouts
                                    <= u64::MAX {
                                    (old_p[i].data.strikeouts + sheet.strikeouts) as u64
                                } else {
                                    u64::MAX
                                },
                                innings_pitched: if old_p[i].data.innings_pitched + innings
                                    <= u64::MAX {
                                    (old_p[i].data.innings_pitched + innings) as u64
                                } else {
                                    u64::MAX
                                },
                            },
                        },
                    ),
                    None => final(self).pitchers@ == old_p.push(
                        PitcherEntry {
                            player_id: sheet.player_id,
                            data: PitchingData {
                                strikeouts: sheet.strikeouts,
                                innings_pitched: innings,
                            },
                        },
                    ),
                }
            }),
            final(self).strikeouts@ == old(self).strikeouts@,
            final(self).at_bats@ == old(self).at_bats@,
    {
        let innings = (game.inning + 1) as u64;
        let idx = find_pitcher_entry(&self.pitchers, &sheet.player_id);
        match idx {
            Some(i) => {
                let entry = PitcherEntry {
                    player_id: self.pitchers[i].player_id.clone(),
                    data: PitchingData {
                        strikeouts: sat_add(self.pitchers[i].data.strikeouts, sheet.strikeouts),
                        innings_pitched: sat_add(self.pitchers[i].data.innings_pitched, innings),
                    },
                };
                self.pitchers.set(i, entry);
            },
            None => {
                self.pitchers.push(
                    PitcherEntry {
                        player_id: sheet.player_id.clone(),
                        data: PitchingData {
                            strikeouts: sheet.strikeouts,
                            innings_pitched: innings,
                        },
                    },
                );
            },
        }
    }

    /// The accumulated pitching lines: strikeouts per nine innings in
    /// milli fixed point, computed from the totals; a pitcher with no
    /// recorded innings rates zero, and a rate beyond the fixed-point
    /// bound stops there.
    pub fn pitcher_lines(&self) -> (r: Vec<PitchingStats>)
        ensures
            r@.len() == self.pitchers@.len(),
            forall|i: int|
                0 <= i < r@.len() ==> {
                    let e = self.pitchers@[i];
                    &&& (#[trigger] r@[i]).player_id == e.player_id
                    &&& r@[i].games == 0
                    &&& r@[i].k_per_9 as int == spec_k_per_9_milli(
                        e.data.strikeouts,
                        e.data.innings_pitched,
                    )
                },
    {
        let mut r: Vec<PitchingStats> = Vec::new();
        let n = self.pitchers.len();
        for i in 0..n
            invariant
                n == self.pitchers@.len(),
                r@.len() == i,
                forall|j: int|
                    0 <= j < i ==> {
                        let e = self.pitchers@[j];
                        &&& (#[trigger] r@[j]).player_id == e.player_id
                        &&& r@[j].games == 0
                        &&& r@[j].k_per_9 as int == spec_k_per_9_milli(
                            e.data.strikeouts,
                            e.data.innings_pitched,
                        )
                    },
        {
            let e = &self.pitchers[i];
            let k: i64 = if e.data.innings_pitched == 0 {
                0
            } else {
                let q = (e.data.strikeouts as u128) * 9000 / (e.data.innings_pitched as u128);
                if q > RATING_BOUND as u128 {
                    RATING_BOUND
                } else {
                    q as i64
                }
            };
            r.push(
                PitchingStats { player_id: e.player_id.clone(), k_per_9: k, games: 0 },
            );
        }
        r
    }
}

/// Strikeouts per nine innings in milli fixed point, from totals: zero
/// without innings, stopped at the fixed-point bound.
pub open spec fn spec_k_per_9_milli(strikeouts: u64, innings: u64) -> int {
    if innings == 0 {
        0
    } else {
        let q = strikeouts * 9000 / innings as int;
        if q > RATING_BOUND {
            RATING_BOUND as int
        } else {
            q
        }
    }
}

/// First-match lookup of a strikeout entry by player id.
fn find_strikeout_entry(v: &Vec<StrikeoutLeader>, id: &String) -> (r: Option<usize>)
    ensures
        match r {
            Some(i) => i < v@.len() && find_first(v@, strikeouts_player_is(id@)) == Some(i as int),
            None => find_first(v@, strikeouts_player_is(id@)) is None,
        },
{
    let n = v.len();
    for i in 0..n
        invariant
            n == v@.len(),
            forall|j: int| 0 <= j < i ==> !strikeouts_player_is(id@)(#[trigger] v@[j]),
    {
        if v[i].player_id == *id {
            proof {
                lemma_find_first_some(v@, strikeouts_player_is(id@), i as int);
            }
            return Some(i);
        }
    }
    proof {
        lemma_find_first_none(v@, strikeouts_player_is(id@));
    }
    None
}

/// First-match lookup of an at-bat entry by player id.
fn find_at_bat_entry(v: &Vec<AtBatLeader>, id: &String) -> (r: Option<usize>)
    ensures
        match r {
            Some(i) => i < v@.len() && find_first(v@, at_bats_player_is(id@)) == Some(i as int),
            None => find_first(v@, at_bats_player_is(id@)) is None,
        },
{
    let n = v.len();
    for i in 0..n
        invariant
            n == v@.len(),
            forall|j: int| 0 <= j < i ==> !at_bats_player_is(id@)(#[trigger] v@[j]),
    {
        if v[i].player_id == *id {
            proof {
                lemma_find_first_some(v@, at_bats_player_is(id@), i as int);
            }
            return Some(i);
        }
    }
    proof {
        lemma_find_first_none(v@, at_bats_player_is(id@));
    }
    None
}

/// First-match lookup of a pitcher accumulator entry by player id.
fn find_pitcher_entry(v: &Vec<PitcherEntry>, id: &String) -> (r: Option<usize>)
    ensures
        match r {
            Some(i) => i < v@.len() && find_first(v@, pitcher_entry_id_is(id@)) == Some(i as int),
            None => find_first(v@, pitcher_entry_id_is(id@)) is None,
        },
{
    let n = v.len();
    for i in 0..n
        invariant
            n == v@.len(),
            forall|j: int| 0 <= j < i ==> !pitcher_entry_id_is(id@)(#[trigger] v@[j]),
    {
        if v[i].player_id == *id {
            proof {
                lemma_find_first_some(v@, pitcher_entry_id_is(id@), i as int);
            }
            return Some(i);
        }
    }
    proof {
        lemma_find_first_none(v@, pitcher_entry_id_is(id@));
    }
    None
}

/// The sum, smallest and largest of a list of strikeout counts, for the
/// replay's summary; the sum stops at the top of the range.
pub fn summary_stats(xs: &Vec<u64>) -> (r: Option<(u64, u64, u64)>)
    ensures
        r is Some <==> xs@.len() > 0,
        r is Some ==> {
            let (sum, lo, hi) = r.unwrap();
            &&& forall|i: int| 0 <= i < xs@.len() ==> lo <= #[trigger] xs@[i] <= hi
            &&& exists|i: int| 0 <= i < xs@.len() && xs@[i] == lo
            &&& exists|i: int| 0 <= i < xs@.len() && xs@[i] == hi
        },
{
    if xs.len() == 0 {
        return None;
    }
    let mut sum = xs[0];
    let mut lo = xs[0];
    let mut hi = xs[0];
    let n = xs.len();
    for i in 1..n
        invariant
            1 <= n == xs@.len(),
            forall|j: int| 0 <= j < i ==> lo <= #[trigger] xs@[j] <= hi,
            exists|j: int| 0 <= j < i && xs@[j] == lo,
            exists|j: int| 0 <= j < i && xs@[j] == hi,
    {
        sum = sat_add(sum, xs[i]);
        if xs[i] < lo {
            lo = xs[i];
        }
        if xs[i] > hi {
            hi = xs[i];
        }
    }
    Some((sum, lo, hi))
}

} // verus!
