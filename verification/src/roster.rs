//! Player-table rows and their order: by team label, then by score from
//! high to low, then by name, then by SteamID.

use vstd::prelude::*;

use crate::labels::{team_label, team_str};
use crate::model::{PlayerInfo, WeaponInfo, WeaponState};
use crate::text::{
    chars_eq, chars_lt, chars_of, lemma_seq_lt_irreflexive, lemma_seq_lt_total,
    lemma_seq_lt_transitive, seq_lt,
};
use crate::ui::{rows, PlayerRow, PlayerView};

verus! {

broadcast use vstd::seq_lib::group_to_multiset_ensures;

/// Name of the first weapon in inventory order whose state is `Active`.
pub open spec fn first_active_weapon(ws: Seq<WeaponInfo>) -> Option<Seq<char>>
    decreases ws.len(),
{
    if ws.len() == 0 {
        None
    } else if ws[0].state == WeaponState::Active {
        Some(ws[0].name@)
    } else {
        first_active_weapon(ws.drop_first())
    }
}

/// The table row of player `p` listed under SteamID `sid`.
pub open spec fn player_row(p: PlayerInfo, sid: Seq<char>, is_local: bool) -> PlayerRow {
    PlayerRow {
        steamid: sid,
        name: p.name@,
        team: team_label(p.team),
        health: p.health,
        armor: p.armor,
        money: p.money,
        kills: p.kills,
        assists: p.assists,
        deaths: p.deaths,
        mvps: p.mvps,
        score: p.score,
        round_kills: p.round_kills,
        round_hs: p.round_killhs,
        is_alive: p.health > 0,
        is_local,
        weapon_active: first_active_weapon(p.weapons@),
    }
}

/// The active weapon's name, if any weapon is active.
fn active_weapon(ws: &Vec<WeaponInfo>) -> (r: Option<String>)
    ensures
        match r {
            Some(s) => first_active_weapon(ws@) == Some(s@),
            None => first_active_weapon(ws@) is None,
        },
{
    let mut i: usize = 0;
    assert(ws@.skip(0) =~= ws@);
    while i < ws.len()
        invariant
            i <= ws.len(),
            first_active_weapon(ws@) == first_active_weapon(ws@.skip(i as int)),
        decreases ws.len() - i,
    {
        assert(ws@.skip(i as int)[0] == ws@[i as int]);
        if ws[i].state == WeaponState::Active {
            return Some(ws[i].name.clone());
        }
        assert(ws@.skip(i as int).drop_first() =~= ws@.skip(i + 1));
        i += 1;
    }
    None
}

/// The table row of player `p` listed under SteamID `sid`.
pub fn player_view(p: &PlayerInfo, sid: &str, is_local: bool) -> (r: PlayerView)
    ensures
        r@ == player_row(*p, sid@, is_local),
{
    let weapon_active = active_weapon(&p.weapons);
    PlayerView {
        steamid: sid.to_string(),
        name: p.name.clone(),
        team: team_str(&p.team),
        health: p.health,
        armor: p.armor,
        money: p.money,
        kills: p.kills,
        assists: p.assists,
        deaths: p.deaths,
        mvps: p.mvps,
        score: p.score,
        round_kills: p.round_kills,
        round_hs: p.round_killhs,
        is_alive: p.health > 0,
        is_local,
        weapon_active,
    }
}

/// Row `a` is listed before row `b`: smaller team label first, then higher
/// score, then smaller name, then smaller SteamID.
pub open spec fn row_before(a: PlayerRow, b: PlayerRow) -> bool {
    ||| seq_lt(a.team, b.team)
    ||| a.team == b.team && a.score > b.score
    ||| a.team == b.team && a.score == b.score && seq_lt(a.name, b.name)
    ||| a.team == b.team && a.score == b.score && a.name == b.name && seq_lt(a.steamid, b.steamid)
}

/// No later row comes before an earlier one.
pub open spec fn rows_sorted(s: Seq<PlayerRow>) -> bool {
    forall|i: int, j: int| 0 <= i < j < s.len() ==> !row_before(#[trigger] s[j], #[trigger] s[i])
}

/// `row_before` is irreflexive.
pub proof fn lemma_row_before_irreflexive(a: PlayerRow)
    ensures
        !row_before(a, a),
{
    lemma_seq_lt_irreflexive(a.team);
    lemma_seq_lt_irreflexive(a.name);
    lemma_seq_lt_irreflexive(a.steamid);
}

/// `row_before` is transitive.
pub proof fn lemma_row_before_transitive(a: PlayerRow, b: PlayerRow, c: PlayerRow)
    requires
        row_before(a, b),
        row_before(b, c),
    ensures
        row_before(a, c),
{
    if seq_lt(a.team, b.team) && seq_lt(b.team, c.team) {
        lemma_seq_lt_transitive(a.team, b.team, c.team);
    }
    if seq_lt(a.name, b.name) && seq_lt(b.name, c.name) {
        lemma_seq_lt_transitive(a.name, b.name, c.name);
    }
    if seq_lt(a.steamid, b.steamid) && seq_lt(b.steamid, c.steamid) {
        lemma_seq_lt_transitive(a.steamid, b.steamid, c.steamid);
    }
}

/// Rows with distinct SteamIDs are ordered one way or the other.
pub proof fn lemma_row_before_total(a: PlayerRow, b: PlayerRow)
    requires
        a.steamid != b.steamid,
    ensures
        row_before(a, b) || row_before(b, a),
{
    lemma_seq_lt_total(a.team, b.team);
    lemma_seq_lt_total(a.name, b.name);
    lemma_seq_lt_total(a.steamid, b.steamid);
}

/// `row_before` is asymmetric.
pub proof fn lemma_row_before_asymmetric(a: PlayerRow, b: PlayerRow)
    ensures
        row_before(a, b) ==> !row_before(b, a),
{
    if row_before(a, b) && row_before(b, a) {
        lemma_row_before_transitive(a, b, a);
        lemma_row_before_irreflexive(a);
    }
}

proof fn lemma_insert_multiset<A>(s: Seq<A>, j: int, a: A)
    requires
        0 <= j <= s.len(),
    ensures
        s.insert(j, a).to_multiset() =~= s.to_multiset().insert(a),
{
    let t = s.insert(j, a);
    assert(t.remove(j) =~= s);
    assert(t.contains(a)) by {
        assert(t[j] == a);
    }
    assert(t.to_multiset().count(a) > 0);
}

proof fn lemma_insert_sorted(s: Seq<PlayerRow>, j: int, x: PlayerRow)
    requires
        rows_sorted(s),
        0 <= j <= s.len(),
        forall|k: int| 0 <= k < j ==> !row_before(x, #[trigger] s[k]),
        j < s.len() ==> row_before(x, s[j]),
    ensures
        rows_sorted(s.insert(j, x)),
{
    let t = s.insert(j, x);
    assert forall|p: int, q: int| 0 <= p < q < t.len() implies !row_before(
        #[trigger] t[q],
        #[trigger] t[p],
    ) by {
        if q == j {
            assert(t[p] == s[p]);
        } else if p == j {
            assert(t[q] == s[q - 1]);
            if row_before(s[q - 1], x) {
                lemma_row_before_transitive(s[q - 1], x, s[j]);
                if q - 1 == j {
                    lemma_row_before_irreflexive(s[j]);
                } else {
                    assert(!row_before(s[q - 1], s[j]));
                }
            }
        } else if p < j && q < j {
            assert(t[p] == s[p] && t[q] == s[q]);
        } else if p < j {
            assert(t[p] == s[p] && t[q] == s[q - 1]);
        } else {
            assert(t[p] == s[p - 1] && t[q] == s[q - 1]);
        }
    }
}

fn view_before(a: &PlayerView, b: &PlayerView) -> (r: bool)
    ensures
        r == row_before(a@, b@),
{
    let at = chars_of(a.team.as_str());
    let bt = chars_of(b.team.as_str());
    if chars_lt(&at, &bt) {
        return true;
    }
    if !chars_eq(&at, &bt) {
        return false;
    }
    if a.score != b.score {
        return a.score > b.score;
    }
    let an = chars_of(a.name.as_str());
    let bn = chars_of(b.name.as_str());
    if chars_lt(&an, &bn) {
        return true;
    }
    if !chars_eq(&an, &bn) {
        return false;
    }
    let ai = chars_of(a.steamid.as_str());
    let bi = chars_of(b.steamid.as_str());
    chars_lt(&ai, &bi)
}

/// The rows of `v`, reordered so that no row is listed after one it
/// comes before.
pub fn sort_players(v: Vec<PlayerView>) -> (r: Vec<PlayerView>)
    ensures
        rows(r@).to_multiset() == rows(v@).to_multiset(),
        rows_sorted(rows(r@)),
{
    let ghost m0 = rows(v@).to_multiset();
    let mut rest = v;
    let mut out: Vec<PlayerView> = Vec::new();
    assert(rows(out@).to_multiset() =~= vstd::multiset::Multiset::empty()) by {
        assert(rows(out@) =~= Seq::<PlayerRow>::empty());
    }
    while rest.len() > 0
        invariant
            rows(out@).to_multiset().add(rows(rest@).to_multiset()) == m0,
            rows_sorted(rows(out@)),
        decreases rest.len(),
    {
        let ghost old_rest = rest@;
        let ghost old_out = out@;
        let x = rest.pop().unwrap();
        assert(rows(old_rest) =~= rows(rest@).push(x@));
        let mut j: usize = 0;
        let mut found = false;
        while !found && j < out.len()
            invariant
                out@ == old_out,
                j <= out.len(),
                forall|k: int| 0 <= k < j ==> !row_before(x@, #[trigger] rows(out@)[k]),
                found ==> j < out.len() && row_before(x@, rows(out@)[j as int]),
            decreases out.len() - j + if found { 0int } else { 1int },
        {
            if view_before(&x, &out[j]) {
                found = true;
            } else {
                j += 1;
            }
        }
        proof {
            lemma_insert_sorted(rows(old_out), j as int, x@);
            lemma_insert_multiset(rows(old_out), j as int, x@);
        }
        out.insert(j, x);
        assert(rows(out@) =~= rows(old_out).insert(j as int, x@));
        assert(rows(out@).to_multiset().add(rows(rest@).to_multiset()) =~= m0);
    }
    assert(rows(rest@) =~= Seq::<PlayerRow>::empty());
    assert(rows(out@).to_multiset() =~= m0);
    out
}

/// A table row copies each statistic from the player's own field: SteamID
/// as listed, name, team label, health, armor, money, kills, assists,
/// deaths, MVPs, score, round kills and round headshot kills; the row is
/// alive exactly when health is positive, local as asked, and its active
/// weapon is the first active one in inventory order.
pub proof fn lemma_row_copies_player(p: PlayerInfo, sid: Seq<char>, is_local: bool)
    ensures
        ({
            let r = player_row(p, sid, is_local);
            &&& r.steamid == sid
            &&& r.name == p.name@
            &&& r.team == team_label(p.team)
            &&& r.health == p.health
            &&& r.armor == p.armor
            &&& r.money == p.money
            &&& r.kills == p.kills
            &&& r.assists == p.assists
            &&& r.deaths == p.deaths
            &&& r.mvps == p.mvps
            &&& r.score == p.score
            &&& r.round_kills == p.round_kills
            &&& r.round_hs == p.round_killhs
            &&& r.is_alive == (p.health > 0)
            &&& r.is_local == is_local
            &&& (forall|i: int|
                0 <= i < p.weapons.len() && #[trigger] p.weapons@[i].state == WeaponState::Active
                    ==> r.weapon_active is Some)
            &&& (r.weapon_active is Some ==> exists|i: int|
                0 <= i < p.weapons.len() && #[trigger] p.weapons@[i].state == WeaponState::Active
                    && r.weapon_active == Some(p.weapons@[i].name@) && forall|j: int|
                    0 <= j < i ==> p.weapons@[j].state != WeaponState::Active)
        }),
{
    lemma_first_active_weapon(p.weapons@);
}

proof fn lemma_first_active_weapon(ws: Seq<WeaponInfo>)
    ensures
        forall|i: int| 0 <= i < ws.len() && #[trigger] ws[i].state == WeaponState::Active
            ==> first_active_weapon(ws) is Some,
        first_active_weapon(ws) is Some ==> exists|i: int|
            0 <= i < ws.len() && #[trigger] ws[i].state == WeaponState::Active
                && first_active_weapon(ws) == Some(ws[i].name@) && forall|j: int|
                0 <= j < i ==> ws[j].state != WeaponState::Active,
    decreases ws.len(),
{
    if ws.len() > 0 {
        let rest = ws.drop_first();
        lemma_first_active_weapon(rest);
        assert forall|i: int| 0 <= i < ws.len() && #[trigger] ws[i].state == WeaponState::Active
            implies first_active_weapon(ws) is Some by {
            if i > 0 && ws[0].state != WeaponState::Active {
                assert(rest[i - 1].state == WeaponState::Active);
            }
        }
        if ws[0].state != WeaponState::Active && first_active_weapon(rest) is Some {
            let i = choose|i: int|
                0 <= i < rest.len() && #[trigger] rest[i].state == WeaponState::Active
                    && first_active_weapon(rest) == Some(rest[i].name@) && forall|j: int|
                    0 <= j < i ==> rest[j].state != WeaponState::Active;
            assert(ws[i + 1] == rest[i]);
            assert forall|j: int| 0 <= j < i + 1 implies ws[j].state != WeaponState::Active by {
                if j > 0 {
                    assert(ws[j] == rest[j - 1]);
                }
            }
        }
    }
}

/// How two table rows compare: different teams by team label in
/// lexicographic order; within a team the higher score first; within a team
/// and score the lexicographically smaller name first, whatever the name
/// lengths; rows equal in all three by SteamID.
pub proof fn lemma_table_order(a: PlayerRow, b: PlayerRow)
    ensures
        a.team != b.team ==> (row_before(a, b) <==> seq_lt(a.team, b.team)),
        a.team == b.team && a.score != b.score ==> (row_before(a, b) <==> a.score > b.score),
        a.team == b.team && a.score == b.score && a.name != b.name ==> (row_before(a, b)
            <==> seq_lt(a.name, b.name)),
        a.team == b.team && a.score == b.score && a.name == b.name ==> (row_before(a, b)
            <==> seq_lt(a.steamid, b.steamid)),
{
    lemma_seq_lt_irreflexive(a.team);
    lemma_seq_lt_irreflexive(a.name);
}

/// In a sorted table, for any earlier row and later row: rows of different
/// teams are in lexicographic team order; rows of one team do not rise in
/// score; rows of one team and score are in lexicographic name order.
pub proof fn lemma_sorted_table(s: Seq<PlayerRow>)
    requires
        rows_sorted(s),
    ensures
        forall|i: int, j: int|
            0 <= i < j < s.len() ==> {
                &&& (#[trigger] s[i]).team != (#[trigger] s[j]).team ==> seq_lt(s[i].team, s[j].team)
                &&& s[i].team == s[j].team ==> s[i].score >= s[j].score
                &&& s[i].team == s[j].team && s[i].score == s[j].score ==> !seq_lt(s[j].name, s[i].name)
            },
{
    assert forall|i: int, j: int| 0 <= i < j < s.len() implies {
        &&& (#[trigger] s[i]).team != (#[trigger] s[j]).team ==> seq_lt(s[i].team, s[j].team)
        &&& s[i].team == s[j].team ==> s[i].score >= s[j].score
        &&& s[i].team == s[j].team && s[i].score == s[j].score ==> !seq_lt(s[j].name, s[i].name)
    } by {
        assert(!row_before(s[j], s[i]));
        lemma_seq_lt_total(s[i].team, s[j].team);
    }
}

/// Distinct rows of `m` carry distinct SteamIDs.
pub open spec fn steamids_identify(m: vstd::multiset::Multiset<PlayerRow>) -> bool {
    forall|x: PlayerRow, y: PlayerRow|
        m.contains(x) && m.contains(y) && x != y ==> #[trigger] x.steamid != #[trigger] y.steamid
}

/// Two orderings of the same rows, where distinct rows carry distinct
/// SteamIDs, are the same sequence: the table order is fully determined.
pub proof fn lemma_sorted_rows_unique(a: Seq<PlayerRow>, b: Seq<PlayerRow>)
    requires
        rows_sorted(a),
        rows_sorted(b),
        a.to_multiset() == b.to_multiset(),
        steamids_identify(a.to_multiset()),
    ensures
        a == b,
    decreases a.len(),
{
    assert(a.len() == a.to_multiset().len());
    assert(b.len() == b.to_multiset().len());
    if a.len() == 0 {
        assert(a =~= b);
    } else {
        assert(a.contains(a[0]));
        assert(a.to_multiset().count(a[0]) > 0);
        assert(b.to_multiset().count(a[0]) > 0);
        assert(b.contains(a[0]));
        assert(b.contains(b[0]));
        assert(b.to_multiset().count(b[0]) > 0);
        assert(a.to_multiset().count(b[0]) > 0);
        assert(a.contains(b[0]));
        let k = choose|k: int| 0 <= k < b.len() && b[k] == a[0];
        let m = choose|m: int| 0 <= m < a.len() && a[m] == b[0];
        if a[0] != b[0] {
            assert(a.to_multiset().contains(a[0]));
            assert(a.to_multiset().contains(b[0]));
            assert(a[0].steamid != b[0].steamid);
            lemma_row_before_total(a[0], a[m]);
            assert(!row_before(a[m], a[0]));
            assert(!row_before(b[k], b[0]));
            assert(false);
        }
        let a1 = a.drop_first();
        let b1 = b.drop_first();
        assert(a.remove(0) =~= a1);
        assert(b.remove(0) =~= b1);
        assert(a1.to_multiset() == b1.to_multiset());
        assert forall|x: PlayerRow|
            a1.to_multiset().contains(x) implies a.to_multiset().contains(x) by {
            assert(a1.contains(x));
            let i = choose|i: int| 0 <= i < a1.len() && a1[i] == x;
            assert(a[i + 1] == x);
            assert(a.contains(x));
        }
        assert forall|i: int, j: int| 0 <= i < j < a1.len() implies !row_before(
            #[trigger] a1[j],
            #[trigger] a1[i],
        ) by {
            assert(a1[i] == a[i + 1] && a1[j] == a[j + 1]);
        }
        assert forall|i: int, j: int| 0 <= i < j < b1.len() implies !row_before(
            #[trigger] b1[j],
            #[trigger] b1[i],
        ) by {
            assert(b1[i] == b[i + 1] && b1[j] == b[j + 1]);
        }
        lemma_sorted_rows_unique(a1, b1);
        assert forall|i: int| 0 <= i < a.len() implies a[i] == b[i] by {
            if i > 0 {
                assert(a[i] == a1[i - 1] && b[i] == b1[i - 1]);
            }
        }
        assert(a =~= b);
    }
}

} // verus!
