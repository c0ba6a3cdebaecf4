//! Heroes split into teams, and moving the picked heroes from team to team.

use vstd::prelude::*;
use vstd::string::StringExecFns;
use crate::text::{compare_text, lemma_text_cmp_flip, text_cmp};

verus! {

broadcast use vstd::seq_lib::group_to_multiset_ensures;

/// A hero card: who it is, its picture, and whether it is picked.
#[derive(Clone, Debug)]
pub struct Hero {
    pub selected: bool,
    pub name: String,
    pub img_path: String,
}

/// A named team of heroes.
#[derive(Debug)]
pub struct Team {
    pub name: String,
    pub heros: Vec<Hero>,
}

/// The two teams and whether the game window is open.
#[derive(Debug)]
pub struct DndPvp {
    pub teams: Vec<Team>,
    pub start_window_open: bool,
}

/// The picked heroes, in order.
pub open spec fn chosen(s: Seq<Hero>) -> Seq<Hero> {
    s.filter(|h: Hero| h.selected)
}

/// The heroes that are not picked, in order.
pub open spec fn unchosen(s: Seq<Hero>) -> Seq<Hero> {
    s.filter(|h: Hero| !h.selected)
}

/// The heroes that go to team `to` from the first `k` teams: the picked ones
/// of each team, and the whole of team `to` itself.
pub open spec fn gathered(teams: Seq<Team>, to: int, k: int) -> Seq<Hero>
    decreases k,
{
    if k <= 0 {
        Seq::empty()
    } else {
        gathered(teams, to, k - 1) + chosen(teams[k - 1].heros@) + if k - 1 == to {
            unchosen(teams[k - 1].heros@)
        } else {
            Seq::empty()
        }
    }
}

/// Each hero's name comes no later than the next one's.
pub open spec fn names_sorted(s: Seq<Hero>) -> bool {
    forall|i: int|
        0 <= i < s.len() - 1 ==> #[trigger] text_cmp(s[i].name@, s[i + 1].name@) <= 0
}

impl Hero {
    pub fn new(name: String, img_path: String) -> (r: Hero)
        ensures
            !r.selected,
            r.name == name,
            r.img_path == img_path,
    {
        Hero { selected: false, name, img_path }
    }

    /// A click on the card picks it or puts it back.
    pub fn toggle(&mut self)
        ensures
            final(self).selected == !old(self).selected,
            final(self).name == old(self).name,
            final(self).img_path == old(self).img_path,
    {
        self.selected = !self.selected;
    }

    /// A copy of the card.
    pub fn duplicate(&self) -> (r: Hero)
        ensures
            r == *self,
    {
        Hero { selected: self.selected, name: self.name.clone(), img_path: self.img_path.clone() }
    }
}

impl Team {
    /// A team holding copies of the given heroes.
    pub fn with_members(name: String, heros: &[Hero]) -> (r: Team)
        ensures
            r.name == name,
            r.heros@ == heros@,
    {
        let mut members: Vec<Hero> = Vec::new();
        let mut i: usize = 0;
        while i < heros.len()
            invariant
                i <= heros@.len(),
                members@ == heros@.subrange(0, i as int),
            decreases heros@.len() - i,
        {
            members.push(heros[i].duplicate());
            i = i + 1;
            assert(members@ =~= heros@.subrange(0, i as int));
        }
        assert(members@ =~= heros@);
        Team { name, heros: members }
    }
}

/// Splits heroes into the picked ones and the others, each in order.
fn split_selected(heros: Vec<Hero>) -> (r: (Vec<Hero>, Vec<Hero>))
    ensures
        r.0@ == chosen(heros@),
        r.1@ == unchosen(heros@),
{
    let ghost all = heros@;
    let mut rest = heros;
    let mut picked: Vec<Hero> = Vec::new();
    let mut others: Vec<Hero> = Vec::new();
    let ghost mut k: int = 0;
    while rest.len() > 0
        invariant
            0 <= k <= all.len(),
            rest@ == all.subrange(k, all.len() as int),
            picked@ == chosen(all.subrange(0, k)),
            others@ == unchosen(all.subrange(0, k)),
        decreases rest@.len(),
    {
        let h = rest.remove(0);
        proof {
            assert(all.subrange(0, k + 1) =~= all.subrange(0, k).push(h));
            all.subrange(0, k).lemma_filter_push(h, |h: Hero| h.selected);
            all.subrange(0, k).lemma_filter_push(h, |h: Hero| !h.selected);
            assert(rest@ =~= all.subrange(k + 1, all.len() as int));
            k = k + 1;
        }
        if h.selected {
            picked.push(h);
        } else {
            others.push(h);
        }
    }
    assert(all.subrange(0, k) =~= all);
    (picked, others)
}

/// Puts heroes in order of name.
fn sort_by_name(heros: Vec<Hero>) -> (r: Vec<Hero>)
    ensures
        names_sorted(r@),
        r@.to_multiset() == heros@.to_multiset(),
{
    let ghost all = heros@;
    let mut rest = heros;
    let mut out: Vec<Hero> = Vec::new();
    while rest.len() > 0
        invariant
            names_sorted(out@),
            all.to_multiset() == rest@.to_multiset().add(out@.to_multiset()),
        decreases rest@.len(),
    {
        let ghost before = rest@;
        let h = rest.remove(0);
        assert(before.remove(0).to_multiset() == before.to_multiset().remove(h));
        let mut p: usize = out.len();
        while p > 0 && compare_text(out[p - 1].name.as_str(), h.name.as_str()) > 0
            invariant
                p <= out@.len(),
                forall|j: int| p <= j < out@.len() ==> #[trigger] text_cmp(out@[j].name@, h.name@) > 0,
            decreases p,
        {
            p = p - 1;
        }
        let ghost prev = out@;
        proof {
            if p < prev.len() {
                lemma_text_cmp_flip(prev[p as int].name@, h.name@);
            }
        }
        out.insert(p, h);
        assert(out@ == prev.insert(p as int, h));
        assert(names_sorted(out@)) by {
            assert forall|i: int| 0 <= i < out@.len() - 1 implies #[trigger] text_cmp(
                out@[i].name@,
                out@[i + 1].name@,
            ) <= 0 by {
                if i + 1 < p {
                    assert(text_cmp(prev[i].name@, prev[i + 1].name@) <= 0);
                } else if i > p {
                    let k = i - 1;
                    assert(text_cmp(prev[k].name@, prev[k + 1].name@) <= 0);
                    assert(prev[k + 1] == prev[i]);
                }
            }
        }
    }
    out
}

fn card(name: &str, img_path: &str) -> (r: Hero)
    ensures
        !r.selected,
        r.name@ == name@,
        r.img_path@ == img_path@,
{
    Hero::new(String::from_str(name), String::from_str(img_path))
}

impl Default for DndPvp {
    /// The starting roster: team Blue with Nagat'rok, Nimeza and Soverein,
    /// team Red with Thaldar, Greedlock and Piero, nobody picked, and the game
    /// window closed.
    fn default() -> (r: DndPvp)
        ensures
            !r.start_window_open,
            r.teams@.len() == 2,
            r.teams@[0].name@ == "Blue"@,
            r.teams@[1].name@ == "Red"@,
            r.teams@[0].heros@.len() == 3,
            r.teams@[1].heros@.len() == 3,
            r.teams@[0].heros@[0].name@ == "Nagat'rok"@,
            r.teams@[0].heros@[1].name@ == "Nimeza"@,
            r.teams@[0].heros@[2].name@ == "Soverein"@,
            r.teams@[1].heros@[0].name@ == "Thaldar"@,
            r.teams@[1].heros@[1].name@ == "Greedlock"@,
            r.teams@[1].heros@[2].name@ == "Piero"@,
            forall|t: int, h: int|
                0 <= t < 2 && 0 <= h < 3 ==> !(#[trigger] r.teams@[t].heros@[h]).selected,
    {
        let blue = [
            card("Nagat'rok", "file://assets/demon.png"),
            card("Nimeza", "file://assets/orc.png"),
            card("Soverein", "file://assets/human.png"),
        ];
        let red = [
            card("Thaldar", "file://assets/dwarf.png"),
            card("Greedlock", "file://assets/elf.png"),
            card("Piero", "file://assets/transformer.png"),
        ];
        let teams = vec![
            Team::with_members(String::from_str("Blue"), &blue),
            Team::with_members(String::from_str("Red"), &red),
        ];
        let r = DndPvp { teams, start_window_open: false };
        assert forall|t: int, h: int|
            0 <= t < 2 && 0 <= h < 3 implies !(#[trigger] r.teams@[t].heros@[h]).selected by {
            if t == 0 {
                assert(r.teams@[t].heros@ == blue@);
            } else {
                assert(r.teams@[t].heros@ == red@);
            }
        }
        r
    }
}

impl DndPvp {
    /// Moves every picked hero to team `to`, and sorts each team by name. A
    /// team that does not exist changes nothing.
    pub fn send_heros_to_team(&mut self, to: usize)
        ensures
            final(self).start_window_open == old(self).start_window_open,
            to >= old(self).teams@.len() ==> final(self).teams@ == old(self).teams@,
            to < old(self).teams@.len() ==> {
                &&& final(self).teams@.len() == old(self).teams@.len()
                &&& forall|i: int|
                    0 <= i < old(self).teams@.len() ==> {
                        &&& (#[trigger] final(self).teams@[i]).name == old(self).teams@[i].name
                        &&& names_sorted(final(self).teams@[i].heros@)
                        &&& i != to ==> final(self).teams@[i].heros@.to_multiset() == unchosen(
                            old(self).teams@[i].heros@,
                        ).to_multiset()
                    }
                &&& final(self).teams@[to as int].heros@.to_multiset() == gathered(
                    old(self).teams@,
                    to as int,
                    old(self).teams@.len() as int,
                ).to_multiset()
            },
    {
        if to >= self.teams.len() {
            return ;
        }
        let mut teams: Vec<Team> = Vec::new();
        std::mem::swap(&mut teams, &mut self.teams);
        let ghost orig = teams@;
        let n = teams.len();
        let mut moving: Vec<Hero> = Vec::new();
        let mut kept: Vec<Team> = Vec::new();
        let mut idx: usize = 0;
        while teams.len() > 0
            invariant
                n == orig.len(),
                to < n,
                idx <= n,
                teams@ == orig.subrange(idx as int, n as int),
                kept@.len() == idx,
                moving@ == gathered(orig, to as int, idx as int),
                forall|i: int|
                    0 <= i < idx ==> {
                        &&& (#[trigger] kept@[i]).name == orig[i].name
                        &&& i != to ==> kept@[i].heros@ == unchosen(orig[i].heros@)
                    },
            decreases teams@.len(),
        {
            let team = teams.remove(0);
            assert(team == orig[idx as int]);
            let (picked, others) = split_selected(team.heros);
            let mut picked = picked;
            moving.append(&mut picked);
            if idx == to {
                let mut others = others;
                moving.append(&mut others);
                kept.push(Team { name: team.name, heros: Vec::new() });
            } else {
                kept.push(Team { name: team.name, heros: others });
            }
            idx = idx + 1;
            assert(teams@ =~= orig.subrange(idx as int, n as int));
            assert(moving@ =~= gathered(orig, to as int, idx as int));
        }
        let old_to = kept.remove(to);
        kept.insert(to, Team { name: old_to.name, heros: moving });
        let ghost gathered_teams = kept@;
        let mut done: Vec<Team> = Vec::new();
        let mut j: usize = 0;
        while kept.len() > 0
            invariant
                j <= n,
                gathered_teams.len() == n,
                kept@ == gathered_teams.subrange(j as int, n as int),
                done@.len() == j,
                forall|i: int|
                    0 <= i < j ==> {
                        &&& (#[trigger] done@[i]).name == gathered_teams[i].name
                        &&& names_sorted(done@[i].heros@)
                        &&& done@[i].heros@.to_multiset() == gathered_teams[i].heros@.to_multiset()
                    },
            decreases kept@.len(),
        {
            let team = kept.remove(0);
            assert(team == gathered_teams[j as int]);
            let sorted = sort_by_name(team.heros);
            done.push(Team { name: team.name, heros: sorted });
            j = j + 1;
            assert(kept@ =~= gathered_teams.subrange(j as int, n as int));
        }
        self.teams = done;
    }
}

} // verus!
