//! The global command registry, and the plan of how commands are registered
//! with Discord.

use vstd::prelude::*;

use crate::text::str_eq;

verus! {

/// The map that registering `entries` in order gives: a later entry replaces an
/// earlier one of the same name.
pub open spec fn registered<C>(entries: Seq<(String, C)>) -> Map<Seq<char>, C>
    decreases entries.len(),
{
    if entries.len() == 0 {
        Map::empty()
    } else {
        registered(entries.drop_last()).insert(entries.last().0@, entries.last().1)
    }
}

/// No two entries share a name.
pub open spec fn distinct_names<C>(entries: Seq<(String, C)>) -> bool {
    forall|i: int, j: int|
        0 <= i < entries.len() && 0 <= j < entries.len() && i != j ==> entries[i].0@
            != entries[j].0@
}

/// With distinct names, each entry is found under its name, and only names of entries are found.
pub proof fn lemma_registered_distinct<C>(entries: Seq<(String, C)>)
    requires
        distinct_names(entries),
    ensures
        forall|i: int|
            0 <= i < entries.len() ==> #[trigger] registered(entries).contains_key(entries[i].0@)
                && registered(entries)[entries[i].0@] == entries[i].1,
        forall|n: Seq<char>|
            #[trigger] registered(entries).contains_key(n) ==> exists|i: int|
                0 <= i < entries.len() && entries[i].0@ == n,
    decreases entries.len(),
{
    if entries.len() > 0 {
        let init = entries.drop_last();
        assert(distinct_names(init));
        lemma_registered_distinct(init);
        assert forall|n: Seq<char>| #[trigger] registered(entries).contains_key(n) implies exists|i: int|
            0 <= i < entries.len() && entries[i].0@ == n by {
            if n != entries.last().0@ {
                assert(registered(init).contains_key(n));
                let i = choose|i: int| 0 <= i < init.len() && init[i].0@ == n;
                assert(entries[i] == init[i]);
            }
        }
        assert forall|i: int| 0 <= i < entries.len() implies #[trigger] registered(entries).contains_key(entries[i].0@)
            && registered(entries)[entries[i].0@] == entries[i].1 by {
            if i < entries.len() - 1 {
                assert(entries[i] == init[i]);
                assert(entries[i].0@ != entries.last().0@);
                assert(registered(init).contains_key(init[i].0@));
            }
        }
    }
}

/// A command registered after every other command of its name is the one the
/// registry holds under that name.
pub proof fn lemma_registered_last_wins<C>(entries: Seq<(String, C)>, i: int)
    requires
        0 <= i < entries.len(),
        forall|j: int| i < j < entries.len() ==> entries[j].0@ != entries[i].0@,
    ensures
        registered(entries).contains_key(entries[i].0@),
        registered(entries)[entries[i].0@] == entries[i].1,
    decreases entries.len(),
{
    if i < entries.len() - 1 {
        let init = entries.drop_last();
        assert forall|j: int| i < j < init.len() implies init[j].0@ != init[i].0@ by {
            assert(init[j] == entries[j]);
        }
        lemma_registered_last_wins(init, i);
        assert(init[i] == entries[i]);
        assert(entries.last().0@ != entries[i].0@);
    }
}

/// The global commands registry: commands by name.
pub struct CommandRegistry<C> {
    commands: Vec<(String, C)>,
}

impl<C> View for CommandRegistry<C> {
    /// The command registered under each name.
    type V = Map<Seq<char>, C>;

    closed spec fn view(&self) -> Map<Seq<char>, C> {
        registered(self.commands@)
    }
}

impl<C> CommandRegistry<C> {
    /// Names are distinct.
    #[verifier::type_invariant]
    spec fn well_formed(self) -> bool {
        distinct_names(self.commands@)
    }

    /// Builds a registry of named commands: a command registered later replaces
    /// an earlier one of the same name.
    pub fn new(commands: Vec<(String, C)>) -> (res: Self)
        ensures
            res@ == registered(commands@),
    {
        let ghost all = commands@;
        let mut rest = commands;
        let mut kept: Vec<(String, C)> = Vec::new();
        while rest.len() > 0
            invariant
                rest@.len() <= all.len(),
                rest@ == all.take(rest@.len() as int),
                distinct_names(kept@),
                registered(all) == registered(rest@).union_prefer_right(registered(kept@)),
            decreases rest@.len(),
        {
            let ghost before = rest@;
            let (name, cmd) = rest.pop().unwrap();
            proof {
                assert(rest@ =~= all.take(rest@.len() as int));
                assert(before.drop_last() =~= rest@);
                lemma_registered_distinct(kept@);
            }
            let mut found = false;
            let mut k: usize = 0;
            while k < kept.len()
                invariant
                    k <= kept@.len(),
                    found <==> exists|j: int| 0 <= j < k && kept@[j].0@ == name@,
                decreases kept@.len() - k,
            {
                if str_eq(kept[k].0.as_str(), name.as_str()) {
                    found = true;
                }
                k = k + 1;
            }
            if found {
                proof {
                    let j = choose|j: int| 0 <= j < kept@.len() && kept@[j].0@ == name@;
                    assert(registered(kept@).contains_key(name@));
                    assert(registered(before) == registered(rest@).insert(name@, cmd));
                    assert(registered(rest@).insert(name@, cmd).union_prefer_right(registered(kept@))
                        =~= registered(rest@).union_prefer_right(registered(kept@)));
                }
            } else {
                let ghost old_kept = kept@;
                proof {
                    assert(!registered(kept@).contains_key(name@)) by {
                        if registered(kept@).contains_key(name@) {
                            let j = choose|j: int| 0 <= j < kept@.len() && kept@[j].0@ == name@;
                        }
                    }
                }
                kept.push((name, cmd));
                proof {
                    assert(kept@.drop_last() =~= old_kept);
                    assert(registered(before) == registered(rest@).insert(name@, cmd));
                    assert(registered(kept@) == registered(old_kept).insert(name@, cmd));
                    assert(registered(rest@).insert(name@, cmd).union_prefer_right(registered(old_kept))
                        =~= registered(rest@).union_prefer_right(registered(kept@)));
                }
            }
        }
        proof {
            assert(rest@ =~= Seq::<(String, C)>::empty());
            assert(registered(rest@).union_prefer_right(registered(kept@)) =~= registered(kept@));
        }
        CommandRegistry { commands: kept }
    }

    /// The command registered under `name`, if any.
    pub fn get(&self, name: &str) -> (res: Option<&C>)
        ensures
            match res {
                Some(c) => self@.contains_key(name@) && self@[name@] == *c,
                None => !self@.contains_key(name@),
            },
    {
        proof {
            use_type_invariant(self);
            lemma_registered_distinct(self.commands@);
        }
        let mut k: usize = 0;
        while k < self.commands.len()
            invariant
                k <= self.commands@.len(),
                distinct_names(self.commands@),
                forall|j: int| 0 <= j < k ==> self.commands@[j].0@ != name@,
            decreases self.commands@.len() - k,
        {
            if str_eq(self.commands[k].0.as_str(), name) {
                proof {
                    lemma_registered_distinct(self.commands@);
                    assert(registered(self.commands@).contains_key(self.commands@[k as int].0@));
                }
                return Some(&self.commands[k].1);
            }
            k = k + 1;
        }
        None
    }

    /// Every registered command with its name, once each.
    pub fn all(&self) -> (res: Vec<(&str, &C)>)
        ensures
            res@.len() == self@.len(),
            forall|i: int|
                0 <= i < res@.len() ==> self@.contains_key((#[trigger] res@[i]).0@) && self@[res@[i].0@]
                    == *res@[i].1,
            forall|n: Seq<char>|
                #[trigger] self@.contains_key(n) ==> exists|i: int|
                    0 <= i < res@.len() && (#[trigger] res@[i]).0@ == n,
    {
        proof {
            use_type_invariant(self);
            lemma_registered_len(self.commands@);
            lemma_registered_distinct(self.commands@);
        }
        let mut res: Vec<(&str, &C)> = Vec::new();
        let mut k: usize = 0;
        while k < self.commands.len()
            invariant
                k <= self.commands@.len(),
                res@.len() == k,
                forall|j: int|
                    0 <= j < k ==> (#[trigger] res@[j]).0@ == self.commands@[j].0@ && *res@[j].1
                        == self.commands@[j].1,
            decreases self.commands@.len() - k,
        {
            res.push((self.commands[k].0.as_str(), &self.commands[k].1));
            k = k + 1;
        }
        proof {
            assert forall|i: int| 0 <= i < res@.len() implies self@.contains_key((#[trigger] res@[i]).0@)
                && self@[res@[i].0@] == *res@[i].1 by {
                assert(registered(self.commands@).contains_key(self.commands@[i].0@));
            }
            assert forall|n: Seq<char>| #[trigger] self@.contains_key(n) implies exists|i: int|
                0 <= i < res@.len() && (#[trigger] res@[i]).0@ == n by {
                let i = choose|i: int| 0 <= i < self.commands@.len() && self.commands@[i].0@ == n;
                assert(res@[i].0@ == n);
            }
        }
        res
    }
}

/// With distinct names, the registry holds exactly one command per entry.
pub proof fn lemma_registered_len<C>(entries: Seq<(String, C)>)
    requires
        distinct_names(entries),
    ensures
        registered(entries).dom().finite(),
        registered(entries).len() == entries.len(),
    decreases entries.len(),
{
    if entries.len() > 0 {
        let init = entries.drop_last();
        assert(distinct_names(init));
        lemma_registered_len(init);
        lemma_registered_distinct(init);
        if registered(init).contains_key(entries.last().0@) {
            let i = choose|i: int| 0 <= i < init.len() && init[i].0@ == entries.last().0@;
            assert(entries[i] == init[i]);
            assert(false);
        }
    }
}

/// The (command index, guild id) pairs that the commands' guild lists give, in
/// command order and then list order.
pub open spec fn guild_pairs(guilds: Seq<Option<Vec<u64>>>) -> Seq<(usize, u64)>
    decreases guilds.len(),
{
    if guilds.len() == 0 {
        Seq::empty()
    } else {
        guild_pairs(guilds.drop_last()) + match guilds.last() {
            Some(list) => list@.map_values(|g: u64| ((guilds.len() - 1) as usize, g)),
            None => Seq::empty(),
        }
    }
}

/// The commands of the pairs that name guild `g`, in order.
pub open spec fn commands_for(pairs: Seq<(usize, u64)>, g: u64) -> Seq<usize>
    decreases pairs.len(),
{
    if pairs.len() == 0 {
        Seq::empty()
    } else if pairs.last().1 == g {
        commands_for(pairs.drop_last(), g).push(pairs.last().0)
    } else {
        commands_for(pairs.drop_last(), g)
    }
}

/// The commands without a guild list (global commands), in order.
pub open spec fn global_commands(guilds: Seq<Option<Vec<u64>>>) -> Seq<usize>
    decreases guilds.len(),
{
    if guilds.len() == 0 {
        Seq::empty()
    } else if guilds.last() is None {
        global_commands(guilds.drop_last()).push((guilds.len() - 1) as usize)
    } else {
        global_commands(guilds.drop_last())
    }
}

/// Some pair names guild `g`.
pub open spec fn names_guild(pairs: Seq<(usize, u64)>, g: u64) -> bool {
    exists|k: int| 0 <= k < pairs.len() && pairs[k].1 == g
}

proof fn lemma_commands_for_absent(pairs: Seq<(usize, u64)>, g: u64)
    requires
        !names_guild(pairs, g),
    ensures
        commands_for(pairs, g) == Seq::<usize>::empty(),
    decreases pairs.len(),
{
    if pairs.len() > 0 {
        assert(!names_guild(pairs.drop_last(), g)) by {
            if names_guild(pairs.drop_last(), g) {
                let k = choose|k: int| 0 <= k < pairs.drop_last().len() && pairs.drop_last()[k].1 == g;
                assert(pairs[k].1 == g);
            }
        }
        lemma_commands_for_absent(pairs.drop_last(), g);
        assert(pairs[pairs.len() - 1].1 != g);
    }
}

/// The per-guild entries are right for the pairs: each guild once, with the
/// commands that name it, and every named guild present.
pub open spec fn guilds_match(entries: Seq<(u64, Vec<usize>)>, pairs: Seq<(usize, u64)>) -> bool {
    &&& forall|a: int, b: int|
        0 <= a < entries.len() && 0 <= b < entries.len() && a != b ==> entries[a].0 != entries[b].0
    &&& forall|a: int|
        0 <= a < entries.len() ==> (#[trigger] entries[a]).1@ == commands_for(pairs, entries[a].0)
            && names_guild(pairs, entries[a].0)
    &&& forall|g: u64|
        #[trigger] names_guild(pairs, g) ==> exists|a: int| 0 <= a < entries.len() && entries[a].0 == g
}

proof fn lemma_pairs_push(pairs: Seq<(usize, u64)>, i: usize, g: u64)
    ensures
        forall|h: u64|
            #[trigger] commands_for(pairs.push((i, g)), h) == if h == g {
                commands_for(pairs, h).push(i)
            } else {
                commands_for(pairs, h)
            },
        forall|h: u64| #[trigger] names_guild(pairs.push((i, g)), h) <==> (names_guild(pairs, h) || h == g),
{
    let p2 = pairs.push((i, g));
    assert(p2.drop_last() =~= pairs);
    assert forall|h: u64| #[trigger] names_guild(p2, h) <==> (names_guild(pairs, h) || h == g) by {
        if names_guild(p2, h) && h != g {
            let k = choose|k: int| 0 <= k < p2.len() && p2[k].1 == h;
            assert(pairs[k].1 == h);
        }
        if names_guild(pairs, h) {
            let k = choose|k: int| 0 <= k < pairs.len() && pairs[k].1 == h;
            assert(p2[k].1 == h);
        }
        if h == g {
            assert(p2[pairs.len() as int].1 == h);
        }
    }
}

proof fn lemma_push_existing(entries: Seq<(u64, Vec<usize>)>, pairs: Seq<(usize, u64)>, a: int, i: usize, v: Vec<usize>)
    requires
        guilds_match(entries, pairs),
        0 <= a < entries.len(),
        v@ == entries[a].1@.push(i),
    ensures
        guilds_match(entries.update(a, (entries[a].0, v)), pairs.push((i, entries[a].0))),
{
    let g = entries[a].0;
    let e2 = entries.update(a, (g, v));
    let p2 = pairs.push((i, g));
    lemma_pairs_push(pairs, i, g);
    assert forall|b: int| 0 <= b < e2.len() implies (#[trigger] e2[b]).1@ == commands_for(p2, e2[b].0)
        && names_guild(p2, e2[b].0) by {
        assert(commands_for(p2, e2[b].0) == if e2[b].0 == g {
            commands_for(pairs, e2[b].0).push(i)
        } else {
            commands_for(pairs, e2[b].0)
        });
        assert(names_guild(p2, e2[b].0));
        if b != a {
            assert(e2[b] == entries[b]);
            assert(entries[b].1@ == commands_for(pairs, entries[b].0));
        }
    }
    assert forall|h: u64| #[trigger] names_guild(p2, h) implies exists|b: int| 0 <= b < e2.len() && e2[b].0 == h by {
        if h == g {
            assert(e2[a].0 == h);
        } else {
            assert(names_guild(pairs, h));
            let b = choose|b: int| 0 <= b < entries.len() && entries[b].0 == h;
            assert(e2[b].0 == h);
        }
    }
}

proof fn lemma_push_new(entries: Seq<(u64, Vec<usize>)>, pairs: Seq<(usize, u64)>, g: u64, i: usize, v: Vec<usize>)
    requires
        guilds_match(entries, pairs),
        forall|a: int| 0 <= a < entries.len() ==> entries[a].0 != g,
        v@ == seq![i],
    ensures
        guilds_match(entries.push((g, v)), pairs.push((i, g))),
{
    let e2 = entries.push((g, v));
    let p2 = pairs.push((i, g));
    lemma_pairs_push(pairs, i, g);
    assert(!names_guild(pairs, g)) by {
        if names_guild(pairs, g) {
            let b = choose|b: int| 0 <= b < entries.len() && entries[b].0 == g;
        }
    }
    lemma_commands_for_absent(pairs, g);
    assert forall|b: int| 0 <= b < e2.len() implies (#[trigger] e2[b]).1@ == commands_for(p2, e2[b].0)
        && names_guild(p2, e2[b].0) by {
        assert(commands_for(p2, e2[b].0) == if e2[b].0 == g {
            commands_for(pairs, e2[b].0).push(i)
        } else {
            commands_for(pairs, e2[b].0)
        });
        assert(names_guild(p2, e2[b].0));
        if b < entries.len() {
            assert(e2[b] == entries[b]);
            assert(entries[b].1@ == commands_for(pairs, entries[b].0));
        } else {
            assert(commands_for(pairs, g).push(i) =~= seq![i]);
        }
    }
    assert forall|h: u64| #[trigger] names_guild(p2, h) implies exists|b: int| 0 <= b < e2.len() && e2[b].0 == h by {
        if h == g {
            assert(e2[entries.len() as int].0 == h);
        } else {
            assert(names_guild(pairs, h));
            let b = choose|b: int| 0 <= b < entries.len() && entries[b].0 == h;
            assert(e2[b].0 == h);
        }
    }
}

/// How the commands are registered: the global ones, and for each guild named
/// in some command's guild list, the commands restricted to it.
pub struct RegistrationPlan {
    pub global: Vec<usize>,
    pub guilds: Vec<(u64, Vec<usize>)>,
}

/// The plan is right for the commands' guild lists: the global commands are
/// those without a list; each listed guild appears once, with every command
/// that lists it, once per listing, in order; and no other guild appears.
pub open spec fn plan_matches(plan: RegistrationPlan, guilds: Seq<Option<Vec<u64>>>) -> bool {
    plan.global@ == global_commands(guilds) && guilds_match(plan.guilds@, guild_pairs(guilds))
}

/// Plans the registration of commands with the given guild lists (`None` for a
/// global command).
pub fn plan_registration(guilds: &Vec<Option<Vec<u64>>>) -> (res: RegistrationPlan)
    ensures
        plan_matches(res, guilds@),
{
    let mut global: Vec<usize> = Vec::new();
    let mut per_guild: Vec<(u64, Vec<usize>)> = Vec::new();
    let mut i: usize = 0;
    while i < guilds.len()
        invariant
            i <= guilds@.len(),
            global@ == global_commands(guilds@.take(i as int)),
            guilds_match(per_guild@, guild_pairs(guilds@.take(i as int))),
        decreases guilds@.len() - i,
    {
        let ghost before = guild_pairs(guilds@.take(i as int));
        proof {
            assert(guilds@.take(i + 1).drop_last() =~= guilds@.take(i as int));
        }
        match &guilds[i] {
            None => {
                global.push(i);
                proof {
                    assert(guild_pairs(guilds@.take(i + 1)) =~= before);
                }
            },
            Some(list) => {
                let mut j: usize = 0;
                assert(list@.take(0).map_values(|g: u64| (i, g)) =~= Seq::<(usize, u64)>::empty());
                assert(before + list@.take(0).map_values(|g: u64| (i, g)) =~= before);
                while j < list.len()
                    invariant
                        j <= list@.len(),
                        guilds_match(per_guild@, before + list@.take(j as int).map_values(|g: u64| (i, g))),
                    decreases list@.len() - j,
                {
                    let g = list[j];
                    let ghost pairs = before + list@.take(j as int).map_values(|g: u64| (i, g));
                    proof {
                        assert(before + list@.take(j + 1).map_values(|g: u64| (i, g)) =~= pairs.push((i, g)));
                    }
                    let mut found: Option<usize> = None;
                    let mut a: usize = 0;
                    while a < per_guild.len()
                        invariant
                            a <= per_guild@.len(),
                            match found {
                                Some(b) => b < per_guild@.len() && per_guild@[b as int].0 == g,
                                None => forall|c: int| 0 <= c < a ==> per_guild@[c].0 != g,
                            },
                        decreases per_guild@.len() - a,
                    {
                        if per_guild[a].0 == g {
                            found = Some(a);
                        }
                        a = a + 1;
                    }
                    match found {
                        Some(b) => {
                            let ghost old_entries = per_guild@;
                            let (gid, mut cmds) = per_guild.remove(b);
                            cmds.push(i);
                            per_guild.insert(b, (gid, cmds));
                            proof {
                                assert(per_guild@ =~= old_entries.update(b as int, (gid, cmds)));
                                lemma_push_existing(old_entries, pairs, b as int, i, cmds);
                            }
                        },
                        None => {
                            let ghost old_entries = per_guild@;
                            let mut cmds: Vec<usize> = Vec::new();
                            cmds.push(i);
                            proof {
                                assert(cmds@ =~= seq![i]);
                                lemma_push_new(old_entries, pairs, g, i, cmds);
                            }
                            per_guild.push((g, cmds));
                        },
                    }
                    j = j + 1;
                }
                proof {
                    assert(list@.take(j as int) =~= list@);
                    assert(guild_pairs(guilds@.take(i + 1)) =~= before + list@.map_values(|g: u64| (i, g)));
                }
            },
        }
        i = i + 1;
    }
    proof {
        assert(guilds@.take(i as int) =~= guilds@);
    }
    RegistrationPlan { global, guilds: per_guild }
}

} // verus!
