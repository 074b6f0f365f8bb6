//! The environment of the child: what the supervisor inherited, with the
//! configured entries laid over it.
//!
//! An environment is handed around as a list of entries. What it means is a
//! mapping from names to values, in which a later entry replaces an earlier
//! one of the same name.

use vstd::prelude::*;
use crate::config::EnvironmentalVariable;

verus! {

/// The mapping from names to values that a list of entries stands for.
pub open spec fn env_map(entries: Seq<EnvironmentalVariable>) -> Map<Seq<char>, Seq<char>>
    decreases entries.len(),
{
    if entries.len() == 0 {
        Map::empty()
    } else {
        env_map(entries.drop_last()).insert(entries.last().name@, entries.last().value@)
    }
}

/// No name occurs in two entries.
pub open spec fn distinct_names(entries: Seq<EnvironmentalVariable>) -> bool {
    forall|i: int, j: int| 0 <= i < j < entries.len() ==> entries[i].name@ != entries[j].name@
}

/// Where no name occurs twice, replacing an entry by one of the same name
/// gives that name the new value and changes nothing else.
proof fn lemma_replaced_entry(
    entries: Seq<EnvironmentalVariable>,
    at: int,
    entry: EnvironmentalVariable,
)
    requires
        distinct_names(entries),
        0 <= at < entries.len(),
        entries[at].name@ == entry.name@,
    ensures
        env_map(entries.update(at, entry)) == env_map(entries).insert(entry.name@, entry.value@),
    decreases entries.len(),
{
    let replaced = entries.update(at, entry);
    let shorter = entries.drop_last();
    if at == entries.len() - 1 {
        assert(replaced.drop_last() =~= shorter);
    } else {
        assert(replaced.drop_last() =~= shorter.update(at, entry));
        lemma_replaced_entry(shorter, at, entry);
    }
    assert(env_map(replaced) =~= env_map(entries).insert(entry.name@, entry.value@));
}

/// The place of the entry named `name`, if there is one.
fn position_of(environment: &Vec<EnvironmentalVariable>, name: &String) -> (found: Option<usize>)
    ensures
        found matches Some(at) ==> at < environment@.len() && environment@[at as int].name@
            == name@,
        found is None ==> forall|i: int|
            0 <= i < environment@.len() ==> environment@[i].name@ != name@,
{
    let mut at: usize = 0;
    while at < environment.len()
        invariant
            at <= environment@.len(),
            forall|i: int| 0 <= i < at ==> environment@[i].name@ != name@,
        decreases environment@.len() - at,
    {
        if environment[at].name == *name {
            return Some(at);
        }
        at += 1;
    }
    None
}

/// Gives `name` the value `value` in the environment: the entry with this
/// name is replaced where there is one, and a new entry is added at the end
/// where there is none. Every other name keeps its value.
pub fn set_variable(environment: &mut Vec<EnvironmentalVariable>, name: &String, value: &String)
    requires
        distinct_names(old(environment)@),
    ensures
        distinct_names(final(environment)@),
        env_map(final(environment)@) == env_map(old(environment)@).insert(name@, value@),
{
    let entry = EnvironmentalVariable { name: name.clone(), value: value.clone() };
    match position_of(environment, name) {
        Some(at) => {
            proof {
                lemma_replaced_entry(environment@, at as int, entry);
            }
            environment.set(at, entry);
        },
        None => {
            environment.push(entry);
            assert(environment@.drop_last() =~= old(environment)@);
        },
    }
}

/// Lays the configured entries over the inherited environment.
///
/// In the result every name has one entry. A name that the overrides set
/// has the value they give it, the last one if they set it more than once;
/// every other inherited name keeps its value; no other name appears.
pub fn merge_environment(
    inherited: &Vec<EnvironmentalVariable>,
    overrides: &Vec<EnvironmentalVariable>,
) -> (merged: Vec<EnvironmentalVariable>)
    ensures
        distinct_names(merged@),
        env_map(merged@) == env_map(inherited@).union_prefer_right(env_map(overrides@)),
{
    let mut merged: Vec<EnvironmentalVariable> = Vec::new();
    let mut taken: usize = 0;
    while taken < inherited.len()
        invariant
            taken <= inherited@.len(),
            distinct_names(merged@),
            env_map(merged@) == env_map(inherited@.take(taken as int)),
        decreases inherited@.len() - taken,
    {
        set_variable(&mut merged, &inherited[taken].name, &inherited[taken].value);
        proof {
            let longer = inherited@.take(taken + 1);
            assert(longer.drop_last() =~= inherited@.take(taken as int));
            assert(longer.last() == inherited@[taken as int]);
        }
        taken += 1;
    }
    assert(inherited@.take(taken as int) =~= inherited@);
    assert(overrides@.take(0) =~= Seq::<EnvironmentalVariable>::empty());
    assert(env_map(merged@) =~= env_map(inherited@).union_prefer_right(
        env_map(overrides@.take(0)),
    ));
    let mut laid: usize = 0;
    while laid < overrides.len()
        invariant
            laid <= overrides@.len(),
            distinct_names(merged@),
            env_map(merged@) == env_map(inherited@).union_prefer_right(
                env_map(overrides@.take(laid as int)),
            ),
        decreases overrides@.len() - laid,
    {
        set_variable(&mut merged, &overrides[laid].name, &overrides[laid].value);
        proof {
            let shorter = overrides@.take(laid as int);
            let longer = overrides@.take(laid + 1);
            assert(longer.drop_last() =~= shorter);
            assert(longer.last() == overrides@[laid as int]);
            assert(env_map(merged@) =~= env_map(inherited@).union_prefer_right(env_map(longer)));
        }
        laid += 1;
    }
    assert(overrides@.take(laid as int) =~= overrides@);
    merged
}

} // verus!
