//! Selection of archive entries for a run.
//!
//! From the source archive's entry list (hash, attribute bits, resolved
//! name) a plan is built: in texture-only mode only transformable entries
//! are kept, in full-package mode every entry is kept; each planned entry
//! remembers the source entry it came from and carries the attribute bits
//! the destination entry will receive, per the attribute-cloning switch.

use vstd::prelude::*;

verus! {

use crate::DEFAULT_ATTR;
use crate::EntryClass;
use crate::names::name_view;
use crate::names::spec_classify;
use crate::names::classify;

/// One entry of the source archive, as plain values: its content hash, its
/// opaque attribute bits, and the name resolved for the hash, if any.
pub struct EntryInput {
    pub hash: u64,
    pub attr: u64,
    pub name: Option<Vec<u8>>,
}

/// One selected entry: where it stands in the source entry list, what the
/// run will read, how its payload is handled, and the attribute bits its
/// destination entry will carry.
#[derive(Clone, Copy, Debug, PartialEq, Eq, Structural)]
pub struct PlannedEntry {
    pub src_idx: usize,
    pub hash: u64,
    pub attr_out: u64,
    pub class: EntryClass,
}

/// Whether an entry takes part in the run: always in full-package mode,
/// otherwise only when it is classified as a texture container.
pub open spec fn spec_selected(e: EntryInput, full_mode: bool) -> bool {
    full_mode || spec_classify(name_view(e.name)) is Transformable
}

/// The planned form of the source entry at index `i`.
pub open spec fn spec_planned(e: EntryInput, i: int, clone_attr: bool) -> PlannedEntry {
    PlannedEntry {
        src_idx: i as usize,
        hash: e.hash,
        attr_out: if clone_attr {
            e.attr
        } else {
            DEFAULT_ATTR
        },
        class: spec_classify(name_view(e.name)),
    }
}

/// The plan for a whole entry list: the selected entries, in source order,
/// each in planned form.
pub open spec fn spec_plan(
    inputs: Seq<EntryInput>,
    full_mode: bool,
    clone_attr: bool,
) -> Seq<PlannedEntry>
    decreases inputs.len(),
{
    if inputs.len() == 0 {
        Seq::empty()
    } else {
        let rest = spec_plan(inputs.drop_last(), full_mode, clone_attr);
        if spec_selected(inputs.last(), full_mode) {
            rest.push(spec_planned(inputs.last(), inputs.len() - 1, clone_attr))
        } else {
            rest
        }
    }
}

/// Builds the plan for a run over the given source entries.
pub fn plan_entries(inputs: &Vec<EntryInput>, full_mode: bool, clone_attr: bool) -> (plan: Vec<
    PlannedEntry,
>)
    ensures
        plan@ == spec_plan(inputs@, full_mode, clone_attr),
{
    let mut plan: Vec<PlannedEntry> = Vec::new();
    let mut i: usize = 0;
    while i < inputs.len()
        invariant
            i <= inputs@.len(),
            plan@ == spec_plan(inputs@.take(i as int), full_mode, clone_attr),
        decreases inputs@.len() - i,
    {
        let e = &inputs[i];
        let class = classify(&e.name);
        let selected = full_mode || matches!(class, EntryClass::Transformable);
        if selected {
            let attr_out = crate::select_attr(clone_attr, e.attr);
            plan.push(PlannedEntry { src_idx: i, hash: e.hash, attr_out, class });
        }
        proof {
            let pre = inputs@.take(i as int);
            let post = inputs@.take(i + 1);
            assert(post.drop_last() =~= pre);
            assert(post.last() == inputs@[i as int]);
        }
        i = i + 1;
    }
    proof {
        assert(inputs@.take(inputs@.len() as int) =~= inputs@);
    }
    plan
}

/// Law of the plan: every planned entry is the planned form of the source
/// entry it points back to, and that source entry was selected.
pub proof fn law_plan(inputs: Seq<EntryInput>, full_mode: bool, clone_attr: bool)
    requires
        inputs.len() <= usize::MAX,
    ensures
        forall|k: int|
            0 <= k < spec_plan(inputs, full_mode, clone_attr).len() ==> {
                let p = #[trigger] spec_plan(inputs, full_mode, clone_attr)[k];
                0 <= p.src_idx < inputs.len() && p == spec_planned(
                    inputs[p.src_idx as int],
                    p.src_idx as int,
                    clone_attr,
                ) && spec_selected(inputs[p.src_idx as int], full_mode)
            },
    decreases inputs.len(),
{
    if inputs.len() == 0 {
    } else {
        law_plan(inputs.drop_last(), full_mode, clone_attr);
        let plan = spec_plan(inputs, full_mode, clone_attr);
        let rest = spec_plan(inputs.drop_last(), full_mode, clone_attr);
        assert forall|k: int| 0 <= k < plan.len() implies {
            let p = #[trigger] plan[k];
            0 <= p.src_idx < inputs.len() && p == spec_planned(
                inputs[p.src_idx as int],
                p.src_idx as int,
                clone_attr,
            ) && spec_selected(inputs[p.src_idx as int], full_mode)
        } by {
            if k < rest.len() {
                assert(plan[k] == rest[k]);
                assert(inputs.drop_last()[rest[k].src_idx as int] == inputs[rest[k].src_idx as int]);
            } else {
                assert(spec_selected(inputs.last(), full_mode));
                assert(plan[k] == spec_planned(inputs.last(), inputs.len() - 1, clone_attr));
                assert(inputs[inputs.len() - 1] == inputs.last());
            }
        }
    }
}

/// How many entries of `inputs` are selected in the given mode.
pub open spec fn count_selected(inputs: Seq<EntryInput>, full_mode: bool) -> nat
    decreases inputs.len(),
{
    if inputs.len() == 0 {
        0
    } else {
        count_selected(inputs.drop_last(), full_mode) + (if spec_selected(
            inputs.last(),
            full_mode,
        ) {
            1nat
        } else {
            0nat
        })
    }
}

/// Law of completeness and order: the plan holds exactly one entry per
/// selected source entry, and keeps them in source order.
pub proof fn law_plan_ordered(inputs: Seq<EntryInput>, full_mode: bool, clone_attr: bool)
    requires
        inputs.len() <= usize::MAX,
    ensures
        spec_plan(inputs, full_mode, clone_attr).len() == count_selected(inputs, full_mode),
        forall|k1: int, k2: int|
            0 <= k1 < k2 < spec_plan(inputs, full_mode, clone_attr).len()
                ==> #[trigger] spec_plan(inputs, full_mode, clone_attr)[k1].src_idx
                < #[trigger] spec_plan(inputs, full_mode, clone_attr)[k2].src_idx,
    decreases inputs.len(),
{
    if inputs.len() == 0 {
    } else {
        law_plan_ordered(inputs.drop_last(), full_mode, clone_attr);
        law_plan(inputs.drop_last(), full_mode, clone_attr);
        let plan = spec_plan(inputs, full_mode, clone_attr);
        let rest = spec_plan(inputs.drop_last(), full_mode, clone_attr);
        assert forall|k1: int, k2: int| 0 <= k1 < k2 < plan.len() implies #[trigger] plan[k1].src_idx
            < #[trigger] plan[k2].src_idx by {
            if k2 < rest.len() {
                assert(plan[k1] == rest[k1]);
                assert(plan[k2] == rest[k2]);
            } else {
                assert(plan[k1] == rest[k1]);
                assert(rest[k1].src_idx < inputs.drop_last().len());
                assert(plan[k2] == spec_planned(inputs.last(), inputs.len() - 1, clone_attr));
            }
        }
    }
}

/// Law of attribute propagation: with attribute cloning on, every planned
/// entry carries the attribute bits of the source entry with its hash;
/// with cloning off, every planned entry carries the default bits.
pub proof fn law_attr_policy(inputs: Seq<EntryInput>, full_mode: bool, clone_attr: bool)
    requires
        inputs.len() <= usize::MAX,
    ensures
        forall|k: int|
            0 <= k < spec_plan(inputs, full_mode, clone_attr).len() ==> {
                let p = #[trigger] spec_plan(inputs, full_mode, clone_attr)[k];
                &&& (!clone_attr ==> p.attr_out == DEFAULT_ATTR)
                &&& (clone_attr ==> 0 <= p.src_idx < inputs.len() && inputs[p.src_idx as int].hash
                    == p.hash && inputs[p.src_idx as int].attr == p.attr_out)
            },
{
    law_plan(inputs, full_mode, clone_attr);
}

/// Law of selection: in texture-only mode every planned entry is a texture
/// container; in full-package mode every source entry is planned, in order.
pub proof fn law_selection(inputs: Seq<EntryInput>, clone_attr: bool)
    requires
        inputs.len() <= usize::MAX,
    ensures
        forall|k: int|
            0 <= k < spec_plan(inputs, false, clone_attr).len() ==> #[trigger] spec_plan(
                inputs,
                false,
                clone_attr,
            )[k].class is Transformable,
        spec_plan(inputs, true, clone_attr).len() == inputs.len(),
        forall|k: int|
            0 <= k < inputs.len() ==> #[trigger] spec_plan(inputs, true, clone_attr)[k]
                == spec_planned(inputs[k], k, clone_attr),
    decreases inputs.len(),
{
    law_plan(inputs, false, clone_attr);
    if inputs.len() == 0 {
    } else {
        law_selection(inputs.drop_last(), clone_attr);
        assert forall|k: int| 0 <= k < inputs.len() implies #[trigger] spec_plan(
            inputs,
            true,
            clone_attr,
        )[k] == spec_planned(inputs[k], k, clone_attr) by {
            if k < inputs.len() - 1 {
                assert(inputs.drop_last()[k] == inputs[k]);
            } else {
                assert(inputs.last() == inputs[k]);
            }
        }
    }
}

} // verus!
