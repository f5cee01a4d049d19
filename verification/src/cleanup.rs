//! Which slots belong to a pipeline and are removed with it.

use crate::length::lemma_bounded_prefix_fits;
use crate::pipeline::MAX_SLOT_PREFIX_LENGTH;
use crate::slots::apply_slot_name;
use crate::slots::byte_length;
use crate::slots::fits_slot_name;
use crate::slots::table_sync_slot_name;
use crate::slots::EtlReplicationSlot;
use crate::slots::SlotIdentity;
use crate::types::TableId;
use vstd::prelude::*;

verus! {

/// Statement that drops the slots whose names are bound to its one
/// parameter. It leaves active slots alone: Postgres refuses to drop a slot
/// that a connection holds.
pub const DROP_INACTIVE_SLOTS_QUERY: &'static str =
    "select pg_drop_replication_slot(r.slot_name) from pg_replication_slots r where r.slot_name = any($1) and r.active = false;";

/// Names of all slots of a pipeline, whatever their length: that of the apply
/// slot first, then those of the table sync slots in the order of
/// `table_ids`.
pub open spec fn pipeline_slot_names(
    pipeline_id: u64,
    table_ids: Seq<TableId>,
    prefix: Seq<char>,
) -> Seq<Seq<char>> {
    seq![apply_slot_name(prefix, pipeline_id)] + table_ids.map_values(
        |table_id: TableId| table_sync_slot_name(prefix, pipeline_id, table_id),
    )
}

/// Names of the slots of a pipeline that can exist: those of
/// `pipeline_slot_names` that are short enough for Postgres, in the same
/// order.
pub open spec fn droppable_slot_names(
    pipeline_id: u64,
    table_ids: Seq<TableId>,
    prefix: Seq<char>,
) -> Seq<Seq<char>> {
    pipeline_slot_names(pipeline_id, table_ids, prefix).filter(
        |name: Seq<char>| fits_slot_name(name),
    )
}

/// Every name that is kept is short enough for Postgres and is the name of a
/// slot of the pipeline, and every name of the pipeline that is short enough
/// is kept.
pub proof fn lemma_droppable_slot_names(
    pipeline_id: u64,
    table_ids: Seq<TableId>,
    prefix: Seq<char>,
    name: Seq<char>,
)
    ensures
        droppable_slot_names(pipeline_id, table_ids, prefix).contains(name) <==> fits_slot_name(
            name,
        ) && pipeline_slot_names(pipeline_id, table_ids, prefix).contains(name),
{
    let all = pipeline_slot_names(pipeline_id, table_ids, prefix);
    let fits = |name: Seq<char>| fits_slot_name(name);
    if all.filter(fits).contains(name) {
        let i = choose|i: int| 0 <= i < all.filter(fits).len() && all.filter(fits)[i] == name;
        all.lemma_filter_pred(fits, i);
        all.lemma_filter_contains_rev(fits, name);
    }
    if fits_slot_name(name) && all.contains(name) {
        let i = choose|i: int| 0 <= i < all.len() && all[i] == name;
        all.lemma_filter_contains(fits, i);
    }
}

/// With a prefix of at most `MAX_SLOT_PREFIX_LENGTH` bytes no slot of the
/// pipeline is left out.
pub proof fn lemma_bounded_prefix_drops_all(
    pipeline_id: u64,
    table_ids: Seq<TableId>,
    prefix: Seq<char>,
)
    requires
        byte_length(prefix) <= MAX_SLOT_PREFIX_LENGTH,
    ensures
        droppable_slot_names(pipeline_id, table_ids, prefix) == pipeline_slot_names(
            pipeline_id,
            table_ids,
            prefix,
        ),
{
    let all = pipeline_slot_names(pipeline_id, table_ids, prefix);
    let fits = |name: Seq<char>| fits_slot_name(name);
    assert forall|i: int| 0 <= i < all.len() implies fits(#[trigger] all[i]) by {
        if i == 0 {
            lemma_bounded_prefix_fits(SlotIdentity::Apply { pipeline_id, prefix });
        } else {
            lemma_bounded_prefix_fits(
                SlotIdentity::TableSync { pipeline_id, table_id: table_ids[i - 1], prefix },
            );
        }
    }
    lemma_filter_keeps_all(all, fits);
}

/// Filtering keeps a sequence as it is where every item passes.
proof fn lemma_filter_keeps_all(items: Seq<Seq<char>>, passes: spec_fn(Seq<char>) -> bool)
    requires
        forall|i: int| 0 <= i < items.len() ==> passes(#[trigger] items[i]),
    ensures
        items.filter(passes) == items,
    decreases items.len(),
{
    reveal(Seq::filter);
    if items.len() > 0 {
        lemma_filter_keeps_all(items.drop_last(), passes);
        assert(items.drop_last().push(items.last()) =~= items);
    }
}

/// Collects the names of the slots to drop when a pipeline is removed.
///
/// A name that would be too long is left out without an error: no such slot
/// can exist, and it must not keep the others from being dropped.
pub fn pipeline_replication_slot_names(
    pipeline_id: u64,
    table_ids: &[TableId],
    slot_prefix: &str,
) -> (names: Vec<String>)
    ensures
        names.deep_view() == droppable_slot_names(pipeline_id, table_ids@, slot_prefix@),
{
    let ghost all = pipeline_slot_names(pipeline_id, table_ids@, slot_prefix@);
    let ghost fits = |name: Seq<char>| fits_slot_name(name);
    let mut names: Vec<String> = Vec::new();

    let slot = EtlReplicationSlot::for_apply_worker(pipeline_id, slot_prefix.to_owned());
    if let Ok(name) = String::try_from(slot) {
        names.push(name);
    }
    proof {
        reveal_with_fuel(Seq::filter, 2);
        assert(all.take(1).drop_last() =~= Seq::<Seq<char>>::empty());
        assert(names.deep_view() =~= all.take(1).filter(fits));
    }

    let mut i: usize = 0;
    while i < table_ids.len()
        invariant
            i <= table_ids@.len(),
            all == pipeline_slot_names(pipeline_id, table_ids@, slot_prefix@),
            fits == |name: Seq<char>| fits_slot_name(name),
            names.deep_view() == all.take(i + 1).filter(fits),
        decreases table_ids@.len() - i,
    {
        let ghost before = names.deep_view();
        let slot = EtlReplicationSlot::for_table_sync_worker(
            pipeline_id,
            table_ids[i],
            slot_prefix.to_owned(),
        );
        if let Ok(name) = String::try_from(slot) {
            names.push(name);
            assert(names.deep_view() =~= before.push(name@));
        }
        proof {
            reveal(Seq::filter);
            assert(all.take(i + 2).drop_last() =~= all.take(i + 1));
        }
        i = i + 1;
    }
    assert(all.take(i + 1) =~= all);
    names
}

} // verus!
