//! Reading a slot name undoes writing it: for which slots this holds, and
//! why.

use crate::decimal::decimal_digits;
use crate::decimal::is_digit;
use crate::decimal::lemma_decimal_digits_are_digits;
use crate::decimal::lemma_parse_decimal_digits;
use crate::slots::apply_delimiter;
use crate::slots::apply_slot_name;
use crate::slots::decode_slot_name;
use crate::slots::slot_name;
use crate::slots::table_sync_delimiter;
use crate::slots::table_sync_slot_name;
use crate::slots::SlotIdentity;
use crate::slots::DEFAULT_SLOT_PREFIX;
use crate::text::contains;
use crate::text::first_occurrence;
use crate::text::is_first_occurrence;
use crate::text::is_last_index_of;
use crate::text::lemma_first_occurrence_exists;
use crate::text::lemma_first_occurrence_unique;
use crate::text::lemma_last_index_of_unique;
use crate::text::occurs_at;
use crate::types::TableId;
use vstd::prelude::*;

verus! {

/// True when the prefix of `slot` can be told from its name.
///
/// Reading a name looks for `_apply_` first and for `_table_sync_` second,
/// and ends the prefix where it first finds one. So the prefix of an apply
/// slot, with the underscore that follows it in the name, must hold no
/// `_apply_`; that of a table sync slot, with that underscore, must hold
/// neither delimiter.
pub open spec fn prefix_is_recoverable(slot: SlotIdentity) -> bool {
    let guarded = slot.prefix().push('_');
    match slot {
        SlotIdentity::Apply { .. } => !contains(guarded, apply_delimiter()),
        SlotIdentity::TableSync { .. } => {
            &&& !contains(guarded, apply_delimiter())
            &&& !contains(guarded, table_sync_delimiter())
        },
    }
}

/// True when reading the name of `slot` ends the prefix where it ends: the
/// delimiter of the slot's kind first occurs there, and the name of a table
/// sync slot holds no `_apply_` at all.
spec fn delimiter_ends_prefix(slot: SlotIdentity) -> bool {
    let at = slot.prefix().len() as int;
    match slot {
        SlotIdentity::Apply { .. } => is_first_occurrence(slot_name(slot), apply_delimiter(), at),
        SlotIdentity::TableSync { .. } => {
            &&& !contains(slot_name(slot), apply_delimiter())
            &&& is_first_occurrence(slot_name(slot), table_sync_delimiter(), at)
        },
    }
}

/// Where a pattern occurs, the text holds its characters one by one.
proof fn lemma_occurrence_chars(text: Seq<char>, pattern: Seq<char>, at: int)
    requires
        occurs_at(text, pattern, at),
    ensures
        forall|k: int| 0 <= k < pattern.len() ==> text[at + k] == #[trigger] pattern[k],
{
    assert forall|k: int| 0 <= k < pattern.len() implies text[at + k] == #[trigger] pattern[k] by {
        assert(text.subrange(at, at + pattern.len())[k] == text[at + k]);
    }
}

/// An occurrence in one text is an occurrence in every text that holds the
/// same characters there.
proof fn lemma_occurrence_carries_over(
    text: Seq<char>,
    other: Seq<char>,
    pattern: Seq<char>,
    at: int,
)
    requires
        occurs_at(text, pattern, at),
        at + pattern.len() <= other.len(),
        forall|i: int| at <= i < at + pattern.len() ==> text[i] == other[i],
    ensures
        occurs_at(other, pattern, at),
{
    assert(other.subrange(at, at + pattern.len()) =~= text.subrange(at, at + pattern.len()));
}

/// In the name of an apply slot, `_apply_` first occurs at the end of the
/// prefix exactly where the prefix is recoverable.
proof fn lemma_apply_delimiter_ends_prefix(pipeline_id: u64, prefix: Seq<char>)
    ensures
        delimiter_ends_prefix(SlotIdentity::Apply { pipeline_id, prefix })
            <==> prefix_is_recoverable(SlotIdentity::Apply { pipeline_id, prefix }),
{
    reveal_strlit("_apply_");
    let delimiter = apply_delimiter();
    let name = apply_slot_name(prefix, pipeline_id);
    let guarded = prefix.push('_');
    let end = prefix.len() as int;
    assert(name.subrange(end, end + delimiter.len()) =~= delimiter);
    if contains(guarded, delimiter) {
        let at = choose|at: int| occurs_at(guarded, delimiter, at);
        lemma_occurrence_carries_over(guarded, name, delimiter, at);
    }
    if !is_first_occurrence(name, delimiter, end) {
        let at = choose|at: int| 0 <= at < end && occurs_at(name, delimiter, at);
        lemma_occurrence_chars(name, delimiter, at);
        if at + delimiter.len() <= guarded.len() {
            lemma_occurrence_carries_over(name, guarded, delimiter, at);
        } else {
            assert(name[end] == delimiter[end - at]);
        }
    }
}

/// What the name of a table sync slot holds: the prefix, then the delimiter,
/// then nothing but digits and underscores.
proof fn lemma_table_sync_name_chars(pipeline_id: u64, table_id: TableId, prefix: Seq<char>)
    ensures
        ({
            let name = table_sync_slot_name(prefix, pipeline_id, table_id);
            let delimiter = table_sync_delimiter();
            let end = prefix.len() as int;
            &&& name.len() > end + delimiter.len()
            &&& forall|i: int| 0 <= i < end ==> name[i] == prefix[i]
            &&& forall|k: int| 0 <= k < delimiter.len() ==> name[end + k] == delimiter[k]
            &&& forall|i: int|
                end + delimiter.len() <= i < name.len() ==> is_digit(name[i]) || name[i] == '_'
        }),
{
    let name = table_sync_slot_name(prefix, pipeline_id, table_id);
    let delimiter = table_sync_delimiter();
    let end = prefix.len() as int;
    let pipeline_digits = decimal_digits(pipeline_id as nat);
    let table_digits = decimal_digits(table_id.0 as nat);
    let ids_at = end + delimiter.len();
    lemma_decimal_digits_are_digits(pipeline_id as nat);
    lemma_decimal_digits_are_digits(table_id.0 as nat);
    assert forall|i: int| ids_at <= i < name.len() implies is_digit(name[i]) || name[i] == '_' by {
        if i < ids_at + pipeline_digits.len() {
            assert(name[i] == pipeline_digits[i - ids_at]);
        } else if i > ids_at + pipeline_digits.len() {
            assert(name[i] == table_digits[i - ids_at - pipeline_digits.len() - 1]);
        }
    }
}

/// The name of a table sync slot holds `_apply_` exactly where the prefix,
/// with the underscore that follows it, does.
proof fn lemma_apply_delimiter_in_table_sync_name(
    pipeline_id: u64,
    table_id: TableId,
    prefix: Seq<char>,
)
    ensures
        contains(table_sync_slot_name(prefix, pipeline_id, table_id), apply_delimiter())
            <==> contains(prefix.push('_'), apply_delimiter()),
{
    reveal_strlit("_apply_");
    reveal_strlit("_table_sync_");
    let apply = apply_delimiter();
    let delimiter = table_sync_delimiter();
    let name = table_sync_slot_name(prefix, pipeline_id, table_id);
    let guarded = prefix.push('_');
    let end = prefix.len() as int;
    lemma_table_sync_name_chars(pipeline_id, table_id, prefix);
    assert(name[end] == delimiter[0]);
    if contains(guarded, apply) {
        let at = choose|at: int| occurs_at(guarded, apply, at);
        lemma_occurrence_carries_over(guarded, name, apply, at);
    }
    if contains(name, apply) {
        let at = choose|at: int| occurs_at(name, apply, at);
        lemma_occurrence_chars(name, apply, at);
        if at + apply.len() <= guarded.len() {
            lemma_occurrence_carries_over(name, guarded, apply, at);
        } else if at < end {
            assert(name[end] == apply[end - at]);
        } else {
            assert(name[at + 1] == apply[1]);
            assert(name[at + 2] == apply[2]);
            if at + 1 < end + delimiter.len() {
                assert(name[at + 1] == delimiter[at + 1 - end]);
                assert(name[end + 3] == delimiter[3]);
            }
        }
    }
}

/// The characters of `_table_sync_`.
proof fn lemma_table_sync_delimiter_chars()
    ensures
        table_sync_delimiter() == seq!['_', 't', 'a', 'b', 'l', 'e', '_', 's', 'y', 'n', 'c', '_'],
{
    reveal_strlit("_table_sync_");
    assert(table_sync_delimiter() =~= seq![
        '_',
        't',
        'a',
        'b',
        'l',
        'e',
        '_',
        's',
        'y',
        'n',
        'c',
        '_',
    ]);
}

/// Two occurrences of `_table_sync_` share at most one character: only its
/// last character is followed by what it begins with, an underscore and a
/// `t`.
proof fn lemma_table_sync_delimiter_overlap(name: Seq<char>, at: int, end: int)
    requires
        occurs_at(name, table_sync_delimiter(), at),
        occurs_at(name, table_sync_delimiter(), end),
        at < end,
    ensures
        at + 11 <= end,
{
    let delimiter = table_sync_delimiter();
    lemma_table_sync_delimiter_chars();
    lemma_occurrence_chars(name, delimiter, at);
    lemma_occurrence_chars(name, delimiter, end);
    let k = end - at;
    if k < 11 {
        assert(name[end] == delimiter[0]);
        assert(name[end + 1] == delimiter[1]);
        assert(name[at + k] == delimiter[k]);
        assert(name[at + k + 1] == delimiter[k + 1]);
    }
}

/// In the name of a table sync slot, `_table_sync_` first occurs at the end
/// of the prefix exactly where the prefix, with the underscore that follows
/// it, holds no `_table_sync_`.
proof fn lemma_table_sync_delimiter_first_occurrence(
    pipeline_id: u64,
    table_id: TableId,
    prefix: Seq<char>,
)
    ensures
        is_first_occurrence(
            table_sync_slot_name(prefix, pipeline_id, table_id),
            table_sync_delimiter(),
            prefix.len() as int,
        ) <==> !contains(prefix.push('_'), table_sync_delimiter()),
{
    let delimiter = table_sync_delimiter();
    let name = table_sync_slot_name(prefix, pipeline_id, table_id);
    let guarded = prefix.push('_');
    let end = prefix.len() as int;
    lemma_table_sync_delimiter_chars();
    assert(name.subrange(end, end + delimiter.len()) =~= delimiter);
    assert(name[end] == guarded[end]);
    if contains(guarded, delimiter) {
        let at = choose|at: int| occurs_at(guarded, delimiter, at);
        lemma_occurrence_carries_over(guarded, name, delimiter, at);
    }
    if !is_first_occurrence(name, delimiter, end) {
        let at = choose|at: int| 0 <= at < end && occurs_at(name, delimiter, at);
        if at + delimiter.len() <= guarded.len() {
            lemma_occurrence_carries_over(name, guarded, delimiter, at);
        } else {
            lemma_table_sync_delimiter_overlap(name, at, end);
        }
    }
}

/// In the name of a table sync slot, `_apply_` occurs nowhere and
/// `_table_sync_` first occurs at the end of the prefix exactly where the
/// prefix is recoverable.
proof fn lemma_table_sync_delimiter_ends_prefix(
    pipeline_id: u64,
    table_id: TableId,
    prefix: Seq<char>,
)
    ensures
        delimiter_ends_prefix(SlotIdentity::TableSync { pipeline_id, table_id, prefix })
            <==> prefix_is_recoverable(SlotIdentity::TableSync { pipeline_id, table_id, prefix }),
{
    lemma_apply_delimiter_in_table_sync_name(pipeline_id, table_id, prefix);
    lemma_table_sync_delimiter_first_occurrence(pipeline_id, table_id, prefix);
}

/// Reading the name of an apply slot gives the slot back, where the
/// delimiter first occurs at the end of the prefix.
proof fn lemma_apply_round_trip(pipeline_id: u64, prefix: Seq<char>)
    requires
        delimiter_ends_prefix(SlotIdentity::Apply { pipeline_id, prefix }),
    ensures
        decode_slot_name(apply_slot_name(prefix, pipeline_id)) == Some(
            SlotIdentity::Apply { pipeline_id, prefix },
        ),
{
    let name = apply_slot_name(prefix, pipeline_id);
    let at = prefix.len() as int;
    let id_at = at + apply_delimiter().len();
    lemma_first_occurrence_unique(name, apply_delimiter(), at);
    lemma_parse_decimal_digits(pipeline_id as nat, u64::MAX as nat);
    assert(name.skip(id_at) =~= decimal_digits(pipeline_id as nat));
    assert(name.take(at) =~= prefix);
}

/// Reading the name of a table sync slot gives the slot back, where the
/// name holds no `_apply_` and `_table_sync_` first occurs at the end of the
/// prefix.
proof fn lemma_table_sync_round_trip(pipeline_id: u64, table_id: TableId, prefix: Seq<char>)
    requires
        delimiter_ends_prefix(SlotIdentity::TableSync { pipeline_id, table_id, prefix }),
    ensures
        decode_slot_name(table_sync_slot_name(prefix, pipeline_id, table_id)) == Some(
            SlotIdentity::TableSync { pipeline_id, table_id, prefix },
        ),
{
    let name = table_sync_slot_name(prefix, pipeline_id, table_id);
    let at = prefix.len() as int;
    let ids_at = at + table_sync_delimiter().len();
    let pipeline_digits = decimal_digits(pipeline_id as nat);
    let table_digits = decimal_digits(table_id.0 as nat);
    let ids = name.skip(ids_at);
    let split = pipeline_digits.len() as int;
    lemma_first_occurrence_unique(name, table_sync_delimiter(), at);
    lemma_decimal_digits_are_digits(pipeline_id as nat);
    lemma_decimal_digits_are_digits(table_id.0 as nat);
    lemma_parse_decimal_digits(pipeline_id as nat, u64::MAX as nat);
    lemma_parse_decimal_digits(table_id.0 as nat, u32::MAX as nat);
    assert(ids =~= pipeline_digits + seq!['_'] + table_digits);
    assert(is_last_index_of(ids, '_', split)) by {
        assert forall|later: int| split < later < ids.len() implies ids[later] != '_' by {
            assert(ids[later] == table_digits[later - split - 1]);
        }
    }
    lemma_last_index_of_unique(ids, '_', split);
    assert(ids.take(split) =~= pipeline_digits);
    assert(ids.skip(split + 1) =~= table_digits);
    assert(name.take(at) =~= prefix);
}

/// Reading the name of a slot gives the slot back exactly where the
/// delimiter ends the prefix.
proof fn lemma_round_trip_by_position(slot: SlotIdentity)
    ensures
        decode_slot_name(slot_name(slot)) == Some(slot) <==> delimiter_ends_prefix(slot),
{
    let name = slot_name(slot);
    match slot {
        SlotIdentity::Apply { pipeline_id, prefix } => {
            if delimiter_ends_prefix(slot) {
                lemma_apply_round_trip(pipeline_id, prefix);
            }
            if decode_slot_name(name) == Some(slot) {
                let at = prefix.len() as int;
                assert(name.subrange(at, at + apply_delimiter().len()) =~= apply_delimiter());
                assert(occurs_at(name, apply_delimiter(), at));
                lemma_first_occurrence_exists(name, apply_delimiter());
                let first = first_occurrence(name, apply_delimiter());
                assert(name.take(first).len() == prefix.len());
            }
        },
        SlotIdentity::TableSync { pipeline_id, table_id, prefix } => {
            if delimiter_ends_prefix(slot) {
                lemma_table_sync_round_trip(pipeline_id, table_id, prefix);
            }
            if decode_slot_name(name) == Some(slot) {
                let at = prefix.len() as int;
                assert(name.subrange(at, at + table_sync_delimiter().len())
                    =~= table_sync_delimiter());
                assert(occurs_at(name, table_sync_delimiter(), at));
                lemma_first_occurrence_exists(name, table_sync_delimiter());
                let first = first_occurrence(name, table_sync_delimiter());
                assert(name.take(first).len() == prefix.len());
            }
        },
    }
}

/// Round trip: reading the name of a slot gives the slot back, with the same
/// kind, prefix, pipeline id and table id, exactly where the slot's prefix
/// is recoverable. This holds of every pipeline id and every table id, and
/// whatever the length of the name.
pub proof fn lemma_round_trip(slot: SlotIdentity)
    ensures
        decode_slot_name(slot_name(slot)) == Some(slot) <==> prefix_is_recoverable(slot),
{
    lemma_round_trip_by_position(slot);
    match slot {
        SlotIdentity::Apply { pipeline_id, prefix } => {
            lemma_apply_delimiter_ends_prefix(pipeline_id, prefix);
        },
        SlotIdentity::TableSync { pipeline_id, table_id, prefix } => {
            lemma_table_sync_delimiter_ends_prefix(pipeline_id, table_id, prefix);
        },
    }
}

/// Two slots with recoverable prefixes and one name are one slot: no two
/// workers of such pipelines ever share a slot.
pub proof fn lemma_names_tell_slots_apart(first: SlotIdentity, second: SlotIdentity)
    requires
        prefix_is_recoverable(first),
        prefix_is_recoverable(second),
        slot_name(first) == slot_name(second),
    ensures
        first == second,
{
    lemma_round_trip(first);
    lemma_round_trip(second);
}

/// The default prefix is recoverable: every slot that is named with it is
/// read back from its name.
pub proof fn lemma_default_prefix_round_trip(slot: SlotIdentity)
    requires
        slot.prefix() == DEFAULT_SLOT_PREFIX@,
    ensures
        decode_slot_name(slot_name(slot)) == Some(slot),
{
    reveal_strlit("supabase_etl");
    reveal_strlit("_apply_");
    reveal_strlit("_table_sync_");
    let guarded = slot.prefix().push('_');
    assert forall|at: int| !occurs_at(guarded, apply_delimiter(), at) by {
        if occurs_at(guarded, apply_delimiter(), at) {
            lemma_occurrence_chars(guarded, apply_delimiter(), at);
            assert(guarded[at] == apply_delimiter()[0]);
        }
    }
    assert forall|at: int| !occurs_at(guarded, table_sync_delimiter(), at) by {
        if occurs_at(guarded, table_sync_delimiter(), at) {
            lemma_occurrence_chars(guarded, table_sync_delimiter(), at);
            assert(guarded[at] == table_sync_delimiter()[0]);
        }
    }
    lemma_round_trip(slot);
}

} // verus!
