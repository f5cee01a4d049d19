//! How many bytes slot names take, and which prefixes keep every name short
//! enough for Postgres.

use crate::decimal::decimal_digits;
use crate::decimal::lemma_decimal_digits_are_digits;
use crate::decimal::lemma_decimal_digits_len_of_machine_integers;
use crate::pipeline::MAX_SLOT_PREFIX_LENGTH;
use crate::slots::apply_delimiter;
use crate::slots::apply_slot_name;
use crate::slots::byte_length;
use crate::slots::fits_slot_name;
use crate::slots::slot_name;
use crate::slots::table_sync_delimiter;
use crate::slots::table_sync_slot_name;
use crate::slots::table_sync_slot_name_prefix;
use crate::slots::SlotIdentity;
use crate::types::TableId;
use vstd::prelude::*;
use vstd::utf8::is_ascii_chars;
use vstd::utf8::is_ascii_chars_encode_utf8;

verus! {

/// The bytes of two texts written one after the other are the bytes of the
/// first followed by those of the second.
pub proof fn lemma_byte_length_concat(first: Seq<char>, second: Seq<char>)
    ensures
        byte_length(first + second) == byte_length(first) + byte_length(second),
    decreases first.len(),
{
    if first.len() == 0 {
        assert(first + second =~= second);
    } else {
        assert((first + second).drop_first() =~= first.drop_first() + second);
        lemma_byte_length_concat(first.drop_first(), second);
    }
}

/// A text of ASCII characters takes one byte for each.
pub proof fn lemma_byte_length_ascii(text: Seq<char>)
    requires
        is_ascii_chars(text),
    ensures
        byte_length(text) == text.len(),
{
    is_ascii_chars_encode_utf8(text);
}

/// The decimal notation of a number takes one byte for each digit.
pub proof fn lemma_byte_length_decimal(n: nat)
    ensures
        byte_length(decimal_digits(n)) == decimal_digits(n).len(),
{
    lemma_decimal_digits_are_digits(n);
    lemma_byte_length_ascii(decimal_digits(n));
}

/// The name of an apply slot takes the bytes of the prefix, seven for the
/// delimiter, and one for each digit of the pipeline id.
pub proof fn lemma_apply_slot_name_length(prefix: Seq<char>, pipeline_id: u64)
    ensures
        byte_length(apply_slot_name(prefix, pipeline_id)) == byte_length(prefix) + 7
            + decimal_digits(pipeline_id as nat).len(),
{
    reveal_strlit("_apply_");
    let digits = decimal_digits(pipeline_id as nat);
    lemma_byte_length_ascii(apply_delimiter());
    lemma_byte_length_decimal(pipeline_id as nat);
    lemma_byte_length_concat(prefix, apply_delimiter());
    lemma_byte_length_concat(prefix + apply_delimiter(), digits);
}

/// What the names of the table sync slots of a pipeline begin with takes the
/// bytes of the prefix, twelve for the delimiter, one for each digit of the
/// pipeline id, and one for the underscore.
pub proof fn lemma_table_sync_slot_name_prefix_length(prefix: Seq<char>, pipeline_id: u64)
    ensures
        byte_length(table_sync_slot_name_prefix(prefix, pipeline_id)) == byte_length(prefix) + 13
            + decimal_digits(pipeline_id as nat).len(),
{
    reveal_strlit("_table_sync_");
    let digits = decimal_digits(pipeline_id as nat);
    lemma_byte_length_ascii(table_sync_delimiter());
    lemma_byte_length_ascii(seq!['_']);
    lemma_byte_length_decimal(pipeline_id as nat);
    lemma_byte_length_concat(prefix, table_sync_delimiter());
    lemma_byte_length_concat(prefix + table_sync_delimiter(), digits);
    lemma_byte_length_concat(prefix + table_sync_delimiter() + digits, seq!['_']);
}

/// The name of a table sync slot takes the bytes of what it begins with and
/// one for each digit of the table id.
pub proof fn lemma_table_sync_slot_name_length(
    prefix: Seq<char>,
    pipeline_id: u64,
    table_id: TableId,
)
    ensures
        byte_length(table_sync_slot_name(prefix, pipeline_id, table_id)) == byte_length(prefix)
            + 13 + decimal_digits(pipeline_id as nat).len() + decimal_digits(
            table_id.0 as nat,
        ).len(),
{
    lemma_table_sync_slot_name_prefix_length(prefix, pipeline_id);
    lemma_byte_length_decimal(table_id.0 as nat);
    lemma_byte_length_concat(
        table_sync_slot_name_prefix(prefix, pipeline_id),
        decimal_digits(table_id.0 as nat),
    );
}

/// With a prefix of at most `MAX_SLOT_PREFIX_LENGTH` bytes every name is
/// short enough for Postgres: that of every slot, whatever its ids, and what
/// the names of the table sync slots of a pipeline begin with.
pub proof fn lemma_bounded_prefix_fits(slot: SlotIdentity)
    requires
        byte_length(slot.prefix()) <= MAX_SLOT_PREFIX_LENGTH,
    ensures
        fits_slot_name(slot_name(slot)),
        fits_slot_name(apply_slot_name(slot.prefix(), slot.pipeline_id())),
        fits_slot_name(table_sync_slot_name_prefix(slot.prefix(), slot.pipeline_id())),
{
    lemma_decimal_digits_len_of_machine_integers(slot.pipeline_id() as nat);
    lemma_apply_slot_name_length(slot.prefix(), slot.pipeline_id());
    lemma_table_sync_slot_name_prefix_length(slot.prefix(), slot.pipeline_id());
    match slot {
        SlotIdentity::Apply { .. } => {},
        SlotIdentity::TableSync { pipeline_id, table_id, prefix } => {
            lemma_decimal_digits_len_of_machine_integers(table_id.0 as nat);
            lemma_table_sync_slot_name_length(prefix, pipeline_id, table_id);
        },
    }
}

} // verus!
