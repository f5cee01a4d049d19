//! Names of replication slots: the identity of a slot, the name that Postgres
//! stores for it, and the conversion in both directions.

use crate::decimal::append_decimal;
use crate::decimal::decimal_digits;
use crate::decimal::parse_decimal;
use crate::decimal::parse_unsigned;
use crate::text::contains;
use crate::text::find;
use crate::text::first_occurrence;
use crate::text::last_index_of;
use crate::text::lemma_first_occurrence_unique;
use crate::text::lemma_last_index_of_unique;
use crate::text::rfind_char;
use crate::text::to_chars;
use crate::types::TableId;
use std::borrow::Cow;
use vstd::prelude::*;
use vstd::std_specs::convert::TryFromSpecImpl;
use vstd::string::StrSliceExecFns;
use vstd::string::StringExecFns;
use vstd::utf8::encode_utf8;

verus! {

/// Largest number of bytes that Postgres accepts in a slot name.
pub const MAX_SLOT_NAME_LENGTH: usize = 63;

/// Prefix of slot names where the operator chose none.
pub const DEFAULT_SLOT_PREFIX: &'static str = "supabase_etl";

/// Why a slot name could not be built or read.
#[derive(Debug)]
pub enum EtlReplicationSlotError {
    /// The name, carried here, is longer than Postgres accepts.
    InvalidSlotNameLength(String),
    /// The name, carried here, is not the name of a slot of this scheme.
    InvalidSlotName(String),
}

/// Identity of a replication slot.
///
/// The prefix is borrowed where it lives as long as the program and owned
/// where it does not, so that the slots of one pipeline can share it.
#[derive(Debug, PartialEq, Eq)]
pub enum EtlReplicationSlot {
    /// Slot of the apply worker of a pipeline.
    Apply { pipeline_id: u64, prefix: Cow<'static, str> },
    /// Slot of the worker that copies one table of a pipeline.
    TableSync { pipeline_id: u64, table_id: TableId, prefix: Cow<'static, str> },
}

/// What can be the prefix of a slot: a string that lives as long as the
/// program, which is borrowed, or an owned string, which is kept.
pub trait IntoSlotPrefix: View<V = Seq<char>> + Sized {
    /// The prefix as a slot holds it, with the same characters.
    fn into_slot_prefix(self) -> (prefix: Cow<'static, str>)
        ensures
            prefix@ == self@,
    ;
}

impl IntoSlotPrefix for &'static str {
    fn into_slot_prefix(self) -> (prefix: Cow<'static, str>) {
        Cow::Borrowed(self)
    }
}

impl IntoSlotPrefix for String {
    fn into_slot_prefix(self) -> (prefix: Cow<'static, str>) {
        Cow::Owned(self)
    }
}

impl IntoSlotPrefix for Cow<'static, str> {
    fn into_slot_prefix(self) -> (prefix: Cow<'static, str>) {
        self
    }
}

/// A copy of a prefix: a borrowed one is borrowed again, an owned one is
/// copied.
fn clone_prefix(prefix: &Cow<'static, str>) -> (copy: Cow<'static, str>)
    ensures
        copy@ == prefix@,
{
    match prefix {
        Cow::Borrowed(borrowed) => Cow::Borrowed(*borrowed),
        Cow::Owned(owned) => Cow::Owned(owned.clone()),
    }
}

/// The prefix as the beginning of a name that can be added to.
fn into_name(prefix: Cow<'static, str>) -> (name: String)
    ensures
        name@ == prefix@,
{
    match prefix {
        Cow::Borrowed(borrowed) => String::from_str(borrowed),
        Cow::Owned(owned) => owned,
    }
}

impl Clone for EtlReplicationSlot {
    fn clone(&self) -> (copy: Self)
        ensures
            copy@ == self@,
    {
        match self {
            EtlReplicationSlot::Apply { pipeline_id, prefix } => EtlReplicationSlot::Apply {
                pipeline_id: *pipeline_id,
                prefix: clone_prefix(prefix),
            },
            EtlReplicationSlot::TableSync {
                pipeline_id,
                table_id,
                prefix,
            } => EtlReplicationSlot::TableSync {
                pipeline_id: *pipeline_id,
                table_id: *table_id,
                prefix: clone_prefix(prefix),
            },
        }
    }
}

/// Mathematical value of an [`EtlReplicationSlot`].
pub enum SlotIdentity {
    Apply { pipeline_id: u64, prefix: Seq<char> },
    TableSync { pipeline_id: u64, table_id: TableId, prefix: Seq<char> },
}

impl SlotIdentity {
    /// The prefix of the slot.
    pub open spec fn prefix(self) -> Seq<char> {
        match self {
            SlotIdentity::Apply { pipeline_id, prefix } => prefix,
            SlotIdentity::TableSync { pipeline_id, table_id, prefix } => prefix,
        }
    }

    /// The pipeline that the slot belongs to.
    pub open spec fn pipeline_id(self) -> u64 {
        match self {
            SlotIdentity::Apply { pipeline_id, prefix } => pipeline_id,
            SlotIdentity::TableSync { pipeline_id, table_id, prefix } => pipeline_id,
        }
    }
}

impl View for EtlReplicationSlot {
    type V = SlotIdentity;

    open spec fn view(&self) -> SlotIdentity {
        match self {
            EtlReplicationSlot::Apply { pipeline_id, prefix } => SlotIdentity::Apply {
                pipeline_id: *pipeline_id,
                prefix: prefix@,
            },
            EtlReplicationSlot::TableSync {
                pipeline_id,
                table_id,
                prefix,
            } => SlotIdentity::TableSync {
                pipeline_id: *pipeline_id,
                table_id: *table_id,
                prefix: prefix@,
            },
        }
    }
}

/// What separates the prefix from the pipeline id in the name of an apply
/// slot.
pub open spec fn apply_delimiter() -> Seq<char> {
    "_apply_"@
}

/// What separates the prefix from the pipeline id in the name of a table
/// sync slot.
pub open spec fn table_sync_delimiter() -> Seq<char> {
    "_table_sync_"@
}

/// Name of the apply slot of a pipeline.
pub open spec fn apply_slot_name(prefix: Seq<char>, pipeline_id: u64) -> Seq<char> {
    prefix + apply_delimiter() + decimal_digits(pipeline_id as nat)
}

/// What the names of all table sync slots of a pipeline begin with.
pub open spec fn table_sync_slot_name_prefix(prefix: Seq<char>, pipeline_id: u64) -> Seq<char> {
    prefix + table_sync_delimiter() + decimal_digits(pipeline_id as nat) + seq!['_']
}

/// Name of the slot that copies table `table_id` of a pipeline.
pub open spec fn table_sync_slot_name(
    prefix: Seq<char>,
    pipeline_id: u64,
    table_id: TableId,
) -> Seq<char> {
    table_sync_slot_name_prefix(prefix, pipeline_id) + decimal_digits(table_id.0 as nat)
}

/// Name of a slot, whatever its length.
pub open spec fn slot_name(slot: SlotIdentity) -> Seq<char> {
    match slot {
        SlotIdentity::Apply { pipeline_id, prefix } => apply_slot_name(prefix, pipeline_id),
        SlotIdentity::TableSync { pipeline_id, table_id, prefix } => table_sync_slot_name(
            prefix,
            pipeline_id,
            table_id,
        ),
    }
}

/// The identity that the name of an apply slot stands for, where the prefix
/// ends at index `at` and the pipeline id begins at index `id_at`.
pub open spec fn read_apply_slot(name: Seq<char>, at: int, id_at: int) -> Option<SlotIdentity> {
    match parse_unsigned(name.skip(id_at), u64::MAX as nat) {
        Some(pipeline_id) => Some(
            SlotIdentity::Apply { pipeline_id: pipeline_id as u64, prefix: name.take(at) },
        ),
        None => None,
    }
}

/// The identity that the name of a table sync slot stands for, where the
/// prefix ends at index `at` and the two ids begin at index `ids_at`.
///
/// The ids are told apart at the last underscore: what follows it is the
/// table id, what precedes it the pipeline id.
pub open spec fn read_table_sync_slot(name: Seq<char>, at: int, ids_at: int) -> Option<
    SlotIdentity,
> {
    let ids = name.skip(ids_at);
    if ids.contains('_') {
        let split = last_index_of(ids, '_');
        match (
            parse_unsigned(ids.take(split), u64::MAX as nat),
            parse_unsigned(ids.skip(split + 1), u32::MAX as nat),
        ) {
            (Some(pipeline_id), Some(table_id)) => Some(
                SlotIdentity::TableSync {
                    pipeline_id: pipeline_id as u64,
                    table_id: TableId(table_id as u32),
                    prefix: name.take(at),
                },
            ),
            _ => None,
        }
    } else {
        None
    }
}

/// The identity that `name` stands for, if it is the name of a slot.
///
/// The prefix ends where `_apply_` first occurs; in a name without
/// `_apply_`, where `_table_sync_` first occurs. A name that holds neither,
/// or whose ids are not written with decimal digits alone, or do not fit
/// their width, is no slot name. A prefix that itself holds one of the two
/// delimiters is therefore cut short.
pub open spec fn decode_slot_name(name: Seq<char>) -> Option<SlotIdentity> {
    if contains(name, apply_delimiter()) {
        let at = first_occurrence(name, apply_delimiter());
        read_apply_slot(name, at, at + apply_delimiter().len())
    } else if contains(name, table_sync_delimiter()) {
        let at = first_occurrence(name, table_sync_delimiter());
        read_table_sync_slot(name, at, at + table_sync_delimiter().len())
    } else {
        None
    }
}

/// Number of bytes that `name` takes in UTF-8, which is how Postgres
/// measures it.
pub open spec fn byte_length(name: Seq<char>) -> nat {
    encode_utf8(name).len()
}

/// True when `name` is short enough for Postgres.
pub open spec fn fits_slot_name(name: Seq<char>) -> bool {
    byte_length(name) <= MAX_SLOT_NAME_LENGTH
}

/// What the length check makes of a candidate name.
pub open spec fn checked_name(
    name: Seq<char>,
    result: Result<String, EtlReplicationSlotError>,
) -> bool {
    if fits_slot_name(name) {
        result matches Ok(s) && s@ == name
    } else {
        result matches Err(EtlReplicationSlotError::InvalidSlotNameLength(s)) && s@ == name
    }
}

/// Accepts `name` if it is short enough for Postgres, and hands it back in
/// the error if it is not. Nothing is ever cut off.
fn check_length(name: String) -> (result: Result<String, EtlReplicationSlotError>)
    ensures
        checked_name(name@, result),
{
    if name.as_str().as_bytes().len() > MAX_SLOT_NAME_LENGTH {
        return Err(EtlReplicationSlotError::InvalidSlotNameLength(name));
    }
    Ok(name)
}

impl EtlReplicationSlot {
    /// Identity of the apply slot of pipeline `pipeline_id`.
    pub fn for_apply_worker(pipeline_id: u64, prefix: impl IntoSlotPrefix) -> (slot: Self)
        ensures
            slot@ == (SlotIdentity::Apply { pipeline_id, prefix: prefix@ }),
    {
        EtlReplicationSlot::Apply { pipeline_id, prefix: prefix.into_slot_prefix() }
    }

    /// Identity of the slot that copies table `table_id` of pipeline
    /// `pipeline_id`.
    pub fn for_table_sync_worker(
        pipeline_id: u64,
        table_id: TableId,
        prefix: impl IntoSlotPrefix,
    ) -> (slot: Self)
        ensures
            slot@ == (SlotIdentity::TableSync { pipeline_id, table_id, prefix: prefix@ }),
    {
        EtlReplicationSlot::TableSync { pipeline_id, table_id, prefix: prefix.into_slot_prefix() }
    }

    /// Name of the apply slot of a pipeline, as far as it is short enough.
    pub fn apply_prefix(pipeline_id: u64, slot_prefix: &str) -> (result: Result<
        String,
        EtlReplicationSlotError,
    >)
        ensures
            checked_name(apply_slot_name(slot_prefix@, pipeline_id), result),
    {
        let mut name = String::from_str(slot_prefix);
        name.append("_apply_");
        append_decimal(&mut name, pipeline_id);
        check_length(name)
    }

    /// What the names of all table sync slots of a pipeline begin with, as
    /// far as it is short enough.
    pub fn table_sync_prefix(pipeline_id: u64, slot_prefix: &str) -> (result: Result<
        String,
        EtlReplicationSlotError,
    >)
        ensures
            checked_name(table_sync_slot_name_prefix(slot_prefix@, pipeline_id), result),
    {
        let mut name = String::from_str(slot_prefix);
        name.append("_table_sync_");
        append_decimal(&mut name, pipeline_id);
        name.append("_");
        proof {
            reveal_strlit("_");
            assert("_"@ =~= seq!['_']);
        }
        check_length(name)
    }
}

impl<'a> TryFrom<&'a str> for EtlReplicationSlot {
    type Error = EtlReplicationSlotError;

    /// Reads the identity of a slot from its name.
    fn try_from(slot_name: &'a str) -> (result: Result<Self, Self::Error>)
        ensures
            match decode_slot_name(slot_name@) {
                Some(identity) => result matches Ok(slot) && slot@ == identity,
                None => result matches Err(EtlReplicationSlotError::InvalidSlotName(s)) && s@
                    == slot_name@,
            },
    {
        let chars = to_chars(slot_name);
        let text = chars.as_slice();
        let len = text.len();

        let apply = to_chars("_apply_");
        if let Some(at) = find(text, apply.as_slice()) {
            proof {
                lemma_first_occurrence_unique(text@, apply@, at as int);
            }
            let id = &text[at + apply.len()..len];
            return match parse_decimal(id, u64::MAX) {
                Some(pipeline_id) => {
                    let prefix = slot_name.substring_char(0, at);
                    Ok(EtlReplicationSlot::for_apply_worker(pipeline_id, prefix.to_owned()))
                },
                None => Err(EtlReplicationSlotError::InvalidSlotName(slot_name.to_owned())),
            };
        }
        let table_sync = to_chars("_table_sync_");
        if let Some(at) = find(text, table_sync.as_slice()) {
            proof {
                lemma_first_occurrence_unique(text@, table_sync@, at as int);
            }
            let ids = &text[at + table_sync.len()..len];
            let split = match rfind_char(ids, '_') {
                Some(split) => split,
                None => {
                    return Err(EtlReplicationSlotError::InvalidSlotName(slot_name.to_owned()));
                },
            };
            proof {
                lemma_last_index_of_unique(ids@, '_', split as int);
            }
            let pipeline_id = parse_decimal(&ids[0..split], u64::MAX);
            let table_id = parse_decimal(&ids[split + 1..ids.len()], u32::MAX as u64);
            return match (pipeline_id, table_id) {
                (Some(pipeline_id), Some(table_id)) => {
                    let prefix = slot_name.substring_char(0, at);
                    Ok(
                        EtlReplicationSlot::for_table_sync_worker(
                            pipeline_id,
                            TableId::new(table_id as u32),
                            prefix.to_owned(),
                        ),
                    )
                },
                _ => Err(EtlReplicationSlotError::InvalidSlotName(slot_name.to_owned())),
            };
        }
        Err(EtlReplicationSlotError::InvalidSlotName(slot_name.to_owned()))
    }
}

/// What reading a name gives is stated by the `ensures` of `try_from`, over
/// views. No value is named for it here: two strings with one view need not
/// be one value.
impl<'a> TryFromSpecImpl<&'a str> for EtlReplicationSlot {
    open spec fn obeys_try_from_spec() -> bool {
        false
    }

    open spec fn try_from_spec(slot_name: &'a str) -> Result<Self, Self::Error> {
        arbitrary()
    }
}

impl TryFrom<EtlReplicationSlot> for String {
    type Error = EtlReplicationSlotError;

    /// Builds the name of `slot`, and refuses it if it is too long.
    fn try_from(slot: EtlReplicationSlot) -> (result: Result<Self, Self::Error>)
        ensures
            checked_name(slot_name(slot@), result),
    {
        match slot {
            EtlReplicationSlot::Apply { pipeline_id, prefix } => {
                let mut name = into_name(prefix);
                name.append("_apply_");
                append_decimal(&mut name, pipeline_id);
                check_length(name)
            },
            EtlReplicationSlot::TableSync { pipeline_id, table_id, prefix } => {
                let mut name = into_name(prefix);
                name.append("_table_sync_");
                append_decimal(&mut name, pipeline_id);
                name.append("_");
                append_decimal(&mut name, table_id.into_inner() as u64);
                proof {
                    reveal_strlit("_");
                    assert("_"@ =~= seq!['_']);
                }
                check_length(name)
            },
        }
    }
}

/// What building a name gives is stated by the `ensures` of `try_from`, over
/// views. No value is named for it here: two strings with one view need not
/// be one value.
impl TryFromSpecImpl<EtlReplicationSlot> for String {
    open spec fn obeys_try_from_spec() -> bool {
        false
    }

    open spec fn try_from_spec(slot: EtlReplicationSlot) -> Result<Self, Self::Error> {
        arbitrary()
    }
}

} // verus!
