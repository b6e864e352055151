//! The messages that a failed command hands back.
//!
//! A command fails for one of three reasons: a value it was given names no
//! meal type, an id it was given names no row, or the storage engine itself
//! reported a failure. All three reach the caller as plain text. A storage
//! failure carries the engine's own words behind a prefix that names the phase
//! in which it happened.

use vstd::prelude::*;
use vstd::string::StringExecFns;
use crate::text::{decimal, decimal_text};

verus! {

/// The step of a command during which the storage engine failed.
#[derive(Clone, Copy, Debug, PartialEq, Eq, Structural)]
pub enum Phase {
    /// Opening the database file.
    Open,
    /// Looking up the family member that an entry is to belong to.
    ValidateMember,
    /// Inserting the new entry.
    Insert,
    /// Preparing the listing query.
    Prepare,
    /// Running the listing query.
    Execute,
    /// Reading the rows that the listing query returned.
    Collect,
    /// Reading the entry that is about to be updated.
    QueryEntry,
    /// Writing the updated entry.
    Update,
    /// Looking up the entry that is about to be deleted.
    CheckEntry,
    /// Deleting the entry.
    Delete,
}

impl Phase {
    /// What a storage failure in this phase begins with.
    pub open spec fn prefix_text(self) -> Seq<char> {
        match self {
            Phase::Open => "Failed to open database: "@,
            Phase::ValidateMember => "Failed to validate member_id: "@,
            Phase::Insert => "Failed to insert diet entry: "@,
            Phase::Prepare => "Failed to prepare query: "@,
            Phase::Execute => "Failed to execute query: "@,
            Phase::Collect => "Failed to collect results: "@,
            Phase::QueryEntry => "Failed to query diet entry: "@,
            Phase::Update => "Failed to update diet entry: "@,
            Phase::CheckEntry => "Failed to check if entry exists: "@,
            Phase::Delete => "Failed to delete diet entry: "@,
        }
    }

    /// What a storage failure in this phase begins with.
    pub fn prefix(&self) -> (s: &'static str)
        ensures
            s@ == self.prefix_text(),
    {
        match self {
            Phase::Open => "Failed to open database: ",
            Phase::ValidateMember => "Failed to validate member_id: ",
            Phase::Insert => "Failed to insert diet entry: ",
            Phase::Prepare => "Failed to prepare query: ",
            Phase::Execute => "Failed to execute query: ",
            Phase::Collect => "Failed to collect results: ",
            Phase::QueryEntry => "Failed to query diet entry: ",
            Phase::Update => "Failed to update diet entry: ",
            Phase::CheckEntry => "Failed to check if entry exists: ",
            Phase::Delete => "Failed to delete diet entry: ",
        }
    }
}

/// The message for a meal type that is none of the known labels.
pub open spec fn unknown_meal_type_text(value: Seq<char>) -> Seq<char> {
    "Unknown meal type: "@ + value
}

/// The message for a family member that the parent table does not hold.
pub open spec fn member_missing_text(member_id: int) -> Seq<char> {
    "Member with id "@ + decimal_text(member_id) + " does not exist"@
}

/// The message for a diet entry that the table does not hold.
pub open spec fn entry_missing_text(id: int) -> Seq<char> {
    "Diet entry with id "@ + decimal_text(id) + " not found"@
}

/// The message for a failure of the storage engine: the phase's prefix, then
/// the engine's own description.
pub open spec fn storage_text(phase: Phase, detail: Seq<char>) -> Seq<char> {
    phase.prefix_text() + detail
}

/// Whether `message` reports a storage failure in `phase`, whatever the
/// engine said.
pub open spec fn is_storage_text(phase: Phase, message: Seq<char>) -> bool {
    phase.prefix_text().is_prefix_of(message)
}

/// Builds the message for a meal type that is none of the known labels.
pub fn unknown_meal_type(value: &str) -> (message: String)
    ensures
        message@ == unknown_meal_type_text(value@),
{
    String::from_str("Unknown meal type: ").concat(value)
}

/// Builds the message for a family member that the parent table does not hold.
pub fn member_missing(member_id: i64) -> (message: String)
    ensures
        message@ == member_missing_text(member_id as int),
{
    let number = decimal(member_id);
    String::from_str("Member with id ").concat(number.as_str()).concat(" does not exist")
}

/// Builds the message for a diet entry that the table does not hold.
pub fn entry_missing(id: i64) -> (message: String)
    ensures
        message@ == entry_missing_text(id as int),
{
    let number = decimal(id);
    String::from_str("Diet entry with id ").concat(number.as_str()).concat(" not found")
}

/// Builds the message for a failure of the storage engine in `phase`.
pub fn storage_error(phase: Phase, detail: &str) -> (message: String)
    ensures
        message@ == storage_text(phase, detail@),
        is_storage_text(phase, message@),
{
    let message = String::from_str(phase.prefix()).concat(detail);
    assert(phase.prefix_text() =~= message@.subrange(0, phase.prefix_text().len() as int));
    message
}

/// Every message made for a storage failure reports that failure, in the
/// phase it was made for.
pub proof fn lemma_storage_texts()
    ensures
        forall|phase: Phase, detail: Seq<char>|
            is_storage_text(phase, #[trigger] storage_text(phase, detail)),
{
    assert forall|phase: Phase, detail: Seq<char>|
        is_storage_text(phase, #[trigger] storage_text(phase, detail)) by {
        let prefix = phase.prefix_text();
        assert(prefix =~= storage_text(phase, detail).subrange(0, prefix.len() as int));
    }
}

} // verus!
