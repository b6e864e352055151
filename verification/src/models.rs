//! The data of the store: meal types, entries, and the payloads of the
//! commands.

use vstd::prelude::*;
use vstd::string::StringExecFns;
use crate::errors::{unknown_meal_type, unknown_meal_type_text};
use crate::text::same_text;

verus! {

/// The category of a logged meal. It is stored as its label.
#[derive(Clone, Copy, Debug, PartialEq, Eq, Structural)]
pub enum MealType {
    Breakfast,
    Lunch,
    Dinner,
    Snack,
    Other,
}

impl MealType {
    /// The label under which a meal type is stored and shown.
    pub open spec fn label_text(self) -> Seq<char> {
        match self {
            MealType::Breakfast => "Breakfast"@,
            MealType::Lunch => "Lunch"@,
            MealType::Dinner => "Dinner"@,
            MealType::Snack => "Snack"@,
            MealType::Other => "Other"@,
        }
    }

    /// The meal type that a text names: the one whose label it is, letter for
    /// letter, if there is one.
    pub open spec fn from_label(text: Seq<char>) -> Option<MealType> {
        if text == MealType::Breakfast.label_text() {
            Some(MealType::Breakfast)
        } else if text == MealType::Lunch.label_text() {
            Some(MealType::Lunch)
        } else if text == MealType::Dinner.label_text() {
            Some(MealType::Dinner)
        } else if text == MealType::Snack.label_text() {
            Some(MealType::Snack)
        } else if text == MealType::Other.label_text() {
            Some(MealType::Other)
        } else {
            None
        }
    }

    /// The meal type that a stored text is read as: the one it names, and
    /// `Other` where it names none.
    pub open spec fn lenient(text: Seq<char>) -> MealType {
        match MealType::from_label(text) {
            Some(meal_type) => meal_type,
            None => MealType::Other,
        }
    }

    /// The label of this meal type.
    pub fn label(&self) -> (label: &'static str)
        ensures
            label@ == self.label_text(),
    {
        match self {
            MealType::Breakfast => "Breakfast",
            MealType::Lunch => "Lunch",
            MealType::Dinner => "Dinner",
            MealType::Snack => "Snack",
            MealType::Other => "Other",
        }
    }

    /// The label of this meal type, as an owned string.
    pub fn to_string(&self) -> (label: String)
        ensures
            label@ == self.label_text(),
    {
        String::from_str(self.label())
    }

    /// Reads a meal type strictly: the text must be one of the five labels,
    /// in exactly their spelling. Any other text is rejected with a message
    /// that repeats it.
    pub fn parse(text: &str) -> (parsed: Result<MealType, String>)
        ensures
            match MealType::from_label(text@) {
                Some(meal_type) => parsed == Ok::<MealType, String>(meal_type),
                None => parsed matches Err(message) && message@ == unknown_meal_type_text(text@),
            },
    {
        if same_text(text, "Breakfast") {
            Ok(MealType::Breakfast)
        } else if same_text(text, "Lunch") {
            Ok(MealType::Lunch)
        } else if same_text(text, "Dinner") {
            Ok(MealType::Dinner)
        } else if same_text(text, "Snack") {
            Ok(MealType::Snack)
        } else if same_text(text, "Other") {
            Ok(MealType::Other)
        } else {
            Err(unknown_meal_type(text))
        }
    }

    /// Reads a stored meal type leniently: a text that is none of the labels
    /// is read as `Other`.
    pub fn parse_or_other(text: &str) -> (meal_type: MealType)
        ensures
            meal_type == MealType::lenient(text@),
    {
        match MealType::parse(text) {
            Ok(meal_type) => meal_type,
            Err(_) => MealType::Other,
        }
    }
}

impl std::str::FromStr for MealType {
    type Err = String;

    fn from_str(text: &str) -> (parsed: Result<MealType, String>)
        ensures
            match MealType::from_label(text@) {
                Some(meal_type) => parsed == Ok::<MealType, String>(meal_type),
                None => parsed matches Err(message) && message@ == unknown_meal_type_text(text@),
            },
    {
        MealType::parse(text)
    }
}

/// No two meal types share a label.
pub proof fn lemma_labels_differ(a: MealType, b: MealType)
    ensures
        a.label_text() == b.label_text() ==> a == b,
{
    reveal_strlit("Breakfast");
    reveal_strlit("Lunch");
    reveal_strlit("Dinner");
    reveal_strlit("Snack");
    reveal_strlit("Other");
    if a != b {
        assert(a.label_text().len() != b.label_text().len() || a.label_text()[0]
            != b.label_text()[0]);
    }
}

/// A meal type is read back from its own label, strictly and leniently.
pub proof fn lemma_label_names_itself(meal_type: MealType)
    ensures
        MealType::from_label(meal_type.label_text()) == Some(meal_type),
        MealType::lenient(meal_type.label_text()) == meal_type,
{
    lemma_labels_differ(meal_type, MealType::Breakfast);
    lemma_labels_differ(meal_type, MealType::Lunch);
    lemma_labels_differ(meal_type, MealType::Dinner);
    lemma_labels_differ(meal_type, MealType::Snack);
    lemma_labels_differ(meal_type, MealType::Other);
}

/// A text that names a meal type is that meal type's label.
pub proof fn lemma_named_by_label(text: Seq<char>, meal_type: MealType)
    ensures
        MealType::from_label(text) == Some(meal_type) <==> text == meal_type.label_text(),
{
    lemma_label_names_itself(meal_type);
}

/// A text that is no label is read as `Other` where reading is lenient, and
/// rejected where it is strict; a label is read as its meal type either way.
pub proof fn lemma_strict_and_lenient_reading(text: Seq<char>)
    ensures
        MealType::from_label(text) is None ==> MealType::lenient(text) == MealType::Other,
        MealType::from_label(text) matches Some(meal_type) ==> MealType::lenient(text)
            == meal_type && text == meal_type.label_text(),
{
    if let Some(meal_type) = MealType::from_label(text) {
        lemma_named_by_label(text, meal_type);
    }
}

/// What an optional text holds, as a sequence of characters.
pub open spec fn opt_text(value: Option<String>) -> Option<Seq<char>> {
    match value {
        Some(text) => Some(text@),
        None => None,
    }
}

/// What an optional number holds, as an integer.
pub open spec fn opt_int(value: Option<i64>) -> Option<int> {
    match value {
        Some(number) => Some(number as int),
        None => None,
    }
}

/// A diet entry as the table holds it: one meal logged for a family member.
#[derive(Clone, Debug, PartialEq, Eq)]
pub struct DietEntry {
    pub id: i64,
    pub member_id: i64,
    pub timestamp: String,
    pub meal_type: MealType,
    pub description: String,
    pub calories: Option<i64>,
    pub notes: Option<String>,
}

/// The mathematical value of a [`DietEntry`].
pub struct DietEntryView {
    pub id: int,
    pub member_id: int,
    pub timestamp: Seq<char>,
    pub meal_type: MealType,
    pub description: Seq<char>,
    pub calories: Option<int>,
    pub notes: Option<Seq<char>>,
}

impl View for DietEntry {
    type V = DietEntryView;

    open spec fn view(&self) -> DietEntryView {
        DietEntryView {
            id: self.id as int,
            member_id: self.member_id as int,
            timestamp: self.timestamp@,
            meal_type: self.meal_type,
            description: self.description@,
            calories: opt_int(self.calories),
            notes: opt_text(self.notes),
        }
    }
}

/// One row of the entries table as it is read: every column in the type it
/// is stored in, the meal type still as text.
#[derive(Clone, Debug, PartialEq, Eq)]
pub struct EntryRow {
    pub id: i64,
    pub member_id: i64,
    pub timestamp: String,
    pub meal_type: String,
    pub description: String,
    pub calories: Option<i64>,
    pub notes: Option<String>,
}

/// The mathematical value of an [`EntryRow`].
pub struct EntryRowView {
    pub id: int,
    pub member_id: int,
    pub timestamp: Seq<char>,
    pub meal_type: Seq<char>,
    pub description: Seq<char>,
    pub calories: Option<int>,
    pub notes: Option<Seq<char>>,
}

impl View for EntryRow {
    type V = EntryRowView;

    open spec fn view(&self) -> EntryRowView {
        EntryRowView {
            id: self.id as int,
            member_id: self.member_id as int,
            timestamp: self.timestamp@,
            meal_type: self.meal_type@,
            description: self.description@,
            calories: opt_int(self.calories),
            notes: opt_text(self.notes),
        }
    }
}

/// The entry that a stored row is read as. The meal type is read leniently:
/// a row whose meal type is no known label is an entry of type `Other`.
pub open spec fn entry_of_row(row: EntryRowView) -> DietEntryView {
    DietEntryView {
        id: row.id,
        member_id: row.member_id,
        timestamp: row.timestamp,
        meal_type: MealType::lenient(row.meal_type),
        description: row.description,
        calories: row.calories,
        notes: row.notes,
    }
}

/// The row that an entry is stored as: the meal type becomes its label.
pub open spec fn row_of_entry(entry: DietEntryView) -> EntryRowView {
    EntryRowView {
        id: entry.id,
        member_id: entry.member_id,
        timestamp: entry.timestamp,
        meal_type: entry.meal_type.label_text(),
        description: entry.description,
        calories: entry.calories,
        notes: entry.notes,
    }
}

impl DietEntry {
    /// Reads a stored row as an entry. This never fails: a meal type that is
    /// no known label is read as `Other`.
    pub fn from_row(row: EntryRow) -> (entry: DietEntry)
        ensures
            entry@ == entry_of_row(row@),
    {
        let meal_type = MealType::parse_or_other(row.meal_type.as_str());
        DietEntry {
            id: row.id,
            member_id: row.member_id,
            timestamp: row.timestamp,
            meal_type,
            description: row.description,
            calories: row.calories,
            notes: row.notes,
        }
    }
}

/// Reads every stored row as an entry, in the order of the rows.
pub fn entries_of_rows(rows: Vec<EntryRow>) -> (entries: Vec<DietEntry>)
    ensures
        entries@.len() == rows@.len(),
        forall|i: int|
            0 <= i < rows@.len() ==> (#[trigger] entries@[i])@ == entry_of_row(rows@[i]@),
{
    let ghost stored = rows@;
    let mut entries: Vec<DietEntry> = Vec::new();
    for row in walk: rows.into_iter()
        invariant
            walk.seq() == stored,
            entries@.len() == walk.index(),
            forall|i: int|
                0 <= i < entries@.len() ==> (#[trigger] entries@[i])@ == entry_of_row(stored[i]@),
    {
        entries.push(DietEntry::from_row(row));
    }
    entries
}

/// An entry is read back from the row it is stored as.
pub proof fn lemma_stored_entry_reads_back(entry: DietEntryView)
    ensures
        entry_of_row(row_of_entry(entry)) == entry,
{
    lemma_label_names_itself(entry.meal_type);
}

/// A request to create an entry, its meal type already checked.
#[derive(Clone, Debug, PartialEq, Eq)]
pub struct CreateDietEntryRequest {
    pub member_id: i64,
    pub timestamp: String,
    pub meal_type: MealType,
    pub description: String,
    pub calories: Option<i64>,
    pub notes: Option<String>,
}

/// The mathematical value of a [`CreateDietEntryRequest`].
pub struct CreateDietEntryRequestView {
    pub member_id: int,
    pub timestamp: Seq<char>,
    pub meal_type: MealType,
    pub description: Seq<char>,
    pub calories: Option<int>,
    pub notes: Option<Seq<char>>,
}

impl View for CreateDietEntryRequest {
    type V = CreateDietEntryRequestView;

    open spec fn view(&self) -> CreateDietEntryRequestView {
        CreateDietEntryRequestView {
            member_id: self.member_id as int,
            timestamp: self.timestamp@,
            meal_type: self.meal_type,
            description: self.description@,
            calories: opt_int(self.calories),
            notes: opt_text(self.notes),
        }
    }
}

/// The request that the given fields make, the meal type already read.
pub open spec fn create_asked(
    member_id: i64,
    timestamp: String,
    meal_type: MealType,
    description: String,
    calories: Option<i64>,
    notes: Option<String>,
) -> CreateDietEntryRequestView {
    CreateDietEntryRequestView {
        member_id: member_id as int,
        timestamp: timestamp@,
        meal_type,
        description: description@,
        calories: opt_int(calories),
        notes: opt_text(notes),
    }
}

/// The entry that a request describes, once the table has given it `id`.
pub open spec fn created_entry(request: CreateDietEntryRequestView, id: int) -> DietEntryView {
    DietEntryView {
        id,
        member_id: request.member_id,
        timestamp: request.timestamp,
        meal_type: request.meal_type,
        description: request.description,
        calories: request.calories,
        notes: request.notes,
    }
}

impl CreateDietEntryRequest {
    /// Checks the fields that a caller gave for a new entry. The meal type is
    /// read strictly; everything else is taken as it is.
    pub fn validated(
        member_id: i64,
        timestamp: String,
        meal_type: &str,
        description: String,
        calories: Option<i64>,
        notes: Option<String>,
    ) -> (checked: Result<CreateDietEntryRequest, String>)
        ensures
            match MealType::from_label(meal_type@) {
                Some(known) => checked matches Ok(request) && request@ == create_asked(
                    member_id,
                    timestamp,
                    known,
                    description,
                    calories,
                    notes,
                ),
                None => checked matches Err(message) && message@ == unknown_meal_type_text(
                    meal_type@,
                ),
            },
    {
        match MealType::parse(meal_type) {
            Ok(known) => Ok(
                CreateDietEntryRequest {
                    member_id,
                    timestamp,
                    meal_type: known,
                    description,
                    calories,
                    notes,
                },
            ),
            Err(message) => Err(message),
        }
    }

    /// The entry that this request has become, now that the table has given
    /// it `id`.
    pub fn into_entry(self, id: i64) -> (entry: DietEntry)
        ensures
            entry@ == created_entry(self@, id as int),
    {
        DietEntry {
            id,
            member_id: self.member_id,
            timestamp: self.timestamp,
            meal_type: self.meal_type,
            description: self.description,
            calories: self.calories,
            notes: self.notes,
        }
    }
}

/// A request to change an entry, its meal type already checked. A field that
/// is absent keeps the value that the entry has.
#[derive(Clone, Debug, PartialEq, Eq)]
pub struct UpdateDietEntryRequest {
    pub id: i64,
    pub member_id: Option<i64>,
    pub timestamp: Option<String>,
    pub meal_type: Option<MealType>,
    pub description: Option<String>,
    pub calories: Option<i64>,
    pub notes: Option<String>,
}

/// The mathematical value of an [`UpdateDietEntryRequest`].
pub struct UpdateDietEntryRequestView {
    pub id: int,
    pub member_id: Option<int>,
    pub timestamp: Option<Seq<char>>,
    pub meal_type: Option<MealType>,
    pub description: Option<Seq<char>>,
    pub calories: Option<int>,
    pub notes: Option<Seq<char>>,
}

impl View for UpdateDietEntryRequest {
    type V = UpdateDietEntryRequestView;

    open spec fn view(&self) -> UpdateDietEntryRequestView {
        UpdateDietEntryRequestView {
            id: self.id as int,
            member_id: opt_int(self.member_id),
            timestamp: opt_text(self.timestamp),
            meal_type: self.meal_type,
            description: opt_text(self.description),
            calories: opt_int(self.calories),
            notes: opt_text(self.notes),
        }
    }
}

/// The value that a field has after an update: the new one if the request
/// holds one, else the one it had.
pub open spec fn replaced<T>(new: Option<T>, current: T) -> T {
    match new {
        Some(value) => value,
        None => current,
    }
}

/// The value that an optional field has after an update: the new one if the
/// request holds one, else the one it had. An absent value in the request
/// never clears the field.
pub open spec fn replaced_optional<T>(new: Option<T>, current: Option<T>) -> Option<T> {
    match new {
        Some(value) => Some(value),
        None => current,
    }
}

/// The entry that results when `request` is applied to `existing`. It keeps
/// the id that the request names.
pub open spec fn merged_entry(
    existing: DietEntryView,
    request: UpdateDietEntryRequestView,
) -> DietEntryView {
    DietEntryView {
        id: request.id,
        member_id: replaced(request.member_id, existing.member_id),
        timestamp: replaced(request.timestamp, existing.timestamp),
        meal_type: replaced(request.meal_type, existing.meal_type),
        description: replaced(request.description, existing.description),
        calories: replaced_optional(request.calories, existing.calories),
        notes: replaced_optional(request.notes, existing.notes),
    }
}

/// The meal type that an optional text asks for: none if the text is absent,
/// the one it names if it names one.
pub open spec fn requested_meal_type(meal_type: Option<Seq<char>>) -> Option<MealType> {
    match meal_type {
        Some(text) => MealType::from_label(text),
        None => None,
    }
}

/// The fields that a caller gives for an update, as they come: the meal
/// type is still a text.
pub struct UpdateFields {
    pub id: int,
    pub member_id: Option<int>,
    pub timestamp: Option<Seq<char>>,
    pub meal_type: Option<Seq<char>>,
    pub description: Option<Seq<char>>,
    pub calories: Option<int>,
    pub notes: Option<Seq<char>>,
}

/// The mathematical value of the fields that a caller gives for an update.
pub open spec fn update_fields(
    id: i64,
    member_id: Option<i64>,
    timestamp: Option<String>,
    meal_type: Option<String>,
    description: Option<String>,
    calories: Option<i64>,
    notes: Option<String>,
) -> UpdateFields {
    UpdateFields {
        id: id as int,
        member_id: opt_int(member_id),
        timestamp: opt_text(timestamp),
        meal_type: opt_text(meal_type),
        description: opt_text(description),
        calories: opt_int(calories),
        notes: opt_text(notes),
    }
}

impl UpdateFields {
    /// The message with which the fields are refused, if they are: a meal
    /// type is given and it is no known label.
    pub open spec fn refusal(self) -> Option<Seq<char>> {
        match self.meal_type {
            Some(text) => if MealType::from_label(text) is None {
                Some(unknown_meal_type_text(text))
            } else {
                None
            },
            None => None,
        }
    }

    /// The request that the fields make. A meal type that is given is the
    /// one that its text names.
    pub open spec fn request(self) -> UpdateDietEntryRequestView {
        UpdateDietEntryRequestView {
            id: self.id,
            member_id: self.member_id,
            timestamp: self.timestamp,
            meal_type: requested_meal_type(self.meal_type),
            description: self.description,
            calories: self.calories,
            notes: self.notes,
        }
    }
}

impl UpdateDietEntryRequest {
    /// Checks the fields that a caller gave for an update. A meal type, if
    /// one is given, is read strictly; everything else is taken as it is.
    pub fn validated(
        id: i64,
        member_id: Option<i64>,
        timestamp: Option<String>,
        meal_type: Option<String>,
        description: Option<String>,
        calories: Option<i64>,
        notes: Option<String>,
    ) -> (checked: Result<UpdateDietEntryRequest, String>)
        ensures
            ({
                let fields = update_fields(
                    id,
                    member_id,
                    timestamp,
                    meal_type,
                    description,
                    calories,
                    notes,
                );
                match fields.refusal() {
                    Some(refusal) => checked matches Err(message) && message@ == refusal,
                    None => checked matches Ok(request) && request@ == fields.request(),
                }
            }),
    {
        let known = match meal_type {
            Some(text) => match MealType::parse(text.as_str()) {
                Ok(known) => Some(known),
                Err(message) => {
                    return Err(message);
                },
            },
            None => None,
        };
        Ok(
            UpdateDietEntryRequest {
                id,
                member_id,
                timestamp,
                meal_type: known,
                description,
                calories,
                notes,
            },
        )
    }

    /// Applies this request to the entry as it stands: every field that the
    /// request holds replaces the entry's, every other field stays.
    pub fn apply(self, existing: DietEntry) -> (merged: DietEntry)
        ensures
            merged@ == merged_entry(existing@, self@),
    {
        DietEntry {
            id: self.id,
            member_id: match self.member_id {
                Some(member_id) => member_id,
                None => existing.member_id,
            },
            timestamp: match self.timestamp {
                Some(timestamp) => timestamp,
                None => existing.timestamp,
            },
            meal_type: match self.meal_type {
                Some(meal_type) => meal_type,
                None => existing.meal_type,
            },
            description: match self.description {
                Some(description) => description,
                None => existing.description,
            },
            calories: match self.calories {
                Some(calories) => Some(calories),
                None => existing.calories,
            },
            notes: match self.notes {
                Some(notes) => Some(notes),
                None => existing.notes,
            },
        }
    }
}

/// An update changes what it names and nothing else: a field that the
/// request holds takes the request's value, a field that is absent keeps the
/// value that the entry had. The id is the one that the request names.
pub proof fn lemma_update_keeps_absent_fields(
    existing: DietEntryView,
    request: UpdateDietEntryRequestView,
)
    ensures
        ({
            let merged = merged_entry(existing, request);
            &&& merged.id == request.id
            &&& merged.member_id == match request.member_id {
                Some(member_id) => member_id,
                None => existing.member_id,
            }
            &&& merged.timestamp == match request.timestamp {
                Some(timestamp) => timestamp,
                None => existing.timestamp,
            }
            &&& merged.meal_type == match request.meal_type {
                Some(meal_type) => meal_type,
                None => existing.meal_type,
            }
            &&& merged.description == match request.description {
                Some(description) => description,
                None => existing.description,
            }
            &&& merged.calories == match request.calories {
                Some(calories) => Some(calories),
                None => existing.calories,
            }
            &&& merged.notes == match request.notes {
                Some(notes) => Some(notes),
                None => existing.notes,
            }
        }),
{
}

/// An update that names only a new description changes the description and
/// leaves every other field of the entry as it was.
pub proof fn lemma_description_only_update(existing: DietEntryView, description: Seq<char>)
    ensures
        merged_entry(
            existing,
            UpdateDietEntryRequestView {
                id: existing.id,
                member_id: None,
                timestamp: None,
                meal_type: None,
                description: Some(description),
                calories: None,
                notes: None,
            },
        ) == (DietEntryView { description, ..existing }),
{
}

/// An update that names nothing leaves the entry as it was.
pub proof fn lemma_empty_update_changes_nothing(existing: DietEntryView)
    ensures
        merged_entry(
            existing,
            UpdateDietEntryRequestView {
                id: existing.id,
                member_id: None,
                timestamp: None,
                meal_type: None,
                description: None,
                calories: None,
                notes: None,
            },
        ) == existing,
{
}

/// What a listing is narrowed by. Every bound that is present must hold of
/// an entry for it to be listed; an absent bound asks for nothing.
#[derive(Clone, Debug, PartialEq, Eq)]
pub struct DietEntryFilter {
    /// The family member whose entries are wanted.
    pub member_id: Option<i64>,
    /// The earliest timestamp wanted, itself included.
    pub start_date: Option<String>,
    /// The latest timestamp wanted, itself included.
    pub end_date: Option<String>,
}

/// The mathematical value of a [`DietEntryFilter`].
pub struct DietEntryFilterView {
    pub member_id: Option<int>,
    pub start_date: Option<Seq<char>>,
    pub end_date: Option<Seq<char>>,
}

impl View for DietEntryFilter {
    type V = DietEntryFilterView;

    open spec fn view(&self) -> DietEntryFilterView {
        DietEntryFilterView {
            member_id: opt_int(self.member_id),
            start_date: opt_text(self.start_date),
            end_date: opt_text(self.end_date),
        }
    }
}

/// The filter that the given bounds make.
pub open spec fn filter_asked(
    member_id: Option<i64>,
    start_date: Option<String>,
    end_date: Option<String>,
) -> DietEntryFilterView {
    DietEntryFilterView {
        member_id: opt_int(member_id),
        start_date: opt_text(start_date),
        end_date: opt_text(end_date),
    }
}

/// Where the database file lies. The host decides this once and hands it to
/// every command.
pub struct DbPath(pub String);

} // verus!
