//! The statements that the commands hand to the storage engine.
//!
//! A statement is its text and the values bound to its placeholders, kept
//! side by side in the order of the placeholders. No value that a caller gave
//! is ever written into the text itself.

use vstd::prelude::*;
use vstd::string::StringExecFns;
use crate::models::{
    entry_of_row, lemma_label_names_itself, opt_int, opt_text, CreateDietEntryRequest,
    CreateDietEntryRequestView, DietEntry, DietEntryFilter, DietEntryFilterView, DietEntryView,
    EntryRowView, MealType,
};
use crate::placeholders::{
    lemma_placeholders_add, lemma_placeholders_of_delete, lemma_placeholders_of_entry_by_id,
    lemma_placeholders_of_entry_exists, lemma_placeholders_of_insert,
    lemma_placeholders_of_member_exists, lemma_placeholders_of_texts,
    lemma_placeholders_of_update, placeholders,
};

verus! {

/// A value bound to a placeholder of a statement.
#[derive(Clone, Debug, PartialEq, Eq)]
pub enum SqlValue {
    Integer(i64),
    Text(String),
    Null,
}

/// The mathematical value of a [`SqlValue`].
pub enum SqlValueView {
    Integer(int),
    Text(Seq<char>),
    Null,
}

impl View for SqlValue {
    type V = SqlValueView;

    open spec fn view(&self) -> SqlValueView {
        match self {
            SqlValue::Integer(number) => SqlValueView::Integer(*number as int),
            SqlValue::Text(text) => SqlValueView::Text(text@),
            SqlValue::Null => SqlValueView::Null,
        }
    }
}

/// The value that binds an optional number: the number, or `Null`.
pub open spec fn optional_integer(value: Option<int>) -> SqlValueView {
    match value {
        Some(number) => SqlValueView::Integer(number),
        None => SqlValueView::Null,
    }
}

/// The value that binds an optional text: the text, or `Null`.
pub open spec fn optional_text(value: Option<Seq<char>>) -> SqlValueView {
    match value {
        Some(text) => SqlValueView::Text(text),
        None => SqlValueView::Null,
    }
}

/// A statement ready to run: its text, and one value for each placeholder.
#[derive(Clone, Debug, PartialEq, Eq)]
pub struct SqlStatement {
    pub sql: String,
    pub params: Vec<SqlValue>,
}

/// The mathematical value of a [`SqlStatement`].
pub struct SqlStatementView {
    /// The text.
    pub sql: Seq<char>,
    /// The bound values, in the order of the placeholders.
    pub bound: Seq<SqlValueView>,
}

impl View for SqlStatement {
    type V = SqlStatementView;

    open spec fn view(&self) -> SqlStatementView {
        SqlStatementView {
            sql: self.sql@,
            bound: Seq::new(self.params@.len(), |i: int| self.params@[i]@),
        }
    }
}

impl SqlStatementView {
    /// A statement is well formed if it binds exactly one value for each
    /// placeholder of its text. Every statement that this module builds is.
    pub open spec fn well_formed(self) -> bool {
        placeholders(self.sql) == self.bound.len()
    }

    /// Whether the statement changes the table: it inserts, updates or
    /// deletes. Every other statement of this module only reads.
    pub open spec fn is_write(self) -> bool {
        self.sql == INSERT_SQL@ || self.sql == UPDATE_SQL@ || self.sql == DELETE_SQL@
    }
}

/// Asks whether the parent table holds a family member.
pub const MEMBER_EXISTS_SQL: &'static str =
    "SELECT EXISTS(SELECT 1 FROM family_members WHERE id = ?)";

/// Asks whether the table holds an entry.
pub const ENTRY_EXISTS_SQL: &'static str = "SELECT EXISTS(SELECT 1 FROM diet_entries WHERE id = ?)";

/// Reads one entry by its id.
pub const ENTRY_BY_ID_SQL: &'static str =
    "SELECT id, member_id, timestamp, meal_type, description, calories, notes FROM diet_entries WHERE id = ?";

/// Inserts one entry; the table assigns its id.
pub const INSERT_SQL: &'static str =
    "INSERT INTO diet_entries (member_id, timestamp, meal_type, description, calories, notes) VALUES (?, ?, ?, ?, ?, ?)";

/// Sets every column of one entry but its id.
pub const UPDATE_SQL: &'static str =
    "UPDATE diet_entries SET member_id = ?, timestamp = ?, meal_type = ?, description = ?, calories = ?, notes = ? WHERE id = ?";

/// Deletes one entry.
pub const DELETE_SQL: &'static str = "DELETE FROM diet_entries WHERE id = ?";

/// How every listing begins. The condition that is always true lets each
/// bound follow as one more `AND`.
pub const LIST_HEAD_SQL: &'static str =
    "SELECT id, member_id, timestamp, meal_type, description, calories, notes FROM diet_entries WHERE 1=1";

/// Narrows a listing to one family member.
pub const MEMBER_CLAUSE_SQL: &'static str = " AND member_id = ?";

/// Narrows a listing to timestamps from a lower bound on, the bound included.
pub const START_CLAUSE_SQL: &'static str = " AND timestamp >= ?";

/// Narrows a listing to timestamps up to an upper bound, the bound included.
pub const END_CLAUSE_SQL: &'static str = " AND timestamp <= ?";

/// How every listing ends: most recent timestamp first.
pub const LIST_ORDER_SQL: &'static str = " ORDER BY timestamp DESC";

/// The statement with this text that binds one value: an id.
pub open spec fn by_id(sql: Seq<char>, id: int) -> SqlStatementView {
    SqlStatementView { sql, bound: seq![SqlValueView::Integer(id)] }
}

/// The query that tells whether the parent table holds family member
/// `member_id`.
pub open spec fn member_exists_query_view(member_id: int) -> SqlStatementView {
    by_id(MEMBER_EXISTS_SQL@, member_id)
}

/// The query that tells whether the table holds entry `id`.
pub open spec fn entry_exists_query_view(id: int) -> SqlStatementView {
    by_id(ENTRY_EXISTS_SQL@, id)
}

/// The query that reads entry `id`.
pub open spec fn entry_by_id_query_view(id: int) -> SqlStatementView {
    by_id(ENTRY_BY_ID_SQL@, id)
}

/// The statement that deletes entry `id`.
pub open spec fn delete_statement_view(id: int) -> SqlStatementView {
    by_id(DELETE_SQL@, id)
}

fn statement_by_id(sql: &'static str, id: i64) -> (statement: SqlStatement)
    requires
        placeholders(sql@) == 1,
    ensures
        statement@ == by_id(sql@, id as int),
        statement@.well_formed(),
{
    let mut params: Vec<SqlValue> = Vec::new();
    params.push(SqlValue::Integer(id));
    let statement = SqlStatement { sql: String::from_str(sql), params };
    assert(statement@.bound =~= seq![SqlValueView::Integer(id as int)]);
    statement
}

/// Builds the query that tells whether the parent table holds family member
/// `member_id`. It returns one row with one column, which is true or false.
pub fn member_exists_query(member_id: i64) -> (statement: SqlStatement)
    ensures
        statement@ == member_exists_query_view(member_id as int),
        statement@.well_formed(),
{
    proof {
        lemma_placeholders_of_member_exists();
    }
    statement_by_id(MEMBER_EXISTS_SQL, member_id)
}

/// Builds the query that tells whether the table holds entry `id`. It returns
/// one row with one column, which is true or false.
pub fn entry_exists_query(id: i64) -> (statement: SqlStatement)
    ensures
        statement@ == entry_exists_query_view(id as int),
        statement@.well_formed(),
{
    proof {
        lemma_placeholders_of_entry_exists();
    }
    statement_by_id(ENTRY_EXISTS_SQL, id)
}

/// Builds the query that reads entry `id`, all seven columns in the order of
/// the table. It returns no row if the table holds no such entry.
pub fn entry_by_id_query(id: i64) -> (statement: SqlStatement)
    ensures
        statement@ == entry_by_id_query_view(id as int),
        statement@.well_formed(),
{
    proof {
        lemma_placeholders_of_entry_by_id();
    }
    statement_by_id(ENTRY_BY_ID_SQL, id)
}

/// Builds the statement that deletes entry `id`.
pub fn delete_statement(id: i64) -> (statement: SqlStatement)
    ensures
        statement@ == delete_statement_view(id as int),
        statement@.well_formed(),
{
    proof {
        lemma_placeholders_of_delete();
    }
    statement_by_id(DELETE_SQL, id)
}

/// The six values that the columns of a row other than its id are written
/// with, in the order of the table. The meal type is written as its label.
pub open spec fn written_values(
    member_id: int,
    timestamp: Seq<char>,
    meal_type: MealType,
    description: Seq<char>,
    calories: Option<int>,
    notes: Option<Seq<char>>,
) -> Seq<SqlValueView> {
    seq![
        SqlValueView::Integer(member_id),
        SqlValueView::Text(timestamp),
        SqlValueView::Text(meal_type.label_text()),
        SqlValueView::Text(description),
        optional_integer(calories),
        optional_text(notes),
    ]
}

/// The values that a new entry is inserted with.
pub open spec fn request_values(request: CreateDietEntryRequestView) -> Seq<SqlValueView> {
    written_values(
        request.member_id,
        request.timestamp,
        request.meal_type,
        request.description,
        request.calories,
        request.notes,
    )
}

/// The values that the columns of an entry other than its id are set to by
/// an update.
pub open spec fn column_values(entry: DietEntryView) -> Seq<SqlValueView> {
    written_values(
        entry.member_id,
        entry.timestamp,
        entry.meal_type,
        entry.description,
        entry.calories,
        entry.notes,
    )
}

fn written_params(
    member_id: i64,
    timestamp: &String,
    meal_type: MealType,
    description: &String,
    calories: Option<i64>,
    notes: &Option<String>,
) -> (params: Vec<SqlValue>)
    ensures
        params@.len() == 6,
        Seq::new(params@.len(), |i: int| params@[i]@) == written_values(
            member_id as int,
            timestamp@,
            meal_type,
            description@,
            opt_int(calories),
            opt_text(*notes),
        ),
{
    let mut params: Vec<SqlValue> = Vec::new();
    params.push(SqlValue::Integer(member_id));
    params.push(SqlValue::Text(timestamp.clone()));
    params.push(SqlValue::Text(meal_type.to_string()));
    params.push(SqlValue::Text(description.clone()));
    params.push(
        match calories {
            Some(number) => SqlValue::Integer(number),
            None => SqlValue::Null,
        },
    );
    params.push(
        match notes {
            Some(text) => SqlValue::Text(text.clone()),
            None => SqlValue::Null,
        },
    );
    assert(Seq::new(params@.len(), |i: int| params@[i]@) =~= written_values(
        member_id as int,
        timestamp@,
        meal_type,
        description@,
        opt_int(calories),
        opt_text(*notes),
    ));
    params
}

/// The statement that inserts the entry that `request` describes. It binds
/// every column but the id, which the table assigns.
pub open spec fn insert_statement_view(request: CreateDietEntryRequestView) -> SqlStatementView {
    SqlStatementView { sql: INSERT_SQL@, bound: request_values(request) }
}

/// The statement that writes `entry` over its row: every column but the id
/// is set to what `entry` holds, in the row that has its id.
pub open spec fn update_statement_view(entry: DietEntryView) -> SqlStatementView {
    SqlStatementView {
        sql: UPDATE_SQL@,
        bound: column_values(entry).push(SqlValueView::Integer(entry.id)),
    }
}

/// Builds the statement that inserts the entry that `request` describes.
pub fn insert_statement(request: &CreateDietEntryRequest) -> (statement: SqlStatement)
    ensures
        statement@ == insert_statement_view(request@),
        statement@.well_formed(),
{
    proof {
        lemma_placeholders_of_insert();
    }
    let params = written_params(
        request.member_id,
        &request.timestamp,
        request.meal_type,
        &request.description,
        request.calories,
        &request.notes,
    );
    SqlStatement { sql: String::from_str(INSERT_SQL), params }
}

/// Builds the statement that writes `entry` over its row.
pub fn update_statement(entry: &DietEntry) -> (statement: SqlStatement)
    ensures
        statement@ == update_statement_view(entry@),
        statement@.well_formed(),
{
    proof {
        lemma_placeholders_of_update();
    }
    let mut params = written_params(
        entry.member_id,
        &entry.timestamp,
        entry.meal_type,
        &entry.description,
        entry.calories,
        &entry.notes,
    );
    let ghost columns = Seq::new(params@.len(), |i: int| params@[i]@);
    params.push(SqlValue::Integer(entry.id));
    let statement = SqlStatement { sql: String::from_str(UPDATE_SQL), params };
    assert(statement@.bound =~= columns.push(SqlValueView::Integer(entry@.id)));
    statement
}

/// The part of a listing's text that narrows it to one family member; empty
/// if the filter names none.
pub open spec fn member_clause(filter: DietEntryFilterView) -> Seq<char> {
    if filter.member_id is Some {
        MEMBER_CLAUSE_SQL@
    } else {
        Seq::empty()
    }
}

/// The part of a listing's text that sets the lower bound; empty if the
/// filter has none.
pub open spec fn start_clause(filter: DietEntryFilterView) -> Seq<char> {
    if filter.start_date is Some {
        START_CLAUSE_SQL@
    } else {
        Seq::empty()
    }
}

/// The part of a listing's text that sets the upper bound; empty if the
/// filter has none.
pub open spec fn end_clause(filter: DietEntryFilterView) -> Seq<char> {
    if filter.end_date is Some {
        END_CLAUSE_SQL@
    } else {
        Seq::empty()
    }
}

/// The conditions that a filter adds to a listing: one clause for each bound
/// that is present, member first, then lower bound, then upper bound. Each
/// begins with `AND`, so that all of them must hold.
pub open spec fn filter_clauses(filter: DietEntryFilterView) -> Seq<char> {
    member_clause(filter) + start_clause(filter) + end_clause(filter)
}

/// The values that a filter binds: one for each bound that is present, in
/// the order of the clauses.
pub open spec fn filter_values(filter: DietEntryFilterView) -> Seq<SqlValueView> {
    (match filter.member_id {
        Some(member_id) => seq![SqlValueView::Integer(member_id)],
        None => Seq::empty(),
    }) + (match filter.start_date {
        Some(start) => seq![SqlValueView::Text(start)],
        None => Seq::empty(),
    }) + (match filter.end_date {
        Some(end) => seq![SqlValueView::Text(end)],
        None => Seq::empty(),
    })
}

/// The text of the listing that a filter asks for.
pub open spec fn list_sql(filter: DietEntryFilterView) -> Seq<char> {
    LIST_HEAD_SQL@ + filter_clauses(filter) + LIST_ORDER_SQL@
}

/// A listing binds one value for each of its placeholders, whatever its
/// filter.
pub proof fn lemma_listing_binds_every_placeholder(filter: DietEntryFilterView)
    ensures
        placeholders(list_sql(filter)) == filter_values(filter).len(),
{
    lemma_placeholders_of_texts();
    let member = member_clause(filter);
    let start = start_clause(filter);
    let end = end_clause(filter);
    assert(placeholders(Seq::<char>::empty()) == 0);
    lemma_placeholders_add(member, start);
    lemma_placeholders_add(member + start, end);
    lemma_placeholders_add(LIST_HEAD_SQL@, filter_clauses(filter));
    lemma_placeholders_add(LIST_HEAD_SQL@ + filter_clauses(filter), LIST_ORDER_SQL@);
}

/// The query that lists the entries that `filter` lets through, most recent
/// timestamp first. Its text grows by one clause, and its values by one
/// value, for each bound that the filter holds.
pub open spec fn list_query_view(filter: DietEntryFilterView) -> SqlStatementView {
    SqlStatementView { sql: list_sql(filter), bound: filter_values(filter) }
}

/// Builds the query that lists the entries that `filter` lets through.
pub fn list_query(filter: &DietEntryFilter) -> (statement: SqlStatement)
    ensures
        statement@ == list_query_view(filter@),
        statement@.well_formed(),
{
    proof {
        lemma_listing_binds_every_placeholder(filter@);
    }
    let mut sql = String::from_str(LIST_HEAD_SQL);
    let mut params: Vec<SqlValue> = Vec::new();
    if let Some(member_id) = filter.member_id {
        sql.append(MEMBER_CLAUSE_SQL);
        params.push(SqlValue::Integer(member_id));
    }
    if let Some(start) = &filter.start_date {
        sql.append(START_CLAUSE_SQL);
        params.push(SqlValue::Text(start.clone()));
    }
    if let Some(end) = &filter.end_date {
        sql.append(END_CLAUSE_SQL);
        params.push(SqlValue::Text(end.clone()));
    }
    assert(sql@ =~= LIST_HEAD_SQL@ + filter_clauses(filter@));
    sql.append(LIST_ORDER_SQL);
    let statement = SqlStatement { sql, params };
    assert(statement@.bound =~= filter_values(filter@));
    statement
}

/// The six values that the columns of a stored row other than its id hold,
/// in the order of the table.
pub open spec fn row_values(row: EntryRowView) -> Seq<SqlValueView> {
    seq![
        SqlValueView::Integer(row.member_id),
        SqlValueView::Text(row.timestamp),
        SqlValueView::Text(row.meal_type),
        SqlValueView::Text(row.description),
        optional_integer(row.calories),
        optional_text(row.notes),
    ]
}

/// What is written is what is read back. A row that holds the id of an
/// entry, and in its other columns the values that the entry is written
/// with, is read as that entry again.
pub proof fn lemma_written_entry_reads_back(entry: DietEntryView, row: EntryRowView)
    requires
        row.id == entry.id,
        row_values(row) == column_values(entry),
    ensures
        entry_of_row(row) == entry,
{
    let written = column_values(entry);
    let held = row_values(row);
    assert(held[0] == written[0]);
    assert(held[1] == written[1]);
    assert(held[2] == written[2]);
    assert(held[3] == written[3]);
    assert(held[4] == written[4]);
    assert(held[5] == written[5]);
    lemma_label_names_itself(entry.meal_type);
}

/// The bounds of a filter are joined by `AND`. The conditions and the values
/// of a filter are those of its member bound alone, followed by those of its
/// two date bounds alone; and every condition begins with `AND`.
pub proof fn lemma_bounds_compose(filter: DietEntryFilterView)
    ensures
        ({
            let by_member = DietEntryFilterView {
                member_id: filter.member_id,
                start_date: None,
                end_date: None,
            };
            let by_dates = DietEntryFilterView {
                member_id: None,
                start_date: filter.start_date,
                end_date: filter.end_date,
            };
            &&& filter_clauses(filter) == filter_clauses(by_member) + filter_clauses(by_dates)
            &&& filter_values(filter) == filter_values(by_member) + filter_values(by_dates)
        }),
        " AND "@.is_prefix_of(MEMBER_CLAUSE_SQL@),
        " AND "@.is_prefix_of(START_CLAUSE_SQL@),
        " AND "@.is_prefix_of(END_CLAUSE_SQL@),
{
    let by_member = DietEntryFilterView {
        member_id: filter.member_id,
        start_date: None,
        end_date: None,
    };
    let by_dates = DietEntryFilterView {
        member_id: None,
        start_date: filter.start_date,
        end_date: filter.end_date,
    };
    assert(filter_clauses(filter) =~= filter_clauses(by_member) + filter_clauses(by_dates));
    assert(filter_values(filter) =~= filter_values(by_member) + filter_values(by_dates));
    reveal_strlit(" AND ");
    reveal_strlit(" AND member_id = ?");
    reveal_strlit(" AND timestamp >= ?");
    reveal_strlit(" AND timestamp <= ?");
    assert(" AND "@ =~= MEMBER_CLAUSE_SQL@.subrange(0, 5));
    assert(" AND "@ =~= START_CLAUSE_SQL@.subrange(0, 5));
    assert(" AND "@ =~= END_CLAUSE_SQL@.subrange(0, 5));
}

/// A filter without bounds adds nothing to the listing: no condition and no
/// value.
pub proof fn lemma_no_bounds_no_conditions(filter: DietEntryFilterView)
    requires
        filter.member_id is None,
        filter.start_date is None,
        filter.end_date is None,
    ensures
        filter_clauses(filter) == Seq::<char>::empty(),
        filter_values(filter) == Seq::<SqlValueView>::empty(),
        list_sql(filter) == LIST_HEAD_SQL@ + LIST_ORDER_SQL@,
{
    assert(filter_clauses(filter) =~= Seq::<char>::empty());
    assert(filter_values(filter) =~= Seq::<SqlValueView>::empty());
    assert(list_sql(filter) =~= LIST_HEAD_SQL@ + LIST_ORDER_SQL@);
}

/// Every listing asks for the most recent timestamp first: whatever the
/// filter, the text of the query ends with the ordering.
pub proof fn lemma_listing_is_ordered(filter: DietEntryFilterView)
    ensures
        LIST_ORDER_SQL@.is_suffix_of(list_sql(filter)),
{
    let text = list_sql(filter);
    let order = LIST_ORDER_SQL@;
    assert(order =~= text.subrange(text.len() - order.len(), text.len() as int));
}

/// No value of a filter reaches the text of the query. Two filters that hold
/// the same bounds, whatever their values, give the same text.
pub proof fn lemma_text_ignores_values(a: DietEntryFilterView, b: DietEntryFilterView)
    requires
        a.member_id is Some <==> b.member_id is Some,
        a.start_date is Some <==> b.start_date is Some,
        a.end_date is Some <==> b.end_date is Some,
    ensures
        list_sql(a) == list_sql(b),
{
}

/// Every statement of this module binds exactly one value for each
/// placeholder of its text, whatever it is built from.
pub proof fn lemma_statements_are_well_formed(
    id: int,
    request: CreateDietEntryRequestView,
    entry: DietEntryView,
    filter: DietEntryFilterView,
)
    ensures
        member_exists_query_view(id).well_formed(),
        entry_exists_query_view(id).well_formed(),
        entry_by_id_query_view(id).well_formed(),
        delete_statement_view(id).well_formed(),
        insert_statement_view(request).well_formed(),
        update_statement_view(entry).well_formed(),
        list_query_view(filter).well_formed(),
{
    lemma_placeholders_of_texts();
    lemma_listing_binds_every_placeholder(filter);
}

/// Only the three statements that insert, update and delete are writes:
/// none of the three queries by id is one, whatever the id.
pub proof fn lemma_queries_do_not_write(id: int)
    ensures
        !member_exists_query_view(id).is_write(),
        !entry_exists_query_view(id).is_write(),
        !entry_by_id_query_view(id).is_write(),
{
    reveal_strlit("SELECT EXISTS(SELECT 1 FROM family_members WHERE id = ?)");
    reveal_strlit("SELECT EXISTS(SELECT 1 FROM diet_entries WHERE id = ?)");
    reveal_strlit(
        "SELECT id, member_id, timestamp, meal_type, description, calories, notes FROM diet_entries WHERE id = ?",
    );
    lemma_writes_begin();
    assert(MEMBER_EXISTS_SQL@[0] == 'S');
    assert(ENTRY_EXISTS_SQL@[0] == 'S');
    assert(ENTRY_BY_ID_SQL@[0] == 'S');
}

/// No listing is a write, whatever its filter.
pub proof fn lemma_listing_does_not_write(filter: DietEntryFilterView)
    ensures
        !list_query_view(filter).is_write(),
{
    reveal_strlit(
        "SELECT id, member_id, timestamp, meal_type, description, calories, notes FROM diet_entries WHERE 1=1",
    );
    lemma_writes_begin();
    assert(list_sql(filter)[0] == 'S');
}

proof fn lemma_writes_begin()
    ensures
        INSERT_SQL@[0] == 'I',
        UPDATE_SQL@[0] == 'U',
        DELETE_SQL@[0] == 'D',
{
    reveal_strlit(
        "INSERT INTO diet_entries (member_id, timestamp, meal_type, description, calories, notes) VALUES (?, ?, ?, ?, ?, ?)",
    );
    reveal_strlit(
        "UPDATE diet_entries SET member_id = ?, timestamp = ?, meal_type = ?, description = ?, calories = ?, notes = ? WHERE id = ?",
    );
    reveal_strlit("DELETE FROM diet_entries WHERE id = ?");
}

} // verus!
