use diet_store::models::{CreateDietEntryRequest, DietEntry, DietEntryFilter, MealType};
use diet_store::sql::{
    delete_statement, entry_by_id_query, entry_exists_query, insert_statement, list_query,
    member_exists_query, update_statement, SqlStatement, SqlValue,
};

const LIST_HEAD: &str =
    "SELECT id, member_id, timestamp, meal_type, description, calories, notes FROM diet_entries WHERE 1=1";

fn question_marks(statement: &SqlStatement) -> usize {
    statement.sql.chars().filter(|c| *c == '?').count()
}

fn filter(member_id: Option<i64>, start: Option<&str>, end: Option<&str>) -> DietEntryFilter {
    DietEntryFilter {
        member_id,
        start_date: start.map(|s| s.to_string()),
        end_date: end.map(|s| s.to_string()),
    }
}

#[test]
fn member_exists_query_binds_the_member() {
    let statement = member_exists_query(7);
    assert_eq!(statement.sql, "SELECT EXISTS(SELECT 1 FROM family_members WHERE id = ?)");
    assert_eq!(statement.params, vec![SqlValue::Integer(7)]);
}

#[test]
fn entry_exists_query_binds_the_entry() {
    let statement = entry_exists_query(99999);
    assert_eq!(statement.sql, "SELECT EXISTS(SELECT 1 FROM diet_entries WHERE id = ?)");
    assert_eq!(statement.params, vec![SqlValue::Integer(99999)]);
}

#[test]
fn entry_by_id_query_reads_all_columns_of_one_row() {
    let statement = entry_by_id_query(3);
    assert_eq!(
        statement.sql,
        "SELECT id, member_id, timestamp, meal_type, description, calories, notes FROM diet_entries WHERE id = ?"
    );
    assert_eq!(statement.params, vec![SqlValue::Integer(3)]);
}

#[test]
fn delete_statement_binds_the_entry() {
    let statement = delete_statement(3);
    assert_eq!(statement.sql, "DELETE FROM diet_entries WHERE id = ?");
    assert_eq!(statement.params, vec![SqlValue::Integer(3)]);
}

#[test]
fn insert_statement_binds_the_six_columns_in_order() {
    let request = CreateDietEntryRequest {
        member_id: 1,
        timestamp: "2024-01-15T12:00:00Z".to_string(),
        meal_type: MealType::Lunch,
        description: "Test meal".to_string(),
        calories: Some(500),
        notes: Some("Test notes".to_string()),
    };
    let statement = insert_statement(&request);
    assert_eq!(
        statement.sql,
        "INSERT INTO diet_entries (member_id, timestamp, meal_type, description, calories, notes) VALUES (?, ?, ?, ?, ?, ?)"
    );
    assert_eq!(
        statement.params,
        vec![
            SqlValue::Integer(1),
            SqlValue::Text("2024-01-15T12:00:00Z".to_string()),
            SqlValue::Text("Lunch".to_string()),
            SqlValue::Text("Test meal".to_string()),
            SqlValue::Integer(500),
            SqlValue::Text("Test notes".to_string()),
        ]
    );
}

#[test]
fn insert_statement_binds_null_for_absent_columns() {
    let request = CreateDietEntryRequest {
        member_id: 2,
        timestamp: "2024-01-16T08:00:00Z".to_string(),
        meal_type: MealType::Breakfast,
        description: "Toast".to_string(),
        calories: None,
        notes: None,
    };
    let statement = insert_statement(&request);
    assert_eq!(
        statement.params,
        vec![
            SqlValue::Integer(2),
            SqlValue::Text("2024-01-16T08:00:00Z".to_string()),
            SqlValue::Text("Breakfast".to_string()),
            SqlValue::Text("Toast".to_string()),
            SqlValue::Null,
            SqlValue::Null,
        ]
    );
}

#[test]
fn update_statement_binds_the_columns_and_then_the_id() {
    let entry = DietEntry {
        id: 3,
        member_id: 1,
        timestamp: "2024-01-15T12:00:00Z".to_string(),
        meal_type: MealType::Dinner,
        description: "Updated".to_string(),
        calories: Some(600),
        notes: None,
    };
    let statement = update_statement(&entry);
    assert_eq!(
        statement.sql,
        "UPDATE diet_entries SET member_id = ?, timestamp = ?, meal_type = ?, description = ?, calories = ?, notes = ? WHERE id = ?"
    );
    assert_eq!(
        statement.params,
        vec![
            SqlValue::Integer(1),
            SqlValue::Text("2024-01-15T12:00:00Z".to_string()),
            SqlValue::Text("Dinner".to_string()),
            SqlValue::Text("Updated".to_string()),
            SqlValue::Integer(600),
            SqlValue::Null,
            SqlValue::Integer(3),
        ]
    );
}

#[test]
fn list_query_without_bounds_lists_everything_in_order() {
    let statement = list_query(&filter(None, None, None));
    assert_eq!(statement.sql, format!("{} ORDER BY timestamp DESC", LIST_HEAD));
    assert_eq!(statement.params, Vec::new());
}

#[test]
fn list_query_by_member() {
    let statement = list_query(&filter(Some(1), None, None));
    assert_eq!(
        statement.sql,
        format!("{} AND member_id = ? ORDER BY timestamp DESC", LIST_HEAD)
    );
    assert_eq!(statement.params, vec![SqlValue::Integer(1)]);
}

#[test]
fn list_query_from_a_start_date() {
    let statement = list_query(&filter(None, Some("2024-01-15T00:00:00Z"), None));
    assert_eq!(
        statement.sql,
        format!("{} AND timestamp >= ? ORDER BY timestamp DESC", LIST_HEAD)
    );
    assert_eq!(statement.params, vec![SqlValue::Text("2024-01-15T00:00:00Z".to_string())]);
}

#[test]
fn list_query_up_to_an_end_date() {
    let statement = list_query(&filter(None, None, Some("2024-01-15T23:59:59Z")));
    assert_eq!(
        statement.sql,
        format!("{} AND timestamp <= ? ORDER BY timestamp DESC", LIST_HEAD)
    );
    assert_eq!(statement.params, vec![SqlValue::Text("2024-01-15T23:59:59Z".to_string())]);
}

#[test]
fn list_query_with_every_bound_joins_them_with_and() {
    let statement =
        list_query(&filter(Some(1), Some("2024-01-15T00:00:00Z"), Some("2024-01-15T23:59:59Z")));
    assert_eq!(
        statement.sql,
        format!(
            "{} AND member_id = ? AND timestamp >= ? AND timestamp <= ? ORDER BY timestamp DESC",
            LIST_HEAD
        )
    );
    assert_eq!(
        statement.params,
        vec![
            SqlValue::Integer(1),
            SqlValue::Text("2024-01-15T00:00:00Z".to_string()),
            SqlValue::Text("2024-01-15T23:59:59Z".to_string()),
        ]
    );
}

#[test]
fn list_query_composes_the_member_bound_with_the_date_bounds() {
    let both = list_query(&filter(Some(2), Some("a"), Some("b")));
    let by_member = list_query(&filter(Some(2), None, None));
    let by_dates = list_query(&filter(None, Some("a"), Some("b")));
    let mut params = by_member.params.clone();
    params.extend(by_dates.params.clone());
    assert_eq!(both.params, params);
    let tail = " ORDER BY timestamp DESC";
    let member_part = &by_member.sql[LIST_HEAD.len()..by_member.sql.len() - tail.len()];
    let dates_part = &by_dates.sql[LIST_HEAD.len()..by_dates.sql.len() - tail.len()];
    assert_eq!(both.sql, format!("{}{}{}{}", LIST_HEAD, member_part, dates_part, tail));
}

#[test]
fn list_query_never_writes_a_value_into_the_text() {
    let hostile = "x' OR '1'='1";
    let statement = list_query(&filter(Some(1), Some(hostile), Some(hostile)));
    let plain = list_query(&filter(Some(2), Some("a"), Some("b")));
    assert_eq!(statement.sql, plain.sql);
    assert!(!statement.sql.contains(hostile));
    assert_eq!(statement.params[1], SqlValue::Text(hostile.to_string()));
}

#[test]
fn every_statement_binds_one_value_for_each_placeholder() {
    let request = CreateDietEntryRequest {
        member_id: 1,
        timestamp: "t".to_string(),
        meal_type: MealType::Other,
        description: "d".to_string(),
        calories: None,
        notes: None,
    };
    let entry = request.clone().into_entry(1);
    let mut statements = vec![
        member_exists_query(1),
        entry_exists_query(1),
        entry_by_id_query(1),
        delete_statement(1),
        insert_statement(&request),
        update_statement(&entry),
    ];
    for member in [None, Some(1)] {
        for start in [None, Some("a")] {
            for end in [None, Some("b")] {
                statements.push(list_query(&filter(member, start, end)));
            }
        }
    }
    assert_eq!(statements.len(), 14);
    for statement in statements {
        assert_eq!(question_marks(&statement), statement.params.len());
    }
}
