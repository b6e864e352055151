//! Counting the placeholders of a statement's text.
//!
//! A statement binds its values by position: the first value goes to the
//! first question mark of the text, the second to the second, and so on. The
//! engine refuses a statement that binds more or fewer values than its text
//! has question marks, so every statement of this crate is built with as many
//! values as its text has placeholders. This module counts them.

use vstd::prelude::*;
use crate::sql::{
    DELETE_SQL, END_CLAUSE_SQL, ENTRY_BY_ID_SQL, ENTRY_EXISTS_SQL, INSERT_SQL, LIST_HEAD_SQL,
    LIST_ORDER_SQL, MEMBER_CLAUSE_SQL, MEMBER_EXISTS_SQL, START_CLAUSE_SQL, UPDATE_SQL,
};

verus! {

/// The number of placeholders in `text` from position `from` on. A
/// placeholder is a question mark; no text of this crate holds one inside a
/// quoted string.
pub open spec fn placeholders_from(text: Seq<char>, from: int) -> nat
    decreases text.len() - from,
{
    if from < 0 || from >= text.len() {
        0
    } else {
        placeholders_from(text, from + 1) + if text[from] == '?' {
            1nat
        } else {
            0nat
        }
    }
}

/// The number of placeholders in `text`.
pub open spec fn placeholders(text: Seq<char>) -> nat {
    placeholders_from(text, 0)
}

proof fn lemma_placeholders_of_tail(head: Seq<char>, tail: Seq<char>, from: int)
    requires
        0 <= from,
    ensures
        placeholders_from(head + tail, head.len() + from) == placeholders_from(tail, from),
    decreases tail.len() - from,
{
    if from < tail.len() {
        lemma_placeholders_of_tail(head, tail, from + 1);
        assert((head + tail)[head.len() + from] == tail[from]);
    }
}

proof fn lemma_placeholders_of_head(head: Seq<char>, tail: Seq<char>, from: int)
    requires
        0 <= from <= head.len(),
    ensures
        placeholders_from(head + tail, from) == placeholders_from(head, from) + placeholders(
            tail,
        ),
    decreases head.len() - from,
{
    if from < head.len() {
        lemma_placeholders_of_head(head, tail, from + 1);
        assert((head + tail)[from] == head[from]);
    } else {
        lemma_placeholders_of_tail(head, tail, 0);
    }
}

/// The placeholders of two texts put together are those of the first and
/// those of the second.
pub proof fn lemma_placeholders_add(head: Seq<char>, tail: Seq<char>)
    ensures
        placeholders(head + tail) == placeholders(head) + placeholders(tail),
{
    lemma_placeholders_of_head(head, tail, 0);
}

// Each text is counted in stretches of thirty characters, from its end to its
// beginning, so that no step has to unfold the count further than that.

pub(crate) proof fn lemma_placeholders_of_member_exists()
    ensures
        placeholders(MEMBER_EXISTS_SQL@) == 1,
{
    reveal_strlit("SELECT EXISTS(SELECT 1 FROM family_members WHERE id = ?)");
    assert(placeholders_from(MEMBER_EXISTS_SQL@, 30) == 1) by {
        reveal_with_fuel(placeholders_from, 32);
    }
    assert(placeholders_from(MEMBER_EXISTS_SQL@, 0) == 1) by {
        reveal_with_fuel(placeholders_from, 32);
    }
}

pub(crate) proof fn lemma_placeholders_of_entry_exists()
    ensures
        placeholders(ENTRY_EXISTS_SQL@) == 1,
{
    reveal_strlit("SELECT EXISTS(SELECT 1 FROM diet_entries WHERE id = ?)");
    assert(placeholders_from(ENTRY_EXISTS_SQL@, 30) == 1) by {
        reveal_with_fuel(placeholders_from, 32);
    }
    assert(placeholders_from(ENTRY_EXISTS_SQL@, 0) == 1) by {
        reveal_with_fuel(placeholders_from, 32);
    }
}

pub(crate) proof fn lemma_placeholders_of_entry_by_id()
    ensures
        placeholders(ENTRY_BY_ID_SQL@) == 1,
{
    reveal_strlit(
        "SELECT id, member_id, timestamp, meal_type, description, calories, notes FROM diet_entries WHERE id = ?",
    );
    assert(placeholders_from(ENTRY_BY_ID_SQL@, 90) == 1) by {
        reveal_with_fuel(placeholders_from, 32);
    }
    assert(placeholders_from(ENTRY_BY_ID_SQL@, 60) == 1) by {
        reveal_with_fuel(placeholders_from, 32);
    }
    assert(placeholders_from(ENTRY_BY_ID_SQL@, 30) == 1) by {
        reveal_with_fuel(placeholders_from, 32);
    }
    assert(placeholders_from(ENTRY_BY_ID_SQL@, 0) == 1) by {
        reveal_with_fuel(placeholders_from, 32);
    }
}

pub(crate) proof fn lemma_placeholders_of_insert()
    ensures
        placeholders(INSERT_SQL@) == 6,
{
    reveal_strlit(
        "INSERT INTO diet_entries (member_id, timestamp, meal_type, description, calories, notes) VALUES (?, ?, ?, ?, ?, ?)",
    );
    assert(placeholders_from(INSERT_SQL@, 90) == 6) by {
        reveal_with_fuel(placeholders_from, 32);
    }
    assert(placeholders_from(INSERT_SQL@, 60) == 6) by {
        reveal_with_fuel(placeholders_from, 32);
    }
    assert(placeholders_from(INSERT_SQL@, 30) == 6) by {
        reveal_with_fuel(placeholders_from, 32);
    }
    assert(placeholders_from(INSERT_SQL@, 0) == 6) by {
        reveal_with_fuel(placeholders_from, 32);
    }
}

pub(crate) proof fn lemma_placeholders_of_update()
    ensures
        placeholders(UPDATE_SQL@) == 7,
{
    reveal_strlit(
        "UPDATE diet_entries SET member_id = ?, timestamp = ?, meal_type = ?, description = ?, calories = ?, notes = ? WHERE id = ?",
    );
    assert(placeholders_from(UPDATE_SQL@, 120) == 1) by {
        reveal_with_fuel(placeholders_from, 32);
    }
    assert(placeholders_from(UPDATE_SQL@, 90) == 3) by {
        reveal_with_fuel(placeholders_from, 32);
    }
    assert(placeholders_from(UPDATE_SQL@, 60) == 5) by {
        reveal_with_fuel(placeholders_from, 32);
    }
    assert(placeholders_from(UPDATE_SQL@, 30) == 7) by {
        reveal_with_fuel(placeholders_from, 32);
    }
    assert(placeholders_from(UPDATE_SQL@, 0) == 7) by {
        reveal_with_fuel(placeholders_from, 32);
    }
}

pub(crate) proof fn lemma_placeholders_of_delete()
    ensures
        placeholders(DELETE_SQL@) == 1,
{
    reveal_strlit("DELETE FROM diet_entries WHERE id = ?");
    assert(placeholders_from(DELETE_SQL@, 30) == 1) by {
        reveal_with_fuel(placeholders_from, 32);
    }
    assert(placeholders_from(DELETE_SQL@, 0) == 1) by {
        reveal_with_fuel(placeholders_from, 32);
    }
}

pub(crate) proof fn lemma_placeholders_of_list_head()
    ensures
        placeholders(LIST_HEAD_SQL@) == 0,
{
    reveal_strlit(
        "SELECT id, member_id, timestamp, meal_type, description, calories, notes FROM diet_entries WHERE 1=1",
    );
    assert(placeholders_from(LIST_HEAD_SQL@, 90) == 0) by {
        reveal_with_fuel(placeholders_from, 32);
    }
    assert(placeholders_from(LIST_HEAD_SQL@, 60) == 0) by {
        reveal_with_fuel(placeholders_from, 32);
    }
    assert(placeholders_from(LIST_HEAD_SQL@, 30) == 0) by {
        reveal_with_fuel(placeholders_from, 32);
    }
    assert(placeholders_from(LIST_HEAD_SQL@, 0) == 0) by {
        reveal_with_fuel(placeholders_from, 32);
    }
}

pub(crate) proof fn lemma_placeholders_of_member_clause()
    ensures
        placeholders(MEMBER_CLAUSE_SQL@) == 1,
{
    reveal_strlit(" AND member_id = ?");
    assert(placeholders_from(MEMBER_CLAUSE_SQL@, 0) == 1) by {
        reveal_with_fuel(placeholders_from, 32);
    }
}

pub(crate) proof fn lemma_placeholders_of_start_clause()
    ensures
        placeholders(START_CLAUSE_SQL@) == 1,
{
    reveal_strlit(" AND timestamp >= ?");
    assert(placeholders_from(START_CLAUSE_SQL@, 0) == 1) by {
        reveal_with_fuel(placeholders_from, 32);
    }
}

pub(crate) proof fn lemma_placeholders_of_end_clause()
    ensures
        placeholders(END_CLAUSE_SQL@) == 1,
{
    reveal_strlit(" AND timestamp <= ?");
    assert(placeholders_from(END_CLAUSE_SQL@, 0) == 1) by {
        reveal_with_fuel(placeholders_from, 32);
    }
}

pub(crate) proof fn lemma_placeholders_of_list_order()
    ensures
        placeholders(LIST_ORDER_SQL@) == 0,
{
    reveal_strlit(" ORDER BY timestamp DESC");
    assert(placeholders_from(LIST_ORDER_SQL@, 0) == 0) by {
        reveal_with_fuel(placeholders_from, 32);
    }
}

/// How many placeholders each text of this module holds.
pub proof fn lemma_placeholders_of_texts()
    ensures
        placeholders(MEMBER_EXISTS_SQL@) == 1,
        placeholders(ENTRY_EXISTS_SQL@) == 1,
        placeholders(ENTRY_BY_ID_SQL@) == 1,
        placeholders(INSERT_SQL@) == 6,
        placeholders(UPDATE_SQL@) == 7,
        placeholders(DELETE_SQL@) == 1,
        placeholders(LIST_HEAD_SQL@) == 0,
        placeholders(MEMBER_CLAUSE_SQL@) == 1,
        placeholders(START_CLAUSE_SQL@) == 1,
        placeholders(END_CLAUSE_SQL@) == 1,
        placeholders(LIST_ORDER_SQL@) == 0,
{
    lemma_placeholders_of_member_exists();
    lemma_placeholders_of_entry_exists();
    lemma_placeholders_of_entry_by_id();
    lemma_placeholders_of_insert();
    lemma_placeholders_of_update();
    lemma_placeholders_of_delete();
    lemma_placeholders_of_list_head();
    lemma_placeholders_of_member_clause();
    lemma_placeholders_of_start_clause();
    lemma_placeholders_of_end_clause();
    lemma_placeholders_of_list_order();
}

} // verus!
