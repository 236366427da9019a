//! What the tag table holds and how it answers each query, and a table kept
//! in memory that answers exactly so.

use crate::error::Error;
use crate::models::{Query, QueryView, Tag, TagView, WithLabel};
use vstd::prelude::*;

verus! {

/// How the storage answered a query.
#[derive(Debug)]
pub enum Outcome {
    /// The rows selected, in the table's order.
    Rows(Vec<Tag>),
    /// The one row selected or stored.
    Row(Tag),
    /// No row matched. This is an answer, not a fault.
    NotFound,
    /// The number of rows a statement removed.
    Affected(usize),
    /// The statement would have stored a label twice.
    UniqueViolation,
    /// Any other failure of the storage.
    Fault(Error),
}

/// What an [`Outcome`] is, mathematically.
pub enum OutcomeView {
    Rows(Seq<TagView>),
    Row(TagView),
    NotFound,
    Affected(usize),
    UniqueViolation,
    Fault(Seq<char>),
}

impl View for Outcome {
    type V = OutcomeView;

    open spec fn view(&self) -> OutcomeView {
        match self {
            Outcome::Rows(rows) => OutcomeView::Rows(rows.deep_view()),
            Outcome::Row(row) => OutcomeView::Row(row@),
            Outcome::NotFound => OutcomeView::NotFound,
            Outcome::Affected(count) => OutcomeView::Affected(*count),
            Outcome::UniqueViolation => OutcomeView::UniqueViolation,
            Outcome::Fault(error) => OutcomeView::Fault(error@),
        }
    }
}

/// The rows of a table are consistent when they stand in strictly ascending
/// order of id and no two of them share a label.
pub open spec fn consistent(rows: Seq<TagView>) -> bool {
    &&& forall|i: int, j: int|
        0 <= i < j < rows.len() ==> (#[trigger] rows[i]).id < (#[trigger] rows[j]).id
    &&& forall|i: int, j: int|
        0 <= i < j < rows.len() ==> (#[trigger] rows[i]).label != (#[trigger] rows[j]).label
}

/// Whether a row has the id `id`.
pub open spec fn has_id(rows: Seq<TagView>, id: i32) -> bool {
    exists|i: int| 0 <= i < rows.len() && (#[trigger] rows[i]).id == id
}

/// Where the row with the id `id` stands, if there is one.
pub open spec fn position_of_id(rows: Seq<TagView>, id: i32) -> int {
    choose|i: int| 0 <= i < rows.len() && (#[trigger] rows[i]).id == id
}

/// Whether a row has the label `label`.
pub open spec fn has_label(rows: Seq<TagView>, label: Seq<char>) -> bool {
    exists|i: int| 0 <= i < rows.len() && (#[trigger] rows[i]).label == label
}

/// Where the row with the label `label` stands, if there is one.
pub open spec fn position_of_label(rows: Seq<TagView>, label: Seq<char>) -> int {
    choose|i: int| 0 <= i < rows.len() && (#[trigger] rows[i]).label == label
}

/// The id that the next stored row gets: one more than the greatest in use,
/// and 1 in an empty table.
pub open spec fn next_id(rows: Seq<TagView>) -> int {
    if rows.len() == 0 {
        1
    } else {
        rows.last().id + 1
    }
}

/// The message of the fault that an insertion ends in when no id is left.
pub open spec fn ids_exhausted() -> Seq<char> {
    "No id is left for a new tag"@
}

impl QueryView {
    /// The answer of a table with the rows `rows` to this query.
    pub open spec fn answer(self, rows: Seq<TagView>) -> OutcomeView {
        match self {
            QueryView::All => OutcomeView::Rows(rows),
            QueryView::ById(id) => if has_id(rows, id) {
                OutcomeView::Row(rows[position_of_id(rows, id)])
            } else {
                OutcomeView::NotFound
            },
            QueryView::ByLabel(label) => if has_label(rows, label) {
                OutcomeView::Row(rows[position_of_label(rows, label)])
            } else {
                OutcomeView::NotFound
            },
            QueryView::DeleteById(id) => OutcomeView::Affected(
                if has_id(rows, id) {
                    1
                } else {
                    0
                },
            ),
            QueryView::Insert(label) => if has_label(rows, label) {
                OutcomeView::UniqueViolation
            } else if next_id(rows) > i32::MAX {
                OutcomeView::Fault(ids_exhausted())
            } else {
                OutcomeView::Row(TagView { id: next_id(rows) as i32, label })
            },
        }
    }

    /// The rows of the table after this query, when they were `rows` before.
    pub open spec fn effect(self, rows: Seq<TagView>) -> Seq<TagView> {
        match self {
            QueryView::DeleteById(id) => if has_id(rows, id) {
                rows.remove(position_of_id(rows, id))
            } else {
                rows
            },
            QueryView::Insert(label) => match self.answer(rows) {
                OutcomeView::Row(row) => rows.push(row),
                _ => rows,
            },
            _ => rows,
        }
    }
}

/// In consistent rows an id stands at one position only.
pub proof fn lemma_position_of_id(rows: Seq<TagView>, id: i32, at: int)
    requires
        consistent(rows),
        0 <= at < rows.len(),
        rows[at].id == id,
    ensures
        has_id(rows, id),
        position_of_id(rows, id) == at,
{
    let chosen = position_of_id(rows, id);
    assert(0 <= chosen < rows.len() && rows[chosen].id == id);
    if chosen < at {
        assert(rows[chosen].id < rows[at].id);
    } else if at < chosen {
        assert(rows[at].id < rows[chosen].id);
    }
}

/// In consistent rows a label stands at one position only.
pub proof fn lemma_position_of_label(rows: Seq<TagView>, label: Seq<char>, at: int)
    requires
        consistent(rows),
        0 <= at < rows.len(),
        rows[at].label == label,
    ensures
        has_label(rows, label),
        position_of_label(rows, label) == at,
{
    let chosen = position_of_label(rows, label);
    assert(0 <= chosen < rows.len() && rows[chosen].label == label);
    if chosen < at {
        assert(rows[chosen].label != rows[at].label);
    } else if at < chosen {
        assert(rows[at].label != rows[chosen].label);
    }
}

/// Every query leaves consistent rows consistent.
pub proof fn lemma_effect_consistent(query: QueryView, rows: Seq<TagView>)
    requires
        consistent(rows),
    ensures
        consistent(query.effect(rows)),
{
    let after = query.effect(rows);
    match query {
        QueryView::DeleteById(id) => {
            if has_id(rows, id) {
                let at = position_of_id(rows, id);
                assert forall|i: int, j: int| 0 <= i < j < after.len() implies {
                    &&& (#[trigger] after[i]).id < (#[trigger] after[j]).id
                    &&& after[i].label != after[j].label
                } by {
                    let i0 = if i < at {
                        i
                    } else {
                        i + 1
                    };
                    let j0 = if j < at {
                        j
                    } else {
                        j + 1
                    };
                    assert(after[i] == rows[i0]);
                    assert(after[j] == rows[j0]);
                }
            }
        },
        QueryView::Insert(label) => {
            match query.answer(rows) {
                OutcomeView::Row(row) => {
                    assert forall|i: int, j: int| 0 <= i < j < after.len() implies {
                        &&& (#[trigger] after[i]).id < (#[trigger] after[j]).id
                        &&& after[i].label != after[j].label
                    } by {
                        if j == rows.len() {
                            assert(after[i] == rows[i]);
                            assert(rows[i].id <= rows.last().id) by {
                                if i < rows.len() - 1 {
                                    assert(rows[i].id < rows[rows.len() - 1].id);
                                }
                            }
                        } else {
                            assert(after[i] == rows[i]);
                            assert(after[j] == rows[j]);
                        }
                    }
                },
                _ => {},
            }
        },
        _ => {},
    }
}

/// A tag table kept in memory.
pub struct TagTable {
    rows: Vec<Tag>,
}

impl View for TagTable {
    type V = Seq<TagView>;

    closed spec fn view(&self) -> Seq<TagView> {
        self.rows.deep_view()
    }
}

impl TagTable {
    #[verifier::type_invariant]
    pub(crate) open spec fn rows_consistent(self) -> bool {
        consistent(self@)
    }

    /// The empty table.
    pub fn new() -> (table: TagTable)
        ensures
            table@ == Seq::<TagView>::empty(),
    {
        let table = TagTable { rows: Vec::new() };
        assert(table@ =~= Seq::<TagView>::empty());
        table
    }

    /// The table that holds `rows`, where these are consistent; no table
    /// otherwise.
    pub fn from_rows(rows: Vec<Tag>) -> (table: Option<TagTable>)
        ensures
            table is Some == consistent(rows.deep_view()),
            table matches Some(made) ==> made@ == rows.deep_view(),
    {
        let ghost view = rows.deep_view();
        let mut at: usize = 0;
        while at < rows.len()
            invariant
                at <= rows.len(),
                view == rows.deep_view(),
                forall|i: int, j: int|
                    0 <= i < j < at ==> (#[trigger] view[i]).id < (#[trigger] view[j]).id,
                forall|i: int, j: int|
                    0 <= i < j < at ==> (#[trigger] view[i]).label != (#[trigger] view[j]).label,
            decreases rows.len() - at,
        {
            if at > 0 && rows[at - 1].id >= rows[at].id {
                assert(!(view[at - 1].id < view[at as int].id));
                return None;
            }
            let mut before: usize = 0;
            while before < at
                invariant
                    before <= at < rows.len(),
                    view == rows.deep_view(),
                    forall|i: int|
                        0 <= i < before ==> (#[trigger] view[i]).label != view[at as int].label,
                decreases at - before,
            {
                if rows[before].label == rows[at].label {
                    assert(!(view[before as int].label != view[at as int].label));
                    return None;
                }
                before += 1;
            }
            assert forall|i: int, j: int| 0 <= i < j < at + 1 implies {
                (#[trigger] view[i]).id < (#[trigger] view[j]).id
            } by {
                if j == at && i < at - 1 {
                    assert(view[i].id < view[at - 1].id);
                }
            }
            at += 1;
        }
        Some(TagTable { rows })
    }

    /// The number of rows.
    pub fn len(&self) -> (len: usize)
        ensures
            len == self@.len(),
            consistent(self@),
    {
        proof {
            use_type_invariant(self);
        }
        self.rows.len()
    }

    fn find_id(&self, id: i32) -> (found: Option<usize>)
        ensures
            consistent(self@),
            found is Some == has_id(self@, id),
            found matches Some(at) ==> at == position_of_id(self@, id) && at < self.rows.len(),
    {
        proof {
            use_type_invariant(self);
        }
        let mut at: usize = 0;
        while at < self.rows.len()
            invariant
                at <= self.rows.len(),
                consistent(self@),
                forall|i: int| 0 <= i < at ==> (#[trigger] self@[i]).id != id,
            decreases self.rows.len() - at,
        {
            if self.rows[at].id == id {
                proof {
                    lemma_position_of_id(self@, id, at as int);
                }
                return Some(at);
            }
            at += 1;
        }
        None
    }

    fn find_label(&self, filter: &WithLabel) -> (found: Option<usize>)
        ensures
            consistent(self@),
            found is Some == has_label(self@, filter@),
            found matches Some(at) ==> at == position_of_label(self@, filter@) && at
                < self.rows.len(),
    {
        proof {
            use_type_invariant(self);
        }
        let mut at: usize = 0;
        while at < self.rows.len()
            invariant
                at <= self.rows.len(),
                consistent(self@),
                forall|i: int| 0 <= i < at ==> (#[trigger] self@[i]).label != filter@,
            decreases self.rows.len() - at,
        {
            if filter.matches(&self.rows[at]) {
                proof {
                    lemma_position_of_label(self@, filter@, at as int);
                }
                return Some(at);
            }
            at += 1;
        }
        None
    }

    fn copy_rows(&self) -> (rows: Vec<Tag>)
        ensures
            rows.deep_view() == self@,
    {
        let mut rows: Vec<Tag> = Vec::new();
        let mut at: usize = 0;
        while at < self.rows.len()
            invariant
                at <= self.rows.len(),
                rows.len() == at,
                forall|i: int| 0 <= i < at ==> (#[trigger] rows[i]) == self.rows[i],
            decreases self.rows.len() - at,
        {
            rows.push(self.rows[at].clone());
            at += 1;
        }
        assert(rows.deep_view() =~= self@);
        rows
    }

    /// Runs a query: the answer and the rows afterwards are those that the
    /// query has on the rows before.
    pub fn execute(&mut self, query: &Query) -> (outcome: Outcome)
        ensures
            outcome@ == query@.answer(old(self)@),
            final(self)@ == query@.effect(old(self)@),
            consistent(old(self)@),
            consistent(final(self)@),
    {
        proof {
            use_type_invariant(&*self);
            lemma_effect_consistent(query@, self@);
        }
        match query {
            Query::All => Outcome::Rows(self.copy_rows()),
            Query::ById(id) => match self.find_id(*id) {
                Some(at) => Outcome::Row(self.rows[at].clone()),
                None => Outcome::NotFound,
            },
            Query::ByLabel(filter) => match self.find_label(filter) {
                Some(at) => Outcome::Row(self.rows[at].clone()),
                None => Outcome::NotFound,
            },
            Query::DeleteById(id) => match self.find_id(*id) {
                Some(at) => {
                    let ghost before = self@;
                    let mut rows: Vec<Tag> = Vec::new();
                    std::mem::swap(&mut rows, &mut self.rows);
                    rows.remove(at);
                    assert(rows.deep_view() =~= before.remove(at as int));
                    self.rows = rows;
                    Outcome::Affected(1)
                },
                None => Outcome::Affected(0),
            },
            Query::Insert(new_tag) => {
                let filter = WithLabel { label: new_tag.label.clone() };
                if self.find_label(&filter).is_some() {
                    return Outcome::UniqueViolation;
                }
                let count = self.rows.len();
                let id: i32 = if count == 0 {
                    1
                } else {
                    let last = self.rows[count - 1].id;
                    if last == i32::MAX {
                        return Outcome::Fault(Error::new("No id is left for a new tag"));
                    }
                    last + 1
                };
                let ghost before = self@;
                assert(before.len() > 0 ==> before.last() == self.rows[count - 1]@);
                let row = Tag { id, label: filter.label };
                let mut rows: Vec<Tag> = Vec::new();
                std::mem::swap(&mut rows, &mut self.rows);
                rows.push(row.clone());
                assert(rows.deep_view() =~= before.push(row@));
                self.rows = rows;
                Outcome::Row(row)
            },
        }
    }
}

} // verus!
