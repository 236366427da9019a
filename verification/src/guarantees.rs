//! What holds of the service across requests, and in every state of the
//! handling of one.

use crate::handler::{unavailable_message, ActionView, EventView, HandlerView, RequestView};
use crate::models::{QueryView, TagView};
use crate::response::{BodyView, ResponseView, Status};
use crate::routes::{
    id_of, is_segment, lemma_member_path, member_path, route, Endpoint, Method, PayloadView,
};
use crate::service::{reply, rows_after};
use crate::storage::{
    consistent, has_id, has_label, lemma_effect_consistent, lemma_position_of_id, next_id,
    position_of_id, OutcomeView,
};
use vstd::prelude::*;

verus! {

/// Once the tag with the id `id` is deleted, no row has that id.
pub proof fn lemma_deleted_id_is_gone(rows: Seq<TagView>, id: i32)
    requires
        consistent(rows),
    ensures
        !has_id(QueryView::DeleteById(id).effect(rows), id),
{
    let after = QueryView::DeleteById(id).effect(rows);
    if has_id(rows, id) {
        let at = position_of_id(rows, id);
        assert forall|i: int| 0 <= i < after.len() implies (#[trigger] after[i]).id != id by {
            let origin = if i < at {
                i
            } else {
                i + 1
            };
            assert(after[i] == rows[origin]);
            if rows[origin].id == id {
                lemma_position_of_id(rows, id, origin);
            }
        }
    }
}

/// Creating a tag and then getting the tag with the id that the creation
/// returned yields the tag created, with the label it was created with.
pub proof fn creation_round_trip(rows: Seq<TagView>, label: Seq<char>)
    requires
        consistent(rows),
        RequestView::create(label).response(rows).status == Status::Created,
    ensures
        ({
            let create = RequestView::create(label);
            &&& create.response(rows).body matches BodyView::Tag(tag)
            &&& tag.label == label
            &&& RequestView::get(tag.id).response(create.rows_after(rows))
                == ResponseView::with(Status::Success, BodyView::Tag(tag))
        }),
{
    let tag = TagView { id: next_id(rows) as i32, label };
    let after = RequestView::create(label).rows_after(rows);
    assert(after == rows.push(tag));
    lemma_effect_consistent(QueryView::Insert(label), rows);
    lemma_position_of_id(after, tag.id, rows.len() as int);
}

/// A label that is not empty and that no tag has is created, as long as an
/// id is left for it: the answer is 201 with the tag, and the tag is stored
/// after the rows that were there.
pub proof fn free_label_is_created(rows: Seq<TagView>, label: Seq<char>)
    requires
        label.len() > 0,
        !has_label(rows, label),
        next_id(rows) <= i32::MAX,
    ensures
        ({
            let create = RequestView::create(label);
            let tag = TagView { id: next_id(rows) as i32, label };
            &&& create.response(rows) == ResponseView::with(Status::Created, BodyView::Tag(tag))
            &&& create.rows_after(rows) == rows.push(tag)
        }),
{
}

/// Where a creation stored its tag, or found the label taken, a second
/// creation with the same label is answered with 409 and stores nothing.
pub proof fn second_creation_conflicts(rows: Seq<TagView>, label: Seq<char>)
    requires
        consistent(rows),
        RequestView::create(label).response(rows).status == Status::Created
            || RequestView::create(label).response(rows).status == Status::Conflict,
    ensures
        ({
            let create = RequestView::create(label);
            let after = create.rows_after(rows);
            &&& create.response(after) == ResponseView::bare(Status::Conflict)
            &&& create.rows_after(after) == after
        }),
{
    let after = RequestView::create(label).rows_after(rows);
    if !has_label(rows, label) {
        let tag = TagView { id: next_id(rows) as i32, label };
        assert(after == rows.push(tag));
        assert(after[rows.len() as int].label == label);
    }
}

/// A creation whose insertion runs into the label of a tag that another
/// request stored after the check is answered with 409 as well: the
/// connection goes back, and then the response goes out.
pub proof fn late_conflict_is_a_conflict(handler: HandlerView)
    requires
        handler.stage is PreChecked,
    ensures
        ({
            let (settled, release) = handler.step(
                EventView::Completed(OutcomeView::UniqueViolation),
            );
            &&& release == ActionView::Release
            &&& settled.step(EventView::Released).1 == ActionView::Respond(
                ResponseView::bare(Status::Conflict),
            )
        }),
{
}

/// Two creations with one label that both pass the check, before either
/// inserts, store one tag between them: the first insertion stores it, the
/// second runs into it, is answered with 409 and stores nothing.
pub proof fn racing_creations_store_one_tag(rows: Seq<TagView>, label: Seq<char>)
    requires
        consistent(rows),
        !has_label(rows, label),
        next_id(rows) <= i32::MAX,
    ensures
        ({
            let check = QueryView::ByLabel(label);
            let insert = QueryView::Insert(label);
            let stored = insert.effect(rows);
            &&& check.answer(rows) == OutcomeView::NotFound
            &&& check.effect(rows) == rows
            &&& insert.answer(rows).created().status == Status::Created
            &&& stored.len() == rows.len() + 1
            &&& insert.answer(stored) == OutcomeView::UniqueViolation
            &&& insert.answer(stored).created() == ResponseView::bare(Status::Conflict)
            &&& insert.effect(stored) == stored
        }),
{
    let tag = TagView { id: next_id(rows) as i32, label };
    let stored = QueryView::Insert(label).effect(rows);
    assert(stored == rows.push(tag));
    assert(stored[rows.len() as int].label == label);
}

/// The first deletion of an id is answered with 204 where a tag has the id
/// and with 404 where none has; the second is answered with 404.
pub proof fn second_deletion_finds_nothing(rows: Seq<TagView>, id: i32)
    requires
        consistent(rows),
    ensures
        ({
            let delete = RequestView::delete(id);
            &&& delete.response(rows) == ResponseView::bare(
                if has_id(rows, id) {
                    Status::NoContent
                } else {
                    Status::NotFound
                },
            )
            &&& delete.response(delete.rows_after(rows)) == ResponseView::bare(Status::NotFound)
        }),
{
    lemma_deleted_id_is_gone(rows, id);
}

/// Getting a tag whose id was just deleted is answered with 404.
pub proof fn deleted_tag_is_not_found(rows: Seq<TagView>, id: i32)
    requires
        consistent(rows),
    ensures
        RequestView::get(id).response(RequestView::delete(id).rows_after(rows))
            == ResponseView::bare(Status::NotFound),
{
    lemma_deleted_id_is_gone(rows, id);
}

/// A path segment that writes no id is answered with 400, for a GET as for a
/// DELETE, whatever the table holds, and the table stays as it was.
pub proof fn malformed_id_is_a_bad_request(
    segment: Seq<u8>,
    payload: PayloadView,
    rows: Seq<TagView>,
)
    requires
        is_segment(segment),
        id_of(segment) is None,
    ensures
        ({
            let path = member_path(segment);
            let refused = ResponseView::bare(Status::BadRequest);
            &&& route(Method::Get, path) == Err::<Endpoint, Status>(Status::BadRequest)
            &&& route(Method::Delete, path) == Err::<Endpoint, Status>(Status::BadRequest)
            &&& reply(Method::Get, path, payload, rows) == refused
            &&& reply(Method::Delete, path, payload, rows) == refused
            &&& rows_after(Method::Get, path, payload, rows) == rows
            &&& rows_after(Method::Delete, path, payload, rows) == rows
        }),
{
    lemma_member_path(segment);
}

/// Each endpoint answers with the statuses of its own and with 500, and with
/// no other, whatever the storage answers.
pub proof fn statuses_follow_the_endpoint(outcome: OutcomeView)
    ensures
        ({
            let status = outcome.listed().status;
            status == Status::Success || status == Status::InternalServerError
        }),
        ({
            let status = outcome.fetched().status;
            status == Status::Success || status == Status::NotFound || status
                == Status::InternalServerError
        }),
        ({
            let status = outcome.created().status;
            status == Status::Created || status == Status::Conflict || status
                == Status::InternalServerError
        }),
        ({
            let status = outcome.deleted().status;
            status == Status::NoContent || status == Status::NotFound || status
                == Status::InternalServerError
        }),
        outcome.fault().status == Status::InternalServerError,
{
}

/// Where the pool gives no connection, the request is answered with 500 at
/// once: no query is run and nothing is held.
pub proof fn unavailable_pool_is_a_fault(request: RequestView)
    requires
        request.acceptable(),
    ensures
        ({
            let (received, first) = HandlerView::start(request);
            let (next, action) = received.step(EventView::Unavailable);
            &&& first == ActionView::Acquire
            &&& action == ActionView::Respond(ResponseView::failure(unavailable_message()))
            &&& next.stage is ResponseMapped
        }),
{
}

/// A connection that was acquired goes back on every path: a stage that
/// holds one is left only through `OperationExecuted`, that stage is entered
/// with `Release` and with nothing else, and a response goes out only into
/// `ResponseMapped`, which holds none.
pub proof fn connection_is_released(handler: HandlerView, event: EventView)
    ensures
        ({
            let (next, action) = handler.step(event);
            &&& handler.stage.holds_connection() && !(handler.stage is OperationExecuted)
                ==> next.stage.holds_connection()
            &&& action is Release <==> next.stage is OperationExecuted
            &&& next.stage is OperationExecuted ==> handler.stage.holds_connection()
            &&& action is Respond ==> next.stage is ResponseMapped
            &&& action is Respond ==> handler.stage is Received
                || handler.stage is OperationExecuted
            &&& action is Execute ==> next.stage.holds_connection()
            &&& !(action is Acquire)
        }),
{
}

/// The handling of a request ends: each event brings it nearer to the
/// response, and after four events at most the response is out.
pub proof fn handling_ends(handler: HandlerView, event: EventView)
    ensures
        handler.step(event).0.stage.steps_left() < handler.stage.steps_left()
            || handler.stage is ResponseMapped,
        handler.step(event).0.request == handler.request,
        handler.stage.steps_left() <= 4,
{
}

} // verus!
