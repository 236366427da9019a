//! The four endpoints, served from a table in memory: what each request is
//! answered with, and what it leaves in the table.

use crate::handler::{
    out_of_turn, out_of_turn_message, Action, ActionView, Event, EventView, Handler, HandlerView,
    Request, RequestView,
};
use crate::models::{NewTag, QueryView, TagView};
use crate::response::{BodyView, Response, ResponseView, Status};
use crate::routes::{resolve, route, Endpoint, Method, Payload, PayloadView};
use crate::storage::{
    consistent, has_id, has_label, ids_exhausted, lemma_effect_consistent, next_id,
    position_of_id, TagTable,
};
use vstd::prelude::*;

verus! {

impl RequestView {
    /// The response to this request from a table with the rows `rows`.
    pub open spec fn response(self, rows: Seq<TagView>) -> ResponseView {
        match self {
            RequestView::ListTags => ResponseView::with(Status::Success, BodyView::Tags(rows)),
            RequestView::GetTag { id } => if has_id(rows, id) {
                ResponseView::with(Status::Success, BodyView::Tag(rows[position_of_id(rows, id)]))
            } else {
                ResponseView::bare(Status::NotFound)
            },
            RequestView::CreateTag { label } => if label.len() == 0 {
                ResponseView::bare(Status::UnprocessableEntity)
            } else if has_label(rows, label) {
                ResponseView::bare(Status::Conflict)
            } else if next_id(rows) > i32::MAX {
                ResponseView::failure(ids_exhausted())
            } else {
                ResponseView::with(
                    Status::Created,
                    BodyView::Tag(TagView { id: next_id(rows) as i32, label }),
                )
            },
            RequestView::DeleteTag { id } => if has_id(rows, id) {
                ResponseView::bare(Status::NoContent)
            } else {
                ResponseView::bare(Status::NotFound)
            },
        }
    }

    /// The rows of the table after this request, when they were `rows`
    /// before.
    pub open spec fn rows_after(self, rows: Seq<TagView>) -> Seq<TagView> {
        match self {
            RequestView::CreateTag { label } => if label.len() == 0 {
                rows
            } else {
                QueryView::Insert(label).effect(rows)
            },
            RequestView::DeleteTag { id } => QueryView::DeleteById(id).effect(rows),
            _ => rows,
        }
    }
}

/// No request leaves inconsistent rows behind: ids stay unique, and so do
/// labels.
pub proof fn requests_keep_rows_consistent(request: RequestView, rows: Seq<TagView>)
    requires
        consistent(rows),
    ensures
        consistent(request.rows_after(rows)),
{
    match request {
        RequestView::CreateTag { label } => lemma_effect_consistent(QueryView::Insert(label), rows),
        RequestView::DeleteTag { id } => lemma_effect_consistent(QueryView::DeleteById(id), rows),
        _ => {},
    }
}

/// What the handling comes to from `handler` on, with `action` due, when the
/// pool has a connection at hand, the table holds `rows` and answers each
/// query as it must, and `steps` actions may still be taken: the response, and
/// the rows that are left.
pub open spec fn driven(
    handler: HandlerView,
    action: ActionView,
    rows: Seq<TagView>,
    steps: nat,
) -> (ResponseView, Seq<TagView>)
    decreases steps,
{
    match action {
        ActionView::Respond(response) => (response, rows),
        ActionView::Idle => (ResponseView::failure(out_of_turn_message()), rows),
        _ => if steps == 0 {
            (ResponseView::failure(out_of_turn_message()), rows)
        } else {
            let event = match action {
                ActionView::Execute(query) => EventView::Completed(query.answer(rows)),
                ActionView::Release => EventView::Released,
                _ => EventView::Acquired,
            };
            let after = match action {
                ActionView::Execute(query) => query.effect(rows),
                _ => rows,
            };
            let (next, due) = handler.step(event);
            driven(next, due, after, (steps - 1) as nat)
        },
    }
}

/// Driven from its start, the handler of a request ends in the response of
/// the request, and leaves the rows of the request behind, within the four
/// actions that the longest handling takes before it responds.
pub proof fn handling_answers_the_request(request: RequestView, rows: Seq<TagView>)
    ensures
        driven(HandlerView::start(request).0, HandlerView::start(request).1, rows, 4) == (
            request.response(rows),
            request.rows_after(rows),
        ),
{
    reveal_with_fuel(driven, 5);
}

/// Handles one request against the table: acquires, queries, releases and
/// responds as the handler says, with a connection that is always at hand.
pub fn serve(database: &mut TagTable, request: Request) -> (response: Response)
    ensures
        response@ == request@.response(old(database)@),
        final(database)@ == request@.rows_after(old(database)@),
        consistent(final(database)@),
{
    proof {
        use_type_invariant(&*database);
        handling_answers_the_request(request@, database@);
        requests_keep_rows_consistent(request@, database@);
    }
    let ghost end = (request@.response(database@), request@.rows_after(database@));
    let start = Handler::new(request);
    let mut handler = start.0;
    let mut action = start.1;
    let mut steps: u8 = 4;
    while steps > 0
        invariant
            end == (request@.response(old(database)@), request@.rows_after(old(database)@)),
            consistent(end.1),
            driven(handler@, action@, database@, steps as nat) == end,
        decreases steps,
    {
        let event = match action {
            Action::Respond(response) => {
                return response;
            },
            Action::Idle => {
                return out_of_turn();
            },
            Action::Acquire => Event::Acquired,
            Action::Execute(query) => Event::Completed(database.execute(&query)),
            Action::Release => Event::Released,
        };
        let next = handler.step(event);
        handler = next.0;
        action = next.1;
        steps = steps - 1;
    }
    match action {
        Action::Respond(response) => response,
        _ => out_of_turn(),
    }
}

/// Lists the tags: 200 with every tag, in the table's order.
pub fn list_tags(database: &mut TagTable) -> (response: Response)
    ensures
        response@ == RequestView::ListTags.response(old(database)@),
        final(database)@ == old(database)@,
{
    serve(database, Request::ListTags)
}

/// Gets the tag with the id `id`: 200 with the tag, or 404.
pub fn get_tag(id: i32, database: &mut TagTable) -> (response: Response)
    ensures
        response@ == RequestView::get(id).response(old(database)@),
        final(database)@ == old(database)@,
{
    serve(database, Request::GetTag { id })
}

/// Creates a tag: 201 with the tag as stored; 422 for an empty label, 409
/// for a label that a tag has already, and then nothing is stored.
pub fn create_tag(database: &mut TagTable, new_tag: NewTag) -> (response: Response)
    ensures
        response@ == RequestView::create(new_tag@).response(old(database)@),
        final(database)@ == RequestView::create(new_tag@).rows_after(old(database)@),
{
    serve(database, Request::CreateTag { new_tag })
}

/// Deletes the tag with the id `id`: 204, or 404 where no tag has the id.
pub fn delete_tag(id: i32, database: &mut TagTable) -> (response: Response)
    ensures
        response@ == RequestView::delete(id).response(old(database)@),
        final(database)@ == RequestView::delete(id).rows_after(old(database)@),
{
    serve(database, Request::DeleteTag { id })
}

/// The request that a method, a path and a body make, or the status that
/// they are turned down with. The route is settled first; the body counts
/// for a creation only.
pub open spec fn accepted(method: Method, path: Seq<u8>, payload: PayloadView) -> Result<
    RequestView,
    Status,
> {
    match route(method, path) {
        Ok(Endpoint::ListTags) => Ok(RequestView::ListTags),
        Ok(Endpoint::GetTag { id }) => Ok(RequestView::GetTag { id }),
        Ok(Endpoint::DeleteTag { id }) => Ok(RequestView::DeleteTag { id }),
        Ok(Endpoint::CreateTag) => match payload.extracted() {
            Ok(label) => Ok(RequestView::CreateTag { label }),
            Err(status) => Err(status),
        },
        Err(status) => Err(status),
    }
}

/// The response to a method, a path and a body from a table with the rows
/// `rows`.
pub open spec fn reply(
    method: Method,
    path: Seq<u8>,
    payload: PayloadView,
    rows: Seq<TagView>,
) -> ResponseView {
    match accepted(method, path, payload) {
        Ok(request) => request.response(rows),
        Err(status) => ResponseView::bare(status),
    }
}

/// The rows of the table after a method, a path and a body, when they were
/// `rows` before.
pub open spec fn rows_after(
    method: Method,
    path: Seq<u8>,
    payload: PayloadView,
    rows: Seq<TagView>,
) -> Seq<TagView> {
    match accepted(method, path, payload) {
        Ok(request) => request.rows_after(rows),
        Err(_) => rows,
    }
}

/// What an accepted request is, mathematically.
pub open spec fn acceptance_view(acceptance: Result<Request, Status>) -> Result<
    RequestView,
    Status,
> {
    match acceptance {
        Ok(request) => Ok(request@),
        Err(status) => Err(status),
    }
}

/// Routes a request and extracts what its handler takes.
pub fn accept(method: Method, path: &[u8], payload: Payload) -> (request: Result<Request, Status>)
    ensures
        acceptance_view(request) == accepted(method, path@, payload@),
{
    match resolve(method, path) {
        Ok(Endpoint::ListTags) => Ok(Request::ListTags),
        Ok(Endpoint::GetTag { id }) => Ok(Request::GetTag { id }),
        Ok(Endpoint::DeleteTag { id }) => Ok(Request::DeleteTag { id }),
        Ok(Endpoint::CreateTag) => match payload.extract() {
            Ok(new_tag) => Ok(Request::CreateTag { new_tag }),
            Err(status) => Err(status),
        },
        Err(status) => Err(status),
    }
}

/// Answers a request from its method, the bytes of its path and its body. A
/// request that is turned down leaves the table as it was.
pub fn handle(database: &mut TagTable, method: Method, path: &[u8], payload: Payload) -> (response:
    Response)
    ensures
        response@ == reply(method, path@, payload@, old(database)@),
        final(database)@ == rows_after(method, path@, payload@, old(database)@),
{
    match accept(method, path, payload) {
        Ok(request) => serve(database, request),
        Err(status) => Response::bare(status),
    }
}

} // verus!
