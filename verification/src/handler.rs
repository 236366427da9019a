//! The handling of one request as a state machine. The machine decides; its
//! driver acquires the connection, runs the queries and sends the response.
//!
//! A request passes through the stages `Received`, `ConnectionAcquired`,
//! `OperationExecuted` and `ResponseMapped`. There are no retries and there is
//! no state across requests.

use crate::error::Error;
use crate::models::{NewTag, Query, QueryView, Tag};
use crate::response::{Body, BodyView, Response, ResponseView, Status};
use crate::storage::{Outcome, OutcomeView};
use vstd::prelude::*;

verus! {

/// A request, after routing and extraction.
#[derive(Debug)]
pub enum Request {
    ListTags,
    GetTag { id: i32 },
    CreateTag { new_tag: NewTag },
    DeleteTag { id: i32 },
}

/// What a [`Request`] is, mathematically.
pub enum RequestView {
    ListTags,
    GetTag { id: i32 },
    CreateTag { label: Seq<char> },
    DeleteTag { id: i32 },
}

impl View for Request {
    type V = RequestView;

    open spec fn view(&self) -> RequestView {
        match self {
            Request::ListTags => RequestView::ListTags,
            Request::GetTag { id } => RequestView::GetTag { id: *id },
            Request::CreateTag { new_tag } => RequestView::CreateTag { label: new_tag@ },
            Request::DeleteTag { id } => RequestView::DeleteTag { id: *id },
        }
    }
}

/// How far the handling of a request has come.
#[derive(Debug)]
pub enum Stage {
    /// The request is accepted and a connection is asked for.
    Received,
    /// The connection is held and the first query is under way.
    ConnectionAcquired,
    /// Creation only: no tag had the label, and the insertion is under way.
    PreChecked,
    /// The response is decided and the connection is on its way back.
    OperationExecuted(Response),
    /// The response is handed out. Nothing follows.
    ResponseMapped,
}

/// What a [`Stage`] is, mathematically.
pub enum StageView {
    Received,
    ConnectionAcquired,
    PreChecked,
    OperationExecuted(ResponseView),
    ResponseMapped,
}

impl View for Stage {
    type V = StageView;

    open spec fn view(&self) -> StageView {
        match self {
            Stage::Received => StageView::Received,
            Stage::ConnectionAcquired => StageView::ConnectionAcquired,
            Stage::PreChecked => StageView::PreChecked,
            Stage::OperationExecuted(response) => StageView::OperationExecuted(response@),
            Stage::ResponseMapped => StageView::ResponseMapped,
        }
    }
}

impl StageView {
    /// Whether a connection is out of the pool on behalf of the request.
    pub open spec fn holds_connection(self) -> bool {
        self is ConnectionAcquired || self is PreChecked || self is OperationExecuted
    }

    /// An upper bound on the steps that are left.
    pub open spec fn steps_left(self) -> nat {
        match self {
            StageView::Received => 4,
            StageView::ConnectionAcquired => 3,
            StageView::PreChecked => 2,
            StageView::OperationExecuted(_) => 1,
            StageView::ResponseMapped => 0,
        }
    }
}

/// What the driver is to do next.
#[derive(Debug)]
pub enum Action {
    /// Take a connection from the pool.
    Acquire,
    /// Run the query on the connection held.
    Execute(Query),
    /// Give the connection back to the pool.
    Release,
    /// Send the response. The handling is over.
    Respond(Response),
    /// Nothing: the response is out already.
    Idle,
}

/// What an [`Action`] is, mathematically.
pub enum ActionView {
    Acquire,
    Execute(QueryView),
    Release,
    Respond(ResponseView),
    Idle,
}

impl View for Action {
    type V = ActionView;

    open spec fn view(&self) -> ActionView {
        match self {
            Action::Acquire => ActionView::Acquire,
            Action::Execute(query) => ActionView::Execute(query@),
            Action::Release => ActionView::Release,
            Action::Respond(response) => ActionView::Respond(response@),
            Action::Idle => ActionView::Idle,
        }
    }
}

/// What came of the last action.
#[derive(Debug)]
pub enum Event {
    /// The pool handed out a connection.
    Acquired,
    /// The pool had no connection in time, or could not open one.
    Unavailable,
    /// The query ran, or failed, with this outcome.
    Completed(Outcome),
    /// The connection is back in the pool.
    Released,
}

/// What an [`Event`] is, mathematically.
pub enum EventView {
    Acquired,
    Unavailable,
    Completed(OutcomeView),
    Released,
}

impl View for Event {
    type V = EventView;

    open spec fn view(&self) -> EventView {
        match self {
            Event::Acquired => EventView::Acquired,
            Event::Unavailable => EventView::Unavailable,
            Event::Completed(outcome) => EventView::Completed(outcome@),
            Event::Released => EventView::Released,
        }
    }
}

/// The message of the fault "the pool gave no connection".
pub open spec fn unavailable_message() -> Seq<char> {
    "Failed to get database connection"@
}

/// The message of the fault "the storage answered what the query cannot yield".
pub open spec fn unexpected_message() -> Seq<char> {
    "Unexpected answer from the database"@
}

/// The message of the fault "the driver reported what was not asked for".
pub open spec fn out_of_turn_message() -> Seq<char> {
    "Unexpected event for the request"@
}

impl OutcomeView {
    /// The 500 response for an outcome that is no domain outcome of the
    /// query: the storage's own message for a fault, a fixed one otherwise.
    pub open spec fn fault(self) -> ResponseView {
        match self {
            OutcomeView::Fault(message) => ResponseView::failure(message),
            _ => ResponseView::failure(unexpected_message()),
        }
    }

    /// The response to "list tags": 200 with the rows.
    pub open spec fn listed(self) -> ResponseView {
        match self {
            OutcomeView::Rows(rows) => ResponseView::with(Status::Success, BodyView::Tags(rows)),
            _ => self.fault(),
        }
    }

    /// The response to "get tag": 200 with the row, 404 where there is none.
    pub open spec fn fetched(self) -> ResponseView {
        match self {
            OutcomeView::Row(row) => ResponseView::with(Status::Success, BodyView::Tag(row)),
            OutcomeView::NotFound => ResponseView::bare(Status::NotFound),
            _ => self.fault(),
        }
    }

    /// The response to "create tag" once the insertion has run: 201 with the
    /// row; 409 where another creation claimed the label in the meantime.
    pub open spec fn created(self) -> ResponseView {
        match self {
            OutcomeView::Row(row) => ResponseView::with(Status::Created, BodyView::Tag(row)),
            OutcomeView::UniqueViolation => ResponseView::bare(Status::Conflict),
            _ => self.fault(),
        }
    }

    /// The response to "delete tag": 204 where one row went, 404 otherwise.
    pub open spec fn deleted(self) -> ResponseView {
        match self {
            OutcomeView::Affected(count) => if count == 1 {
                ResponseView::bare(Status::NoContent)
            } else {
                ResponseView::bare(Status::NotFound)
            },
            _ => self.fault(),
        }
    }
}

impl RequestView {
    /// The request to get the tag with the id `id`.
    pub open spec fn get(id: i32) -> RequestView {
        RequestView::GetTag { id }
    }

    /// The request to create a tag with the label `label`.
    pub open spec fn create(label: Seq<char>) -> RequestView {
        RequestView::CreateTag { label }
    }

    /// The request to delete the tag with the id `id`.
    pub open spec fn delete(id: i32) -> RequestView {
        RequestView::DeleteTag { id }
    }

    /// Whether the request may touch the storage: a creation needs a label
    /// that is not empty.
    pub open spec fn acceptable(self) -> bool {
        match self {
            RequestView::CreateTag { label } => label.len() > 0,
            _ => true,
        }
    }

    /// The query that a request starts with.
    pub open spec fn first_query(self) -> QueryView {
        match self {
            RequestView::ListTags => QueryView::All,
            RequestView::GetTag { id } => QueryView::ById(id),
            RequestView::CreateTag { label } => QueryView::ByLabel(label),
            RequestView::DeleteTag { id } => QueryView::DeleteById(id),
        }
    }
}

/// What a [`Handler`] is, mathematically.
pub struct HandlerView {
    pub request: RequestView,
    pub stage: StageView,
}

impl HandlerView {
    /// The handler at the stage `stage`, for the same request.
    pub open spec fn at(self, stage: StageView) -> HandlerView {
        HandlerView { request: self.request, stage }
    }

    /// The handler with the response decided, and the action that gives the
    /// connection back first.
    pub open spec fn settle(self, response: ResponseView) -> (HandlerView, ActionView) {
        (self.at(StageView::OperationExecuted(response)), ActionView::Release)
    }

    /// The first state of the handling of `request`, and the first action.
    /// A creation without a label is answered with 422 before any storage is
    /// touched.
    pub open spec fn start(request: RequestView) -> (HandlerView, ActionView) {
        if request.acceptable() {
            (HandlerView { request, stage: StageView::Received }, ActionView::Acquire)
        } else {
            (
                HandlerView { request, stage: StageView::ResponseMapped },
                ActionView::Respond(ResponseView::bare(Status::UnprocessableEntity)),
            )
        }
    }

    /// The state after `event`, and the action that follows.
    pub open spec fn step(self, event: EventView) -> (HandlerView, ActionView) {
        match self.stage {
            StageView::Received => match event {
                EventView::Acquired => (
                    self.at(StageView::ConnectionAcquired),
                    ActionView::Execute(self.request.first_query()),
                ),
                EventView::Unavailable => (
                    self.at(StageView::ResponseMapped),
                    ActionView::Respond(ResponseView::failure(unavailable_message())),
                ),
                _ => (
                    self.at(StageView::ResponseMapped),
                    ActionView::Respond(ResponseView::failure(out_of_turn_message())),
                ),
            },
            StageView::ConnectionAcquired => match event {
                EventView::Completed(outcome) => match self.request {
                    RequestView::ListTags => self.settle(outcome.listed()),
                    RequestView::GetTag { .. } => self.settle(outcome.fetched()),
                    RequestView::DeleteTag { .. } => self.settle(outcome.deleted()),
                    RequestView::CreateTag { label } => match outcome {
                        OutcomeView::NotFound => (
                            self.at(StageView::PreChecked),
                            ActionView::Execute(QueryView::Insert(label)),
                        ),
                        OutcomeView::Row(_) => self.settle(ResponseView::bare(Status::Conflict)),
                        _ => self.settle(outcome.fault()),
                    },
                },
                _ => self.settle(ResponseView::failure(out_of_turn_message())),
            },
            StageView::PreChecked => match event {
                EventView::Completed(outcome) => self.settle(outcome.created()),
                _ => self.settle(ResponseView::failure(out_of_turn_message())),
            },
            StageView::OperationExecuted(response) => (
                self.at(StageView::ResponseMapped),
                ActionView::Respond(response),
            ),
            StageView::ResponseMapped => (self, ActionView::Idle),
        }
    }
}

/// The 500 response for an outcome that is no domain outcome of the query.
fn fault(outcome: Outcome) -> (response: Response)
    ensures
        response@ == outcome@.fault(),
{
    match outcome {
        Outcome::Fault(error) => error.into_response(),
        _ => Error::new("Unexpected answer from the database").into_response(),
    }
}

/// The 500 response to an event that the handling did not ask for.
pub(crate) fn out_of_turn() -> (response: Response)
    ensures
        response@ == ResponseView::failure(out_of_turn_message()),
{
    Error::new("Unexpected event for the request").into_response()
}

/// The response to "list tags" for the outcome of the query for all tags.
pub fn listed(outcome: Outcome) -> (response: Response)
    ensures
        response@ == outcome@.listed(),
{
    match outcome {
        Outcome::Rows(rows) => Response { status: Status::Success, body: Body::Tags(rows) },
        other => fault(other),
    }
}

/// The response to "get tag" for the outcome of the query by id.
pub fn fetched(outcome: Outcome) -> (response: Response)
    ensures
        response@ == outcome@.fetched(),
{
    match outcome {
        Outcome::Row(row) => Response { status: Status::Success, body: Body::Tag(row) },
        Outcome::NotFound => Response::bare(Status::NotFound),
        other => fault(other),
    }
}

/// The response to "create tag" for the outcome of the insertion.
pub fn created(outcome: Outcome) -> (response: Response)
    ensures
        response@ == outcome@.created(),
{
    match outcome {
        Outcome::Row(row) => Response { status: Status::Created, body: Body::Tag(row) },
        Outcome::UniqueViolation => Response::bare(Status::Conflict),
        other => fault(other),
    }
}

/// The response to "delete tag" for the outcome of the deletion.
pub fn deleted(outcome: Outcome) -> (response: Response)
    ensures
        response@ == outcome@.deleted(),
{
    match outcome {
        Outcome::Affected(count) => if count == 1 {
            Response::bare(Status::NoContent)
        } else {
            Response::bare(Status::NotFound)
        },
        other => fault(other),
    }
}

/// The handling of one request.
#[derive(Debug)]
pub struct Handler {
    request: Request,
    stage: Stage,
}

impl View for Handler {
    type V = HandlerView;

    closed spec fn view(&self) -> HandlerView {
        HandlerView { request: self.request@, stage: self.stage@ }
    }
}

impl Request {
    fn first_query(&self) -> (query: Query)
        ensures
            query@ == self@.first_query(),
    {
        match self {
            Request::ListTags => Tag::all(),
            Request::GetTag { id } => Tag::by_id(*id),
            Request::CreateTag { new_tag } => Tag::by_label(new_tag.label.as_str()),
            Request::DeleteTag { id } => Tag::delete_by_id(*id),
        }
    }
}

impl Handler {
    /// Accepts a request: the handler and what to do first.
    pub fn new(request: Request) -> (start: (Handler, Action))
        ensures
            (start.0@, start.1@) == HandlerView::start(request@),
    {
        let acceptable = match &request {
            Request::CreateTag { new_tag } => new_tag.is_valid(),
            _ => true,
        };
        if acceptable {
            (Handler { request, stage: Stage::Received }, Action::Acquire)
        } else {
            (
                Handler { request, stage: Stage::ResponseMapped },
                Action::Respond(Response::bare(Status::UnprocessableEntity)),
            )
        }
    }

    fn settle(request: Request, response: Response) -> (next: (Handler, Action))
        ensures
            next.0@ == (HandlerView {
                request: request@,
                stage: StageView::OperationExecuted(response@),
            }),
            next.1@ == ActionView::Release,
    {
        (Handler { request, stage: Stage::OperationExecuted(response) }, Action::Release)
    }

    /// Takes the event that the last action ended in, and says what to do
    /// next. The connection goes back before the response goes out, whatever
    /// the outcome.
    pub fn step(self, event: Event) -> (next: (Handler, Action))
        ensures
            (next.0@, next.1@) == self@.step(event@),
            next.0@.request == self@.request,
            next.0@.stage.steps_left() < self@.stage.steps_left() || self@.stage is ResponseMapped,
            next.1@ is Acquire ==> !next.0@.stage.holds_connection(),
            next.1@ is Execute ==> next.0@.stage.holds_connection(),
            next.1@ is Release ==> self@.stage.holds_connection(),
            next.1@ is Respond ==> !next.0@.stage.holds_connection(),
    {
        let Handler { request, stage } = self;
        match stage {
            Stage::Received => match event {
                Event::Acquired => {
                    let query = request.first_query();
                    (Handler { request, stage: Stage::ConnectionAcquired }, Action::Execute(query))
                },
                Event::Unavailable => (
                    Handler { request, stage: Stage::ResponseMapped },
                    Action::Respond(
                        Error::new("Failed to get database connection").into_response(),
                    ),
                ),
                _ => (
                    Handler { request, stage: Stage::ResponseMapped },
                    Action::Respond(out_of_turn()),
                ),
            },
            Stage::ConnectionAcquired => match event {
                Event::Completed(outcome) => match &request {
                    Request::ListTags => Self::settle(request, listed(outcome)),
                    Request::GetTag { .. } => Self::settle(request, fetched(outcome)),
                    Request::DeleteTag { .. } => Self::settle(request, deleted(outcome)),
                    Request::CreateTag { new_tag } => match outcome {
                        Outcome::NotFound => {
                            let query = NewTag::new(new_tag.label.as_str()).insert();
                            (Handler { request, stage: Stage::PreChecked }, Action::Execute(query))
                        },
                        Outcome::Row(_) => Self::settle(request, Response::bare(Status::Conflict)),
                        other => Self::settle(request, fault(other)),
                    },
                },
                _ => Self::settle(request, out_of_turn()),
            },
            Stage::PreChecked => match event {
                Event::Completed(outcome) => Self::settle(request, created(outcome)),
                _ => Self::settle(request, out_of_turn()),
            },
            Stage::OperationExecuted(response) => (
                Handler { request, stage: Stage::ResponseMapped },
                Action::Respond(response),
            ),
            Stage::ResponseMapped => (
                Handler { request, stage: Stage::ResponseMapped },
                Action::Idle,
            ),
        }
    }

    /// Whether the response is out.
    pub fn is_done(&self) -> (done: bool)
        ensures
            done == (self@.stage is ResponseMapped),
    {
        match self.stage {
            Stage::ResponseMapped => true,
            _ => false,
        }
    }
}

} // verus!
