use tag_registry::handler::Request;
use tag_registry::models::{NewTag, Tag};
use tag_registry::response::{Body, Response, Status};
use tag_registry::routes::{Method, Payload};
use tag_registry::service::{create_tag, delete_tag, get_tag, handle, list_tags, serve};
use tag_registry::storage::TagTable;

/// A database seeded with the tags 1 "star" and 2 "?".
fn seeded() -> TagTable {
    TagTable::from_rows(vec![Tag::new(1, "star"), Tag::new(2, "?")]).expect("consistent rows")
}

fn get(database: &mut TagTable, path: &str) -> Response {
    handle(database, Method::Get, path.as_bytes(), Payload::NotJson)
}

fn delete(database: &mut TagTable, path: &str) -> Response {
    handle(database, Method::Delete, path.as_bytes(), Payload::NotJson)
}

fn post(database: &mut TagTable, path: &str, payload: Payload) -> Response {
    handle(database, Method::Post, path.as_bytes(), payload)
}

fn label_of(response: &Response) -> &str {
    match &response.body {
        Body::Tag(tag) => tag.label.as_str(),
        other => panic!("no tag in the body: {:?}", other),
    }
}

#[test]
fn fallback_not_found() {
    let mut database = seeded();
    let response = get(&mut database, "/does-not-exist");
    assert_eq!(response.status, Status::NotFound);
}

#[test]
fn get_tags_ok() {
    let mut database = seeded();
    let response = get(&mut database, "/tags");
    assert_eq!(response.status, Status::Success);
    match response.body {
        Body::Tags(tags) => {
            assert_eq!(tags.len(), 2);
            assert_eq!(tags[0].label, "star");
        }
        other => panic!("no list in the body: {:?}", other),
    }
}

#[test]
fn get_tag_ok() {
    let mut database = seeded();
    let response = get(&mut database, "/tags/1");
    assert_eq!(response.status, Status::Success);
    assert_eq!(label_of(&response), "star");
}

#[test]
fn get_tag_not_found_id() {
    let mut database = seeded();
    let response = get(&mut database, "/tags/3");
    assert_eq!(response.status, Status::NotFound);
}

#[test]
fn get_tag_malformed_id() {
    let mut database = seeded();
    let response = get(&mut database, "/tags/x");
    assert_eq!(response.status, Status::BadRequest);
}

#[test]
fn create_tag_ok() {
    let mut database = seeded();
    let response = post(&mut database, "/tags", Payload::Json(NewTag::new("popular")));
    assert_eq!(response.status, Status::Created);
    assert_eq!(label_of(&response), "popular");
}

#[test]
fn create_tag_already_exists() {
    let mut database = seeded();
    let response = post(&mut database, "/tags", Payload::Json(NewTag::new("star")));
    assert_eq!(response.status, Status::Conflict);
}

#[test]
fn create_tag_missing_content_type() {
    let mut database = seeded();
    let response = post(&mut database, "/tags", Payload::NotJson);
    assert_eq!(response.status, Status::UnsupportedMediaType);
}

#[test]
fn create_tag_empty_body() {
    // The body `{}`: JSON, but without a label.
    let mut database = seeded();
    let response = post(&mut database, "/tags", Payload::Invalid);
    assert_eq!(response.status, Status::UnprocessableEntity);
}

#[test]
fn create_tag_invalid_syntax() {
    // The body `{`, announced as application/json.
    let mut database = seeded();
    let response = post(&mut database, "/tags", Payload::Malformed);
    assert_eq!(response.status, Status::BadRequest);
}

#[test]
fn create_tag_invalid_field_type() {
    // The body `{"label": 5}`: the label is no text.
    let mut database = seeded();
    let response = post(&mut database, "/tags", Payload::Invalid);
    assert_eq!(response.status, Status::UnprocessableEntity);
}

#[test]
fn create_tag_missing_required_field() {
    // The body `{"originally_available_at": "2022-03-18"}`: another field only.
    let mut database = seeded();
    let response = post(&mut database, "/tags", Payload::Invalid);
    assert_eq!(response.status, Status::UnprocessableEntity);
}

#[test]
fn delete_tag_ok() {
    let mut database = seeded();

    let response = get(&mut database, "/tags/1");
    assert_eq!(response.status, Status::Success);

    let response = delete(&mut database, "/tags/1");
    assert_eq!(response.status, Status::NoContent);

    let response = get(&mut database, "/tags/1");
    assert_eq!(response.status, Status::NotFound);
}

#[test]
fn delete_tag_not_found_id() {
    let mut database = seeded();
    let response = delete(&mut database, "/tags/3");
    assert_eq!(response.status, Status::NotFound);
}

#[test]
fn delete_movie_malformed_id() {
    let mut database = seeded();
    let response = delete(&mut database, "/tags/x");
    assert_eq!(response.status, Status::BadRequest);
}

#[test]
fn created_tag_gets_the_next_id() {
    let mut database = seeded();
    let response = post(&mut database, "/tags", Payload::Json(NewTag::new("popular")));
    assert_eq!(response.status.code(), 201);
    match response.body {
        Body::Tag(tag) => {
            assert_eq!(tag.id, 3);
            assert_eq!(tag.label, "popular");
        }
        other => panic!("no tag in the body: {:?}", other),
    }
    let response = get(&mut database, "/tags/3");
    assert_eq!(response.status, Status::Success);
    assert_eq!(label_of(&response), "popular");
}

#[test]
fn conflict_stores_nothing() {
    let mut database = seeded();
    let response = post(&mut database, "/tags", Payload::Json(NewTag::new("star")));
    assert_eq!(response.status.code(), 409);
    assert!(matches!(response.body, Body::Empty));
    assert_eq!(database.len(), 2);
    match get(&mut database, "/tags").body {
        Body::Tags(tags) => assert_eq!(tags.len(), 2),
        other => panic!("no list in the body: {:?}", other),
    }
}

#[test]
fn second_creation_of_a_label_conflicts() {
    let mut database = TagTable::new();
    let first = post(&mut database, "/tags", Payload::Json(NewTag::new("fresh")));
    assert_eq!(first.status, Status::Created);
    let second = post(&mut database, "/tags", Payload::Json(NewTag::new("fresh")));
    assert_eq!(second.status, Status::Conflict);
    assert_eq!(database.len(), 1);
}

#[test]
fn second_deletion_is_not_found() {
    let mut database = seeded();
    assert_eq!(delete(&mut database, "/tags/2").status, Status::NoContent);
    assert_eq!(delete(&mut database, "/tags/2").status, Status::NotFound);
    assert_eq!(delete(&mut database, "/tags/7").status, Status::NotFound);
    assert_eq!(delete(&mut database, "/tags/7").status, Status::NotFound);
    assert_eq!(database.len(), 1);
}

#[test]
fn empty_label_is_unprocessable_and_touches_nothing() {
    let mut database = seeded();
    let response = post(&mut database, "/tags", Payload::Json(NewTag::new("")));
    assert_eq!(response.status, Status::UnprocessableEntity);
    assert_eq!(response.status.code(), 422);
    assert_eq!(database.len(), 2);
}

#[test]
fn first_tag_of_an_empty_table_has_id_one() {
    let mut database = TagTable::new();
    let response = post(&mut database, "/tags", Payload::Json(NewTag::new("star")));
    assert_eq!(response.status, Status::Created);
    match response.body {
        Body::Tag(tag) => assert_eq!(tag.id, 1),
        other => panic!("no tag in the body: {:?}", other),
    }
}

#[test]
fn id_after_deletion_follows_the_greatest_left() {
    let mut database = seeded();
    assert_eq!(delete(&mut database, "/tags/1").status, Status::NoContent);
    let response = post(&mut database, "/tags", Payload::Json(NewTag::new("again")));
    match response.body {
        Body::Tag(tag) => assert_eq!(tag.id, 3),
        other => panic!("no tag in the body: {:?}", other),
    }
}

#[test]
fn exhausted_ids_are_a_fault() {
    let mut database =
        TagTable::from_rows(vec![Tag::new(i32::MAX, "last")]).expect("consistent rows");
    let response = post(&mut database, "/tags", Payload::Json(NewTag::new("more")));
    assert_eq!(response.status, Status::InternalServerError);
    assert_eq!(response.status.code(), 500);
    match response.body {
        Body::Text(message) => assert_eq!(message, "No id is left for a new tag"),
        other => panic!("no message in the body: {:?}", other),
    }
    assert_eq!(database.len(), 1);
}

#[test]
fn rejected_body_leaves_the_table_alone() {
    let mut database = seeded();
    assert_eq!(post(&mut database, "/tags", Payload::Malformed).status.code(), 400);
    assert_eq!(post(&mut database, "/tags", Payload::NotJson).status.code(), 415);
    assert_eq!(post(&mut database, "/tags", Payload::Invalid).status.code(), 422);
    assert_eq!(database.len(), 2);
}

#[test]
fn body_counts_for_creation_only() {
    let mut database = seeded();
    let response = handle(&mut database, Method::Get, b"/tags/2", Payload::Malformed);
    assert_eq!(response.status, Status::Success);
    assert_eq!(label_of(&response), "?");
}

#[test]
fn inconsistent_rows_make_no_table() {
    assert!(TagTable::from_rows(vec![Tag::new(2, "a"), Tag::new(1, "b")]).is_none());
    assert!(TagTable::from_rows(vec![Tag::new(1, "a"), Tag::new(1, "b")]).is_none());
    assert!(TagTable::from_rows(vec![Tag::new(1, "a"), Tag::new(2, "a")]).is_none());
    let repeated = vec![Tag::new(1, "a"), Tag::new(2, "b"), Tag::new(3, "a")];
    assert!(TagTable::from_rows(repeated).is_none());
    assert!(TagTable::from_rows(vec![Tag::new(-4, "a"), Tag::new(9, "b")]).is_some());
    assert!(TagTable::from_rows(Vec::new()).is_some());
}

#[test]
fn endpoints_answer_without_the_router() {
    let mut database = seeded();

    let listed = list_tags(&mut database);
    assert_eq!(listed.status, Status::Success);
    assert!(matches!(&listed.body, Body::Tags(tags) if tags.len() == 2 && tags[1].label == "?"));

    let created = create_tag(&mut database, NewTag::new("popular"));
    assert_eq!(created.status, Status::Created);
    assert!(matches!(&created.body, Body::Tag(tag) if tag.id == 3));

    let fetched = get_tag(3, &mut database);
    assert_eq!(fetched.status, Status::Success);
    assert_eq!(label_of(&fetched), "popular");

    let deleted = delete_tag(3, &mut database);
    assert_eq!(deleted.status, Status::NoContent);
    assert!(matches!(deleted.body, Body::Empty));

    let missing = get_tag(3, &mut database);
    assert_eq!(missing.status, Status::NotFound);
    assert!(matches!(missing.body, Body::Empty));
}

#[test]
fn created_labels_come_back_under_their_ids() {
    let mut database = TagTable::new();
    let long = "x".repeat(300);
    let labels = ["star", "?", " ", "smörgåsbord", "日本語", "a/b", "{\"label\":1}", long.as_str()]
        .map(String::from);
    for label in &labels {
        let created = create_tag(&mut database, NewTag::new(label));
        assert_eq!(created.status, Status::Created, "{:?}", label);
        let id = match created.body {
            Body::Tag(tag) => {
                assert_eq!(&tag.label, label);
                tag.id
            }
            other => panic!("no tag in the body: {:?}", other),
        };
        let fetched = get_tag(id, &mut database);
        assert_eq!(fetched.status, Status::Success);
        assert_eq!(label_of(&fetched), label);
    }
    assert_eq!(database.len(), labels.len());
    for label in &labels {
        assert_eq!(create_tag(&mut database, NewTag::new(label)).status, Status::Conflict);
    }
    assert_eq!(database.len(), labels.len());
}

#[test]
fn serving_a_request_is_one_run_of_its_handler() {
    let mut database = seeded();
    let response = serve(&mut database, Request::DeleteTag { id: 2 });
    assert_eq!(response.status, Status::NoContent);
    let response = serve(&mut database, Request::GetTag { id: 2 });
    assert_eq!(response.status, Status::NotFound);
    let response = serve(&mut database, Request::ListTags);
    assert!(matches!(&response.body, Body::Tags(tags) if tags.len() == 1 && tags[0].id == 1));
}
