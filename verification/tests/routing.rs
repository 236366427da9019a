use tag_registry::models::NewTag;
use tag_registry::response::Status;
use tag_registry::routes::{parse_id, resolve, Endpoint, Method, Payload};

#[test]
fn collection_takes_get_and_post() {
    assert_eq!(resolve(Method::Get, b"/tags"), Ok(Endpoint::ListTags));
    assert_eq!(resolve(Method::Post, b"/tags"), Ok(Endpoint::CreateTag));
    assert_eq!(resolve(Method::Delete, b"/tags"), Err(Status::MethodNotAllowed));
    assert_eq!(resolve(Method::Other, b"/tags"), Err(Status::MethodNotAllowed));
}

#[test]
fn member_takes_get_and_delete() {
    assert_eq!(resolve(Method::Get, b"/tags/17"), Ok(Endpoint::GetTag { id: 17 }));
    assert_eq!(resolve(Method::Delete, b"/tags/17"), Ok(Endpoint::DeleteTag { id: 17 }));
    assert_eq!(resolve(Method::Post, b"/tags/17"), Err(Status::MethodNotAllowed));
    assert_eq!(resolve(Method::Other, b"/tags/17"), Err(Status::MethodNotAllowed));
}

#[test]
fn method_is_settled_before_the_id() {
    assert_eq!(resolve(Method::Post, b"/tags/x"), Err(Status::MethodNotAllowed));
}

#[test]
fn other_paths_are_not_found() {
    let paths = [
        "", "/", "/tag", "/tags/", "/tagsx", "/tags/1/", "/tags/1/2", "/Tags", "tags", "/tags//",
        "/does-not-exist",
    ];
    for path in paths {
        for method in [Method::Get, Method::Post, Method::Delete, Method::Other] {
            assert_eq!(resolve(method, path.as_bytes()), Err(Status::NotFound), "{:?}", path);
        }
    }
}

#[test]
fn malformed_ids_are_bad_requests() {
    let segments = [
        "x", "1x", "x1", "1.5", " 1", "1 ", "+", "-", "--1", "+-1", "1e3", "0x10", "%31",
        "2147483648", "-2147483649", "99999999999999999999999999",
    ];
    for segment in segments {
        let path = format!("/tags/{}", segment);
        let refused = Err(Status::BadRequest);
        assert_eq!(resolve(Method::Get, path.as_bytes()), refused, "{:?}", segment);
        assert_eq!(resolve(Method::Delete, path.as_bytes()), refused, "{:?}", segment);
        assert_eq!(parse_id(segment.as_bytes()), None, "{:?}", segment);
    }
}

#[test]
fn ids_are_read_as_decimal_numbers() {
    assert_eq!(parse_id(b"0"), Some(0));
    assert_eq!(parse_id(b"7"), Some(7));
    assert_eq!(parse_id(b"42"), Some(42));
    assert_eq!(parse_id(b"+42"), Some(42));
    assert_eq!(parse_id(b"-42"), Some(-42));
    assert_eq!(parse_id(b"-0"), Some(0));
    assert_eq!(parse_id(b"0007"), Some(7));
    assert_eq!(parse_id(b"2147483647"), Some(i32::MAX));
    assert_eq!(parse_id(b"-2147483648"), Some(i32::MIN));
    assert_eq!(parse_id(b"00000000002147483647"), Some(i32::MAX));
    assert_eq!(parse_id(b""), None);
}

#[test]
fn ids_agree_with_the_standard_parser() {
    let texts = [
        "0", "-1", "+1", "12345", "2147483647", "2147483648", "-2147483648", "-2147483649", "",
        "+", "-", "1_000", "١",
    ];
    for text in texts {
        assert_eq!(parse_id(text.as_bytes()), text.parse::<i32>().ok(), "{:?}", text);
    }
}

#[test]
fn bodies_are_turned_down_with_their_status() {
    assert_eq!(Payload::NotJson.extract().unwrap_err(), Status::UnsupportedMediaType);
    assert_eq!(Payload::Malformed.extract().unwrap_err(), Status::BadRequest);
    assert_eq!(Payload::Invalid.extract().unwrap_err(), Status::UnprocessableEntity);
    assert_eq!(Payload::Json(NewTag::new("star")).extract().unwrap().label, "star");
}

#[test]
fn statuses_have_their_codes() {
    assert_eq!(Status::Success.code(), 200);
    assert_eq!(Status::Created.code(), 201);
    assert_eq!(Status::NoContent.code(), 204);
    assert_eq!(Status::BadRequest.code(), 400);
    assert_eq!(Status::NotFound.code(), 404);
    assert_eq!(Status::MethodNotAllowed.code(), 405);
    assert_eq!(Status::Conflict.code(), 409);
    assert_eq!(Status::UnsupportedMediaType.code(), 415);
    assert_eq!(Status::UnprocessableEntity.code(), 422);
    assert_eq!(Status::InternalServerError.code(), 500);
}
