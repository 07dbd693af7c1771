use zero2prod::response::{
    Response, STATUS_BAD_REQUEST, STATUS_INTERNAL_SERVER_ERROR, STATUS_OK,
};

#[test]
fn status_codes_are_the_http_ones() {
    assert_eq!(STATUS_OK, 200);
    assert_eq!(STATUS_BAD_REQUEST, 400);
    assert_eq!(STATUS_INTERNAL_SERVER_ERROR, 500);
}

#[test]
fn ready_made_responses_have_no_body() {
    assert_eq!(Response::ok(), Response { status: 200, body: vec![] });
    assert_eq!(Response::bad_request(), Response { status: 400, body: vec![] });
    assert_eq!(Response::internal_server_error(), Response { status: 500, body: vec![] });
}

#[test]
fn empty_response_carries_the_given_status() {
    assert_eq!(Response::empty(204), Response { status: 204, body: vec![] });
}
