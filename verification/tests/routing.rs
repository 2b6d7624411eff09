use gaia::error::{ApiError, DbError, StatusCode};
use gaia::router::{create_router, health, health_at, nest, Endpoint, Method, Route};
use gaia::routes::user_routes::router;

fn lines(routes: &[Route]) -> Vec<(Method, String, Endpoint)> {
    routes.iter().map(|route| (route.method, route.path.clone(), route.endpoint)).collect()
}

#[test]
fn table_of_the_service() {
    assert_eq!(
        lines(&create_router()),
        vec![
            (Method::Put, "/api/v1/users".to_string(), Endpoint::PutUser),
            (Method::Get, "/api/v1/users/{user_id}".to_string(), Endpoint::GetUser),
            (Method::Post, "/api/v1/users/{user_id}".to_string(), Endpoint::PostUser),
            (Method::Get, "/api/v1/health".to_string(), Endpoint::Health),
        ]
    );
}

#[test]
fn put_creates_and_post_updates() {
    let table = create_router();
    let on_collection: Vec<&Route> =
        table.iter().filter(|route| route.path == "/api/v1/users").collect();
    assert_eq!(on_collection.len(), 1);
    assert_eq!(on_collection[0].method, Method::Put);
    assert_eq!(on_collection[0].endpoint, Endpoint::PutUser);
    let update: Vec<&Route> =
        table.iter().filter(|route| route.endpoint == Endpoint::PostUser).collect();
    assert_eq!(update.len(), 1);
    assert_eq!(update[0].method, Method::Post);
    assert_eq!(update[0].path, "/api/v1/users/{user_id}");
}

#[test]
fn no_verb_and_path_twice() {
    let table = lines(&create_router());
    for i in 0..table.len() {
        for j in (i + 1)..table.len() {
            assert!(!(table[i].0 == table[j].0 && table[i].1 == table[j].1));
        }
    }
}

#[test]
fn user_routes_are_relative() {
    assert_eq!(
        lines(&router()),
        vec![
            (Method::Put, "".to_string(), Endpoint::PutUser),
            (Method::Get, "/{user_id}".to_string(), Endpoint::GetUser),
            (Method::Post, "/{user_id}".to_string(), Endpoint::PostUser),
        ]
    );
}

#[test]
fn nest_puts_the_prefix_in_front() {
    let routes = vec![
        Route::new(Method::Get, "/a", Endpoint::Health),
        Route::new(Method::Post, "", Endpoint::PostUser),
    ];
    assert_eq!(
        lines(&nest("/x/y", &routes)),
        vec![
            (Method::Get, "/x/y/a".to_string(), Endpoint::Health),
            (Method::Post, "/x/y".to_string(), Endpoint::PostUser),
        ]
    );
    assert!(nest("/x", &Vec::new()).is_empty());
}

#[test]
fn health_answers_with_the_time() {
    let (status, body) = health();
    assert_eq!(status, StatusCode::Success);
    assert_eq!(status.as_u16(), 200);
    let members = body.serialized();
    assert_eq!(members.len(), 1);
    assert_eq!(members[0].key, "CurrentTime");
    let shown = chrono::DateTime::parse_from_rfc3339(&members[0].value).unwrap();
    let apart = chrono::Utc::now().signed_duration_since(shown);
    assert!(apart.num_seconds().abs() < 5);
}

#[test]
fn health_at_a_given_time() {
    let (status, body) = health_at("1996-12-19T16:39:57+00:00".to_string());
    assert_eq!(status.as_u16(), 200);
    assert_eq!(body.current_time, "1996-12-19T16:39:57+00:00");
    let members = body.serialized();
    assert_eq!(members.len(), 1);
    assert_eq!(members[0].key, "CurrentTime");
    assert_eq!(members[0].value, "1996-12-19T16:39:57+00:00");
}

#[test]
fn status_numbers() {
    assert_eq!(StatusCode::Success.as_u16(), 200);
    assert_eq!(StatusCode::Created.as_u16(), 201);
    assert_eq!(StatusCode::NotFound.as_u16(), 404);
    assert_eq!(StatusCode::InternalServerError.as_u16(), 500);
}

#[test]
fn failures_and_their_status() {
    assert_eq!(ApiError::NotFound("a".to_string()).status(), StatusCode::NotFound);
    assert_eq!(ApiError::Database("b".to_string()).status(), StatusCode::InternalServerError);
    assert_eq!(ApiError::Hash("c".to_string()).status(), StatusCode::InternalServerError);
    assert_eq!(
        ApiError::NotFound("a".to_string()).into_response(),
        (StatusCode::NotFound, "a".to_string())
    );
    assert_eq!(
        ApiError::Database("b".to_string()).into_response(),
        (StatusCode::InternalServerError, "b".to_string())
    );
    assert_eq!(
        ApiError::Hash("c".to_string()).into_response(),
        (StatusCode::InternalServerError, "c".to_string())
    );
}

#[test]
fn store_errors_keep_their_words() {
    assert_eq!(DbError::RowNotFound("none".to_string()).into_text(), "none");
    assert_eq!(DbError::Other("broken".to_string()).into_text(), "broken");
}

#[test]
fn health_time_is_written_in_utc() {
    let (_, body) = health();
    let time = body.current_time.as_str();
    assert!(time.is_ascii());
    assert!(time.ends_with("+00:00"));
    assert!(matches!(time.len(), 25 | 29 | 32 | 35));
    let bytes = time.as_bytes();
    for (position, byte) in bytes[..19].iter().enumerate() {
        match position {
            4 | 7 => assert_eq!(*byte, b'-'),
            10 => assert_eq!(*byte, b'T'),
            13 | 16 => assert_eq!(*byte, b':'),
            _ => assert!(byte.is_ascii_digit()),
        }
    }
    let fraction = &bytes[19..bytes.len() - 6];
    if !fraction.is_empty() {
        assert_eq!(fraction[0], b'.');
        assert!(fraction[1..].iter().all(|byte| byte.is_ascii_digit()));
    }
}
