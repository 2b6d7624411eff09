//! The handlers of the user resource.
//!
//! A handler is two steps with the store between them. The first step
//! takes the decoded request and gives the statement to run, or fails
//! before anything is run. The second takes what the store gave back and
//! gives the response. Running the statement is the caller's part.

use crate::body::has_key;
use crate::error::{ApiError, DbError, StatusCode};
use crate::identifier::{
    hyphenated_text, is_uuid_text, is_v7, lemma_text_is_uuid_text, uuid_now_v7,
};
use crate::models::users::{
    lemma_serialized_user_has_no_password, PostUserRequest, PostUserRequestView, PutUserRequest,
    PutUserRequestView, User, UserView,
};
use crate::password::{hash_password, is_hash_of, is_refusal_of, phc_prefix};
use crate::repository::{
    insert_statement, insert_user, select_statement, select_user, update_statement, update_user,
    Statement, StatementView,
};
use crate::router::{routes_view, Endpoint, Method, Route};
use vstd::prelude::*;

verus! {

/// The routes of the user resource, relative to where it is mounted.
pub open spec fn user_route_table() -> Seq<(Method, Seq<char>, Endpoint)> {
    seq![
        (Method::Put, ""@, Endpoint::PutUser),
        (Method::Get, "/{user_id}"@, Endpoint::GetUser),
        (Method::Post, "/{user_id}"@, Endpoint::PostUser),
    ]
}

/// The routes of the user resource: create on the collection, fetch and
/// partial update on one user.
pub fn router() -> (routes: Vec<Route>)
    ensures
        routes_view(routes@) == user_route_table(),
{
    let mut routes: Vec<Route> = Vec::new();
    routes.push(Route::new(Method::Put, "", Endpoint::PutUser));
    routes.push(Route::new(Method::Get, "/{user_id}", Endpoint::GetUser));
    routes.push(Route::new(Method::Post, "/{user_id}", Endpoint::PostUser));
    assert(routes_view(routes@) =~= user_route_table());
    routes
}

/// What a response of the user resource holds.
pub ghost enum ResponseView {
    /// A status and a user, who is serialized as the body.
    Record(StatusCode, UserView),
    /// A status and the text of an error, which is the body.
    Failure(StatusCode, Seq<char>),
}

/// The view of a handler's response.
pub open spec fn response_view(
    response: Result<(StatusCode, User), (StatusCode, String)>,
) -> ResponseView {
    match response {
        Ok((status, user)) => ResponseView::Record(status, user@),
        Err((status, text)) => ResponseView::Failure(status, text@),
    }
}

/// The response to a create request, given what the store answered: `201`
/// with the row, or `500` with the store's words, whatever went wrong.
pub open spec fn created_response(outcome: Result<User, DbError>) -> ResponseView {
    match outcome {
        Ok(user) => ResponseView::Record(StatusCode::Created, user@),
        Err(error) => ResponseView::Failure(StatusCode::InternalServerError, error.text()),
    }
}

/// The response to a fetch, given what the store answered: `200` with the
/// row, or `404` with the store's words, whether no row matched or the
/// store failed otherwise.
pub open spec fn fetched_response(outcome: Result<User, DbError>) -> ResponseView {
    match outcome {
        Ok(user) => ResponseView::Record(StatusCode::Success, user@),
        Err(error) => ResponseView::Failure(StatusCode::NotFound, error.text()),
    }
}

/// The response to a partial update, given what the store answered: `200`
/// with the row, `404` where no row matched, `500` for any other failure,
/// each failure with the store's words.
pub open spec fn updated_response(outcome: Result<User, DbError>) -> ResponseView {
    match outcome {
        Ok(user) => ResponseView::Record(StatusCode::Success, user@),
        Err(DbError::RowNotFound(text)) => ResponseView::Failure(StatusCode::NotFound, text@),
        Err(DbError::Other(text)) => ResponseView::Failure(
            StatusCode::InternalServerError,
            text@,
        ),
    }
}

/// Whether `statement` is the `INSERT` that `payload` asks for: it stores
/// the fields of the request under a version 7 identifier, and as password
/// a hash of the password in the request.
pub open spec fn is_create_plan(payload: PutUserRequestView, statement: StatementView) -> bool {
    &&& is_v7(statement.id)
    &&& statement.params.len() == 5
    &&& is_hash_of(statement.params[1], payload.password)
    &&& statement == insert_statement(payload.record(statement.id, statement.params[1]))
}

/// The plan of a create, given the identifier for the new user and what
/// became of hashing the password: the `INSERT` of the request's fields
/// under that identifier with the hash as password, or the hashing failure.
pub fn put_user_plan(
    payload: PutUserRequest,
    id: u128,
    hashed: Result<String, ApiError>,
) -> (plan: Result<Statement, ApiError>)
    ensures
        match hashed {
            Ok(password_hash) => plan matches Ok(statement) && statement@ == insert_statement(
                payload@.record(id, password_hash@),
            ),
            Err(error) => plan == Err::<Statement, ApiError>(error),
        },
{
    match hashed {
        Ok(password_hash) => Ok(insert_user(payload.into_user(id, password_hash))),
        Err(error) => Err(error),
    }
}

/// Create, first step: gives the new user an identifier, hashes the
/// password and makes the `INSERT`.
///
/// The identifier is a fresh version 7 identifier, and what is bound as
/// password is the hash of the password in the request: a PHC string,
/// which is the password as typed only if the password is its own hash.
/// The request fails only where the hasher refuses the password, with the
/// hasher's words, and then before anything is stored.
pub fn put_user(payload: PutUserRequest) -> (plan: Result<Statement, ApiError>)
    ensures
        plan matches Ok(statement) ==> is_create_plan(payload@, statement@),
        plan matches Ok(statement) ==> phc_prefix().is_prefix_of(statement@.params[1]),
        plan matches Ok(statement) ==> statement@.params[1] != payload@.password || is_hash_of(
            payload@.password,
            payload@.password,
        ),
        plan matches Ok(statement) ==> statement@.params[1] != payload@.password
            || phc_prefix().is_prefix_of(payload@.password),
        plan matches Err(error) ==> error matches ApiError::Hash(words) && is_refusal_of(
            words@,
            payload@.password,
        ),
{
    let id = uuid_now_v7();
    let hashed = hash_password(payload.password.as_str());
    put_user_plan(payload, id, hashed)
}

/// Create, second step: the response for what the store answered.
pub fn put_user_response(outcome: Result<User, DbError>) -> (response: Result<
    (StatusCode, User),
    (StatusCode, String),
>)
    ensures
        response_view(response) == created_response(outcome),
{
    match outcome {
        Ok(user) => Ok((StatusCode::Created, user)),
        Err(error) => Err(ApiError::Database(error.into_text()).into_response()),
    }
}

/// Fetch, first step: the `SELECT` for the identifier in the path.
pub fn get_user(user_id: u128) -> (statement: Statement)
    ensures
        statement@ == select_statement(user_id),
{
    select_user(user_id)
}

/// Fetch, second step: the response for what the store answered.
pub fn get_user_response(outcome: Result<User, DbError>) -> (response: Result<
    (StatusCode, User),
    (StatusCode, String),
>)
    ensures
        response_view(response) == fetched_response(outcome),
{
    match outcome {
        Ok(user) => Ok((StatusCode::Success, user)),
        Err(error) => Err(ApiError::NotFound(error.into_text()).into_response()),
    }
}

/// Whether `statement` is the partial update that `payload` asks for on the
/// user `user_id`, with `password_hash` stored in place of the password:
/// a password in the request is stored as its hash, a PHC string, which is
/// the password as typed only if the password is its own hash; and none is
/// stored where the request has none.
pub open spec fn is_update_plan_with(
    payload: PostUserRequestView,
    user_id: u128,
    password_hash: Option<Seq<char>>,
    statement: StatementView,
) -> bool {
    &&& payload.password is Some <==> password_hash is Some
    &&& payload.password is Some ==> is_hash_of(password_hash->0, payload.password->0)
    &&& payload.password is Some ==> phc_prefix().is_prefix_of(password_hash->0)
    &&& payload.password is Some ==> password_hash->0 != payload.password->0 || is_hash_of(
        payload.password->0,
        payload.password->0,
    )
    &&& payload.password is Some ==> password_hash->0 != payload.password->0
        || phc_prefix().is_prefix_of(payload.password->0)
    &&& statement == update_statement(user_id, payload.changes(password_hash))
}

/// Whether `statement` is the partial update that `payload` asks for on the
/// user `user_id`, whatever hash stands for the password.
pub open spec fn is_update_plan(
    payload: PostUserRequestView,
    user_id: u128,
    statement: StatementView,
) -> bool {
    exists|password_hash: Option<Seq<char>>|
        is_update_plan_with(payload, user_id, password_hash, statement)
}

/// The plan of a partial update, given what became of hashing the
/// password, if it was hashed: the statement that writes the fields of the
/// request, with the hash as password, or the hashing failure. The password
/// column is written only with a hash: without one, it is left as it is.
pub fn post_user_plan(
    user_id: u128,
    payload: PostUserRequest,
    hashed: Option<Result<String, ApiError>>,
) -> (plan: Result<Statement, ApiError>)
    ensures
        match hashed {
            Some(Ok(password_hash)) => plan matches Ok(statement) && statement@
                == update_statement(user_id, payload@.changes(Some(password_hash@))),
            Some(Err(error)) => plan == Err::<Statement, ApiError>(error),
            None => plan matches Ok(statement) && statement@ == update_statement(
                user_id,
                payload@.changes(None),
            ),
        },
{
    match hashed {
        Some(Ok(password_hash)) => Ok(
            update_user(user_id, payload.into_changes(Some(password_hash))),
        ),
        Some(Err(error)) => Err(error),
        None => Ok(update_user(user_id, payload.into_changes(None))),
    }
}

/// Partial update, first step: hashes the password, if the request has
/// one, and makes the `UPDATE` of the fields that the request has.
///
/// A request without a password always has its statement. With a password,
/// the request fails only where the hasher refuses the password, with the
/// hasher's words, and then before anything is stored.
pub fn post_user(user_id: u128, payload: PostUserRequest) -> (plan: Result<Statement, ApiError>)
    ensures
        plan matches Ok(statement) ==> is_update_plan(payload@, user_id, statement@),
        plan matches Err(error) ==> {
            &&& payload@.password is Some
            &&& error matches ApiError::Hash(words)
            &&& is_refusal_of(words@, payload@.password->0)
        },
        payload@.password is None ==> plan is Ok,
{
    let hashed = match &payload.password {
        Some(plaintext) => Some(hash_password(plaintext.as_str())),
        None => None,
    };
    let ghost password_hash: Option<Seq<char>> = if hashed is Some && hashed->0 is Ok {
        Some(hashed->0->Ok_0@)
    } else {
        None
    };
    let plan = post_user_plan(user_id, payload, hashed);
    assert(plan matches Ok(statement) ==> is_update_plan_with(
        payload@,
        user_id,
        password_hash,
        statement@,
    ));
    plan
}

/// Partial update, second step: the response for what the store answered.
pub fn post_user_response(outcome: Result<User, DbError>) -> (response: Result<
    (StatusCode, User),
    (StatusCode, String),
>)
    ensures
        response_view(response) == updated_response(outcome),
{
    match outcome {
        Ok(user) => Ok((StatusCode::Success, user)),
        Err(DbError::RowNotFound(text)) => Err(ApiError::NotFound(text).into_response()),
        Err(DbError::Other(text)) => Err(ApiError::Database(text).into_response()),
    }
}

/// No response shows a password: whatever user a response carries, the
/// object that stands for the user has no `password` member.
pub proof fn lemma_no_response_shows_a_password(response: ResponseView)
    ensures
        response matches ResponseView::Record(_, user) ==> !has_key(user.members(), "password"@),
{
    if let ResponseView::Record(_, user) = response {
        lemma_serialized_user_has_no_password(user);
    }
}

/// A user is fetched as it was created. Where the store gives back for a
/// fetch the row that it gave back for the create, but perhaps for the
/// password, the create is answered `201`, the fetch `200`, and both with
/// the same body.
pub proof fn lemma_fetch_answers_as_create(created: User, fetched: User)
    requires
        fetched@.same_but_password(created@),
    ensures
        created_response(Ok(created)) == ResponseView::Record(StatusCode::Created, created@),
        fetched_response(Ok(fetched)) == ResponseView::Record(StatusCode::Success, fetched@),
        fetched@.members() == created@.members(),
{
    assert(fetched@.members() =~= created@.members());
}

/// The identifier comes back as it went out. It is shown written as
/// identifiers are; the fetch for an identifier binds that identifier; and
/// a row with that identifier is answered with the same text of it,
/// character by character, as the create was.
pub proof fn lemma_id_round_trips(created: UserView, fetched: UserView)
    requires
        fetched.id == select_statement(created.id).id,
    ensures
        created.members()[0] == ("id"@, hyphenated_text(created.id)),
        is_uuid_text(created.members()[0].1),
        fetched.members()[0] == created.members()[0],
{
    lemma_text_is_uuid_text(created.id);
}

} // verus!
