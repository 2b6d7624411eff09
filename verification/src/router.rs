//! The dispatch table: which verb on which path reaches which handler.
//!
//! Creating a user is a `PUT` on the collection, and a partial update is a
//! `POST` on one user. The table is the authority on that mapping; the
//! server mounts what the table says.

use crate::body::{members_view, Member};
use crate::error::StatusCode;
use crate::routes::user_routes;
use chrono::Utc;
use vstd::prelude::*;

verus! {

/// The verbs that the table uses.
#[derive(Clone, Copy, Debug, PartialEq, Eq, Structural)]
pub enum Method {
    Get,
    Put,
    Post,
}

/// The handlers that a route can lead to.
#[derive(Clone, Copy, Debug, PartialEq, Eq, Structural)]
pub enum Endpoint {
    /// The health probe.
    Health,
    /// Create a user.
    PutUser,
    /// Fetch a user by identifier.
    GetUser,
    /// Update a user in part.
    PostUser,
}

/// One line of the table. In `path`, a segment in braces stands for a
/// parameter.
#[derive(Clone, Debug)]
pub struct Route {
    pub method: Method,
    pub path: String,
    pub endpoint: Endpoint,
}

impl View for Route {
    type V = (Method, Seq<char>, Endpoint);

    open spec fn view(&self) -> (Method, Seq<char>, Endpoint) {
        (self.method, self.path@, self.endpoint)
    }
}

impl Route {
    pub fn new(method: Method, path: &str, endpoint: Endpoint) -> (route: Route)
        ensures
            route@ == (method, path@, endpoint),
    {
        Route { method, path: String::from_str(path), endpoint }
    }
}

/// The lines of a table, each by its view.
pub open spec fn routes_view(routes: Seq<Route>) -> Seq<(Method, Seq<char>, Endpoint)> {
    routes.map_values(|route: Route| route@)
}

/// A table mounted under a prefix: every path gets the prefix in front.
pub open spec fn nested_under(prefix: Seq<char>, routes: Seq<(Method, Seq<char>, Endpoint)>) -> Seq<
    (Method, Seq<char>, Endpoint),
> {
    routes.map_values(|route: (Method, Seq<char>, Endpoint)| (route.0, prefix + route.1, route.2))
}

/// The whole table of the service.
pub open spec fn route_table() -> Seq<(Method, Seq<char>, Endpoint)> {
    seq![
        (Method::Put, "/api/v1/users"@, Endpoint::PutUser),
        (Method::Get, "/api/v1/users/{user_id}"@, Endpoint::GetUser),
        (Method::Post, "/api/v1/users/{user_id}"@, Endpoint::PostUser),
        (Method::Get, "/api/v1/health"@, Endpoint::Health),
    ]
}

/// The table is the user routes under `/api/v1/users`, and the health probe.
pub proof fn lemma_route_table_nests_user_routes()
    ensures
        route_table() == nested_under("/api/v1/users"@, user_routes::user_route_table()).push(
            (Method::Get, "/api/v1/health"@, Endpoint::Health),
        ),
{
    reveal_strlit("/api/v1/users");
    reveal_strlit("/api/v1/users/{user_id}");
    reveal_strlit("/{user_id}");
    reveal_strlit("");
    let nested = nested_under("/api/v1/users"@, user_routes::user_route_table());
    assert("/api/v1/users"@ + ""@ =~= "/api/v1/users"@);
    assert("/api/v1/users"@ + "/{user_id}"@ =~= "/api/v1/users/{user_id}"@);
    assert(nested[0] == route_table()[0]);
    assert(nested[1] == route_table()[1]);
    assert(nested[2] == route_table()[2]);
    assert(route_table() =~= nested.push((Method::Get, "/api/v1/health"@, Endpoint::Health)));
}

/// No verb on a path leads to two handlers.
pub proof fn lemma_route_table_is_a_function()
    ensures
        forall|i: int, j: int|
            0 <= i < j < route_table().len() ==> !(route_table()[i].0 == route_table()[j].0
                && route_table()[i].1 == route_table()[j].1),
{
    reveal_strlit("/api/v1/users");
    reveal_strlit("/api/v1/users/{user_id}");
    reveal_strlit("/api/v1/health");
    assert("/api/v1/users"@.len() != "/api/v1/health"@.len());
    assert("/api/v1/users/{user_id}"@.len() != "/api/v1/health"@.len());
}

/// Mounts a table under a prefix.
pub fn nest(prefix: &str, routes: &Vec<Route>) -> (nested: Vec<Route>)
    ensures
        routes_view(nested@) == nested_under(prefix@, routes_view(routes@)),
{
    let mut nested: Vec<Route> = Vec::new();
    let mut i: usize = 0;
    while i < routes.len()
        invariant
            i <= routes.len(),
            nested.len() == i,
            forall|k: int|
                0 <= k < i ==> (#[trigger] nested[k])@ == (
                    routes[k].method,
                    prefix@ + routes[k].path@,
                    routes[k].endpoint,
                ),
        decreases routes.len() - i,
    {
        let route = &routes[i];
        let mut path = String::from_str(prefix);
        path.append(route.path.as_str());
        nested.push(Route { method: route.method, path, endpoint: route.endpoint });
        i += 1;
    }
    assert(routes_view(nested@) =~= nested_under(prefix@, routes_view(routes@)));
    nested
}

/// The dispatch table of the service: the user routes under
/// `/api/v1/users`, and the health probe under `/api/v1/health`.
pub fn create_router() -> (routes: Vec<Route>)
    ensures
        routes_view(routes@) == route_table(),
{
    let users = user_routes::router();
    let mut routes = nest("/api/v1/users", &users);
    routes.push(Route::new(Method::Get, "/api/v1/health", Endpoint::Health));
    proof {
        lemma_route_table_nests_user_routes();
        assert(routes_view(routes@) =~= nested_under(
            "/api/v1/users"@,
            user_routes::user_route_table(),
        ).push((Method::Get, "/api/v1/health"@, Endpoint::Health)));
    }
    routes
}

/// The body of the health probe's answer: the server's time, as an RFC 3339
/// string.
#[derive(Clone, Debug)]
pub struct Health {
    pub current_time: String,
}

impl Health {
    /// The members of the JSON object that the probe answers with.
    pub open spec fn members(self) -> Seq<(Seq<char>, Seq<char>)> {
        seq![("CurrentTime"@, self.current_time@)]
    }

    pub fn serialized(&self) -> (members: Vec<Member>)
        ensures
            members_view(members@) == self.members(),
    {
        let mut members: Vec<Member> = Vec::new();
        members.push(Member::new("CurrentTime", self.current_time.clone()));
        assert(members_view(members@) =~= self.members());
        members
    }
}

/// Whether `text` is a year as it is written: four digits, or, from the
/// year 10000 on, a `+` and the digits. Years before the year 0 are written
/// otherwise and do not occur here: the clock gives no time before 1970,
/// where reading it fails.
pub open spec fn is_year_text(text: Seq<char>) -> bool {
    ||| text.len() == 4 && is_digits(text)
    ||| text.len() >= 6 && text[0] == '+' && is_digits(text.skip(1))
}

/// The probe's answer at a given time: `200`, and the time.
pub fn health_at(current_time: String) -> (response: (StatusCode, Health))
    ensures
        response.0 == StatusCode::Success,
        response.1.current_time == current_time,
{
    (StatusCode::Success, Health { current_time })
}

/// The health probe: always `200`, with the time that the clock shows.
pub fn health() -> (response: (StatusCode, Health))
    ensures
        response.0 == StatusCode::Success,
        is_rfc3339_utc(response.1.current_time@),
{
    health_at(utc_now_rfc3339())
}

/// Whether every character of `text` is a decimal digit.
pub open spec fn is_digits(text: Seq<char>) -> bool {
    forall|i: int| 0 <= i < text.len() ==> 48 <= (#[trigger] text[i]) as int <= 57
}

/// Whether `text` is two decimal digits.
pub open spec fn is_two_digits(text: Seq<char>) -> bool {
    text.len() == 2 && is_digits(text)
}

/// Whether `text` is a fraction of a second as it is written: nothing, or a
/// `.` and 3, 6 or 9 digits.
pub open spec fn is_fraction_text(text: Seq<char>) -> bool {
    ||| text.len() == 0
    ||| {
        &&& text.len() == 4 || text.len() == 7 || text.len() == 10
        &&& text[0] == '.'
        &&& is_digits(text.skip(1))
    }
}

/// The RFC 3339 text of a time in UTC, made of its parts: the date, `T`,
/// the time of day with its fraction, and the offset `+00:00`.
pub open spec fn rfc3339_utc_text(
    year: Seq<char>,
    month: Seq<char>,
    day: Seq<char>,
    hour: Seq<char>,
    minute: Seq<char>,
    second: Seq<char>,
    fraction: Seq<char>,
) -> Seq<char> {
    year + seq!['-'] + month + seq!['-'] + day + seq!['T'] + hour + seq![':'] + minute + seq![':']
        + second + fraction + "+00:00"@
}

/// Whether `text` is a time in UTC, from 1970 on, as RFC 3339 writes it,
/// such as `1996-12-19T16:39:57+00:00` or `2024-05-01T08:00:00.250+00:00`.
pub open spec fn is_rfc3339_utc(text: Seq<char>) -> bool {
    exists|
        year: Seq<char>,
        month: Seq<char>,
        day: Seq<char>,
        hour: Seq<char>,
        minute: Seq<char>,
        second: Seq<char>,
        fraction: Seq<char>,
    |
        {
            &&& is_year_text(year)
            &&& is_two_digits(month)
            &&& is_two_digits(day)
            &&& is_two_digits(hour)
            &&& is_two_digits(minute)
            &&& is_two_digits(second)
            &&& is_fraction_text(fraction)
            &&& text == #[trigger] rfc3339_utc_text(
                year,
                month,
                day,
                hour,
                minute,
                second,
                fraction,
            )
        }
}

/// The current time in UTC, as an RFC 3339 string.
///
/// Calls `chrono::Utc::now` and formats with `DateTime::to_rfc3339`. Which
/// time it is depends on the clock, and nothing is claimed of that. The
/// contract claims how the formatter writes every time that `now` can give:
/// the year, month and day with `-` between them, `T`, the hour, minute and
/// second with `:` between them, each but the year in two digits, a
/// fraction of 3, 6 or 9 digits where the time has one, and `+00:00` for
/// the offset of UTC.
#[verifier::external_body]
fn utc_now_rfc3339() -> (text: String)
    ensures
        is_rfc3339_utc(text@),
{
    Utc::now().to_rfc3339()
}

} // verus!
