//! Request classification and response shaping: the four routes of the
//! service, dispatched on method and path.

use vstd::prelude::*;
use vstd::string::StringExecFns;

use crate::query::{compare_str, get_argument_from_url, parsed_pairs_of, spec_argument};
use crate::store::{entry_of, spec_lookup, Short, Store};
use crate::token::{is_token_shaped, TOKEN_LEN};

verus! {

/// The request method, as far as dispatch cares: `GET`, or anything else.
#[derive(Clone, Copy, Debug, PartialEq, Eq, Structural)]
pub enum ReqMethod {
    Get,
    Other,
}

/// A page the collaborating renderer is asked to produce.
pub enum Page {
    /// The creation form, rendered with no variables.
    Index,
    /// The confirmation page, rendered with `token` bound into its context.
    Complete { token: String },
}

/// The shape of the response a route decides on. Rendering the page of a
/// `Render` answer is the renderer collaborator's work; everything else is
/// fixed here.
pub enum RouteResponse {
    /// Status 200 with a rendered page as the body.
    Render { page: Page },
    /// Status 301 with `location` in the `Location` header and an empty body.
    Redirect { location: String },
    /// Status 500 with a generic error body.
    ServerError,
}

impl RouteResponse {
    /// The HTTP status code of this response.
    pub open spec fn spec_status(&self) -> u16 {
        match self {
            RouteResponse::Render { .. } => 200,
            RouteResponse::Redirect { .. } => 301,
            RouteResponse::ServerError => 500,
        }
    }

    /// The HTTP status code of this response.
    pub fn status(&self) -> (s: u16)
        ensures
            s == self.spec_status(),
    {
        match self {
            RouteResponse::Render { .. } => 200,
            RouteResponse::Redirect { .. } => 301,
            RouteResponse::ServerError => 500,
        }
    }

    /// The `Location` header of this response: present exactly on redirects.
    pub fn location(&self) -> (r: Option<&String>)
        ensures
            match self {
                RouteResponse::Redirect { location } => r == Some(location),
                _ => r is None,
            },
    {
        match self {
            RouteResponse::Redirect { location } => Some(location),
            _ => None,
        }
    }
}

/// The argument a query string binds to `name`, when there is a query string
/// at all.
pub open spec fn spec_query_argument(query: Option<Seq<char>>, name: Seq<char>) -> Option<
    Seq<char>,
> {
    match query {
        Some(q) => spec_argument(parsed_pairs_of(q), name),
        None => None,
    }
}

/// Serve the creation page: the home route always renders the index form.
pub fn get_new() -> (r: RouteResponse)
    ensures
        r == (RouteResponse::Render { page: Page::Index }),
{
    RouteResponse::Render { page: Page::Index }
}

/// Create a mapping for the `target` argument of the query string: on
/// success, append one record to the store and redirect to the confirmation
/// page carrying the fresh token; without a `target` argument, answer a
/// server error and leave the store unchanged.
pub fn post_new(store: &mut Store, query: Option<&str>) -> (r: RouteResponse)
    ensures
        match spec_query_argument(view_query(query), "target"@) {
            Some(target) => {
                let entry = final(store)@.last();
                &&& final(store)@ == old(store)@.push(entry)
                &&& entry.1 == target
                &&& is_token_shaped(entry.0, TOKEN_LEN as nat)
                &&& (r matches RouteResponse::Redirect { location } && location@ == "/complete?token="@
                    + entry.0)
            },
            None => r is ServerError && final(store)@ == old(store)@,
        },
{
    match get_argument_from_url(query, "target") {
        Ok(target) => {
            let short = Short::new(target);
            let token = short.token().clone();
            let ghost entry = entry_of(short);
            store.add_short(short);
            let mut location = "/complete?token=".to_owned();
            location.append(token.as_str());
            proof {
                assert(store@.last() == entry);
            }
            RouteResponse::Redirect { location }
        },
        Err(_) => RouteResponse::ServerError,
    }
}

/// Serve the confirmation page for the `token` argument of the query string;
/// without a `token` argument, answer a server error.
pub fn get_complete(query: Option<&str>) -> (r: RouteResponse)
    ensures
        match spec_query_argument(view_query(query), "token"@) {
            Some(t) => r matches RouteResponse::Render { page } && page matches Page::Complete {
                token,
            } && token@ == t,
            None => r is ServerError,
        },
{
    match get_argument_from_url(query, "token") {
        Ok(token) => RouteResponse::Render { page: Page::Complete { token } },
        Err(_) => RouteResponse::ServerError,
    }
}

/// Resolve the path (stripped of its leading slash) as a token and redirect
/// to whatever it maps to: the empty location when the token is unknown.
pub fn get_redirect(store: &Store, path: &str) -> (r: RouteResponse)
    requires
        path@.len() >= 1,
    ensures
        r matches RouteResponse::Redirect { location } && location@ == spec_lookup(
            store@,
            path@.skip(1),
        ),
{
    let l = path.unicode_len();
    let token = path.substring_char(1, l);
    proof {
        assert(token@ =~= path@.skip(1));
    }
    let target = store.get_target(token.to_owned());
    RouteResponse::Redirect { location: target }
}

/// The view of an optional raw query string.
pub open spec fn view_query(query: Option<&str>) -> Option<Seq<char>> {
    match query {
        Some(q) => Some(q@),
        None => None,
    }
}

/// The four routes a request can fall under.
#[derive(Clone, Copy, Debug, PartialEq, Eq, Structural)]
pub enum Route {
    /// `GET /`: serve the creation page.
    Home,
    /// `GET /new`: create a mapping from the `target` argument.
    Create,
    /// `GET /complete`: serve the confirmation page for the `token` argument.
    Confirm,
    /// Anything else: treat the path, stripped of its leading slash, as a
    /// token to resolve.
    Lookup,
}

/// Where a request goes, by method and path alone.
pub open spec fn spec_classify(method: ReqMethod, path: Seq<char>) -> Route {
    if method == ReqMethod::Get && path == "/"@ {
        Route::Home
    } else if method == ReqMethod::Get && path == "/new"@ {
        Route::Create
    } else if method == ReqMethod::Get && path == "/complete"@ {
        Route::Confirm
    } else {
        Route::Lookup
    }
}

/// Classify a request by method and path. Only the `Create` route ever
/// writes to the store; `Lookup` only reads it; `Home` and `Confirm` never
/// touch it.
pub fn classify(method: ReqMethod, path: &str) -> (r: Route)
    ensures
        r == spec_classify(method, path@),
{
    proof {
        reveal_strlit("/");
        reveal_strlit("/new");
        reveal_strlit("/complete");
    }
    let is_get = matches!(method, ReqMethod::Get);
    let p = path.to_owned();
    if is_get && compare_str(&p, "/") {
        Route::Home
    } else if is_get && compare_str(&p, "/new") {
        Route::Create
    } else if is_get && compare_str(&p, "/complete") {
        Route::Confirm
    } else {
        Route::Lookup
    }
}

/// Classify a request by method and path and dispatch it: `GET /` serves the
/// creation page, `GET /new` creates a mapping from the `target` argument,
/// `GET /complete` serves the confirmation page for the `token` argument, and
/// every other request is treated as a token lookup and answered with a
/// redirect. Only a successful creation touches the store.
pub fn router(
    store: &mut Store,
    method: ReqMethod,
    path: &str,
    query: Option<&str>,
) -> (r: RouteResponse)
    requires
        path@.len() >= 1,
    ensures
        match spec_classify(method, path@) {
            Route::Home => r == (RouteResponse::Render { page: Page::Index }) && final(store)@
                == old(store)@,
            Route::Create => match spec_query_argument(view_query(query), "target"@) {
                Some(target) => {
                    let entry = final(store)@.last();
                    &&& final(store)@ == old(store)@.push(entry)
                    &&& entry.1 == target
                    &&& is_token_shaped(entry.0, TOKEN_LEN as nat)
                    &&& (r matches RouteResponse::Redirect { location } && location@
                        == "/complete?token="@ + entry.0)
                },
                None => r is ServerError && final(store)@ == old(store)@,
            },
            Route::Confirm => final(store)@ == old(store)@ && match spec_query_argument(
                view_query(query),
                "token"@,
            ) {
                Some(t) => r matches RouteResponse::Render { page } && page matches Page::Complete {
                    token,
                } && token@ == t,
                None => r is ServerError,
            },
            Route::Lookup => final(store)@ == old(store)@ && (r matches RouteResponse::Redirect {
                location,
            } && location@ == spec_lookup(old(store)@, path@.skip(1))),
        },
{
    match classify(method, path) {
        Route::Home => get_new(),
        Route::Create => post_new(store, query),
        Route::Confirm => get_complete(query),
        Route::Lookup => get_redirect(store, path),
    }
}

} // verus!
