//! Which operation an inbound request asks for.
use vstd::prelude::*;
use crate::text::{contains_text, has_infix, has_prefix, same_text, starts_with_text, trim_prefix, trim_prefix_all};

verus! {

/// The request methods that the routes tell apart.
#[derive(Clone, Copy, Debug, PartialEq, Eq, Structural)]
pub enum Method {
    Get,
    Post,
    Other,
}

/// An operation of the public interface.
pub enum Route {
    /// The index page.
    Index,
    /// A creation request.
    Input,
    /// The chat page of a trip, for a client that accepts HTML.
    TripPage,
    /// The trip's definition, read from its actor.
    TripDefinition(String),
    /// A chat turn on a trip.
    Chat(String),
    /// The trip's message history.
    History(String),
    NotFound,
}

/// A route with its trip identifier as a sequence of characters.
pub enum RouteView {
    Index,
    Input,
    TripPage,
    TripDefinition(Seq<char>),
    Chat(Seq<char>),
    History(Seq<char>),
    NotFound,
}

impl View for Route {
    type V = RouteView;

    open spec fn view(&self) -> RouteView {
        match self {
            Route::Index => RouteView::Index,
            Route::Input => RouteView::Input,
            Route::TripPage => RouteView::TripPage,
            Route::TripDefinition(id) => RouteView::TripDefinition(id@),
            Route::Chat(id) => RouteView::Chat(id@),
            Route::History(id) => RouteView::History(id@),
            Route::NotFound => RouteView::NotFound,
        }
    }
}

pub open spec fn trip_prefix() -> Seq<char> {
    seq!['/', 't', 'r', 'i', 'p', '/']
}

pub open spec fn chat_prefix() -> Seq<char> {
    seq!['/', 'c', 'h', 'a', 't', '/']
}

pub open spec fn html_type() -> Seq<char> {
    seq!['t', 'e', 'x', 't', '/', 'h', 't', 'm', 'l']
}

/// The operation that a request with this method, path and `Accept` header
/// asks for.
pub open spec fn route_of(method: Method, path: Seq<char>, accept: Seq<char>) -> RouteView {
    if method == Method::Get && path == seq!['/'] {
        RouteView::Index
    } else if method == Method::Post && path == seq!['/', 'i', 'n', 'p', 'u', 't'] {
        RouteView::Input
    } else if method == Method::Get && has_prefix(path, trip_prefix()) {
        if has_infix(accept, html_type()) {
            RouteView::TripPage
        } else {
            RouteView::TripDefinition(trim_prefix_all(path, trip_prefix()))
        }
    } else if method == Method::Post && has_prefix(path, trip_prefix()) {
        RouteView::Chat(trim_prefix_all(path, trip_prefix()))
    } else if method == Method::Get && has_prefix(path, chat_prefix()) {
        RouteView::History(trim_prefix_all(path, chat_prefix()))
    } else {
        RouteView::NotFound
    }
}

/// Picks the operation for a request; `accept` is the `Accept` header, empty
/// when there is none.
pub fn route(method: Method, path: &str, accept: &str) -> (r: Route)
    ensures
        r@ == route_of(method, path@, accept@),
{
    proof {
        reveal_strlit("/");
        reveal_strlit("/input");
        reveal_strlit("/trip/");
        reveal_strlit("/chat/");
        reveal_strlit("text/html");
    }
    assert("/"@ =~= seq!['/']);
    assert("/input"@ =~= seq!['/', 'i', 'n', 'p', 'u', 't']);
    assert("/trip/"@ =~= trip_prefix());
    assert("/chat/"@ =~= chat_prefix());
    assert("text/html"@ =~= html_type());
    if method == Method::Get && same_text(path, "/") {
        Route::Index
    } else if method == Method::Post && same_text(path, "/input") {
        Route::Input
    } else if method == Method::Get && starts_with_text(path, "/trip/") {
        if contains_text(accept, "text/html") {
            Route::TripPage
        } else {
            Route::TripDefinition(trim_prefix(path, "/trip/"))
        }
    } else if method == Method::Post && starts_with_text(path, "/trip/") {
        Route::Chat(trim_prefix(path, "/trip/"))
    } else if method == Method::Get && starts_with_text(path, "/chat/") {
        Route::History(trim_prefix(path, "/chat/"))
    } else {
        Route::NotFound
    }
}

/// What a request to a trip's actor asks for, by method and path.
#[derive(Clone, Copy, Debug, PartialEq, Eq, Structural)]
pub enum SessionRoute {
    /// Store the definition in the request's body.
    Init,
    /// Read the stored definition.
    Read,
    NotFound,
}

pub open spec fn session_route_of(method: Method, path: Seq<char>) -> SessionRoute {
    if method == Method::Post && path == seq!['/', 'i', 'n', 'i', 't'] {
        SessionRoute::Init
    } else if method == Method::Get && path == seq!['/'] {
        SessionRoute::Read
    } else {
        SessionRoute::NotFound
    }
}

/// Picks the actor operation for a request to a trip's actor.
pub fn session_route(method: Method, path: &str) -> (r: SessionRoute)
    ensures
        r == session_route_of(method, path@),
{
    proof {
        reveal_strlit("/");
        reveal_strlit("/init");
    }
    assert("/"@ =~= seq!['/']);
    assert("/init"@ =~= seq!['/', 'i', 'n', 'i', 't']);
    if method == Method::Post && same_text(path, "/init") {
        SessionRoute::Init
    } else if method == Method::Get && same_text(path, "/") {
        SessionRoute::Read
    } else {
        SessionRoute::NotFound
    }
}

} // verus!
