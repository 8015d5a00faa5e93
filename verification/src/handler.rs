//! The handlers: each says what it needs from outside to answer a request,
//! and answers the request with what was found.
//!
//! A handler never reads a file or a data source itself. It names what it
//! wants; the caller looks that up and hands the result back. What comes
//! back of the wrong kind counts as not found.
use crate::headers::{Field, Headers};
use crate::httprequest::{HttpRequest, RequestView, Resource};
use crate::httpresponse::{new_response, HttpResponse, ResponseView};
use crate::orders::{order_views, orders_json, write_orders, OrderStatus, OrderView};
use crate::text::{ends_with, split, str_ends_with, str_eq, str_split, views};
use vstd::prelude::*;
use vstd::string::*;

verus! {

/// What a handler wants from outside.
#[derive(Debug, Clone, PartialEq, Eq)]
pub enum Wanted {
    /// The content of the file of this name.
    Page(String),
    /// The list of orders.
    Orders,
}

/// What was found outside.
#[derive(Debug, Clone, PartialEq, Eq)]
pub enum Loaded {
    /// The content of a file, or `None` where it could not be read.
    Page(Option<String>),
    /// The list of orders, or `None` where it could not be read.
    Orders(Option<Vec<OrderStatus>>),
}

/// `Wanted` as a mathematical value.
pub enum WantedView {
    Page(Seq<char>),
    Orders,
}

/// `Loaded` as a mathematical value.
pub enum LoadedView {
    Page(Option<Seq<char>>),
    Orders(Option<Seq<OrderView>>),
}

impl View for Wanted {
    type V = WantedView;

    open spec fn view(&self) -> WantedView {
        match self {
            Wanted::Page(name) => WantedView::Page(name@),
            Wanted::Orders => WantedView::Orders,
        }
    }
}

impl View for Loaded {
    type V = LoadedView;

    open spec fn view(&self) -> LoadedView {
        match self {
            Loaded::Page(Some(content)) => LoadedView::Page(Some(content@)),
            Loaded::Page(None) => LoadedView::Page(None),
            Loaded::Orders(Some(orders)) => LoadedView::Orders(Some(order_views(orders@))),
            Loaded::Orders(None) => LoadedView::Orders(None),
        }
    }
}

/// The content of the page that was found, if one was.
pub open spec fn page_found(loaded: LoadedView) -> Option<Seq<char>> {
    match loaded {
        LoadedView::Page(content) => content,
        LoadedView::Orders(_) => None,
    }
}

/// The orders that were found, if they were.
pub open spec fn orders_found(loaded: LoadedView) -> Option<Seq<OrderView>> {
    match loaded {
        LoadedView::Orders(orders) => orders,
        LoadedView::Page(_) => None,
    }
}

/// The segments of a path: its pieces between slashes.
pub open spec fn segments(path: Seq<char>) -> Seq<Seq<char>> {
    split(path, "/"@)
}

/// The segment of a path at position `i`; empty where the path has fewer
/// segments.
pub open spec fn segment(path: Seq<char>, i: int) -> Seq<char> {
    if 0 <= i < segments(path).len() {
        segments(path)[i]
    } else {
        Seq::empty()
    }
}

/// The name of the file that holds the page of a path: the page of the
/// second segment, which stands behind the leading slash.
pub open spec fn page_name(path: Seq<char>) -> Seq<char> {
    let s = segment(path, 1);
    if s.len() == 0 {
        "index.html"@
    } else if s == "health"@ {
        "health.html"@
    } else {
        s
    }
}

/// The content type of the file of a name, by the end of the name.
pub open spec fn content_type(name: Seq<char>) -> Seq<char> {
    if ends_with(name, ".css"@) {
        "text/css"@
    } else if ends_with(name, ".js"@) {
        "text/javascript"@
    } else {
        "text/html"@
    }
}

/// The one header field that names a content type.
pub open spec fn typed(content_type: Seq<char>) -> Seq<Field> {
    seq![("Content-Type"@, content_type)]
}

/// The answer of the page handler: the page with its content type where it
/// was found, and not found, without a body, where it was not.
pub open spec fn static_page_answer(req: RequestView, loaded: LoadedView) -> ResponseView {
    match page_found(loaded) {
        Some(content) => new_response(
            "200"@,
            Some(typed(content_type(page_name(req.path)))),
            Some(content),
        ),
        None => new_response("404"@, None, None),
    }
}

/// The answer that nothing was found, with the page that says so as its body
/// where that page was found.
pub open spec fn not_found_answer(loaded: LoadedView) -> ResponseView {
    new_response("404"@, None, page_found(loaded))
}

/// A path asks for the orders where its third segment is `shopping` and its
/// fourth, if it has one, is `orders`.
pub open spec fn asks_for_orders(path: Seq<char>) -> bool {
    let s = segments(path);
    &&& s.len() > 2
    &&& s[2] == "shopping"@
    &&& s.len() > 3 ==> s[3] == "orders"@
}

/// The answer of the order service to a path that asks for the orders,
/// given the JSON text of the orders or `None` where there is none.
pub open spec fn orders_answer(body: Option<Seq<char>>) -> ResponseView {
    match body {
        Some(text) => new_response("200"@, Some(typed("application/json"@)), Some(text)),
        None => new_response("500"@, None, None),
    }
}

/// A handler: what turns a request into a response.
pub trait Handler {
    /// What the handler wants from outside to answer `req`.
    spec fn needs(req: RequestView) -> WantedView;

    /// `r` is an answer of the handler to `req`, given what was found.
    spec fn answers(req: RequestView, loaded: LoadedView, r: ResponseView) -> bool;

    /// Says what the handler wants from outside to answer `req`.
    fn wanted(req: &HttpRequest) -> (w: Wanted)
        ensures
            w@ == Self::needs(req@),
    ;

    /// Answers `req` with what was found.
    fn handle(req: &HttpRequest, loaded: Loaded) -> (r: HttpResponse<'static>)
        ensures
            Self::answers(req@, loaded@, r@),
    ;
}

/// Answers with a page.
pub struct StaticPageHandler;

/// Answers that nothing was found.
pub struct PageNotFoundHandler;

/// Answers with the orders.
pub struct WebServiceHandler;

/// The segments of the path of a request.
pub fn path_segments(req: &HttpRequest) -> (r: Vec<String>)
    ensures
        views(r@) == segments(req@.path),
{
    match &req.resource {
        Resource::Path(p) => str_split(p.as_str(), "/"),
    }
}

/// The name of the file that holds the page of a request.
pub fn page_file(req: &HttpRequest) -> (r: String)
    ensures
        r@ == page_name(req@.path),
{
    let routes = path_segments(req);
    proof {
        if routes.len() > 1 {
            assert(views(routes@)[1] == routes@[1]@);
        }
    }
    if routes.len() < 2 || routes[1].as_str().is_empty() {
        "index.html".to_owned()
    } else if str_eq(routes[1].as_str(), "health") {
        "health.html".to_owned()
    } else {
        routes[1].clone()
    }
}

/// The content type of the file of a name.
pub fn content_type_of(name: &str) -> (r: &'static str)
    ensures
        r@ == content_type(name@),
{
    if str_ends_with(name, ".css") {
        "text/css"
    } else if str_ends_with(name, ".js") {
        "text/javascript"
    } else {
        "text/html"
    }
}

/// Tests whether the path of a request asks for the orders.
pub fn wants_orders(req: &HttpRequest) -> (r: bool)
    ensures
        r == asks_for_orders(req@.path),
{
    let routes = path_segments(req);
    proof {
        if routes.len() > 2 {
            assert(views(routes@)[2] == routes@[2]@);
        }
        if routes.len() > 3 {
            assert(views(routes@)[3] == routes@[3]@);
        }
    }
    routes.len() > 2 && str_eq(routes[2].as_str(), "shopping") && (routes.len() <= 3 || str_eq(
        routes[3].as_str(),
        "orders",
    ))
}

/// The header fields that name one content type.
fn typed_headers(content_type: &str) -> (h: Headers)
    ensures
        h.entries() == typed(content_type@),
{
    let mut h = Headers::new();
    h.insert("Content-Type".to_owned(), content_type.to_owned());
    proof {
        assert(h.entries() =~= typed(content_type@));
    }
    h
}

/// The page that was loaded, if one was.
fn loaded_page(loaded: Loaded) -> (r: Option<String>)
    ensures
        match r {
            Some(content) => page_found(loaded@) == Some(content@),
            None => page_found(loaded@) is None,
        },
{
    match loaded {
        Loaded::Page(content) => content,
        Loaded::Orders(_) => None,
    }
}

impl Handler for PageNotFoundHandler {
    open spec fn needs(req: RequestView) -> WantedView {
        WantedView::Page("404.html"@)
    }

    open spec fn answers(req: RequestView, loaded: LoadedView, r: ResponseView) -> bool {
        r == not_found_answer(loaded)
    }

    fn wanted(req: &HttpRequest) -> (w: Wanted) {
        Wanted::Page("404.html".to_owned())
    }

    fn handle(req: &HttpRequest, loaded: Loaded) -> (r: HttpResponse<'static>) {
        HttpResponse::new("404", None, loaded_page(loaded))
    }
}

impl Handler for StaticPageHandler {
    open spec fn needs(req: RequestView) -> WantedView {
        WantedView::Page(page_name(req.path))
    }

    open spec fn answers(req: RequestView, loaded: LoadedView, r: ResponseView) -> bool {
        r == static_page_answer(req, loaded)
    }

    fn wanted(req: &HttpRequest) -> (w: Wanted) {
        Wanted::Page(page_file(req))
    }

    fn handle(req: &HttpRequest, loaded: Loaded) -> (r: HttpResponse<'static>) {
        match loaded_page(loaded) {
            Some(content) => {
                let name = page_file(req);
                let headers = typed_headers(content_type_of(name.as_str()));
                HttpResponse::new("200", Some(headers), Some(content))
            },
            None => HttpResponse::new("404", None, None),
        }
    }
}

impl WebServiceHandler {
    /// Answers a request for the orders with their JSON text, or with a
    /// failure of the server where there is no such text.
    pub fn answer_orders(body: Option<String>) -> (r: HttpResponse<'static>)
        ensures
            r@ == orders_answer(
                match body {
                    Some(text) => Some(text@),
                    None => None,
                },
            ),
    {
        match body {
            Some(text) => HttpResponse::new(
                "200",
                Some(typed_headers("application/json")),
                Some(text),
            ),
            None => HttpResponse::new("500", None, None),
        }
    }
}

impl Handler for WebServiceHandler {
    open spec fn needs(req: RequestView) -> WantedView {
        if asks_for_orders(req.path) {
            WantedView::Orders
        } else {
            WantedView::Page("404.html"@)
        }
    }

    /// To a path that asks for the orders the answer holds them as JSON; it
    /// is a failure of the server where they were not found or cannot be
    /// written. To any other path the answer is that nothing was found.
    open spec fn answers(req: RequestView, loaded: LoadedView, r: ResponseView) -> bool {
        if asks_for_orders(req.path) {
            r == orders_answer(
                match orders_found(loaded) {
                    Some(orders) => orders_json(orders),
                    None => None,
                },
            )
        } else {
            r == not_found_answer(loaded)
        }
    }

    fn wanted(req: &HttpRequest) -> (w: Wanted) {
        if wants_orders(req) {
            Wanted::Orders
        } else {
            Wanted::Page("404.html".to_owned())
        }
    }

    fn handle(req: &HttpRequest, loaded: Loaded) -> (r: HttpResponse<'static>) {
        if wants_orders(req) {
            let body = match &loaded {
                Loaded::Orders(Some(orders)) => write_orders(orders),
                _ => None,
            };
            Self::answer_orders(body)
        } else {
            HttpResponse::new("404", None, loaded_page(loaded))
        }
    }
}

} // verus!
