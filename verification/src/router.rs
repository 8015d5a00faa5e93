//! The router: which handler answers a request.
//!
//! Only `GET` is served: a request with any other method is answered by the
//! handler that says that nothing was found, whatever its path.
use crate::handler::{
    not_found_answer, path_segments, segments, Handler, Loaded, LoadedView, PageNotFoundHandler, StaticPageHandler,
    Wanted, WantedView, WebServiceHandler,
};
use crate::httprequest::{HttpRequest, Method, RequestView};
use crate::httpresponse::{wire, HttpResponse, ResponseView};
use crate::text::{str_eq, views};
use vstd::prelude::*;
use vstd::string::*;
use vstd::utf8::encode_utf8;

verus! {

/// The handler that a request goes to.
#[derive(Debug, PartialEq, Eq, Clone, Copy, Structural)]
pub enum Route {
    StaticPage,
    WebService,
    NotFound,
}

/// The first segment at or after position `from` that is not empty.
pub open spec fn first_filled(segs: Seq<Seq<char>>, from: int) -> Option<Seq<char>>
    decreases segs.len() - from,
{
    if from < 0 || from >= segs.len() {
        None
    } else if segs[from].len() > 0 {
        Some(segs[from])
    } else {
        first_filled(segs, from + 1)
    }
}

/// The handler that `req` goes to: for `GET`, the order service where the
/// first segment of the path that is not empty is `api`, and the page
/// handler otherwise.
pub open spec fn route_of(req: RequestView) -> Route {
    if req.method != Method::Get {
        Route::NotFound
    } else if first_filled(segments(req.path), 0) == Some("api"@) {
        Route::WebService
    } else {
        Route::StaticPage
    }
}

/// What the handler of `req` wants from outside.
pub open spec fn route_needs(req: RequestView) -> WantedView {
    match route_of(req) {
        Route::StaticPage => StaticPageHandler::needs(req),
        Route::WebService => WebServiceHandler::needs(req),
        Route::NotFound => PageNotFoundHandler::needs(req),
    }
}

/// `r` is an answer of the handler of `req`, given what was found.
pub open spec fn route_answers(req: RequestView, loaded: LoadedView, r: ResponseView) -> bool {
    match route_of(req) {
        Route::StaticPage => StaticPageHandler::answers(req, loaded, r),
        Route::WebService => WebServiceHandler::answers(req, loaded, r),
        Route::NotFound => PageNotFoundHandler::answers(req, loaded, r),
    }
}

/// A request with any method but `GET` goes to the handler that says that
/// nothing was found, whatever its path.
pub proof fn lemma_only_get_is_served(req: RequestView, loaded: LoadedView, r: ResponseView)
    requires
        req.method != Method::Get,
    ensures
        route_of(req) == Route::NotFound,
        route_needs(req) == WantedView::Page("404.html"@),
        route_answers(req, loaded, r) <==> r == not_found_answer(loaded),
{
}

/// The router.
pub struct Router {}

impl Router {
    /// Picks the handler of a request.
    pub fn select(req: &HttpRequest) -> (route: Route)
        ensures
            route == route_of(req@),
    {
        match req.method {
            Method::Get => {
                let routes = path_segments(req);
                let n: usize = routes.len();
                let mut i: usize = 0;
                while i < n
                    invariant
                        i <= n,
                        n == routes.len(),
                        req@.method == Method::Get,
                        views(routes@) == segments(req@.path),
                        first_filled(segments(req@.path), 0) == first_filled(
                            segments(req@.path),
                            i as int,
                        ),
                    decreases n - i,
                {
                    proof {
                        assert(views(routes@)[i as int] == routes@[i as int]@);
                    }
                    if !routes[i].as_str().is_empty() {
                        proof {
                            let segs = segments(req@.path);
                            assert(segs[i as int].len() > 0);
                            assert(first_filled(segs, i as int) == Some(segs[i as int]));
                        }
                        return if str_eq(routes[i].as_str(), "api") {
                            Route::WebService
                        } else {
                            Route::StaticPage
                        };
                    }
                    i += 1;
                }
                Route::StaticPage
            },
            _ => Route::NotFound,
        }
    }

    /// Says what must be looked up outside before the request can be
    /// answered.
    pub fn wanted(req: &HttpRequest) -> (w: Wanted)
        ensures
            w@ == route_needs(req@),
    {
        match Self::select(req) {
            Route::StaticPage => StaticPageHandler::wanted(req),
            Route::WebService => WebServiceHandler::wanted(req),
            Route::NotFound => PageNotFoundHandler::wanted(req),
        }
    }

    /// The answer of the handler of the request, given what was found.
    pub fn respond(req: &HttpRequest, loaded: Loaded) -> (r: HttpResponse<'static>)
        ensures
            route_answers(req@, loaded@, r@),
    {
        match Self::select(req) {
            Route::StaticPage => StaticPageHandler::handle(req, loaded),
            Route::WebService => WebServiceHandler::handle(req, loaded),
            Route::NotFound => PageNotFoundHandler::handle(req, loaded),
        }
    }

    /// Hands the request to its handler and writes the answer out at the end
    /// of `conn`.
    pub fn route(req: HttpRequest, loaded: Loaded, conn: &mut Vec<u8>)
        ensures
            exists|r: ResponseView| #[trigger]
                route_answers(req@, loaded@, r) && final(conn)@ == old(conn)@ + encode_utf8(
                    wire(r),
                ),
    {
        let resp = Self::respond(&req, loaded);
        let _ = resp.send_response(conn);
    }
}

} // verus!
