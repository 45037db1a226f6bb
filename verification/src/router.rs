//! The protocol router: each request of the recognized origin is answered from
//! the static root where it resolves there, else by the command its path
//! names, else with 404.

use crate::delivery::{deliverable, delivered, http_accepts, text_response_is_taken};
use crate::message::{
    bridge_headers, page_not_found, text_response, Request, Response, NOT_FOUND_TEXT,
    STATUS_NOT_FOUND,
};
use crate::registry::Registry;
use crate::static_assets::{
    asset_path, is_confined, is_served, relative_path, serve_asset, static_response_is_taken,
    static_view, strip_leading_separator, without_leading_separator, Asset,
};
use vstd::prelude::*;

verus! {

/// The scheme and host that requests to the bridge are issued against.
pub struct Origin {
    /// The custom scheme.
    pub scheme: String,
    /// The host.
    pub host: String,
}

/// A router: the origin it answers for, whether it serves static assets, and
/// its commands. It does not change once made.
pub struct Router<H> {
    origin: Origin,
    serves_static: bool,
    registry: Registry<H>,
}

impl<H> Router<H> {
    /// The scheme and host that the router answers for.
    pub closed spec fn origin(self) -> (Seq<char>, Seq<char>) {
        (self.origin.scheme@, self.origin.host@)
    }

    /// Whether the router serves static assets.
    pub closed spec fn serves_static(self) -> bool {
        self.serves_static
    }

    /// The commands of the router, by name.
    pub closed spec fn commands(self) -> Map<Seq<char>, H> {
        self.registry.commands()
    }

    /// The request was issued against the origin of the router.
    pub open spec fn recognizes(self, request: Request) -> bool {
        (request.scheme@, request.host@) == self.origin()
    }

    /// The request is answered from the static root, given what the host found.
    pub open spec fn answers_statically(self, request: Request, asset: Option<Asset>) -> bool {
        self.recognizes(request) && self.serves_static() && is_served(request.path@, asset)
    }

    /// The command that the request names: its path without the leading
    /// separator, where that is the name of a command.
    pub open spec fn command_for(self, request: Request) -> Option<H> {
        let name = without_leading_separator(request.path@);
        if self.recognizes(request) && self.commands().contains_key(name) {
            Some(self.commands()[name])
        } else {
            None
        }
    }

    /// A router for `origin` with the commands of `registry`, which serves
    /// static assets if `serves_static` says so.
    pub fn new(origin: Origin, registry: Registry<H>, serves_static: bool) -> (router: Self)
        ensures
            router.origin() == (origin.scheme@, origin.host@),
            router.serves_static() == serves_static,
            router.commands() == registry.commands(),
    {
        Router { origin, serves_static, registry }
    }

    /// Whether the request was issued against the origin of the router.
    pub fn is_recognized(&self, request: &Request) -> (known: bool)
        ensures
            known == self.recognizes(*request),
    {
        request.scheme == self.origin.scheme && request.host == self.origin.host
    }

    /// The relative path that the host is to resolve under the static root
    /// before the request is answered, if there is one: the router serves
    /// static assets, the request is of its origin, and the path it names
    /// cannot leave the root.
    pub fn asset_request(&self, request: &Request) -> (candidate: Option<String>)
        ensures
            match candidate {
                Some(relative) => {
                    &&& self.recognizes(*request)
                    &&& self.serves_static()
                    &&& relative@ == relative_path(request.path@)
                    &&& is_confined(relative@)
                },
                None => forall|asset: Option<Asset>| !self.answers_statically(*request, asset),
            },
    {
        if self.serves_static && self.is_recognized(request) {
            asset_path(request.path.as_str())
        } else {
            None
        }
    }
}

impl<H: Fn(Request) -> Response> Router<H> {
    /// `r` answers the request, given what the host found under the static
    /// root: the asset where the request is answered from there; else what is
    /// delivered for the response that the command named by the path returns
    /// for the request; else 404.
    pub open spec fn answers(self, request: Request, asset: Option<Asset>, r: Response) -> bool {
        if self.answers_statically(request, asset) {
            r@ == static_view(request.path@, asset)
        } else {
            match self.command_for(request) {
                Some(handler) => exists|returned: Response| #[trigger]
                    call_ensures(handler, (request,), returned) && delivered(returned@, r@),
                None => r@ == text_response(STATUS_NOT_FOUND, NOT_FOUND_TEXT@),
            }
        }
    }

    /// Answers a request. `asset` is what the host found under the static root
    /// for the path that [`Router::asset_request`] gave, and nothing where it
    /// gave none or the host could not resolve or read it. Whatever the
    /// commands return, the answer carries the fixed headers and is a
    /// response that `http` takes.
    pub fn respond(&self, request: Request, asset: Option<Asset>) -> (r: Response)
        requires
            self.command_for(request) matches Some(handler) ==> call_requires(handler, (request,)),
        ensures
            self.answers(request, asset, r),
            r.is_bridge_response(),
            http_accepts(r@),
    {
        let r = self.route(request, asset);
        proof {
            use_type_invariant(&r);
            static_response_is_taken(request.path@, asset);
            text_response_is_taken(STATUS_NOT_FOUND, NOT_FOUND_TEXT@);
        }
        r
    }

    fn route(&self, request: Request, asset: Option<Asset>) -> (r: Response)
        requires
            self.command_for(request) matches Some(handler) ==> call_requires(handler, (request,)),
        ensures
            self.answers(request, asset, r),
    {
        if !self.is_recognized(&request) {
            return page_not_found();
        }
        if self.serves_static {
            match serve_asset(request.path.as_str(), asset) {
                Some(r) => {
                    return r;
                },
                None => {},
            }
        }
        let name = strip_leading_separator(request.path.as_str());
        match self.registry.lookup(name.as_str()) {
            Some(handler) => deliverable(handler(request)),
            None => page_not_found(),
        }
    }
}

/// A request that is not answered from the static root and whose path names
/// no command is answered with 404, and the answer carries the fixed headers.
pub proof fn unregistered_path_is_not_found<H: Fn(Request) -> Response>(
    router: Router<H>,
    request: Request,
    asset: Option<Asset>,
    r: Response,
)
    requires
        router.answers(request, asset, r),
        !router.answers_statically(request, asset),
        !router.commands().contains_key(without_leading_separator(request.path@)),
    ensures
        r@.status == STATUS_NOT_FOUND,
        r@ == text_response(STATUS_NOT_FOUND, NOT_FOUND_TEXT@),
        bridge_headers().is_prefix_of(r@.headers),
{
}

/// A request whose path names a command, and which is not answered from the
/// static root, is answered by that command: with the response it returns
/// where `http` takes that, else with status 500.
pub proof fn registered_path_reaches_command<H: Fn(Request) -> Response>(
    router: Router<H>,
    request: Request,
    asset: Option<Asset>,
    r: Response,
)
    requires
        router.answers(request, asset, r),
        router.recognizes(request),
        !router.answers_statically(request, asset),
        router.commands().contains_key(without_leading_separator(request.path@)),
    ensures
        exists|returned: Response| #[trigger]
            call_ensures(
                router.commands()[without_leading_separator(request.path@)],
                (request,),
                returned,
            ) && delivered(returned@, r@),
{
}

} // verus!
