use super::handler_func_type::HandlerFuncType;
use super::handler_map::{
    handler_added, lemma_first_with_method_bounds, lemma_first_with_method_push,
    lemma_first_with_method_push_other, lookup, lemma_add_handler_keeps_methods_distinct, lemma_add_handler_within_limit,
    lemma_added_handler_is_found, middleware_limit_error, first_with_method, routes_methods_distinct,
    routes_within, HandlerMap,
};
use crate::utils::https_methods::interpreted_method;
use super::static_file::StaticFile;
use crate::types::error_types::internal_server_error::{message, InternalServerError, ServerErrorView};
use crate::types::error_types::internal_server_result::InternalServerResult;
use crate::types::error_types::hashmap_result::HashMapResult;
use crate::utils::constants;
use crate::utils::https_methods::HttpMethods;
use crate::utils::text::str_eq;
use vstd::prelude::*;

verus! {

/// The routes after `uri` has been registered: unchanged if it already was,
/// else with an empty entry list for it.
pub open spec fn registered<H>(
    routes: Map<Seq<char>, Seq<HandlerFuncType<H>>>,
    uri: Seq<char>,
) -> Map<Seq<char>, Seq<HandlerFuncType<H>>> {
    if routes.contains_key(uri) {
        routes
    } else {
        routes.insert(uri, Seq::empty())
    }
}

/// The error a refused middleware registration gives, wrapping `cause`.
pub open spec fn middleware_error(cause: ServerErrorView) -> ServerErrorView {
    ServerErrorView::AppenedDataError(
        "error when adding middleware to middleware map"@,
        message(cause),
    )
}

/// The middlewares that run for `uri`, in the order they were added.
pub open spec fn middlewares_of<H>(
    routes: Map<Seq<char>, Seq<HandlerFuncType<H>>>,
    uri: Seq<char>,
) -> Seq<H> {
    if routes.contains_key(uri) {
        routes[uri].map_values(|f: HandlerFuncType<H>| f.handler)
    } else {
        Seq::empty()
    }
}

/// The position of the first hosted file served under `name`.
pub open spec fn first_file_named(files: Seq<StaticFile>, name: Seq<char>) -> Option<int>
    decreases files.len(),
{
    if files.len() == 0 {
        None
    } else if files[0].name@ == name {
        Some(0)
    } else {
        match first_file_named(files.drop_first(), name) {
            Some(i) => Some(i + 1),
            None => None,
        }
    }
}

/// What to do with a request that no handler serves.
pub enum UnroutedAction {
    /// send the hosted file at this position
    ServeStaticFile(usize),
    /// answer 404 with a short text
    RespondNotFound,
    /// hand the request to the user's default handler
    CallDefaultHandler,
    /// answer nothing and report this
    Reject(InternalServerError),
}

/// inner struct that will carry the data that needs to be shared among threads
#[verifier::reject_recursive_types(H)]
pub struct ShareableData<H: Copy> {
    pub handler_registry: HandlerMap<H>,
    pub middlerware_registry: HandlerMap<H>,
    pub static_files: Vec<StaticFile>,
}

impl<H: Copy> ShareableData<H> {
    pub fn new() -> (r: Self)
        ensures
            r.handler_registry@ == Map::<Seq<char>, Seq<HandlerFuncType<H>>>::empty(),
            r.middlerware_registry@ == Map::<Seq<char>, Seq<HandlerFuncType<H>>>::empty(),
            r.static_files@ == Seq::<StaticFile>::empty(),
    {
        Self {
            handler_registry: HandlerMap::new(),
            middlerware_registry: HandlerMap::new(),
            static_files: Vec::new(),
        }
    }

    /// set a handler function for http method and uri
    pub fn add_handler(&mut self, uri: &str, method: &str, handler: H) -> (r: InternalServerResult<()>)
        where H: core::fmt::Debug,
        ensures
            handler_added(
                registered(old(self).handler_registry@, uri@),
                uri@,
                method@,
                handler,
                r,
                final(self).handler_registry@,
            ),
            final(self).middlerware_registry@ == old(self).middlerware_registry@,
            final(self).static_files@ == old(self).static_files@,
    {
        match self.handler_registry.attempt_register_route(uri, constants::HANDLER_LIMIT) {
            Ok(()) => {},
            Err(e) => return Err(e),
        }
        self.handler_registry.add_handler(uri, method, handler)
    }

    /// will apply the given function do all request with the given uri (no matter the http method),
    /// at most `middleware_limit` of them, whatever that limit is
    pub fn add_middleware_handler(&mut self, uri: &str, handler: H, middleware_limit: usize) -> (r:
        InternalServerResult<()>)
        ensures
            ({
                let before = registered(old(self).middlerware_registry@, uri@);
                let s = before[uri@];
                if s.len() >= middleware_limit {
                    (r matches Err(e) && e@ == middleware_error(middleware_limit_error()))
                        && final(self).middlerware_registry@ == before
                } else {
                    r is Ok && final(self).middlerware_registry@ == before.insert(
                        uri@,
                        s.push(HandlerFuncType { method: HttpMethods::NEXT, handler }),
                    )
                }
            }),
            r is Ok <==> registered(old(self).middlerware_registry@, uri@)[uri@].len()
                < middleware_limit,
            final(self).handler_registry@ == old(self).handler_registry@,
            final(self).static_files@ == old(self).static_files@,
    {
        match self.middlerware_registry.attempt_register_route(uri, constants::MIDDLEWARE_LIMIT) {
            Ok(()) => {},
            Err(e) => return Err(e),
        }
        let inner = self.middlerware_registry.register_middlerware_handler(uri, handler, middleware_limit);
        match inner {
            Ok(()) => Ok(()),
            Err(e) => Err(InternalServerError::AppenedDataError(
                String::from_str("error when adding middleware to middleware map"),
                e.to_string(),
            )),
        }
    }

    /// Which user functions answer a request for `uri` with `method`, in the
    /// order they run: every middleware registered for `uri`, in the order
    /// added and whatever the method, then the handler `get(uri, method)`
    /// finds; with no handler the request is unrouted (`handle_no_uri`).
    pub fn dispatch_plan(&self, uri: &str, method: HttpMethods) -> (r: (Vec<H>, Option<H>))
        ensures
            r.0@ == middlewares_of(self.middlerware_registry@, uri@),
            r.1 == match lookup(self.handler_registry@, uri@, method) {
                Some(f) => Some(f.handler),
                None => None::<H>,
            },
    {
        let mut middlewares: Vec<H> = Vec::new();
        match self.middlerware_registry.as_slice(uri) {
            Some(entries) => {
                let ghost s = self.middlerware_registry@[uri@];
                let n = entries.len();
                let mut i: usize = 0;
                while i < n
                    invariant
                        entries@ == s,
                        n == s.len(),
                        i <= n,
                        middlewares@ == s.take(i as int).map_values(|f: HandlerFuncType<H>| f.handler),
                    decreases n - i,
                {
                    middlewares.push(entries[i].handler);
                    i = i + 1;
                    assert(middlewares@ =~= s.take(i as int).map_values(
                        |f: HandlerFuncType<H>| f.handler,
                    ));
                }
                assert(s.take(n as int) =~= s);
            },
            None => {},
        }
        let handler = match self.handler_registry.get(uri, method) {
            Some(f) => Some(f.handler),
            None => None,
        };
        (middlewares, handler)
    }

    /// Hosts one more file.
    pub fn add_static_file(&mut self, file: StaticFile)
        ensures
            final(self).static_files@ == old(self).static_files@.push(file),
            final(self).handler_registry@ == old(self).handler_registry@,
            final(self).middlerware_registry@ == old(self).middlerware_registry@,
    {
        self.static_files.push(file);
    }

    /// will decide how to answer a request whose uri has no handler
    /// THREE OPTIONS
    /// 1: send static hosted file
    /// 2: no static hosted files
    /// 3: default response (if set to true by user)
    pub fn handle_no_uri(&self, uri: &str, use_404: bool, has_default_handler: bool) -> (r:
        UnroutedAction)
        requires
            uri@.len() >= 1,
            (uri@[0] as u32) < 128,
        ensures
            match first_file_named(self.static_files@, uri@.drop_first()) {
                Some(i) => r == UnroutedAction::ServeStaticFile(i as usize),
                None => if use_404 && !has_default_handler {
                    r == UnroutedAction::RespondNotFound
                } else if use_404 {
                    r == UnroutedAction::CallDefaultHandler
                } else {
                    r matches UnroutedAction::Reject(e) && e@ == ServerErrorView::ServerInfo(
                        "no handler or staic file found for `"@ + uri@ + "` uri"@,
                    )
                },
            },
    {
        let len = uri.unicode_len();
        let tail = uri.substring_char(1, len);
        let ghost files = self.static_files@;
        let n = self.static_files.len();
        let mut i: usize = 0;
        assert(files.skip(0) =~= files);
        while i < n
            invariant
                n == files.len(),
                files == self.static_files@,
                tail@ == uri@.drop_first(),
                i <= n,
                match first_file_named(files, tail@) {
                    Some(j) => match first_file_named(files.skip(i as int), tail@) {
                        Some(k) => j == k + i,
                        None => false,
                    },
                    None => first_file_named(files.skip(i as int), tail@) is None,
                },
            decreases n - i,
        {
            assert(files.skip(i as int).drop_first() =~= files.skip(i + 1));
            if str_eq(self.static_files[i].name.as_str(), tail) {
                return UnroutedAction::ServeStaticFile(i);
            }
            i = i + 1;
        }
        if use_404 && !has_default_handler {
            UnroutedAction::RespondNotFound
        } else if use_404 {
            UnroutedAction::CallDefaultHandler
        } else {
            let mut text = String::from_str("no handler or staic file found for `");
            text.append(uri);
            text.append("` uri");
            UnroutedAction::Reject(InternalServerError::ServerInfo(text))
        }
    }
}

/// What the server's handler registry keeps through `add_handler`: no uri
/// has two handlers for one method nor more than `HANDLER_LIMIT` handlers,
/// and a handler just added is the one found for its uri and method.
pub proof fn lemma_handler_registry_stays_valid<H>(
    before: Map<Seq<char>, Seq<HandlerFuncType<H>>>,
    uri: Seq<char>,
    method: Seq<char>,
    handler: H,
    r: InternalServerResult<()>,
    after: Map<Seq<char>, Seq<HandlerFuncType<H>>>,
)
    requires
        handler_added(registered(before, uri), uri, method, handler, r, after),
        routes_methods_distinct(before),
        routes_within(before, constants::HANDLER_LIMIT as nat),
    ensures
        routes_methods_distinct(after),
        routes_within(after, constants::HANDLER_LIMIT as nat),
        r is Ok ==> (first_with_method(after[uri], interpreted_method(method).unwrap()) matches Some(i)
            && after[uri][i] == (HandlerFuncType { method: interpreted_method(method).unwrap(), handler })),
{
    let mid = registered(before, uri);
    assert(routes_methods_distinct(mid)) by {
        assert forall|k: Seq<char>| #[trigger] mid.contains_key(k) implies super::handler_map::methods_distinct(mid[k]) by {
            if k != uri || before.contains_key(uri) {
                assert(before.contains_key(k));
            }
        }
    }
    assert(routes_within(mid, constants::HANDLER_LIMIT as nat)) by {
        assert forall|k: Seq<char>| #[trigger] mid.contains_key(k) implies mid[k].len() <= constants::HANDLER_LIMIT by {
            if k != uri || before.contains_key(uri) {
                assert(before.contains_key(k));
            }
        }
    }
    lemma_add_handler_keeps_methods_distinct(mid, uri, method, handler, r, after);
    lemma_add_handler_within_limit(mid, uri, method, handler, r, after);
    if r is Ok {
        lemma_added_handler_is_found(mid, uri, method, handler, r, after);
    }
}

/// `add_handler` touches one lookup at most: a refused call changes no
/// `get(u, m)` (a uri it registers on the way has no handlers, as an
/// unknown one), and a successful one changes only `get(uri, m)` for the
/// method `method` names, which then finds the new handler.
pub proof fn lemma_add_handler_changes_one_lookup<H>(
    before: Map<Seq<char>, Seq<HandlerFuncType<H>>>,
    uri: Seq<char>,
    method: Seq<char>,
    handler: H,
    r: HashMapResult,
    after: Map<Seq<char>, Seq<HandlerFuncType<H>>>,
    u: Seq<char>,
    m: HttpMethods,
)
    requires
        handler_added(registered(before, uri), uri, method, handler, r, after),
    ensures
        r is Err ==> lookup(after, u, m) == lookup(before, u, m),
        r is Ok && (u != uri || interpreted_method(method) != Some(m)) ==> lookup(after, u, m)
            == lookup(before, u, m),
        r is Ok ==> lookup(after, uri, interpreted_method(method).unwrap()) == Some(
            HandlerFuncType { method: interpreted_method(method).unwrap(), handler },
        ),
{
    let mid = registered(before, uri);
    assert(lookup(mid, u, m) == lookup(before, u, m)) by {
        if u == uri && !before.contains_key(uri) {
            assert(mid[uri] =~= Seq::<HandlerFuncType<H>>::empty());
        }
    }
    if r is Ok {
        let k = interpreted_method(method).unwrap();
        let f = HandlerFuncType { method: k, handler };
        let s = mid[uri];
        assert(after[uri] == s.push(f));
        lemma_first_with_method_push(s, f);
        if u == uri && k != m {
            lemma_first_with_method_push_other(s, f, m);
            lemma_first_with_method_bounds(s, m);
        }
    }
}

/// A middleware registered for `uri` runs after the ones registered before
/// it, for every request to `uri` whatever its method, and the middlewares of
/// other uris are unchanged: what a successful `add_middleware_handler` leaves
/// gives this `dispatch_plan`.
pub proof fn lemma_added_middleware_runs_last<H>(
    before: Map<Seq<char>, Seq<HandlerFuncType<H>>>,
    uri: Seq<char>,
    handler: H,
    after: Map<Seq<char>, Seq<HandlerFuncType<H>>>,
    other: Seq<char>,
)
    requires
        after == registered(before, uri).insert(
            uri,
            registered(before, uri)[uri].push(HandlerFuncType { method: HttpMethods::NEXT, handler }),
        ),
    ensures
        middlewares_of(after, uri) == middlewares_of(before, uri).push(handler),
        other != uri ==> middlewares_of(after, other) == middlewares_of(before, other),
{
    let mid = registered(before, uri);
    let f = HandlerFuncType { method: HttpMethods::NEXT, handler };
    assert(mid[uri].map_values(|e: HandlerFuncType<H>| e.handler) =~= middlewares_of(before, uri));
    assert(mid[uri].push(f).map_values(|e: HandlerFuncType<H>| e.handler) =~= mid[uri].map_values(
        |e: HandlerFuncType<H>| e.handler,
    ).push(handler));
    if other != uri {
        assert(after.contains_key(other) == before.contains_key(other));
    }
}

} // verus!
