use super::capacity_array::{capacity_full_error, fallback_limit, CapacityArray};
use super::handler_func_type::HandlerFuncType;
use crate::types::error_types::hashmap_result::HashMapResult;
use crate::types::error_types::internal_server_error::{InternalServerError, ServerErrorView};
use crate::utils::constants;
use crate::utils::https_methods::{interpreted_method, invalid_method_error, HttpMethods};
use crate::utils::text::str_eq;
use vstd::hash_map::StringHashMap;
use vstd::prelude::*;

verus! {

/// The index of the first entry of `s` that serves `m`.
pub open spec fn first_with_method<H>(s: Seq<HandlerFuncType<H>>, m: HttpMethods) -> Option<int>
    decreases s.len(),
{
    if s.len() == 0 {
        None
    } else if s[0].method == m {
        Some(0)
    } else {
        match first_with_method(s.drop_first(), m) {
            Some(i) => Some(i + 1),
            None => None,
        }
    }
}

/// The entry `get(uri, m)` finds in `routes`: the first of `uri` serving `m`.
pub open spec fn lookup<H>(
    routes: Map<Seq<char>, Seq<HandlerFuncType<H>>>,
    uri: Seq<char>,
    m: HttpMethods,
) -> Option<HandlerFuncType<H>> {
    if routes.contains_key(uri) {
        match first_with_method(routes[uri], m) {
            Some(i) => Some(routes[uri][i]),
            None => None,
        }
    } else {
        None
    }
}

/// Some entry of `s` serves `m`.
pub open spec fn has_method<H>(s: Seq<HandlerFuncType<H>>, m: HttpMethods) -> bool {
    exists|i: int| 0 <= i < s.len() && #[trigger] s[i].method == m
}

pub open spec fn next_method_error() -> ServerErrorView {
    ServerErrorView::AppenedDataError(
        "capacity array"@,
        "cannot add `NEXT` to handler array, need to register using `register_middleware` function"@,
    )
}

pub open spec fn unregistered_route_error() -> ServerErrorView {
    ServerErrorView::FatalError("route not registered, use 'add_handler' method to register it"@)
}

pub open spec fn handler_limit_error() -> ServerErrorView {
    ServerErrorView::AppenedDataError("handler to capacity array"@, "max size of array reached"@)
}

pub open spec fn middleware_limit_error() -> ServerErrorView {
    ServerErrorView::AppenedDataError("middleware to capacity array"@, "max size of array reached"@)
}

pub open spec fn invalid_limit_error() -> ServerErrorView {
    ServerErrorView::ConstructError("`CapacityArray`"@, "invalid limit given to the capacity array"@)
}

/// The error is a `RedundentDataError` about the capacity array.
pub open spec fn is_redundant_error(e: ServerErrorView) -> bool {
    e matches ServerErrorView::RedundentDataError(_, place) && place == "capacity array"@
}

/// What `add_handler(uri, method, handler)` does to the routes `before`, giving
/// the routes `after` and the result `r`.
pub open spec fn handler_added<H>(
    before: Map<Seq<char>, Seq<HandlerFuncType<H>>>,
    uri: Seq<char>,
    method: Seq<char>,
    handler: H,
    r: HashMapResult,
    after: Map<Seq<char>, Seq<HandlerFuncType<H>>>,
) -> bool {
    if method == "NEXT"@ {
        after == before && (r matches Err(e) && e@ == next_method_error())
    } else if !before.contains_key(uri) {
        after == before && (r matches Err(e) && e@ == unregistered_route_error())
    } else if before[uri].len() == constants::HANDLER_LIMIT {
        after == before && (r matches Err(e) && e@ == handler_limit_error())
    } else {
        match interpreted_method(method) {
            None => after == before && (r matches Err(e) && e@ == invalid_method_error()),
            Some(m) => if has_method(before[uri], m) {
                after == before && (r matches Err(e) && is_redundant_error(e@))
            } else if before[uri].len() == fallback_limit() {
                after == before && (r matches Err(e) && e@ == capacity_full_error())
            } else {
                r is Ok && after == before.insert(
                    uri,
                    before[uri].push(HandlerFuncType { method: m, handler }),
                )
            },
        }
    }
}

/// What `register_middlerware_handler(uri, handler, limit)` does to the
/// routes `before`, in which `uri` is registered: the middleware is appended
/// unless `uri` already holds `limit` of them.
pub open spec fn middleware_added<H>(
    before: Map<Seq<char>, Seq<HandlerFuncType<H>>>,
    uri: Seq<char>,
    handler: H,
    limit: usize,
    r: HashMapResult,
    after: Map<Seq<char>, Seq<HandlerFuncType<H>>>,
) -> bool {
    if before[uri].len() >= limit {
        after == before && (r matches Err(e) && e@ == middleware_limit_error())
    } else {
        r is Ok && after == before.insert(
            uri,
            before[uri].push(HandlerFuncType { method: HttpMethods::NEXT, handler }),
        )
    }
}

/// Writes an entry with `format!("{:?}", ..)`, through the `Debug` that
/// `derive` wrote for `HandlerFuncType`. Nothing is claimed of the text: it
/// holds the handler, which a function pointer shows as its address.
#[verifier::external_body]
fn debug_text<H: core::fmt::Debug>(f: &HandlerFuncType<H>) -> String {
    format!("{:?}", f)
}

/// this is the map that will hold all of the uris that will map to the handler
/// map[route uri] handler func
#[verifier::reject_recursive_types(H)]
pub struct HandlerMap<H: Copy> {
    map: StringHashMap<CapacityArray<HandlerFuncType<H>>>,
}

impl<H: Copy> View for HandlerMap<H> {
    type V = Map<Seq<char>, Seq<HandlerFuncType<H>>>;

    /// Each registered uri with its entries, in the order they were added.
    closed spec fn view(&self) -> Self::V {
        self.map@.map_values(|a: CapacityArray<HandlerFuncType<H>>| a@)
    }
}

impl<H: Copy> HandlerMap<H> {
    /// Sets the entries of `uri` to `entries`.
    fn store(&mut self, uri: &str, entries: CapacityArray<HandlerFuncType<H>>)
        ensures
            final(self).map@ == old(self).map@.insert(uri@, entries),
    {
        self.map.insert(String::from_str(uri), entries);
    }

    pub fn new() -> (r: HandlerMap<H>)
        ensures
            r@ == Map::<Seq<char>, Seq<HandlerFuncType<H>>>::empty(),
    {
        let r = HandlerMap { map: StringHashMap::new() };
        assert(r@ =~= Map::<Seq<char>, Seq<HandlerFuncType<H>>>::empty());
        r
    }

    /// will get the handler based on the http method and the uri
    #[verifier::loop_isolation(false)]
    pub fn get(&self, uri: &str, method: HttpMethods) -> (r: Option<&HandlerFuncType<H>>)
        ensures
            !self@.contains_key(uri@) ==> r is None,
            self@.contains_key(uri@) ==> match first_with_method(self@[uri@], method) {
                Some(i) => r matches Some(f) && *f == self@[uri@][i],
                None => r is None,
            },
            lookup(self@, uri@, method) == match r {
                Some(f) => Some(*f),
                None => None,
            },
    {
        let cap_array = match self.map.get(uri) {
            Some(a) => a,
            None => {
                assert(!self@.contains_key(uri@));
                return None;
            },
        };
        let entries = cap_array.expose();
        let ghost s = self@[uri@];
        assert(self@.contains_key(uri@));
        assert(s == cap_array@);
        assert(entries@ == s);
        let n = entries.len();
        let mut i: usize = 0;
        assert(s.skip(0) =~= s);
        while i < n
            invariant
                n == s.len(),
                entries@ == s,
                i <= n,
                match first_with_method(s, method) {
                    Some(j) => match first_with_method(s.skip(i as int), method) {
                        Some(k) => j == k + i,
                        None => false,
                    },
                    None => first_with_method(s.skip(i as int), method) is None,
                },
            decreases n - i,
        {
            let f = &entries[i];
            assert(s.skip(i as int).drop_first() =~= s.skip(i + 1));
            if f.method == method {
                return Some(f);
            }
            i = i + 1;
        }
        None
    }

    /// will add the mehtod to the capacity array of the given uri, handler, method
    /// will also convert to the underlying type for the array
    #[verifier::loop_isolation(false)]
    pub fn add_handler(&mut self, uri: &str, method: &str, function: H) -> (r: HashMapResult)
        where H: core::fmt::Debug,
        ensures
            handler_added(old(self)@, uri@, method@, function, r, final(self)@),
    {
        if str_eq(method, "NEXT") {
            return Err(InternalServerError::AppenedDataError(
                String::from_str("capacity array"),
                String::from_str(
                    "cannot add `NEXT` to handler array, need to register using `register_middleware` function",
                ),
            ));
        }
        let cap_array = match self.map.get(uri) {
            Some(a) => a,
            None => {
                assert(!old(self)@.contains_key(uri@));
                // this should never be hit
                return Err(InternalServerError::FatalError(
                    String::from_str("route not registered, use 'add_handler' method to register it"),
                ));
            },
        };
        if cap_array.len() == constants::HANDLER_LIMIT {
            return Err(InternalServerError::AppenedDataError(
                String::from_str("handler to capacity array"),
                String::from_str("max size of array reached"),
            ));
        }
        let f = match HandlerFuncType::new(method, function) {
            Ok(f) => f,
            Err(e) => return Err(e),
        };
        let entries = cap_array.expose();
        let ghost s = old(self)@[uri@];
        assert(s == cap_array@);
        let n = entries.len();
        let mut i: usize = 0;
        while i < n
            invariant
                entries@ == s,
                n == s.len(),
                i <= n,
                forall|j: int| 0 <= j < i ==> s[j].method != f.method,
            decreases n - i,
        {
            if entries[i] == f {
                assert(s[i as int].method == f.method);
                assert(has_method(s, f.method));
                return Err(InternalServerError::RedundentDataError(
                    debug_text(&f),
                    String::from_str("capacity array"),
                ));
            }
            i = i + 1;
        }
        let mut grown = cap_array.duplicate();
        match grown.add_element(f) {
            Ok(()) => {},
            Err(e) => return Err(e),
        }
        self.store(uri, grown);
        assert(self@ =~= old(self)@.insert(uri@, s.push(f)));
        Ok(())
    }

    /// attempts to assign the uri to a capacity array to hold its handlers
    /// limit will be the size of the capacity array,
    /// an already registered uri is left as it is
    pub fn attempt_register_route(&mut self, uri: &str, limit: usize) -> (r: HashMapResult)
        ensures
            old(self)@.contains_key(uri@) ==> r is Ok && final(self)@ == old(self)@,
            !old(self)@.contains_key(uri@) ==> if limit == constants::HANDLER_LIMIT || limit
                == constants::MIDDLEWARE_LIMIT {
                r is Ok && final(self)@ == old(self)@.insert(uri@, Seq::empty())
            } else {
                final(self)@ == old(self)@ && (r matches Err(e) && e@ == invalid_limit_error())
            },
    {
        if !self.map.contains_key(uri) {
            return self.insert_array(uri, limit);
        }
        Ok(())
    }

    fn insert_array(&mut self, uri: &str, limit: usize) -> (r: HashMapResult)
        ensures
            if limit == constants::HANDLER_LIMIT || limit == constants::MIDDLEWARE_LIMIT {
                r is Ok && final(self)@ == old(self)@.insert(uri@, Seq::empty())
            } else {
                final(self)@ == old(self)@ && (r matches Err(e) && e@ == invalid_limit_error())
            },
    {
        let limit = if limit == constants::HANDLER_LIMIT {
            constants::HANDLER_LIMIT
        } else if limit == constants::MIDDLEWARE_LIMIT {
            constants::MIDDLEWARE_LIMIT
        } else {
            return Err(InternalServerError::ConstructError(
                String::from_str("`CapacityArray`"),
                String::from_str("invalid limit given to the capacity array"),
            ));
        };
        self.store(uri, CapacityArray::new(Some(limit)));
        assert(self@ =~= old(self)@.insert(uri@, Seq::empty()));
        Ok(())
    }

    /// add a new handler type to the given uris capacity array
    /// limit is put here to allow for the size to be overridden by the user:
    /// it alone bounds the middlewares of a uri
    /// Error: to many handlers
    pub fn register_middlerware_handler(&mut self, uri: &str, handler: H, limit: usize) -> (r:
        HashMapResult)
        requires
            old(self)@.contains_key(uri@),
        ensures
            middleware_added(old(self)@, uri@, handler, limit, r, final(self)@),
            r is Ok ==> final(self)@[uri@].len() <= limit,
    {
        assert(self.map@.contains_key(uri@));
        let cap_array = self.map.get(uri).unwrap();
        assert(old(self)@[uri@] == cap_array@);
        if cap_array.len() >= limit {
            return Err(InternalServerError::AppenedDataError(
                String::from_str("middleware to capacity array"),
                String::from_str("max size of array reached"),
            ));
        }
        proof {
            reveal_strlit("NEXT");
            crate::utils::https_methods::lemma_method_name_round_trip(HttpMethods::NEXT);
        }
        let f = match HandlerFuncType::new("NEXT", handler) {
            Ok(f) => f,
            Err(e) => return Err(e),
        };
        let mut grown = cap_array.duplicate();
        grown.array.push(f);
        self.store(uri, grown);
        assert(self@ =~= old(self)@.insert(uri@, old(self)@[uri@].push(f)));
        Ok(())
    }

    /// Whether `key` is a registered uri.
    pub fn route_exists(&self, key: &str) -> (r: bool)
        ensures
            r == self@.contains_key(key@),
    {
        match self.map.get(key) {
            Some(_) => true,
            None => false,
        }
    }

    /// returns a slice of the underlying data so operations array opertions can be performed on it
    pub fn as_slice(&self, key: &str) -> (r: Option<&[HandlerFuncType<H>]>)
        ensures
            self@.contains_key(key@) ==> (r matches Some(s) && s@ == self@[key@]),
            !self@.contains_key(key@) ==> r is None,
    {
        match self.map.get(key) {
            Some(t) => Some(t.expose()),
            None => None,
        }
    }
}


/// Every entry of `s` serves a different method.
pub open spec fn methods_distinct<H>(s: Seq<HandlerFuncType<H>>) -> bool {
    forall|i: int, j: int| 0 <= i < j < s.len() ==> #[trigger] s[i].method != #[trigger] s[j].method
}

/// No uri of `routes` has two handlers for one method.
pub open spec fn routes_methods_distinct<H>(routes: Map<Seq<char>, Seq<HandlerFuncType<H>>>) -> bool {
    forall|k: Seq<char>| #[trigger] routes.contains_key(k) ==> methods_distinct(routes[k])
}

/// No uri of `routes` has more than `limit` entries.
pub open spec fn routes_within<H>(routes: Map<Seq<char>, Seq<HandlerFuncType<H>>>, limit: nat) -> bool {
    forall|k: Seq<char>| #[trigger] routes.contains_key(k) ==> routes[k].len() <= limit
}

pub(crate) proof fn lemma_first_with_method_push<H>(s: Seq<HandlerFuncType<H>>, f: HandlerFuncType<H>)
    requires
        !has_method(s, f.method),
    ensures
        first_with_method(s.push(f), f.method) == Some(s.len() as int),
    decreases s.len(),
{
    if s.len() > 0 {
        assert(s[0].method != f.method);
        assert(s.push(f).drop_first() =~= s.drop_first().push(f));
        assert(!has_method(s.drop_first(), f.method)) by {
            if has_method(s.drop_first(), f.method) {
                let i = choose|i: int| 0 <= i < s.drop_first().len() && #[trigger] s.drop_first()[i].method == f.method;
                assert(s[i + 1].method == f.method);
            }
        }
        lemma_first_with_method_push(s.drop_first(), f);
    }
}

/// The position found for `m` is one of `s`, and serves `m`.
pub(crate) proof fn lemma_first_with_method_bounds<H>(s: Seq<HandlerFuncType<H>>, m: HttpMethods)
    ensures
        first_with_method(s, m) matches Some(i) ==> 0 <= i < s.len() && s[i].method == m,
    decreases s.len(),
{
    if s.len() > 0 {
        lemma_first_with_method_bounds(s.drop_first(), m);
    }
}

/// Appending an entry for another method changes nothing that `m` finds.
pub(crate) proof fn lemma_first_with_method_push_other<H>(
    s: Seq<HandlerFuncType<H>>,
    f: HandlerFuncType<H>,
    m: HttpMethods,
)
    requires
        f.method != m,
    ensures
        first_with_method(s.push(f), m) == first_with_method(s, m),
    decreases s.len(),
{
    if s.len() > 0 {
        assert(s.push(f)[0] == s[0]);
        assert(s.push(f).drop_first() =~= s.drop_first().push(f));
        lemma_first_with_method_push_other(s.drop_first(), f, m);
    } else {
        assert(s.push(f)[0] == f);
        assert(s.push(f).drop_first() =~= Seq::<HandlerFuncType<H>>::empty());
        assert(first_with_method(s.push(f).drop_first(), m) is None);
    }
}

/// Reading back a handler just added: once `add_handler(uri, method, h)`
/// succeeds, `get(uri, m)` gives `h`, where `m` is the method `method` names.
pub proof fn lemma_added_handler_is_found<H>(
    before: Map<Seq<char>, Seq<HandlerFuncType<H>>>,
    uri: Seq<char>,
    method: Seq<char>,
    handler: H,
    r: HashMapResult,
    after: Map<Seq<char>, Seq<HandlerFuncType<H>>>,
)
    requires
        handler_added(before, uri, method, handler, r, after),
        r is Ok,
    ensures
        interpreted_method(method) is Some,
        after.contains_key(uri),
        first_with_method(after[uri], interpreted_method(method).unwrap()) matches Some(i) && after[uri][i]
            == (HandlerFuncType { method: interpreted_method(method).unwrap(), handler }),
{
    let m = interpreted_method(method).unwrap();
    let f = HandlerFuncType { method: m, handler };
    lemma_first_with_method_push(before[uri], f);
    assert(after[uri] == before[uri].push(f));
}

/// A uri never gets a second handler for a method: `add_handler` refuses
/// a method the uri already serves, and leaves the routes as they were.
pub proof fn lemma_duplicate_method_refused<H>(
    before: Map<Seq<char>, Seq<HandlerFuncType<H>>>,
    uri: Seq<char>,
    method: Seq<char>,
    handler: H,
    r: HashMapResult,
    after: Map<Seq<char>, Seq<HandlerFuncType<H>>>,
)
    requires
        handler_added(before, uri, method, handler, r, after),
        before.contains_key(uri),
        interpreted_method(method) matches Some(m) && has_method(before[uri], m),
    ensures
        r is Err,
        after == before,
{
}

/// `add_handler` keeps every uri's handlers on distinct methods.
pub proof fn lemma_add_handler_keeps_methods_distinct<H>(
    before: Map<Seq<char>, Seq<HandlerFuncType<H>>>,
    uri: Seq<char>,
    method: Seq<char>,
    handler: H,
    r: HashMapResult,
    after: Map<Seq<char>, Seq<HandlerFuncType<H>>>,
)
    requires
        handler_added(before, uri, method, handler, r, after),
        routes_methods_distinct(before),
    ensures
        routes_methods_distinct(after),
{
    if r is Ok {
        let m = interpreted_method(method).unwrap();
        let s = before[uri];
        let t = s.push(HandlerFuncType { method: m, handler });
        assert(methods_distinct(s));
        assert forall|i: int, j: int| 0 <= i < j < t.len() implies #[trigger] t[i].method
            != #[trigger] t[j].method by {
            if j == s.len() {
                if t[i].method == m {
                    assert(s[i].method == m);
                    assert(has_method(s, m));
                }
            } else {
                assert(s[i].method != s[j].method);
            }
        }
        assert forall|k: Seq<char>| #[trigger] after.contains_key(k) implies methods_distinct(after[k]) by {
            if k != uri {
                assert(before.contains_key(k));
            }
        }
    }
}

/// `add_handler` never gives a uri more than `HANDLER_LIMIT` handlers.
pub proof fn lemma_add_handler_within_limit<H>(
    before: Map<Seq<char>, Seq<HandlerFuncType<H>>>,
    uri: Seq<char>,
    method: Seq<char>,
    handler: H,
    r: HashMapResult,
    after: Map<Seq<char>, Seq<HandlerFuncType<H>>>,
)
    requires
        handler_added(before, uri, method, handler, r, after),
        routes_within(before, constants::HANDLER_LIMIT as nat),
    ensures
        routes_within(after, constants::HANDLER_LIMIT as nat),
{
    assert forall|k: Seq<char>| #[trigger] after.contains_key(k) implies after[k].len()
        <= constants::HANDLER_LIMIT by {
        if k != uri {
            assert(before.contains_key(k));
        }
    }
}

/// `register_middlerware_handler` keeps the middlewares of every uri within
/// `limit`, and adds a new middleware after the ones already there.
pub proof fn lemma_middleware_within_limit<H>(
    before: Map<Seq<char>, Seq<HandlerFuncType<H>>>,
    uri: Seq<char>,
    handler: H,
    limit: usize,
    r: HashMapResult,
    after: Map<Seq<char>, Seq<HandlerFuncType<H>>>,
)
    requires
        before.contains_key(uri),
        middleware_added(before, uri, handler, limit, r, after),
        routes_within(before, limit as nat),
    ensures
        routes_within(after, limit as nat),
        r is Ok ==> after[uri].len() == before[uri].len() + 1 && after[uri].take(before[uri].len() as int)
            == before[uri],
{
    if r is Ok {
        assert(after[uri].take(before[uri].len() as int) =~= before[uri]);
    }
    assert forall|k: Seq<char>| #[trigger] after.contains_key(k) implies after[k].len() <= limit by {
        if k != uri {
            assert(before.contains_key(k));
        }
    }
}

/// A uri takes a handler for each of up to four methods: while it holds
/// fewer than four handlers, one for a method it does not serve yet is
/// accepted, appended, and is what `get(uri, m)` then finds.
pub proof fn lemma_handler_accepted_below_limit<H>(
    before: Map<Seq<char>, Seq<HandlerFuncType<H>>>,
    uri: Seq<char>,
    method: Seq<char>,
    handler: H,
    r: HashMapResult,
    after: Map<Seq<char>, Seq<HandlerFuncType<H>>>,
    m: HttpMethods,
)
    requires
        handler_added(before, uri, method, handler, r, after),
        before.contains_key(uri),
        before[uri].len() < 4,
        method != "NEXT"@,
        interpreted_method(method) == Some(m),
        !has_method(before[uri], m),
    ensures
        r is Ok,
        after[uri] == before[uri].push(HandlerFuncType { method: m, handler }),
        after[uri].len() == before[uri].len() + 1,
        lookup(after, uri, m) == Some(HandlerFuncType { method: m, handler }),
{
    let f = HandlerFuncType { method: m, handler };
    lemma_first_with_method_push(before[uri], f);
}

} // verus!
