use crate::types::error_types::capacity_result::CapacityResult;
use crate::types::error_types::internal_server_error::{InternalServerError, ServerErrorView};
use crate::utils::constants;
use vstd::prelude::*;
use vstd::std_specs::cmp::PartialEqSpec;

verus! {

/// The error of adding to a full `CapacityArray`.
pub open spec fn capacity_full_error() -> ServerErrorView {
    ServerErrorView::AppenedDataError("CapcityArray"@, "max capacity has been reached"@)
}

/// What `add_element` leaves in an array holding `a`: `e` is appended unless
/// the array holds exactly `limit` elements.
pub open spec fn add_bounded<T>(a: Seq<T>, e: T, limit: nat) -> Seq<T> {
    if a.len() == limit {
        a
    } else {
        a.push(e)
    }
}

/// What `populate` leaves: each value of `vals` offered to `add_element` in turn.
pub open spec fn populated<T>(a: Seq<T>, vals: Seq<T>, limit: nat) -> Seq<T>
    decreases vals.len(),
{
    if vals.len() == 0 {
        a
    } else {
        populated(add_bounded(a, vals[0], limit), vals.drop_first(), limit)
    }
}

/// The index of the first element of `s` that equals `e` by `PartialEq`.
pub open spec fn first_equal<T: PartialEq>(s: Seq<T>, e: T) -> Option<int>
    decreases s.len(),
{
    if s.len() == 0 {
        None
    } else if s[0].eq_spec(&e) {
        Some(0)
    } else {
        match first_equal(s.drop_first(), e) {
            Some(i) => Some(i + 1),
            None => None,
        }
    }
}

/// The size at which `add_element` stops growing any array: the larger of
/// the middleware and handler limits.
pub open spec fn fallback_limit() -> nat {
    if constants::MIDDLEWARE_LIMIT > constants::HANDLER_LIMIT {
        constants::MIDDLEWARE_LIMIT as nat
    } else {
        constants::HANDLER_LIMIT as nat
    }
}

#[derive(Debug, Clone)]
pub struct CapacityArray<T: PartialEq + Copy + Clone> {
    pub array: Vec<T>,
}

impl<T: PartialEq + Copy + Clone> View for CapacityArray<T> {
    type V = Seq<T>;

    /// The elements, in the order they were added.
    open spec fn view(&self) -> Seq<T> {
        self.array@
    }
}

impl<T: PartialEq + Copy + Clone> CapacityArray<T> {
    /// The limit `add_element` checks against.
    fn capacity_limit() -> (r: usize)
        ensures
            r == fallback_limit(),
    {
        if constants::MIDDLEWARE_LIMIT > constants::HANDLER_LIMIT {
            constants::MIDDLEWARE_LIMIT
        } else {
            constants::HANDLER_LIMIT
        }
    }

    /// An empty array; `cap` only sets how much room is reserved.
    pub fn new(cap: Option<usize>) -> (r: CapacityArray<T>)
        ensures
            r@ == Seq::<T>::empty(),
    {
        let max_cap = match cap {
            Some(c) => c,
            // middleware limit should be the default because it should always be larger than the
            // http handler limit
            None => constants::MIDDLEWARE_LIMIT,
        };
        let v = Vec::with_capacity(max_cap);
        CapacityArray { array: v }
    }

    /// A copy of the array, with the same elements.
    pub fn duplicate(&self) -> (r: CapacityArray<T>)
        ensures
            r@ == self@,
    {
        let n = self.array.len();
        let mut v: Vec<T> = Vec::with_capacity(n);
        let mut i: usize = 0;
        while i < n
            invariant
                n == self.array@.len(),
                i <= n,
                v@ == self.array@.take(i as int),
            decreases n - i,
        {
            v.push(self.array[i]);
            i = i + 1;
            assert(v@ =~= self.array@.take(i as int));
        }
        assert(self.array@.take(n as int) =~= self.array@);
        CapacityArray { array: v }
    }

    /// method to add whole vec to the capacity array
    pub fn populate(self, values: Vec<T>) -> (r: Self)
        ensures
            r@ == populated(self@, values@, fallback_limit()),
    {
        let mut this = self;
        let ghost start = this.array@;
        let ghost lim = fallback_limit();
        let n = values.len();
        let mut i: usize = 0;
        assert(values@.skip(0) =~= values@);
        while i < n
            invariant
                n == values@.len(),
                i <= n,
                lim == fallback_limit(),
                populated(start, values@, lim) == populated(this.array@, values@.skip(i as int), lim),
            decreases n - i,
        {
            assert(values@.skip(i as int).drop_first() =~= values@.skip(i + 1));
            let _ = this.add_element(values[i]);
            i = i + 1;
        }
        assert(values@.skip(n as int) =~= Seq::<T>::empty());
        this
    }

    /// adds element to the capacity array, will check against the fall back limit
    /// so check for apporiate size before calling this fucntion
    pub fn add_element(&mut self, element: T) -> (r: CapacityResult)
        ensures
            final(self)@ == add_bounded(old(self)@, element, fallback_limit()),
            r is Ok <==> old(self)@.len() != fallback_limit(),
            r matches Err(e) ==> e@ == capacity_full_error(),
    {
        if self.array.len() == Self::capacity_limit() {
            Err(InternalServerError::AppenedDataError(
                String::from_str("CapcityArray"),
                String::from_str("max capacity has been reached"),
            ))
        } else {
            self.array.push(element);
            Ok(())
        }
    }

    /// exposes the underlying data in the vec
    pub fn expose(&self) -> (r: &[T])
        ensures
            r@ == self@,
    {
        return self.array.as_slice();
    }

    /// will return a result of if the item was in the array, error if element not found
    /// ok will be the element
    pub fn get(&self, element: &T) -> (r: Option<&T>)
        ensures
            r matches Some(x) ==> self@.contains(*x),
            T::obeys_eq_spec() ==> match first_equal(self@, *element) {
                Some(i) => r == Some(&self@[i]),
                None => r is None,
            },
    {
        let n = self.array.len();
        let mut i: usize = 0;
        assert(self.array@.skip(0) =~= self.array@);
        while i < n
            invariant
                n == self.array@.len(),
                i <= n,
                T::obeys_eq_spec() ==> match first_equal(self.array@, *element) {
                    Some(j) => match first_equal(self.array@.skip(i as int), *element) {
                        Some(k) => j == k + i,
                        None => false,
                    },
                    None => first_equal(self.array@.skip(i as int), *element) is None,
                },
            decreases n - i,
        {
            let val = &self.array[i];
            assert(self.array@.skip(i as int).drop_first() =~= self.array@.skip(i + 1));
            if val == element {
                assert(self.array@.contains(*val)) by {
                    assert(self.array@[i as int] == *val);
                }
                return Some(val);
            }
            i = i + 1;
        }
        None
    }

    pub fn len(&self) -> (r: usize)
        ensures
            r == self@.len(),
    {
        self.array.len()
    }
}

/// An array filled only through `add_element` never holds more than its
/// limit: `populate` keeps the elements already there, in front, and stops
/// growing at the limit.
pub proof fn lemma_populated_within_limit<T>(a: Seq<T>, vals: Seq<T>, limit: nat)
    requires
        a.len() <= limit,
    ensures
        populated(a, vals, limit).len() <= limit,
        populated(a, vals, limit).len() >= a.len(),
        populated(a, vals, limit).take(a.len() as int) == a,
    decreases vals.len(),
{
    if vals.len() > 0 {
        let b = add_bounded(a, vals[0], limit);
        lemma_populated_within_limit(b, vals.drop_first(), limit);
        assert(b.take(a.len() as int) =~= a);
        assert(populated(a, vals, limit).take(a.len() as int) =~= b.take(a.len() as int));
    }
}

} // verus!
