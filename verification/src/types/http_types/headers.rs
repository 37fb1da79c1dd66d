use crate::utils::text::str_eq;
use vstd::prelude::*;

verus! {

/// The views of the name-value pairs, in order.
pub open spec fn pairs_view(entries: Seq<(String, String)>) -> Seq<(Seq<char>, Seq<char>)> {
    entries.map_values(|p: (String, String)| (p.0@, p.1@))
}

/// No name occurs twice.
pub open spec fn names_distinct(s: Seq<(Seq<char>, Seq<char>)>) -> bool {
    forall|i: int, j: int| 0 <= i < j < s.len() ==> #[trigger] s[i].0 != #[trigger] s[j].0
}

/// The position of the pair named `name`.
pub open spec fn position_of(s: Seq<(Seq<char>, Seq<char>)>, name: Seq<char>) -> Option<int> {
    if exists|i: int| 0 <= i < s.len() && #[trigger] s[i].0 == name {
        Some(choose|i: int| 0 <= i < s.len() && #[trigger] s[i].0 == name)
    } else {
        None
    }
}

/// The value stored under `name`.
pub open spec fn value_of(s: Seq<(Seq<char>, Seq<char>)>, name: Seq<char>) -> Option<Seq<char>> {
    match position_of(s, name) {
        Some(i) => Some(s[i].1),
        None => None,
    }
}

/// `s` with `value` stored under `name`: the pair keeps its place if the name
/// is present, and is added at the end if not.
pub open spec fn with_header(
    s: Seq<(Seq<char>, Seq<char>)>,
    name: Seq<char>,
    value: Seq<char>,
) -> Seq<(Seq<char>, Seq<char>)> {
    match position_of(s, name) {
        Some(i) => s.update(i, (name, value)),
        None => s.push((name, value)),
    }
}

/// The header fields of a response: a map from names to values, each name
/// once, kept in the order the names were first set.
#[derive(Debug)]
pub struct Headers {
    entries: Vec<(String, String)>,
}

impl View for Headers {
    type V = Seq<(Seq<char>, Seq<char>)>;

    closed spec fn view(&self) -> Seq<(Seq<char>, Seq<char>)> {
        pairs_view(self.entries@)
    }
}

impl Headers {
    /// No name occurs twice: every `Headers` value keeps this.
    #[verifier::type_invariant]
    pub open spec fn unique_names(&self) -> bool {
        names_distinct(self@)
    }

    pub fn new() -> (r: Headers)
        ensures
            r@ == Seq::<(Seq<char>, Seq<char>)>::empty(),
    {
        let r = Headers { entries: Vec::new() };
        assert(r@ =~= Seq::<(Seq<char>, Seq<char>)>::empty());
        r
    }

    /// The number of header fields.
    pub fn len(&self) -> (r: usize)
        ensures
            r == self@.len(),
    {
        self.entries.len()
    }

    fn find(&self, name: &str) -> (r: Option<usize>)
        ensures
            match r {
                Some(i) => i < self@.len() && self@[i as int].0 == name@ && position_of(self@, name@) == Some(i as int),
                None => position_of(self@, name@) is None,
            },
    {
        proof {
            use_type_invariant(self);
        }
        let n = self.entries.len();
        let mut i: usize = 0;
        while i < n
            invariant
                n == self@.len(),
                n == self.entries@.len(),
                self@ == pairs_view(self.entries@),
                names_distinct(self@),
                i <= n,
                forall|j: int| 0 <= j < i ==> #[trigger] self@[j].0 != name@,
            decreases n - i,
        {
            if str_eq(self.entries[i].0.as_str(), name) {
                assert(self@[i as int].0 == name@);
                return Some(i);
            }
            i = i + 1;
        }
        None
    }

    /// The value stored under `name`.
    pub fn get(&self, name: &str) -> (r: Option<&String>)
        ensures
            match value_of(self@, name@) {
                Some(v) => r matches Some(s) && s@ == v,
                None => r is None,
            },
    {
        match self.find(name) {
            Some(i) => Some(&self.entries[i].1),
            None => None,
        }
    }

    /// Whether a value is stored under `name`.
    pub fn contains_key(&self, name: &str) -> (r: bool)
        ensures
            r == (value_of(self@, name@) is Some),
    {
        self.find(name).is_some()
    }

    /// Stores `value` under `name`, replacing what was stored there.
    pub fn insert(&mut self, name: String, value: String)
        ensures
            final(self)@ == with_header(old(self)@, name@, value@),
            names_distinct(final(self)@),
    {
        let found = self.find(name.as_str());
        proof {
            use_type_invariant(&*self);
        }
        let mut entries: Vec<(String, String)> = Vec::new();
        std::mem::swap(&mut entries, &mut self.entries);
        let ghost before = pairs_view(entries@);
        match found {
            Some(i) => {
                entries.set(i, (name, value));
                assert(pairs_view(entries@) =~= before.update(i as int, (name@, value@)));
            },
            None => {
                entries.push((name, value));
                assert(pairs_view(entries@) =~= before.push((name@, value@)));
            },
        }
        self.entries = entries;
        proof {
            use_type_invariant(&*self);
        }
    }

    /// The pair at position `i`.
    pub fn entry(&self, i: usize) -> (r: (&String, &String))
        requires
            i < self@.len(),
        ensures
            r.0@ == self@[i as int].0,
            r.1@ == self@[i as int].1,
    {
        let p = &self.entries[i];
        (&p.0, &p.1)
    }
}

/// Reading a header back after setting it: the value just set is found under
/// its name, every other name keeps its value, and no name occurs twice.
pub proof fn lemma_header_read_after_write(
    s: Seq<(Seq<char>, Seq<char>)>,
    name: Seq<char>,
    value: Seq<char>,
    other: Seq<char>,
)
    requires
        names_distinct(s),
    ensures
        names_distinct(with_header(s, name, value)),
        value_of(with_header(s, name, value), name) == Some(value),
        other != name ==> value_of(with_header(s, name, value), other) == value_of(s, other),
{
    let t = with_header(s, name, value);
    match position_of(s, name) {
        Some(i) => {
            assert(s[i].0 == name);
            assert(t[i].0 == name);
        },
        None => {
            assert(t[s.len() as int].0 == name);
        },
    }
    assert(names_distinct(t)) by {
        assert forall|i: int, j: int| 0 <= i < j < t.len() implies #[trigger] t[i].0 != #[trigger] t[j].0 by {
            match position_of(s, name) {
                Some(p) => {
                    if i != p && j != p {
                        assert(s[i].0 != s[j].0);
                    } else if i == p {
                        assert(s[j].0 != s[p].0);
                    } else {
                        assert(s[i].0 != s[p].0);
                    }
                },
                None => {
                    if j == s.len() {
                        assert(s[i].0 != name);
                    } else {
                        assert(s[i].0 != s[j].0);
                    }
                },
            }
        }
    }
    let k = choose|k: int| 0 <= k < t.len() && #[trigger] t[k].0 == name;
    assert(t[k].1 == value) by {
        match position_of(s, name) {
            Some(p) => {
                if k != p {
                    assert(t[k].0 != t[p].0);
                }
            },
            None => {
                if k != s.len() {
                    assert(t[k].0 != t[s.len() as int].0);
                }
            },
        }
    }
    if other != name {
        if exists|i: int| 0 <= i < s.len() && #[trigger] s[i].0 == other {
            let a = choose|i: int| 0 <= i < s.len() && #[trigger] s[i].0 == other;
            assert(t[a].0 == other);
            let b = choose|i: int| 0 <= i < t.len() && #[trigger] t[i].0 == other;
            if a != b {
                assert(t[a].0 != t[b].0);
            }
        } else {
            if exists|i: int| 0 <= i < t.len() && #[trigger] t[i].0 == other {
                let b = choose|i: int| 0 <= i < t.len() && #[trigger] t[i].0 == other;
                match position_of(s, name) {
                    Some(p) => {
                        if b != p {
                            assert(s[b].0 == other);
                        }
                    },
                    None => {
                        if b != s.len() {
                            assert(s[b].0 == other);
                        }
                    },
                }
            }
        }
    }
}

} // verus!
