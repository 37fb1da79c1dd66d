//! Text helpers used by the request parser and the response builder,
//! each stated over the character sequence that a string views as.
use vstd::prelude::*;
use vstd::std_specs::iter::IteratorSpec;
use vstd::utf8::{decode_utf8, valid_utf8};

verus! {

broadcast use vstd::string::group_string_axioms;

/// The character of a decimal digit.
pub open spec fn digit_char(d: nat) -> char {
    if d == 0 { '0' }
    else if d == 1 { '1' }
    else if d == 2 { '2' }
    else if d == 3 { '3' }
    else if d == 4 { '4' }
    else if d == 5 { '5' }
    else if d == 6 { '6' }
    else if d == 7 { '7' }
    else if d == 8 { '8' }
    else { '9' }
}

/// The decimal notation of a natural number, without leading zeros.
pub open spec fn decimal(n: nat) -> Seq<char>
    decreases n,
{
    if n < 10 {
        seq![digit_char(n)]
    } else {
        decimal(n / 10) + seq![digit_char(n % 10)]
    }
}

fn digit_str(d: usize) -> (s: &'static str)
    requires
        d < 10,
    ensures
        s@ == seq![digit_char(d as nat)],
{
    proof {
        reveal_strlit("0");
        reveal_strlit("1");
        reveal_strlit("2");
        reveal_strlit("3");
        reveal_strlit("4");
        reveal_strlit("5");
        reveal_strlit("6");
        reveal_strlit("7");
        reveal_strlit("8");
        reveal_strlit("9");
    }
    if d == 0 { "0" }
    else if d == 1 { "1" }
    else if d == 2 { "2" }
    else if d == 3 { "3" }
    else if d == 4 { "4" }
    else if d == 5 { "5" }
    else if d == 6 { "6" }
    else if d == 7 { "7" }
    else if d == 8 { "8" }
    else { "9" }
}

/// Writes `n` in decimal, as `format!("{}", n)` does.
pub fn decimal_string(n: usize) -> (s: String)
    ensures
        s@ == decimal(n as nat),
    decreases n,
{
    if n < 10 {
        String::from_str(digit_str(n))
    } else {
        let mut s = decimal_string(n / 10);
        s.append(digit_str(n % 10));
        s
    }
}

/// Compares two strings character by character.
pub fn str_eq(a: &str, b: &str) -> (r: bool)
    ensures
        r == (a@ == b@),
{
    let x = chars_of(a);
    let y = chars_of(b);
    let n = x.len();
    if n != y.len() {
        return false;
    }
    let mut i: usize = 0;
    while i < n
        invariant
            x@ == a@,
            y@ == b@,
            n == a@.len(),
            n == b@.len(),
            i <= n,
            forall|j: int| 0 <= j < i ==> a@[j] == b@[j],
        decreases n - i,
    {
        if x[i] != y[i] {
            return false;
        }
        i = i + 1;
    }
    assert(a@ =~= b@);
    true
}

/// The characters of a string, collected into a vector.
pub fn chars_of(s: &str) -> (v: Vec<char>)
    ensures
        v@ == s@,
{
    let mut it = s.chars();
    let mut v: Vec<char> = Vec::new();
    loop
        invariant
            it.obeys_prophetic_iter_laws(),
            v@ + it.remaining() == s@,
        decreases s@.len() - v@.len(),
    {
        match it.next() {
            Some(c) => {
                v.push(c);
                assert(v@ + it.remaining() =~= s@);
            },
            None => {
                assert(v@ =~= s@);
                return v;
            },
        }
    }
}

/// `sep` occurs in `s` starting at position `i`.
pub open spec fn occurs_at(s: Seq<char>, sep: Seq<char>, i: int) -> bool {
    0 <= i && i + sep.len() <= s.len() && s.subrange(i, i + sep.len()) == sep
}

/// The first position at or after `from` where `sep` occurs in `s`.
pub open spec fn find_from(s: Seq<char>, sep: Seq<char>, from: int) -> Option<int>
    decreases s.len() - from,
{
    if from < 0 || from + sep.len() > s.len() {
        None
    } else if occurs_at(s, sep, from) {
        Some(from)
    } else {
        proof {
            if sep.len() == 0 {
                assert(s.subrange(from, from) =~= sep);
            }
        }
        find_from(s, sep, from + 1)
    }
}

pub proof fn lemma_find_from_bounds(s: Seq<char>, sep: Seq<char>, from: int)
    requires
        0 <= from,
    ensures
        find_from(s, sep, from) matches Some(i) ==> from <= i && occurs_at(s, sep, i),
        find_from(s, sep, from) matches Some(i) ==> forall|j: int| from <= j < i ==> !occurs_at(s, sep, j),
        find_from(s, sep, from) is None ==> forall|j: int| from <= j ==> !occurs_at(s, sep, j),
    decreases s.len() - from,
{
    if from + sep.len() > s.len() {
    } else if occurs_at(s, sep, from) {
    } else {
        if sep.len() == 0 {
            assert(s.subrange(from, from) =~= sep);
        }
        lemma_find_from_bounds(s, sep, from + 1);
    }
}

/// Skipping positions where `sep` does not occur does not change the next match.
proof fn lemma_find_from_skip(s: Seq<char>, sep: Seq<char>, start: int, i: int)
    requires
        0 <= start <= i,
        forall|j: int| start <= j < i ==> !occurs_at(s, sep, j),
    ensures
        find_from(s, sep, start) == find_from(s, sep, i),
    decreases i - start,
{
    if start < i {
        lemma_find_from_skip(s, sep, start + 1, i);
        if start + sep.len() > s.len() {
            assert(i + sep.len() > s.len());
        }
    }
}

/// The pieces of `s[start..]` between the occurrences of `sep`, left to right.
pub open spec fn split_from(s: Seq<char>, sep: Seq<char>, start: int) -> Seq<Seq<char>>
    decreases s.len() - start,
{
    if sep.len() == 0 || start < 0 || start > s.len() {
        seq![]
    } else {
        match find_from(s, sep, start) {
            Some(i) => {
                proof {
                    lemma_find_from_bounds(s, sep, start);
                }
                seq![s.subrange(start, i)] + split_from(s, sep, i + sep.len())
            },
            None => seq![s.subrange(start, s.len() as int)],
        }
    }
}

/// The pieces of `s` between the occurrences of a non-empty `sep`,
/// as `str::split` gives them.
pub open spec fn split(s: Seq<char>, sep: Seq<char>) -> Seq<Seq<char>> {
    split_from(s, sep, 0)
}

fn occurs_at_exec(cs: &Vec<char>, ps: &Vec<char>, i: usize) -> (r: bool)
    requires
        i + ps@.len() <= cs@.len(),
    ensures
        r == occurs_at(cs@, ps@, i as int),
{
    let k = ps.len();
    let mut j: usize = 0;
    while j < k
        invariant
            k == ps@.len(),
            i + k <= cs.len(),
            j <= k,
            forall|t: int| 0 <= t < j ==> cs@[i + t] == ps@[t],
        decreases k - j,
    {
        if cs[i + j] != ps[j] {
            assert(cs@.subrange(i as int, i + k)[j as int] != ps@[j as int]);
            return false;
        }
        j = j + 1;
    }
    assert(cs@.subrange(i as int, i + k) =~= ps@);
    true
}

/// The first occurrence of `sep` in `s` at or after `from`, computed over
/// the characters of both.
fn find_exec(cs: &Vec<char>, ps: &Vec<char>, from: usize) -> (r: Option<usize>)
    requires
        from <= cs@.len(),
        ps@.len() > 0,
    ensures
        r matches Some(i) ==> find_from(cs@, ps@, from as int) == Some(i as int),
        r is None ==> find_from(cs@, ps@, from as int) is None,
{
    let n = cs.len();
    let k = ps.len();
    let mut i = from;
    while k <= n && i <= n - k
        invariant
            n == cs@.len(),
            k == ps@.len(),
            k > 0,
            from <= i,
            forall|j: int| from <= j < i ==> !occurs_at(cs@, ps@, j),
        decreases n - i,
    {
        if occurs_at_exec(cs, ps, i) {
            proof {
                lemma_find_from_skip(cs@, ps@, from as int, i as int);
            }
            return Some(i);
        }
        i = i + 1;
    }
    proof {
        lemma_find_from_skip(cs@, ps@, from as int, i as int);
    }
    None
}

/// Splits `s` at every occurrence of the non-empty `sep`, as `str::split` does.
pub fn split_str<'a>(s: &'a str, sep: &str) -> (pieces: Vec<&'a str>)
    requires
        sep@.len() > 0,
    ensures
        pieces@.len() == split(s@, sep@).len(),
        forall|i: int| 0 <= i < pieces@.len() ==> #[trigger] pieces@[i]@ == split(s@, sep@)[i],
{
    let cs = chars_of(s);
    let ps = chars_of(sep);
    let n = cs.len();
    let mut pieces: Vec<&'a str> = Vec::new();
    let mut start: usize = 0;
    loop
        invariant
            n == s@.len(),
            cs@ == s@,
            ps@ == sep@,
            sep@.len() > 0,
            start <= n,
            pieces@.len() + split_from(s@, sep@, start as int).len() == split(s@, sep@).len(),
            forall|i: int| 0 <= i < pieces@.len() ==> #[trigger] pieces@[i]@ == split(s@, sep@)[i],
            forall|i: int| 0 <= i < split_from(s@, sep@, start as int).len()
                ==> split_from(s@, sep@, start as int)[i] == split(s@, sep@)[pieces@.len() + i],
        decreases n - start,
    {
        match find_exec(&cs, &ps, start) {
            Some(i) => {
                proof {
                    lemma_find_from_bounds(s@, sep@, start as int);
                }
                let ghost rest = split_from(s@, sep@, start as int);
                assert(rest[0] == s@.subrange(start as int, i as int));
                let piece = s.substring_char(start, i);
                pieces.push(piece);
                start = i + ps.len();
                assert forall|t: int| 0 <= t < split_from(s@, sep@, start as int).len()
                    implies split_from(s@, sep@, start as int)[t] == split(s@, sep@)[pieces@.len() + t] by {
                    assert(split_from(s@, sep@, start as int)[t] == rest[t + 1]);
                }
                assert forall|t: int| 0 <= t < pieces@.len() implies #[trigger] pieces@[t]@ == split(s@, sep@)[t] by {
                    if t == pieces@.len() - 1 {
                        assert(rest[0] == split(s@, sep@)[t]);
                    }
                }
            },
            None => {
                let ghost rest = split_from(s@, sep@, start as int);
                assert(rest.len() == 1);
                assert(rest[0] == split(s@, sep@)[pieces@.len() as int]);
                let piece = s.substring_char(start, n);
                pieces.push(piece);
                return pieces;
            },
        }
    }
}

/// Splits `s` at the first occurrence of the non-empty `sep`, as `str::split_once` does.
pub fn split_once_str<'a>(s: &'a str, sep: &str) -> (r: Option<(&'a str, &'a str)>)
    requires
        sep@.len() > 0,
    ensures
        match find_from(s@, sep@, 0) {
            Some(i) => r matches Some((a, b)) && a@ == s@.subrange(0, i) && b@ == s@.subrange(
                i + sep@.len(),
                s@.len() as int,
            ),
            None => r is None,
        },
{
    let cs = chars_of(s);
    let ps = chars_of(sep);
    let n = cs.len();
    let k = ps.len();
    match find_exec(&cs, &ps, 0) {
        Some(i) => {
            proof {
                lemma_find_from_bounds(s@, sep@, 0);
                assert(find_from(s@, sep@, 0) == Some(i as int));
                assert(occurs_at(cs@, ps@, i as int));
                assert(i + k <= n);
            }
            let a = s.substring_char(0, i);
            let b = s.substring_char(i + k, n);
            Some((a, b))
        },
        None => None,
    }
}

/// Whether `s` begins with the character `c`.
pub fn starts_with_char(s: &str, c: char) -> (r: bool)
    ensures
        r == (s@.len() > 0 && s@[0] == c),
{
    let n = s.unicode_len();
    n > 0 && s.get_char(0) == c
}

/// Whether `s` ends with the character `c`.
pub fn ends_with_char(s: &str, c: char) -> (r: bool)
    ensures
        r == (s@.len() > 0 && s@[s@.len() - 1] == c),
{
    let n = s.unicode_len();
    n > 0 && s.get_char(n - 1) == c
}


/// The upper-case form that `str::to_uppercase` gives a string: Unicode's
/// full case mapping, which can change the length of the text.
pub uninterp spec fn unicode_uppercase(s: Seq<char>) -> Seq<char>;

/// ASCII upper-casing: `a`..`z` become `A`..`Z`, every other character stays.
pub open spec fn ascii_uppercase(s: Seq<char>) -> Seq<char> {
    s.map_values(|c: char| if 'a' <= c && c <= 'z' { ((c as u32) - 32) as char } else { c })
}

/// Calls `str::to_uppercase`. The contract claims that the result is a
/// function of the text alone (named `unicode_uppercase`), and that on ASCII
/// text it maps `a`..`z` to `A`..`Z` and keeps every other character, as
/// Unicode's case mapping does for ASCII. What it does to other characters
/// (such as `ß` becoming `SS`) is left unsaid.
#[verifier::external_body]
pub(crate) fn to_uppercase(s: &str) -> (r: String)
    ensures
        r@ == unicode_uppercase(s@),
        vstd::utf8::is_ascii_chars(s@) ==> r@ == ascii_uppercase(s@),
{
    s.to_uppercase()
}

/// Splitting at a non-empty separator gives at least one piece.
pub proof fn lemma_split_nonempty(s: Seq<char>, sep: Seq<char>)
    requires
        sep.len() > 0,
    ensures
        split(s, sep).len() >= 1,
{
    match find_from(s, sep, 0) {
        Some(i) => {
            lemma_find_from_bounds(s, sep, 0);
        },
        None => {},
    }
}

/// Searching a suffix of `s` finds the same occurrences, shifted.
proof fn lemma_find_from_shift(s: Seq<char>, sep: Seq<char>, d: int, from: int)
    requires
        0 <= d <= from,
        d <= s.len(),
    ensures
        match find_from(s, sep, from) {
            Some(i) => find_from(s.skip(d), sep, from - d) == Some(i - d),
            None => find_from(s.skip(d), sep, from - d) is None,
        },
    decreases s.len() - from,
{
    let t = s.skip(d);
    if from + sep.len() > s.len() {
    } else {
        assert(s.subrange(from, from + sep.len()) =~= t.subrange(from - d, from - d + sep.len()));
        if !occurs_at(s, sep, from) {
            if sep.len() == 0 {
                assert(s.subrange(from, from) =~= sep);
            }
            lemma_find_from_shift(s, sep, d, from + 1);
        }
    }
}

/// Splitting from a position is splitting what follows it.
pub proof fn lemma_split_from_shift(s: Seq<char>, sep: Seq<char>, start: int)
    requires
        sep.len() > 0,
        0 <= start <= s.len(),
    ensures
        split_from(s, sep, start) == split(s.skip(start), sep),
    decreases s.len() - start,
{
    let t = s.skip(start);
    lemma_find_from_shift(s, sep, start, start);
    lemma_find_from_bounds(s, sep, start);
    match find_from(s, sep, start) {
        Some(i) => {
            let k = i - start + sep.len();
            lemma_split_from_shift(s, sep, i + sep.len());
            lemma_split_from_shift(t, sep, k);
            assert(t.skip(k) =~= s.skip(i + sep.len()));
            assert(t.subrange(0, i - start) =~= s.subrange(start, i));
        },
        None => {
            assert(t.subrange(0, t.len() as int) =~= s.subrange(start, s.len() as int));
        },
    }
}

/// A text in which `sep` does not occur is one piece.
pub proof fn lemma_split_single(s: Seq<char>, sep: Seq<char>)
    requires
        sep.len() > 0,
        forall|p: int| 0 <= p ==> !occurs_at(s, sep, p),
    ensures
        split(s, sep) == seq![s],
{
    lemma_find_from_bounds(s, sep, 0);
    assert(s.subrange(0, s.len() as int) =~= s);
}

/// Splitting `a`, the separator, then `b`, where the first occurrence of the
/// separator is the one after `a`, gives `a` and then the pieces of `b`.
pub proof fn lemma_split_cons(a: Seq<char>, sep: Seq<char>, b: Seq<char>)
    requires
        sep.len() > 0,
        forall|p: int| 0 <= p < a.len() ==> !occurs_at(a + sep + b, sep, p),
    ensures
        split(a + sep + b, sep) == seq![a] + split(b, sep),
{
    let s = a + sep + b;
    assert(s.subrange(a.len() as int, (a.len() + sep.len()) as int) =~= sep);
    lemma_find_from_skip(s, sep, 0, a.len() as int);
    assert(find_from(s, sep, a.len() as int) == Some(a.len() as int));
    lemma_split_from_shift(s, sep, (a.len() + sep.len()) as int);
    assert(s.skip((a.len() + sep.len()) as int) =~= b);
    assert(s.subrange(0, a.len() as int) =~= a);
}

/// `sep` cannot occur where `s` does not hold its first character.
pub proof fn lemma_no_occurrence_without_first(s: Seq<char>, sep: Seq<char>, p: int)
    requires
        sep.len() > 0,
        0 <= p < s.len(),
        s[p] != sep[0],
    ensures
        !occurs_at(s, sep, p),
{
    if occurs_at(s, sep, p) {
        assert(s.subrange(p, p + sep.len())[0] == s[p]);
    }
}

/// Calls `String::from_utf8`. The contract claims that it succeeds exactly on
/// valid UTF-8 bytes (vstd's `valid_utf8`) and that the text it gives is the
/// one those bytes encode (vstd's `decode_utf8`); the error is dropped.
#[verifier::external_body]
pub(crate) fn string_from_utf8(b: Vec<u8>) -> (r: Option<String>)
    ensures
        r is Some <==> valid_utf8(b@),
        r matches Some(s) ==> s@ == decode_utf8(b@),
{
    String::from_utf8(b).ok()
}

} // verus!
