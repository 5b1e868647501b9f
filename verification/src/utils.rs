//! Building the query part of a request URL: `key=value` pairs joined by `&`.

use vstd::prelude::*;

use crate::text::{decimal, u64_text};

verus! {

/// A key and the text of its value, as they appear in a query string.
pub type QueryPair = (Seq<char>, Seq<char>);

/// `key=value`.
pub open spec fn pair_text(p: QueryPair) -> Seq<char> {
    p.0 + seq!['='] + p.1
}

/// The query string of a sequence of pairs: each pair as `key=value`, separated by `&`.
pub open spec fn render_query(ps: Seq<QueryPair>) -> Seq<char>
    decreases ps.len(),
{
    if ps.len() == 0 {
        seq![]
    } else if ps.len() == 1 {
        pair_text(ps[0])
    } else {
        render_query(ps.drop_last()) + seq!['&'] + pair_text(ps.last())
    }
}

/// Whether `part` appears in `whole` as consecutive characters.
pub open spec fn occurs_in(part: Seq<char>, whole: Seq<char>) -> bool {
    exists|k: int|
        0 <= k && k + part.len() <= whole.len() && #[trigger] whole.subrange(k, k + part.len())
            == part
}

/// Every pair of a query is written into its query string as `key=value`.
pub proof fn lemma_render_contains(ps: Seq<QueryPair>, i: int)
    requires
        0 <= i < ps.len(),
    ensures
        occurs_in(pair_text(ps[i]), render_query(ps)),
    decreases ps.len(),
{
    let part = pair_text(ps[i]);
    let whole = render_query(ps);
    if ps.len() == 1 {
        let k = 0int;
        assert(whole.subrange(k, k + part.len()) =~= part);
        assert(occurs_in(part, whole));
    } else if i == ps.len() - 1 {
        let head = render_query(ps.drop_last()) + seq!['&'];
        let k = head.len() as int;
        assert(whole == head + part);
        assert(whole.subrange(k, k + part.len()) =~= part);
        assert(occurs_in(part, whole));
    } else {
        lemma_render_contains(ps.drop_last(), i);
        let inner = render_query(ps.drop_last());
        assert(ps.drop_last()[i] == ps[i]);
        let k = choose|k: int|
            0 <= k && k + part.len() <= inner.len() && #[trigger] inner.subrange(k, k + part.len())
                == part;
        assert(whole == inner + seq!['&'] + pair_text(ps.last()));
        assert(whole.subrange(k, k + part.len()) =~= inner.subrange(k, k + part.len()));
        assert(occurs_in(part, whole));
    }
}

/// A pair of the left part of a sequence of pairs is a pair of the whole.
pub broadcast proof fn lemma_pairs_left(a: Seq<QueryPair>, b: Seq<QueryPair>, p: QueryPair)
    requires
        a.contains(p),
    ensures
        #[trigger] (a + b).contains(p),
{
    let i = choose|i: int| 0 <= i < a.len() && a[i] == p;
    assert((a + b)[i] == p);
}

/// A pair of the right part of a sequence of pairs is a pair of the whole.
pub broadcast proof fn lemma_pairs_right(a: Seq<QueryPair>, b: Seq<QueryPair>, p: QueryPair)
    requires
        b.contains(p),
    ensures
        #[trigger] (a + b).contains(p),
{
    let i = choose|i: int| 0 <= i < b.len() && b[i] == p;
    assert((a + b)[a.len() + i] == p);
}

/// A value that is present adds its pair.
pub broadcast proof fn lemma_optional_pair<T: QueryValue>(key: Seq<char>, value: Option<T>)
    requires
        value is Some,
    ensures
        #[trigger] optional_pairs(key, value).contains((key, value->0.query_text())),
{
    assert(optional_pairs(key, value)[0] == (key, value->0.query_text()));
}

/// Each value of a list that is present adds its pair.
pub broadcast proof fn lemma_repeated_pair<T: QueryValue>(
    key: Seq<char>,
    values: Option<Vec<T>>,
    i: int,
)
    requires
        values is Some,
        0 <= i < values->0@.len(),
    ensures
        #[trigger] optional_repeated_pairs(key, values).contains(
            (key, values->0@[i].query_text()),
        ),
{
    assert(optional_repeated_pairs(key, values)[i] == (key, values->0@[i].query_text()));
}

/// How many pairs an optional value adds.
pub open spec fn count_set<T>(value: Option<T>) -> nat {
    if value is Some {
        1
    } else {
        0
    }
}

/// How many pairs an optional list of values adds.
pub open spec fn count_values<T>(values: Option<Vec<T>>) -> nat {
    match values {
        Some(vs) => vs@.len(),
        None => 0,
    }
}

/// The lemmas that find a pair among the pairs of a query.
pub broadcast group group_query_pairs {
    lemma_pairs_left,
    lemma_pairs_right,
    lemma_optional_pair,
    lemma_repeated_pair,
}

/// A value that can be written into a query string. Its text is what the API expects.
pub trait QueryValue {
    /// The text of the value in a query string.
    spec fn query_text(&self) -> Seq<char>;

    /// Writes the value.
    fn to_query_text(&self) -> (s: String)
        ensures
            s@ == self.query_text(),
    ;
}

impl QueryValue for u32 {
    open spec fn query_text(&self) -> Seq<char> {
        decimal(*self as nat)
    }

    fn to_query_text(&self) -> (s: String) {
        u64_text(*self as u64)
    }
}

impl QueryValue for u64 {
    open spec fn query_text(&self) -> Seq<char> {
        decimal(*self as nat)
    }

    fn to_query_text(&self) -> (s: String) {
        u64_text(*self)
    }
}

impl QueryValue for bool {
    open spec fn query_text(&self) -> Seq<char> {
        if *self {
            "true"@
        } else {
            "false"@
        }
    }

    fn to_query_text(&self) -> (s: String) {
        if *self {
            String::from_str("true")
        } else {
            String::from_str("false")
        }
    }
}

impl QueryValue for String {
    open spec fn query_text(&self) -> Seq<char> {
        self@
    }

    fn to_query_text(&self) -> (s: String) {
        self.clone()
    }
}

/// The pairs that an optional value adds: one pair when present, none otherwise.
pub open spec fn optional_pairs<T: QueryValue>(key: Seq<char>, value: Option<T>) -> Seq<QueryPair> {
    match value {
        Some(v) => seq![(key, v.query_text())],
        None => seq![],
    }
}

/// The pairs that a list of values adds: one pair per value, in order, all with the same key.
pub open spec fn repeated_pairs<T: QueryValue>(key: Seq<char>, values: Seq<T>) -> Seq<QueryPair> {
    Seq::new(values.len(), |i: int| (key, values[i].query_text()))
}

/// The pairs that an optional list of values adds.
pub open spec fn optional_repeated_pairs<T: QueryValue>(
    key: Seq<char>,
    values: Option<Vec<T>>,
) -> Seq<QueryPair> {
    match values {
        Some(vs) => repeated_pairs(key, vs@),
        None => seq![],
    }
}

/// Builds the URL query to be sent to the API.
pub struct QueryBuilder {
    query: String,
    pairs: Ghost<Seq<QueryPair>>,
}

impl View for QueryBuilder {
    type V = Seq<QueryPair>;

    closed spec fn view(&self) -> Seq<QueryPair> {
        self.pairs@
    }
}

/// Every pair is written with an `=`, so a query string is empty only when it holds no pair.
pub proof fn lemma_render_empty(ps: Seq<QueryPair>)
    ensures
        (render_query(ps).len() == 0) <==> (ps.len() == 0),
    decreases ps.len(),
{
    if ps.len() > 1 {
        lemma_render_empty(ps.drop_last());
    }
}

impl QueryBuilder {
    #[verifier::type_invariant]
    closed spec fn inv(self) -> bool {
        self.query@ == render_query(self.pairs@)
    }

    /// Constructs a new `QueryBuilder` that holds no pair.
    pub fn new() -> (b: Self)
        ensures
            b@ == Seq::<QueryPair>::empty(),
    {
        QueryBuilder { query: String::new(), pairs: Ghost(Seq::empty()) }
    }

    /// Adds a key-value pair to the query string.
    pub fn push<T: QueryValue>(self, key: &str, value: &T) -> (b: Self)
        ensures
            b@ == self@.push((key@, value.query_text())),
    {
        proof {
            use_type_invariant(&self);
        }
        let QueryBuilder { query, pairs } = self;
        let mut query = query;
        let ghost old_pairs = pairs@;
        let ghost new_pairs = old_pairs.push((key@, value.query_text()));
        proof {
            lemma_render_empty(old_pairs);
            assert(new_pairs.drop_last() =~= old_pairs);
        }
        if !query.as_str().is_empty() {
            query.append("&");
        }
        query.append(key);
        query.append("=");
        let text = value.to_query_text();
        query.append(text.as_str());
        proof {
            reveal_strlit("&");
            reveal_strlit("=");
            assert(query@ =~= render_query(new_pairs));
        }
        QueryBuilder { query, pairs: Ghost(new_pairs) }
    }

    /// Adds a key-value pair to the query string if the value is present.
    pub fn push_optional<T: QueryValue>(self, key: &str, value: &Option<T>) -> (b: Self)
        ensures
            b@ == self@ + optional_pairs(key@, *value),
    {
        match value {
            Some(v) => {
                let b = self.push(key, v);
                assert(b@ =~= self@ + optional_pairs(key@, *value));
                b
            },
            None => {
                assert(self@ =~= self@ + optional_pairs(key@, *value));
                self
            },
        }
    }

    /// Adds one key-value pair per value of a list, in order.
    pub fn push_vec<T: QueryValue>(self, key: &str, values: &Vec<T>) -> (b: Self)
        ensures
            b@ == self@ + repeated_pairs(key@, values@),
    {
        let mut b = self;
        let ghost start = self@;
        let n = values.len();
        let mut i: usize = 0;
        while i < n
            invariant
                n == values@.len(),
                0 <= i <= n,
                b@ =~= start + repeated_pairs(key@, values@.subrange(0, i as int)),
            decreases n - i,
        {
            b = b.push(key, &values[i]);
            proof {
                assert(repeated_pairs(key@, values@.subrange(0, i + 1)) =~= repeated_pairs(
                    key@,
                    values@.subrange(0, i as int),
                ).push((key@, values@[i as int].query_text())));
            }
            i = i + 1;
        }
        assert(values@.subrange(0, n as int) =~= values@);
        b
    }

    /// Adds one key-value pair per value of an optional list, in order.
    pub fn push_optional_vec<T: QueryValue>(self, key: &str, values: &Option<Vec<T>>) -> (b: Self)
        ensures
            b@ == self@ + optional_repeated_pairs(key@, *values),
    {
        match values {
            Some(vs) => self.push_vec(key, vs),
            None => {
                assert(self@ =~= self@ + optional_repeated_pairs(key@, *values));
                self
            },
        }
    }

    /// Builds and returns the final query string.
    pub fn build(self) -> (s: String)
        ensures
            s@ == render_query(self@),
    {
        proof {
            use_type_invariant(&self);
        }
        let QueryBuilder { query, pairs } = self;
        query
    }
}

} // verus!
