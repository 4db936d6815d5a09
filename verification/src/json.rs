use vstd::prelude::*;

verus! {

/// A JSON document as the commands read and write it.
///
/// Numbers keep the three shapes that a JSON number takes once read:
/// a non-negative integer, a negative integer, or a binary64 float kept
/// by its bit pattern. Object entries are kept in ascending key order
/// (code point order, which is also the byte order of their UTF-8 text)
/// with no key twice, the order in which an ordered JSON map walks them.
#[derive(Debug, PartialEq, Eq)]
pub enum JsonValue {
    Null,
    Bool(bool),
    UInt(u64),
    NegInt(i64),
    Float(u64),
    Str(String),
    Array(Vec<JsonValue>),
    Object(Vec<(String, JsonValue)>),
}

/// The mathematical value of a JSON document.
pub enum Json {
    Null,
    Bool(bool),
    UInt(u64),
    NegInt(i64),
    Float(u64),
    Str(Seq<char>),
    Array(Seq<Json>),
    Object(Seq<(Seq<char>, Json)>),
}

impl JsonValue {
    pub open spec fn view(&self) -> Json
        decreases self,
    {
        match self {
            JsonValue::Null => Json::Null,
            JsonValue::Bool(b) => Json::Bool(*b),
            JsonValue::UInt(n) => Json::UInt(*n),
            JsonValue::NegInt(n) => Json::NegInt(*n),
            JsonValue::Float(b) => Json::Float(*b),
            JsonValue::Str(s) => Json::Str(s@),
            JsonValue::Array(items) => Json::Array(
                Seq::new(
                    items.len() as nat,
                    |i: int|
                        if 0 <= i < items.len() {
                            items[i].view()
                        } else {
                            Json::Null
                        },
                ),
            ),
            JsonValue::Object(entries) => Json::Object(
                Seq::new(
                    entries.len() as nat,
                    |i: int|
                        if 0 <= i < entries.len() {
                            (entries[i].0@, entries[i].1.view())
                        } else {
                            (Seq::empty(), Json::Null)
                        },
                ),
            ),
        }
    }
}

/// The values of a sequence of documents.
pub open spec fn items_view(items: Seq<JsonValue>) -> Seq<Json> {
    Seq::new(items.len(), |i: int| items[i]@)
}

/// The entries of an object, keys and values by their views.
pub open spec fn entries_view(entries: Seq<(String, JsonValue)>) -> Seq<(Seq<char>, Json)> {
    Seq::new(entries.len(), |i: int| (entries[i].0@, entries[i].1@))
}

/// Code point order on keys, shortest first on a common prefix.
pub open spec fn key_lt(a: Seq<char>, b: Seq<char>) -> bool
    decreases a.len(),
{
    if a.len() == 0 {
        b.len() > 0
    } else if b.len() == 0 {
        false
    } else if a[0] != b[0] {
        (a[0] as u32) < (b[0] as u32)
    } else {
        key_lt(a.drop_first(), b.drop_first())
    }
}

/// Inserting `k` with `v` into entries kept in key order: an entry with
/// the same key has its value replaced, else the entry goes before the
/// first larger key.
pub open spec fn entries_insert(es: Seq<(Seq<char>, Json)>, k: Seq<char>, v: Json) -> Seq<
    (Seq<char>, Json),
>
    decreases es.len(),
{
    if es.len() == 0 {
        seq![(k, v)]
    } else if es[0].0 == k {
        es.update(0, (k, v))
    } else if key_lt(k, es[0].0) {
        seq![(k, v)] + es
    } else {
        seq![es[0]] + entries_insert(es.drop_first(), k, v)
    }
}

/// The value under `k` in the entries, if any.
pub open spec fn entries_get(es: Seq<(Seq<char>, Json)>, k: Seq<char>) -> Option<Json>
    decreases es.len(),
{
    if es.len() == 0 {
        None
    } else if es[0].0 == k {
        Some(es[0].1)
    } else {
        entries_get(es.drop_first(), k)
    }
}

/// The entries with the value of the first entry under `k` replaced by
/// `v` (unchanged when there is none).
pub open spec fn entries_set(es: Seq<(Seq<char>, Json)>, k: Seq<char>, v: Json) -> Seq<
    (Seq<char>, Json),
>
    decreases es.len(),
{
    if es.len() == 0 {
        es
    } else if es[0].0 == k {
        es.update(0, (k, v))
    } else {
        seq![es[0]] + entries_set(es.drop_first(), k, v)
    }
}

/// The entries obtained by inserting the pairs one after the other.
pub open spec fn insert_all(es: Seq<(Seq<char>, Json)>, pairs: Seq<(Seq<char>, Json)>) -> Seq<
    (Seq<char>, Json),
>
    decreases pairs.len(),
{
    if pairs.len() == 0 {
        es
    } else {
        insert_all(entries_insert(es, pairs[0].0, pairs[0].1), pairs.drop_first())
    }
}

/// The object built from the pairs in order, a later key replacing an
/// earlier one's value.
pub open spec fn object_of(pairs: Seq<(Seq<char>, Json)>) -> Json {
    Json::Object(insert_all(Seq::empty(), pairs))
}

/// Keys strictly ascending.
pub open spec fn keys_sorted(es: Seq<(Seq<char>, Json)>) -> bool {
    forall|i: int, j: int| 0 <= i < j < es.len() ==> key_lt(#[trigger] es[i].0, #[trigger] es[j].0)
}

impl Json {
    /// The field `k` of an object; `None` for a missing field or a value
    /// that is no object.
    pub open spec fn field(self, k: Seq<char>) -> Option<Json> {
        match self {
            Json::Object(es) => entries_get(es, k),
            _ => None,
        }
    }

    pub open spec fn as_str(self) -> Option<Seq<char>> {
        match self {
            Json::Str(s) => Some(s),
            _ => None,
        }
    }

    pub open spec fn as_u64(self) -> Option<u64> {
        match self {
            Json::UInt(n) => Some(n),
            _ => None,
        }
    }

    /// An integer that fits `i64`.
    pub open spec fn as_i64(self) -> Option<int> {
        match self {
            Json::UInt(n) => if n <= i64::MAX {
                Some(n as int)
            } else {
                None
            },
            Json::NegInt(n) => Some(n as int),
            _ => None,
        }
    }

    pub open spec fn as_bool(self) -> Option<bool> {
        match self {
            Json::Bool(b) => Some(b),
            _ => None,
        }
    }

    pub open spec fn as_array(self) -> Option<Seq<Json>> {
        match self {
            Json::Array(items) => Some(items),
            _ => None,
        }
    }

    pub open spec fn as_object(self) -> Option<Seq<(Seq<char>, Json)>> {
        match self {
            Json::Object(es) => Some(es),
            _ => None,
        }
    }
}

/// Reading a key back after it was put in an object gives the value put
/// there, and every other key keeps its value.
pub proof fn lemma_get_after_insert(es: Seq<(Seq<char>, Json)>, k: Seq<char>, v: Json, other: Seq<char>)
    ensures
        entries_get(entries_insert(es, k, v), k) == Some(v),
        other != k ==> entries_get(entries_insert(es, k, v), other) == entries_get(es, other),
    decreases es.len(),
{
    if es.len() == 0 {
        let u = seq![(k, v)];
        assert(u.drop_first() =~= Seq::<(Seq<char>, Json)>::empty());
        assert(entries_get(u.drop_first(), other) is None);
    } else if es[0].0 == k {
        let u = es.update(0, (k, v));
        assert(u.drop_first() =~= es.drop_first());
    } else if key_lt(k, es[0].0) {
        let u = seq![(k, v)] + es;
        assert(u.drop_first() =~= es);
    } else {
        lemma_get_after_insert(es.drop_first(), k, v, other);
        let u = seq![es[0]] + entries_insert(es.drop_first(), k, v);
        assert(u.drop_first() =~= entries_insert(es.drop_first(), k, v));
    }
}

/// The value of the last pair with key `k`, if any pair has it.
pub open spec fn last_pair_value(pairs: Seq<(Seq<char>, Json)>, k: Seq<char>) -> Option<Json>
    decreases pairs.len(),
{
    if pairs.len() == 0 {
        None
    } else if pairs.last().0 == k {
        Some(pairs.last().1)
    } else {
        last_pair_value(pairs.drop_last(), k)
    }
}

proof fn lemma_get_insert_all(es: Seq<(Seq<char>, Json)>, pairs: Seq<(Seq<char>, Json)>, k: Seq<char>)
    ensures
        entries_get(insert_all(es, pairs), k) == match last_pair_value(pairs, k) {
            Some(v) => Some(v),
            None => entries_get(es, k),
        },
    decreases pairs.len(),
{
    if pairs.len() > 0 {
        let es2 = entries_insert(es, pairs[0].0, pairs[0].1);
        let rest = pairs.drop_first();
        lemma_get_insert_all(es2, rest, k);
        lemma_get_after_insert(es, pairs[0].0, pairs[0].1, k);
        lemma_last_pair_front(pairs, k);
    }
}

proof fn lemma_last_pair_front(pairs: Seq<(Seq<char>, Json)>, k: Seq<char>)
    requires
        pairs.len() > 0,
    ensures
        last_pair_value(pairs, k) == match last_pair_value(pairs.drop_first(), k) {
            Some(v) => Some(v),
            None => if pairs[0].0 == k {
                Some(pairs[0].1)
            } else {
                None
            },
        },
    decreases pairs.len(),
{
    if pairs.len() > 1 {
        assert(pairs.drop_first().drop_last() =~= pairs.drop_last().drop_first());
        assert(pairs.drop_first().last() == pairs.last());
        lemma_last_pair_front(pairs.drop_last(), k);
    } else {
        assert(pairs.drop_first() =~= Seq::<(Seq<char>, Json)>::empty());
        assert(pairs.drop_last() =~= Seq::<(Seq<char>, Json)>::empty());
    }
}

/// An object built from pairs holds, under each key, the value of the
/// last pair with that key, and nothing under a key that no pair has.
pub proof fn lemma_object_of_field(pairs: Seq<(Seq<char>, Json)>, k: Seq<char>)
    ensures
        object_of(pairs).field(k) == last_pair_value(pairs, k),
{
    lemma_get_insert_all(Seq::empty(), pairs, k);
}

pub proof fn lemma_array_view(items: Vec<JsonValue>)
    ensures
        JsonValue::Array(items)@ == Json::Array(items_view(items@)),
{
    assert(JsonValue::Array(items)@->Array_0 =~= items_view(items@));
}

pub proof fn lemma_object_view(entries: Vec<(String, JsonValue)>)
    ensures
        JsonValue::Object(entries)@ == Json::Object(entries_view(entries@)),
{
    assert(JsonValue::Object(entries)@->Object_0 =~= entries_view(entries@));
}

proof fn lemma_key_lt_irreflexive(a: Seq<char>)
    ensures
        !key_lt(a, a),
    decreases a.len(),
{
    if a.len() > 0 {
        lemma_key_lt_irreflexive(a.drop_first());
    }
}

/// The characters of a text, in order.
pub fn chars_of(s: &str) -> (r: Vec<char>)
    ensures
        r@ == s@,
{
    let mut r: Vec<char> = Vec::new();
    for c in it: s.chars()
        invariant
            r@ == it.seq().take(it.index() as int),
    {
        r.push(c);
        assert(r@ =~= it.seq().take(it.index() + 1));
    }
    proof {
        vstd::string::axiom_spec_iter(s);
    }
    assert(r@ =~= s@);
    r
}

/// Whether two texts are equal.
pub fn text_eq(a: &str, b: &str) -> (r: bool)
    ensures
        r == (a@ == b@),
{
    let x = chars_of(a);
    let y = chars_of(b);
    if x.len() != y.len() {
        return false;
    }
    let mut i: usize = 0;
    while i < x.len()
        invariant
            x@ == a@,
            y@ == b@,
            x.len() == y.len(),
            i <= x.len(),
            forall|j: int| 0 <= j < i ==> x[j] == y[j],
        decreases x.len() - i,
    {
        if x[i] != y[i] {
            return false;
        }
        i += 1;
    }
    assert(a@ =~= b@);
    true
}

/// Whether `a` orders before `b` as keys.
pub fn key_less(a: &str, b: &str) -> (r: bool)
    ensures
        r == key_lt(a@, b@),
{
    let x = chars_of(a);
    let y = chars_of(b);
    let mut i: usize = 0;
    assert(a@.skip(0) =~= a@);
    assert(b@.skip(0) =~= b@);
    while i < x.len() && i < y.len() && x[i] == y[i]
        invariant
            x@ == a@,
            y@ == b@,
            i <= x.len(),
            i <= y.len(),
            key_lt(a@, b@) == key_lt(a@.skip(i as int), b@.skip(i as int)),
        decreases x.len() - i,
    {
        assert(a@.skip(i as int).drop_first() =~= a@.skip(i + 1));
        assert(b@.skip(i as int).drop_first() =~= b@.skip(i + 1));
        i += 1;
    }
    if i == x.len() {
        i < y.len()
    } else if i == y.len() {
        false
    } else {
        (x[i] as u32) < (y[i] as u32)
    }
}

/// A copy of a document.
pub fn json_clone(v: &JsonValue) -> (r: JsonValue)
    ensures
        r@ == v@,
    decreases v,
{
    match v {
        JsonValue::Null => JsonValue::Null,
        JsonValue::Bool(b) => JsonValue::Bool(*b),
        JsonValue::UInt(n) => JsonValue::UInt(*n),
        JsonValue::NegInt(n) => JsonValue::NegInt(*n),
        JsonValue::Float(b) => JsonValue::Float(*b),
        JsonValue::Str(s) => JsonValue::Str(s.clone()),
        JsonValue::Array(items) => {
            let mut out: Vec<JsonValue> = Vec::new();
            let mut i: usize = 0;
            while i < items.len()
                invariant
                    *v == JsonValue::Array(*items),
                    i <= items.len(),
                    out.len() == i,
                    forall|j: int| 0 <= j < i ==> out[j]@ == items[j]@,
                decreases items.len() - i,
            {
                assert(decreases_to!(v => v->Array_0[i as int]));
                let c = json_clone(&items[i]);
                out.push(c);
                i += 1;
            }
            let r = JsonValue::Array(out);
            assert(r@->Array_0 =~= v@->Array_0);
            r
        }
        JsonValue::Object(entries) => {
            let mut out: Vec<(String, JsonValue)> = Vec::new();
            let mut i: usize = 0;
            while i < entries.len()
                invariant
                    *v == JsonValue::Object(*entries),
                    i <= entries.len(),
                    out.len() == i,
                    forall|j: int| 0 <= j < i ==> out[j].0@ == entries[j].0@ && out[j].1@ == entries[j].1@,
                decreases entries.len() - i,
            {
                assert(decreases_to!(v => v->Object_0[i as int]));
                assert(decreases_to!(v->Object_0[i as int] => v->Object_0[i as int].1));
                let c = json_clone(&entries[i].1);
                out.push((entries[i].0.clone(), c));
                i += 1;
            }
            let r = JsonValue::Object(out);
            assert(r@->Object_0 =~= v@->Object_0);
            r
        }
    }
}

/// Whether two floats, given by their bit patterns, are equal as numbers:
/// the same bits, or both zero (`0.0 == -0.0`). A document never holds a
/// NaN, so equal numbers otherwise have equal bits.
pub open spec fn float_same(x: u64, y: u64) -> bool {
    x == y || ((x == 0 || x == 0x8000_0000_0000_0000) && (y == 0 || y == 0x8000_0000_0000_0000))
}

/// Whether two documents are equal as JSON values: the same shape, the
/// same scalars (numbers of one kind, floats compared as numbers), the same
/// items in the same order, the same entries.
pub open spec fn json_same(a: Json, b: Json) -> bool
    decreases a,
{
    match a {
        Json::Float(x) => b matches Json::Float(y) && float_same(x, y),
        Json::Array(xs) => b matches Json::Array(ys) && items_same(xs, ys),
        Json::Object(xs) => b matches Json::Object(ys) && entries_same(xs, ys),
        _ => a == b,
    }
}

/// Item by item, the two sequences are equal as JSON values.
pub open spec fn items_same(xs: Seq<Json>, ys: Seq<Json>) -> bool
    decreases xs,
{
    if xs.len() == 0 {
        ys.len() == 0
    } else {
        ys.len() > 0 && json_same(xs[0], ys[0]) && items_same(xs.drop_first(), ys.drop_first())
    }
}

/// Entry by entry, the two objects have the same keys, in order, with
/// values equal as JSON values.
pub open spec fn entries_same(xs: Seq<(Seq<char>, Json)>, ys: Seq<(Seq<char>, Json)>) -> bool
    decreases xs,
{
    if xs.len() == 0 {
        ys.len() == 0
    } else {
        ys.len() > 0 && xs[0].0 == ys[0].0 && json_same(xs[0].1, ys[0].1) && entries_same(
            xs.drop_first(),
            ys.drop_first(),
        )
    }
}

/// `items_same` holds exactly when the lengths agree and every pair of
/// items at one position is equal as JSON values.
pub proof fn lemma_items_same(xs: Seq<Json>, ys: Seq<Json>)
    ensures
        items_same(xs, ys) == (xs.len() == ys.len() && forall|i: int|
            0 <= i < xs.len() ==> #[trigger] json_same(xs[i], ys[i])),
    decreases xs.len(),
{
    if xs.len() > 0 && ys.len() > 0 {
        let (xt, yt) = (xs.drop_first(), ys.drop_first());
        lemma_items_same(xt, yt);
        assert(items_same(xs, ys) == (json_same(xs[0], ys[0]) && items_same(xt, yt)));
        if xs.len() == ys.len() && (forall|i: int| 0 <= i < xs.len() ==> #[trigger] json_same(xs[i], ys[i])) {
            assert forall|i: int| 0 <= i < xt.len() implies #[trigger] json_same(xt[i], yt[i]) by {
                assert(json_same(xs[i + 1], ys[i + 1]));
                assert(xt[i] == xs[i + 1] && yt[i] == ys[i + 1]);
            }
            assert(json_same(xs[0], ys[0]));
            assert(items_same(xs, ys));
        }
        if items_same(xs, ys) {
            assert forall|i: int| 0 <= i < xs.len() implies #[trigger] json_same(xs[i], ys[i]) by {
                if i > 0 {
                    assert(json_same(xt[i - 1], yt[i - 1]));
                    assert(xt[i - 1] == xs[i] && yt[i - 1] == ys[i]);
                }
            }
        }
    }
}

/// The two objects have the same length, and at each position the same
/// key and values equal as JSON values.
pub open spec fn entries_pointwise(xs: Seq<(Seq<char>, Json)>, ys: Seq<(Seq<char>, Json)>) -> bool {
    xs.len() == ys.len() && forall|i: int|
        0 <= i < xs.len() ==> #[trigger] entry_same(xs[i], ys[i])
}

/// One key, and values equal as JSON values.
pub open spec fn entry_same(x: (Seq<char>, Json), y: (Seq<char>, Json)) -> bool {
    x.0 == y.0 && json_same(x.1, y.1)
}

/// `entries_same` holds exactly when the lengths agree and every pair of
/// entries at one position has one key and values equal as JSON values.
pub proof fn lemma_entries_same(xs: Seq<(Seq<char>, Json)>, ys: Seq<(Seq<char>, Json)>)
    ensures
        entries_same(xs, ys) == entries_pointwise(xs, ys),
    decreases xs.len(),
{
    if xs.len() > 0 && ys.len() > 0 {
        let (xt, yt) = (xs.drop_first(), ys.drop_first());
        lemma_entries_same(xt, yt);
        assert(entries_same(xs, ys) == (entry_same(xs[0], ys[0]) && entries_same(xt, yt)));
        if entries_pointwise(xs, ys) {
            assert forall|i: int| 0 <= i < xt.len() implies #[trigger] entry_same(xt[i], yt[i]) by {
                assert(entry_same(xs[i + 1], ys[i + 1]));
                assert(xt[i] == xs[i + 1] && yt[i] == ys[i + 1]);
            }
            assert(entries_pointwise(xt, yt));
            assert(entry_same(xs[0], ys[0]));
        }
        if entries_same(xs, ys) {
            assert forall|i: int| 0 <= i < xs.len() implies #[trigger] entry_same(xs[i], ys[i]) by {
                if i > 0 {
                    assert(entry_same(xt[i - 1], yt[i - 1]));
                    assert(xt[i - 1] == xs[i] && yt[i - 1] == ys[i]);
                }
            }
        }
    }
}

/// Whether two documents are equal as JSON values: same shape, same
/// scalars (floats by value), same items in the same order, same entries.
pub fn json_eq(a: &JsonValue, b: &JsonValue) -> (r: bool)
    ensures
        r == json_same(a@, b@),
    decreases a,
{
    match (a, b) {
        (JsonValue::Null, JsonValue::Null) => true,
        (JsonValue::Bool(x), JsonValue::Bool(y)) => *x == *y,
        (JsonValue::UInt(x), JsonValue::UInt(y)) => *x == *y,
        (JsonValue::NegInt(x), JsonValue::NegInt(y)) => *x == *y,
        (JsonValue::Float(x), JsonValue::Float(y)) => {
            *x == *y || ((*x == 0 || *x == 0x8000_0000_0000_0000) && (*y == 0 || *y
                == 0x8000_0000_0000_0000))
        },
        (JsonValue::Str(x), JsonValue::Str(y)) => *x == *y,
        (JsonValue::Array(x), JsonValue::Array(y)) => {
            proof {
                lemma_items_same(a@->Array_0, b@->Array_0);
            }
            if x.len() != y.len() {
                assert(a@->Array_0.len() != b@->Array_0.len());
                return false;
            }
            let mut i: usize = 0;
            while i < x.len()
                invariant
                    x.len() == y.len(),
                    i <= x.len(),
                    *a == JsonValue::Array(*x),
                    *b == JsonValue::Array(*y),
                    items_same(a@->Array_0, b@->Array_0) == (a@->Array_0.len() == b@->Array_0.len()
                        && forall|j: int| 0 <= j < a@->Array_0.len() ==> #[trigger] json_same(a@->Array_0[j], b@->Array_0[j])),
                    forall|j: int| 0 <= j < i ==> json_same(#[trigger] a@->Array_0[j], b@->Array_0[j]),
                decreases x.len() - i,
            {
                assert(decreases_to!(a => a->Array_0[i as int]));
                if !json_eq(&x[i], &y[i]) {
                    assert(!json_same(a@->Array_0[i as int], b@->Array_0[i as int]));
                    return false;
                }
                i += 1;
            }
            true
        },
        (JsonValue::Object(x), JsonValue::Object(y)) => {
            proof {
                lemma_entries_same(a@->Object_0, b@->Object_0);
            }
            if x.len() != y.len() {
                assert(a@->Object_0.len() != b@->Object_0.len());
                return false;
            }
            let mut i: usize = 0;
            while i < x.len()
                invariant
                    x.len() == y.len(),
                    i <= x.len(),
                    *a == JsonValue::Object(*x),
                    *b == JsonValue::Object(*y),
                    entries_same(a@->Object_0, b@->Object_0) == entries_pointwise(a@->Object_0, b@->Object_0),
                    forall|j: int| 0 <= j < i ==> #[trigger] entry_same(a@->Object_0[j], b@->Object_0[j]),
                decreases x.len() - i,
            {
                assert(decreases_to!(a => a->Object_0[i as int]));
                assert(decreases_to!(a->Object_0[i as int] => a->Object_0[i as int].1));
                if x[i].0 != y[i].0 {
                    assert(a@->Object_0[i as int].0 != b@->Object_0[i as int].0);
                    assert(!entry_same(a@->Object_0[i as int], b@->Object_0[i as int]));
                    return false;
                }
                if !json_eq(&x[i].1, &y[i].1) {
                    assert(!entry_same(a@->Object_0[i as int], b@->Object_0[i as int]));
                    return false;
                }
                assert(entry_same(a@->Object_0[i as int], b@->Object_0[i as int]));
                i += 1;
            }
            true
        },
        _ => false,
    }
}

/// Equality of documents as JSON values is reflexive.
pub proof fn lemma_json_same_reflexive(a: Json)
    ensures
        json_same(a, a),
    decreases a,
{
    match a {
        Json::Array(xs) => {
            lemma_items_same(xs, xs);
            assert forall|i: int| 0 <= i < xs.len() implies #[trigger] json_same(xs[i], xs[i]) by {
                lemma_json_same_reflexive(xs[i]);
            }
        },
        Json::Object(xs) => {
            lemma_entries_same(xs, xs);
            assert forall|i: int| 0 <= i < xs.len() implies #[trigger] entry_same(xs[i], xs[i]) by {
                assert(decreases_to!(xs => xs[i]));
                lemma_json_same_reflexive(xs[i].1);
            }
        },
        _ => {},
    }
}

/// Equality of documents as JSON values is symmetric.
pub proof fn lemma_json_same_symmetric(a: Json, b: Json)
    ensures
        json_same(a, b) == json_same(b, a),
    decreases a,
{
    match (a, b) {
        (Json::Array(xs), Json::Array(ys)) => {
            lemma_items_same(xs, ys);
            lemma_items_same(ys, xs);
            if xs.len() == ys.len() {
                assert forall|i: int| 0 <= i < xs.len() implies #[trigger] json_same(xs[i], ys[i])
                    == json_same(ys[i], xs[i]) by {
                    lemma_json_same_symmetric(xs[i], ys[i]);
                }
                if items_same(xs, ys) {
                    assert forall|i: int| 0 <= i < ys.len() implies #[trigger] json_same(ys[i], xs[i]) by {
                        assert(json_same(xs[i], ys[i]));
                    }
                }
                if items_same(ys, xs) {
                    assert forall|i: int| 0 <= i < xs.len() implies #[trigger] json_same(xs[i], ys[i]) by {
                        assert(json_same(ys[i], xs[i]));
                    }
                }
            }
        },
        (Json::Object(xs), Json::Object(ys)) => {
            lemma_entries_same(xs, ys);
            lemma_entries_same(ys, xs);
            if xs.len() == ys.len() {
                assert forall|i: int| 0 <= i < xs.len() implies #[trigger] entry_same(xs[i], ys[i])
                    == entry_same(ys[i], xs[i]) by {
                    assert(decreases_to!(xs => xs[i]));
                    lemma_json_same_symmetric(xs[i].1, ys[i].1);
                }
                if entries_same(xs, ys) {
                    assert forall|i: int| 0 <= i < ys.len() implies #[trigger] entry_same(ys[i], xs[i]) by {
                        assert(entry_same(xs[i], ys[i]));
                    }
                }
                if entries_same(ys, xs) {
                    assert forall|i: int| 0 <= i < xs.len() implies #[trigger] entry_same(xs[i], ys[i]) by {
                        assert(entry_same(ys[i], xs[i]));
                    }
                }
            }
        },
        _ => {},
    }
}

proof fn lemma_insert_skip(es: Seq<(Seq<char>, Json)>, i: int, k: Seq<char>, v: Json)
    requires
        0 <= i <= es.len(),
        forall|j: int| 0 <= j < i ==> es[j].0 != k && !key_lt(k, #[trigger] es[j].0),
    ensures
        entries_insert(es, k, v) == es.take(i) + entries_insert(es.skip(i), k, v),
    decreases i,
{
    if i > 0 {
        lemma_insert_skip(es.drop_first(), i - 1, k, v);
        assert(es.drop_first().take(i - 1) =~= es.take(i).drop_first());
        assert(es.drop_first().skip(i - 1) =~= es.skip(i));
        assert(es.take(i) =~= seq![es[0]] + es.take(i).drop_first());
    } else {
        assert(es.take(0) =~= Seq::<(Seq<char>, Json)>::empty());
        assert(es.skip(0) =~= es);
        assert(es.take(0) + entries_insert(es.skip(0), k, v) =~= entries_insert(es, k, v));
    }
}

proof fn lemma_get_skip(es: Seq<(Seq<char>, Json)>, i: int, k: Seq<char>)
    requires
        0 <= i <= es.len(),
        forall|j: int| 0 <= j < i ==> #[trigger] es[j].0 != k,
    ensures
        entries_get(es, k) == entries_get(es.skip(i), k),
    decreases i,
{
    if i > 0 {
        lemma_get_skip(es.drop_first(), i - 1, k);
        assert(es.drop_first().skip(i - 1) =~= es.skip(i));
    } else {
        assert(es.skip(0) =~= es);
    }
}

proof fn lemma_set_at(es: Seq<(Seq<char>, Json)>, i: int, k: Seq<char>, v: Json)
    requires
        0 <= i < es.len(),
        es[i].0 == k,
        forall|j: int| 0 <= j < i ==> #[trigger] es[j].0 != k,
    ensures
        entries_set(es, k, v) == es.update(i, (k, v)),
        entries_get(es, k) == Some(es[i].1),
    decreases i,
{
    if i > 0 {
        lemma_set_at(es.drop_first(), i - 1, k, v);
        assert(seq![es[0]] + es.drop_first().update(i - 1, (k, v)) =~= es.update(i, (k, v)));
    }
}

/// The position of the first entry under `key`, if any.
pub fn map_index(entries: &Vec<(String, JsonValue)>, key: &str) -> (r: Option<usize>)
    ensures
        match r {
            Some(i) => i < entries.len() && entries[i as int].0@ == key@ && entries_get(
                entries_view(entries@),
                key@,
            ) == Some(entries[i as int].1@) && (forall|v: Json|
                entries_set(entries_view(entries@), key@, v) == #[trigger] entries_view(
                    entries@,
                ).update(i as int, (key@, v))),
            None => entries_get(entries_view(entries@), key@) is None,
        },
{
    let ghost es = entries_view(entries@);
    let mut i: usize = 0;
    while i < entries.len()
        invariant
            es == entries_view(entries@),
            i <= entries.len(),
            forall|j: int| 0 <= j < i ==> #[trigger] es[j].0 != key@,
        decreases entries.len() - i,
    {
        if text_eq(entries[i].0.as_str(), key) {
            proof {
                assert forall|v: Json| entries_set(es, key@, v) == #[trigger] es.update(i as int, (key@, v)) by {
                    lemma_set_at(es, i as int, key@, v);
                }
                lemma_set_at(es, i as int, key@, Json::Null);
            }
            return Some(i);
        }
        i += 1;
    }
    proof {
        lemma_get_skip(es, i as int, key@);
    }
    None
}

/// The value under `key` in the entries, if any.
pub fn map_get<'a>(entries: &'a Vec<(String, JsonValue)>, key: &str) -> (r: Option<&'a JsonValue>)
    ensures
        match r {
            Some(v) => entries_get(entries_view(entries@), key@) == Some(v@),
            None => entries_get(entries_view(entries@), key@) is None,
        },
{
    let ghost es = entries_view(entries@);
    let mut i: usize = 0;
    while i < entries.len()
        invariant
            es == entries_view(entries@),
            i <= entries.len(),
            forall|j: int| 0 <= j < i ==> #[trigger] es[j].0 != key@,
        decreases entries.len() - i,
    {
        if text_eq(entries[i].0.as_str(), key) {
            proof {
                lemma_get_skip(es, i as int, key@);
            }
            return Some(&entries[i].1);
        }
        i += 1;
    }
    proof {
        lemma_get_skip(es, i as int, key@);
    }
    None
}

/// Inserts `key` with `value`, keeping the entries in key order; an
/// entry with the same key has its value replaced.
pub fn map_insert(entries: &mut Vec<(String, JsonValue)>, key: String, value: JsonValue)
    ensures
        entries_view(final(entries)@) == entries_insert(entries_view(old(entries)@), key@, value@),
{
    let ghost es = entries_view(entries@);
    let mut i: usize = 0;
    while i < entries.len() && entries[i].0 != key && !key_less(key.as_str(), entries[i].0.as_str())
        invariant
            es == entries_view(entries@),
            i <= entries.len(),
            forall|j: int| 0 <= j < i ==> es[j].0 != key@ && !key_lt(key@, #[trigger] es[j].0),
        decreases entries.len() - i,
    {
        i += 1;
    }
    proof {
        lemma_insert_skip(es, i as int, key@, value@);
    }
    let ghost kv = (key@, value@);
    if i == entries.len() {
        entries.push((key, value));
        proof {
            assert(es.skip(i as int) =~= Seq::<(Seq<char>, Json)>::empty());
            assert(entries_view(entries@) =~= es.take(i as int) + seq![kv]);
        }
    } else if entries[i].0 == key {
        entries.set(i, (key, value));
        proof {
            let rest = es.skip(i as int);
            assert(rest[0].0 == kv.0);
            assert(entries_view(entries@) =~= es.take(i as int) + rest.update(0, kv));
        }
    } else {
        entries.insert(i, (key, value));
        proof {
            let rest = es.skip(i as int);
            assert(key_lt(kv.0, rest[0].0));
            assert(entries_view(entries@) =~= es.take(i as int) + (seq![kv] + rest));
        }
    }
}

/// The object built from the pairs in order; a later pair replaces the
/// value of an earlier one with the same key.
pub fn object_from_pairs(pairs: Vec<(String, JsonValue)>) -> (r: JsonValue)
    ensures
        r@ == object_of(entries_view(pairs@)),
{
    let ghost ps = entries_view(pairs@);
    let mut entries: Vec<(String, JsonValue)> = Vec::new();
    let mut rest = pairs;
    while rest.len() > 0
        invariant
            insert_all(entries_view(entries@), entries_view(rest@)) == insert_all(Seq::empty(), ps),
        decreases rest.len(),
    {
        let ghost before = entries_view(rest@);
        let (k, v) = rest.remove(0);
        proof {
            assert(before[0] == (k@, v@));
            assert(entries_view(rest@) =~= before.drop_first());
        }
        map_insert(&mut entries, k, v);
    }
    proof {
        lemma_object_view(entries);
    }
    JsonValue::Object(entries)
}


} // verus!
