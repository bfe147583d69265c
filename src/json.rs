use vstd::prelude::*;

verus! {

/// Mathematical model of a JSON tree: scalars keep their text, objects are
/// ordered lists of (key, value) entries.
pub enum Json {
    Null,
    Bool(bool),
    Number(Seq<char>),
    Str(Seq<char>),
    Array(Seq<Json>),
    Object(Seq<(Seq<char>, Json)>),
}

/// A loosely typed JSON tree as fetched from a remote node.
/// Numbers are held as their decimal text.
#[derive(Debug, PartialEq)]
pub enum JsonValue {
    Null,
    Bool(bool),
    Number(String),
    String(String),
    Array(Vec<JsonValue>),
    Object(Vec<(String, JsonValue)>),
}

/// The key that some wire schemas use for uncle blocks.
pub open spec fn uncles_key() -> Seq<char> {
    seq!['u', 'n', 'c', 'l', 'e', 's']
}

/// The key that the local block schema expects for the same list.
pub open spec fn ommers_key() -> Seq<char> {
    seq!['o', 'm', 'm', 'e', 'r', 's']
}

pub open spec fn view_items(items: Seq<JsonValue>) -> Seq<Json>
    decreases items,
{
    if items.len() == 0 {
        Seq::empty()
    } else {
        view_items(items.drop_last()).push(items.last().view())
    }
}

pub open spec fn view_entries(es: Seq<(String, JsonValue)>) -> Seq<(Seq<char>, Json)>
    decreases es,
{
    if es.len() == 0 {
        Seq::empty()
    } else {
        view_entries(es.drop_last()).push((es.last().0@, es.last().1.view()))
    }
}

/// `i` is the first position of an entry of `es` with key `k`.
pub open spec fn first_with_key(es: Seq<(String, JsonValue)>, k: Seq<char>, i: int) -> bool {
    0 <= i < es.len() && es[i].0@ == k && forall|j: int| 0 <= j < i ==> es[j].0@ != k
}

impl JsonValue {
    /// The value of the first entry with key `key`, where `self` is an object
    /// that has one.
    pub fn get(&self, key: &str) -> (r: Option<&JsonValue>)
        ensures
            !(self is Object) ==> r is None,
            self is Object ==> (r is Some <==> exists|i: int|
                0 <= i < self->Object_0@.len() && #[trigger] self->Object_0@[i].0@ == key@),
            self is Object && r is Some ==> exists|i: int|
                first_with_key(self->Object_0@, key@, i) && *r->0 == self->Object_0@[i].1,
    {
        match self {
            JsonValue::Object(es) => {
                let k: String = key.to_owned();
                let mut i: usize = 0;
                while i < es.len()
                    invariant
                        i <= es@.len(),
                        k@ == key@,
                        self is Object,
                        self->Object_0 == *es,
                        forall|j: int| 0 <= j < i ==> es@[j].0@ != key@,
                    decreases es@.len() - i,
                {
                    if es[i].0 == k {
                        proof {
                            assert(first_with_key(es@, key@, i as int));
                        }
                        return Some(&es[i].1);
                    }
                    i = i + 1;
                }
                None
            },
            _ => None,
        }
    }

    /// The elements, where `self` is an array.
    pub fn as_array(&self) -> (r: Option<&Vec<JsonValue>>)
        ensures
            self is Array ==> r == Some(&self->Array_0),
            !(self is Array) ==> r is None,
    {
        match self {
            JsonValue::Array(items) => Some(items),
            _ => None,
        }
    }

    pub open spec fn view(self) -> Json
        decreases self,
    {
        match self {
            JsonValue::Null => Json::Null,
            JsonValue::Bool(b) => Json::Bool(b),
            JsonValue::Number(n) => Json::Number(n@),
            JsonValue::String(s) => Json::Str(s@),
            JsonValue::Array(items) => Json::Array(view_items(items@)),
            JsonValue::Object(es) => Json::Object(view_entries(es@)),
        }
    }
}


/// Key of an object entry after normalization.
pub open spec fn renamed_key(k: Seq<char>) -> Seq<char> {
    if k == uncles_key() {
        ommers_key()
    } else {
        k
    }
}

/// Some entry of `es` has key `k`.
pub open spec fn has_key(es: Seq<(Seq<char>, Json)>, k: Seq<char>) -> bool {
    exists|i: int| 0 <= i < es.len() && #[trigger] es[i].0 == k
}

/// Schema normalization: every "uncles" entry, at any depth, becomes an
/// "ommers" entry with the same (normalized) value. Where an object has an
/// "uncles" entry, that entry replaces any "ommers" entry of the same object.
pub open spec fn normalized(j: Json) -> Json
    decreases j,
{
    match j {
        Json::Array(items) => Json::Array(normalized_items(items)),
        Json::Object(es) => Json::Object(normalized_entries(es, has_key(es, uncles_key()))),
        _ => j,
    }
}

pub open spec fn normalized_items(items: Seq<Json>) -> Seq<Json>
    decreases items,
{
    if items.len() == 0 {
        Seq::empty()
    } else {
        normalized_items(items.drop_last()).push(normalized(items.last()))
    }
}

/// Entries of one object after normalization; `replace` tells that the object
/// has an "uncles" entry, so that its former "ommers" entries are dropped.
pub open spec fn normalized_entries(es: Seq<(Seq<char>, Json)>, replace: bool) -> Seq<(Seq<char>, Json)>
    decreases es,
{
    if es.len() == 0 {
        Seq::empty()
    } else {
        let rest = normalized_entries(es.drop_last(), replace);
        let e = es.last();
        if replace && e.0 == ommers_key() {
            rest
        } else {
            rest.push((renamed_key(e.0), normalized(e.1)))
        }
    }
}

/// No object anywhere in the tree has an "uncles" entry.
pub open spec fn free_of_uncles(j: Json) -> bool
    decreases j,
{
    match j {
        Json::Array(items) => items_free_of_uncles(items),
        Json::Object(es) => entries_free_of_uncles(es),
        _ => true,
    }
}

pub open spec fn items_free_of_uncles(items: Seq<Json>) -> bool
    decreases items,
{
    items.len() == 0 || (items_free_of_uncles(items.drop_last()) && free_of_uncles(items.last()))
}

pub open spec fn entries_free_of_uncles(es: Seq<(Seq<char>, Json)>) -> bool
    decreases es,
{
    es.len() == 0 || (entries_free_of_uncles(es.drop_last()) && es.last().0 != uncles_key()
        && free_of_uncles(es.last().1))
}

proof fn lemma_free_has_no_key(es: Seq<(Seq<char>, Json)>)
    requires
        entries_free_of_uncles(es),
    ensures
        !has_key(es, uncles_key()),
    decreases es.len(),
{
    if es.len() > 0 {
        let dl = es.drop_last();
        lemma_free_has_no_key(dl);
        assert forall|i: int| 0 <= i < es.len() implies #[trigger] es[i].0 != uncles_key() by {
            if i < es.len() - 1 {
                assert(es[i] == dl[i]);
            }
        }
    }
}

proof fn lemma_free_items_fixed(items: Seq<Json>)
    requires
        items_free_of_uncles(items),
    ensures
        normalized_items(items) == items,
    decreases items,
{
    if items.len() > 0 {
        lemma_free_items_fixed(items.drop_last());
        lemma_free_fixed(items.last());
        assert(items.drop_last().push(items.last()) =~= items);
    }
}

proof fn lemma_free_entries_fixed(es: Seq<(Seq<char>, Json)>)
    requires
        entries_free_of_uncles(es),
    ensures
        normalized_entries(es, false) == es,
    decreases es,
{
    if es.len() > 0 {
        lemma_free_entries_fixed(es.drop_last());
        lemma_free_fixed(es.last().1);
        assert(es.drop_last().push((es.last().0, es.last().1)) =~= es);
    }
}

proof fn lemma_free_fixed(j: Json)
    requires
        free_of_uncles(j),
    ensures
        normalized(j) == j,
    decreases j,
{
    match j {
        Json::Array(items) => lemma_free_items_fixed(items),
        Json::Object(es) => {
            lemma_free_has_no_key(es);
            lemma_free_entries_fixed(es);
        },
        _ => {},
    }
}

proof fn lemma_keys_differ()
    ensures
        uncles_key() != ommers_key(),
{
    assert(uncles_key()[0] != ommers_key()[0]);
}

proof fn lemma_normalized_items_free(items: Seq<Json>)
    ensures
        items_free_of_uncles(normalized_items(items)),
    decreases items,
{
    if items.len() > 0 {
        let r = normalized_items(items);
        lemma_normalized_items_free(items.drop_last());
        lemma_normalized_free(items.last());
        assert(r.drop_last() =~= normalized_items(items.drop_last()));
    }
}

proof fn lemma_normalized_entries_free(es: Seq<(Seq<char>, Json)>, replace: bool)
    ensures
        entries_free_of_uncles(normalized_entries(es, replace)),
    decreases es,
{
    if es.len() > 0 {
        let e = es.last();
        lemma_normalized_entries_free(es.drop_last(), replace);
        lemma_normalized_free(e.1);
        lemma_keys_differ();
        if !(replace && e.0 == ommers_key()) {
            let r = normalized_entries(es, replace);
            assert(r.drop_last() =~= normalized_entries(es.drop_last(), replace));
        }
    }
}

proof fn lemma_normalized_free(j: Json)
    ensures
        free_of_uncles(normalized(j)),
    decreases j,
{
    match j {
        Json::Array(items) => lemma_normalized_items_free(items),
        Json::Object(es) => lemma_normalized_entries_free(es, has_key(es, uncles_key())),
        _ => {},
    }
}

/// A tree with no "uncles" entry anywhere comes out of normalization unchanged.
pub proof fn lemma_normalize_without_uncles(j: Json)
    requires
        free_of_uncles(j),
    ensures
        normalized(j) == j,
{
    lemma_free_fixed(j);
}

/// Normalizing twice gives the same tree as normalizing once.
pub proof fn lemma_normalize_idempotent(j: Json)
    ensures
        normalized(normalized(j)) == normalized(j),
{
    lemma_normalized_free(j);
    lemma_free_fixed(normalized(j));
}

/// Normalization of an array normalizes each element in place, whatever its depth.
pub proof fn lemma_normalize_array(items: Seq<Json>)
    ensures
        normalized(Json::Array(items)) == Json::Array(items.map_values(|x: Json| normalized(x))),
    decreases items.len(),
{
    if items.len() > 0 {
        lemma_normalize_array(items.drop_last());
        assert(items.map_values(|x: Json| normalized(x)) =~= items.drop_last().map_values(
            |x: Json| normalized(x),
        ).push(normalized(items.last())));
    } else {
        assert(items.map_values(|x: Json| normalized(x)) =~= Seq::<Json>::empty());
    }
}

proof fn lemma_entries_in_place(es: Seq<(Seq<char>, Json)>, replace: bool)
    requires
        !has_key(es, ommers_key()),
    ensures
        normalized_entries(es, replace) == es.map_values(
            |e: (Seq<char>, Json)| (renamed_key(e.0), normalized(e.1)),
        ),
    decreases es.len(),
{
    let f = |e: (Seq<char>, Json)| (renamed_key(e.0), normalized(e.1));
    if es.len() > 0 {
        let dl = es.drop_last();
        assert forall|i: int| 0 <= i < dl.len() implies #[trigger] dl[i].0 != ommers_key() by {
            assert(dl[i] == es[i]);
        }
        lemma_entries_in_place(dl, replace);
        assert(es.last() == es[es.len() - 1]);
        assert(es.map_values(f) =~= dl.map_values(f).push(f(es.last())));
    } else {
        assert(es.map_values(f) =~= Seq::<(Seq<char>, Json)>::empty());
    }
}

/// In an object without an "ommers" entry, normalization keeps every entry in
/// its place: an "uncles" key becomes "ommers", every other key stays, and each
/// value is normalized in turn, whatever its depth.
pub proof fn lemma_normalize_object(es: Seq<(Seq<char>, Json)>)
    requires
        !has_key(es, ommers_key()),
    ensures
        normalized(Json::Object(es)) == Json::Object(
            es.map_values(|e: (Seq<char>, Json)| (renamed_key(e.0), normalized(e.1))),
        ),
{
    lemma_entries_in_place(es, has_key(es, uncles_key()));
}

proof fn lemma_view_items(s: Seq<JsonValue>)
    ensures
        view_items(s).len() == s.len(),
        forall|i: int| 0 <= i < s.len() ==> #[trigger] view_items(s)[i] == s[i]@,
    decreases s.len(),
{
    if s.len() > 0 {
        lemma_view_items(s.drop_last());
    }
}

proof fn lemma_view_entries(s: Seq<(String, JsonValue)>)
    ensures
        view_entries(s).len() == s.len(),
        forall|i: int| 0 <= i < s.len() ==> #[trigger] view_entries(s)[i] == (s[i].0@, s[i].1@),
    decreases s.len(),
{
    if s.len() > 0 {
        lemma_view_entries(s.drop_last());
    }
}

/// Tells whether some entry of `es` has the key "uncles".
fn has_uncles(es: &Vec<(String, JsonValue)>) -> (r: bool)
    ensures
        r == has_key(view_entries(es@), uncles_key()),
{
    let key: String = "uncles".to_owned();
    proof {
        reveal_strlit("uncles");
        assert(key@ =~= uncles_key());
        lemma_view_entries(es@);
    }
    let mut i: usize = 0;
    while i < es.len()
        invariant
            i <= es.len(),
            key@ == uncles_key(),
            forall|j: int| 0 <= j < i ==> es@[j].0@ != uncles_key(),
        decreases es.len() - i,
    {
        if es[i].0 == key {
            proof {
                lemma_view_entries(es@);
                assert(view_entries(es@)[i as int].0 == uncles_key());
            }
            return true;
        }
        i = i + 1;
    }
    proof {
        lemma_view_entries(es@);
        assert forall|j: int| 0 <= j < view_entries(es@).len() implies view_entries(es@)[j].0 != uncles_key() by {
            assert(view_entries(es@)[j] == (es@[j].0@, es@[j].1@));
        }
    }
    false
}

/// Renames every "uncles" field of the tree, at any depth, to "ommers".
pub fn rename_uncles_to_ommers(value: JsonValue) -> (r: JsonValue)
    ensures
        r@ == normalized(value@),
    decreases value,
{
    let ghost whole = value;
    match value {
        JsonValue::Array(items) => {
            let ghost orig_vec = items;
            let ghost orig = items@;
            proof {
                lemma_view_items(orig);
            }
            let mut items = items;
            assert(orig.len() == items.len());
            let mut out: Vec<JsonValue> = Vec::new();
            let mut k: usize = 0;
            #[verifier::loop_isolation(false)]
            while items.len() > 0
                invariant
                    whole == JsonValue::Array(orig_vec),
                    orig == orig_vec@,
                    orig.len() <= usize::MAX,
                    k + items@.len() == orig.len(),
                    items@ == orig.subrange(k as int, orig.len() as int),
                    view_items(out@) == normalized_items(view_items(orig).subrange(0, k as int)),
                    view_items(orig).len() == orig.len(),
                    forall|i: int| 0 <= i < orig.len() ==> #[trigger] view_items(orig)[i] == orig[i]@,
                decreases items.len(),
            {
                let x = items.remove(0);
                proof {
                    assert(x == orig[k as int]);
                    assert(decreases_to!(whole => whole->Array_0));
                    assert(decreases_to!(orig_vec => orig_vec[k as int]));
                    assert(decreases_to!(whole => x));
                }
                let y = rename_uncles_to_ommers(x);
                let ghost before = out@;
                out.push(y);
                proof {
                    let m = view_items(orig);
                    assert(out@.drop_last() =~= before);
                    assert(m.subrange(0, k + 1).drop_last() =~= m.subrange(0, k as int));
                    assert(items@ =~= orig.subrange(k + 1, orig.len() as int));
                }
                k = k + 1;
            }
            proof {
                assert(view_items(orig).subrange(0, k as int) =~= view_items(orig));
            }
            JsonValue::Array(out)
        },
        JsonValue::Object(es) => {
            let replace = has_uncles(&es);
            let ghost orig_vec = es;
            let ghost orig = es@;
            proof {
                lemma_view_entries(orig);
            }
            let uncles: String = "uncles".to_owned();
            let ommers: String = "ommers".to_owned();
            proof {
                reveal_strlit("uncles");
                reveal_strlit("ommers");
                assert(uncles@ =~= uncles_key());
                assert(ommers@ =~= ommers_key());
            }
            let mut es = es;
            assert(orig.len() == es.len());
            let mut out: Vec<(String, JsonValue)> = Vec::new();
            let mut k: usize = 0;
            #[verifier::loop_isolation(false)]
            while es.len() > 0
                invariant
                    whole == JsonValue::Object(orig_vec),
                    orig == orig_vec@,
                    orig.len() <= usize::MAX,
                    replace == has_key(view_entries(orig), uncles_key()),
                    k + es@.len() == orig.len(),
                    es@ == orig.subrange(k as int, orig.len() as int),
                    view_entries(out@) == normalized_entries(view_entries(orig).subrange(0, k as int), replace),
                    view_entries(orig).len() == orig.len(),
                    forall|i: int| 0 <= i < orig.len() ==> #[trigger] view_entries(orig)[i] == (orig[i].0@, orig[i].1@),
                    uncles@ == uncles_key(),
                    ommers@ == ommers_key(),
                decreases es.len(),
            {
                let (key, v) = es.remove(0);
                let ghost before = out@;
                proof {
                    assert(decreases_to!(whole => whole->Object_0));
                    assert(decreases_to!(orig_vec => orig_vec[k as int]));
                    assert(decreases_to!(orig_vec[k as int] => orig_vec[k as int].1));
                    assert(v == orig_vec[k as int].1);
                    assert(decreases_to!(whole => v));
                }
                if replace && key == ommers {
                } else {
                    let nk = if key == uncles { ommers.clone() } else { key };
                    let y = rename_uncles_to_ommers(v);
                    out.push((nk, y));
                    proof {
                        assert(out@.drop_last() =~= before);
                    }
                }
                proof {
                    let m = view_entries(orig);
                    assert(m.subrange(0, k + 1).drop_last() =~= m.subrange(0, k as int));
                    assert(es@ =~= orig.subrange(k + 1, orig.len() as int));
                }
                k = k + 1;
            }
            proof {
                assert(view_entries(orig).subrange(0, k as int) =~= view_entries(orig));
            }
            JsonValue::Object(out)
        },
        other => other,
    }
}

} // verus!
