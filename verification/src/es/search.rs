//! Search request bodies and the reading of search responses, over a JSON
//! document type of the library's own.

use vstd::prelude::*;

verus! {

/// A JSON document. Integers keep their sign as `UInt` or `Int`; any other
/// number keeps its text.
#[derive(Debug, PartialEq)]
pub enum Json {
    Null,
    Bool(bool),
    UInt(u64),
    Int(i64),
    Number(String),
    Str(String),
    Array(Vec<Json>),
    Object(Vec<(String, Json)>),
}

/// What a JSON document is, with its texts as characters.
pub enum JsonModel {
    Null,
    Bool(bool),
    UInt(u64),
    Int(i64),
    Number(Seq<char>),
    Str(Seq<char>),
    Array(Seq<JsonModel>),
    Object(Seq<(Seq<char>, JsonModel)>),
}

/// The model of a document.
pub open spec fn json_model(j: Json) -> JsonModel
    decreases j, 1nat,
{
    match j {
        Json::Null => JsonModel::Null,
        Json::Bool(b) => JsonModel::Bool(b),
        Json::UInt(n) => JsonModel::UInt(n),
        Json::Int(n) => JsonModel::Int(n),
        Json::Number(t) => JsonModel::Number(t@),
        Json::Str(t) => JsonModel::Str(t@),
        Json::Array(v) => JsonModel::Array(json_models(v@)),
        Json::Object(f) => JsonModel::Object(field_models(f@)),
    }
}

/// The models of a sequence of documents.
pub open spec fn json_models(s: Seq<Json>) -> Seq<JsonModel>
    decreases s, 0nat,
{
    if s.len() == 0 {
        seq![]
    } else {
        json_models(s.drop_last()).push(json_model(s.last()))
    }
}

/// The models of the fields of an object.
pub open spec fn field_models(s: Seq<(String, Json)>) -> Seq<(Seq<char>, JsonModel)>
    decreases s, 0nat,
{
    if s.len() == 0 {
        seq![]
    } else {
        field_models(s.drop_last()).push((s.last().0@, json_model(s.last().1)))
    }
}


pub proof fn lemma_json_models(s: Seq<Json>)
    ensures
        json_models(s).len() == s.len(),
        forall|i: int| 0 <= i < s.len() ==> #[trigger] json_models(s)[i] == json_model(s[i]),
    decreases s.len(),
{
    if s.len() > 0 {
        lemma_json_models(s.drop_last());
    }
}

pub proof fn lemma_field_models(s: Seq<(String, Json)>)
    ensures
        field_models(s).len() == s.len(),
        forall|i: int|
            0 <= i < s.len() ==> #[trigger] field_models(s)[i] == (s[i].0@, json_model(s[i].1)),
    decreases s.len(),
{
    if s.len() > 0 {
        lemma_field_models(s.drop_last());
    }
}

/// A copy of a document, with the same model.
pub fn clone_json(j: &Json) -> (r: Json)
    ensures
        json_model(r) == json_model(*j),
    decreases j,
{
    match j {
        Json::Null => Json::Null,
        Json::Bool(b) => Json::Bool(*b),
        Json::UInt(n) => Json::UInt(*n),
        Json::Int(n) => Json::Int(*n),
        Json::Number(t) => Json::Number(t.clone()),
        Json::Str(t) => Json::Str(t.clone()),
        Json::Array(v) => {
            let mut out: Vec<Json> = Vec::new();
            let mut i: usize = 0;
            while i < v.len()
                invariant
                    i <= v.len(),
                    json_models(out@) == json_models(v@.take(i as int)),
                    *j == Json::Array(*v),
                decreases v.len() - i,
            {
                proof {
                    assert(decreases_to!(*j => (*j)->Array_0));
                    assert(decreases_to!(*v => v@));
                    assert(decreases_to!(v@ => v@[i as int]));
                }
                let c = clone_json(&v[i]);
                let ghost before = out@;
                out.push(c);
                proof {
                    assert(v@.take(i as int + 1).drop_last() =~= v@.take(i as int));
                    assert(out@.drop_last() =~= before);
                }
                i = i + 1;
            }
            proof {
                assert(v@.take(v.len() as int) =~= v@);
            }
            Json::Array(out)
        },
        Json::Object(f) => {
            let mut out: Vec<(String, Json)> = Vec::new();
            let mut i: usize = 0;
            while i < f.len()
                invariant
                    i <= f.len(),
                    field_models(out@) == field_models(f@.take(i as int)),
                    *j == Json::Object(*f),
                decreases f.len() - i,
            {
                proof {
                    assert(decreases_to!(*j => (*j)->Object_0));
                    assert(decreases_to!(*f => f@));
                    assert(decreases_to!(f@ => f@[i as int]));
                    assert(decreases_to!(f@[i as int] => f@[i as int].1));
                }
                let c = clone_json(&f[i].1);
                let k = f[i].0.clone();
                let ghost before = out@;
                out.push((k, c));
                proof {
                    assert(f@.take(i as int + 1).drop_last() =~= f@.take(i as int));
                    assert(out@.drop_last() =~= before);
                }
                i = i + 1;
            }
            proof {
                assert(f@.take(f.len() as int) =~= f@);
            }
            Json::Object(out)
        },
    }
}


// ---------------------------------------------------------------- fields of objects

/// `i` is the first field of `f` named `key`.
pub open spec fn is_first_field(f: Seq<(Seq<char>, JsonModel)>, key: Seq<char>, i: int) -> bool {
    &&& 0 <= i < f.len()
    &&& f[i].0 == key
    &&& forall|j: int| 0 <= j < i ==> (#[trigger] f[j]).0 != key
}

/// Whether some field of `f` is named `key`.
pub open spec fn has_field(f: Seq<(Seq<char>, JsonModel)>, key: Seq<char>) -> bool {
    exists|i: int| 0 <= i < f.len() && (#[trigger] f[i]).0 == key
}

/// The index of the first field of `f` named `key` (meaningful where there is one).
pub open spec fn first_field(f: Seq<(Seq<char>, JsonModel)>, key: Seq<char>) -> int {
    choose|i: int| is_first_field(f, key, i)
}

/// The value of the field `key` of an object, as `Value::get` reads it.
pub open spec fn model_get(m: JsonModel, key: Seq<char>) -> Option<JsonModel> {
    match m {
        JsonModel::Object(f) => if has_field(f, key) {
            Some(f[first_field(f, key)].1)
        } else {
            None
        },
        _ => None,
    }
}

/// The fields `f` with `key` set to `v`: the first field of that name gets the
/// value, or the field is appended.
pub open spec fn set_field_model(f: Seq<(Seq<char>, JsonModel)>, key: Seq<char>, v: JsonModel) -> Seq<
    (Seq<char>, JsonModel),
> {
    if has_field(f, key) {
        f.update(first_field(f, key), (key, v))
    } else {
        f.push((key, v))
    }
}

proof fn lemma_first_field(f: Seq<(Seq<char>, JsonModel)>, key: Seq<char>, i: int)
    requires
        is_first_field(f, key, i),
    ensures
        has_field(f, key),
        first_field(f, key) == i,
{
    assert(f[i].0 == key);
    let k = first_field(f, key);
    assert(is_first_field(f, key, k));
    if k < i {
        assert(f[k].0 != key);
    }
    if i < k {
        assert(f[i].0 != key);
    }
}


proof fn lemma_first_exists_from(f: Seq<(Seq<char>, JsonModel)>, key: Seq<char>, w: int)
    requires
        0 <= w < f.len(),
        f[w].0 == key,
    ensures
        exists|i: int| is_first_field(f, key, i),
    decreases w,
{
    if exists|j: int| 0 <= j < w && (#[trigger] f[j]).0 == key {
        let j = choose|j: int| 0 <= j < w && (#[trigger] f[j]).0 == key;
        lemma_first_exists_from(f, key, j);
    } else {
        assert(is_first_field(f, key, w));
    }
}

proof fn lemma_has_first(f: Seq<(Seq<char>, JsonModel)>, key: Seq<char>)
    requires
        has_field(f, key),
    ensures
        is_first_field(f, key, first_field(f, key)),
{
    let w = choose|i: int| 0 <= i < f.len() && (#[trigger] f[i]).0 == key;
    lemma_first_exists_from(f, key, w);
}

/// Where the field `key` is in `f`: its index, or `None`.
fn find_field(f: &Vec<(String, Json)>, key: &str) -> (r: Option<usize>)
    ensures
        match r {
            Some(i) => i < f.len() && is_first_field(field_models(f@), key@, i as int) && first_field(
                field_models(f@),
                key@,
            ) == i && has_field(field_models(f@), key@),
            None => !has_field(field_models(f@), key@),
        },
{
    proof {
        lemma_field_models(f@);
    }
    let mut i: usize = 0;
    while i < f.len()
        invariant
            i <= f.len(),
            field_models(f@).len() == f@.len(),
            forall|k: int| 0 <= k < f@.len() ==> #[trigger] field_models(f@)[k] == (f@[k].0@, json_model(f@[k].1)),
            forall|j: int| 0 <= j < i ==> (#[trigger] field_models(f@)[j]).0 != key@,
        decreases f.len() - i,
    {
        if crate::text::str_eq(f[i].0.as_str(), key) {
            proof {
                assert(field_models(f@)[i as int].0 == key@);
                lemma_first_field(field_models(f@), key@, i as int);
            }
            return Some(i);
        }
        i = i + 1;
    }
    None
}

/// The field `key` of an object, as `Value::get` reads it; `None` for a
/// document that is no object.
pub fn json_get<'a>(j: &'a Json, key: &str) -> (r: Option<&'a Json>)
    ensures
        match r {
            Some(v) => model_get(json_model(*j), key@) == Some(json_model(*v)),
            None => model_get(json_model(*j), key@) is None,
        },
{
    match j {
        Json::Object(f) => {
            proof {
                lemma_field_models(f@);
            }
            match find_field(f, key) {
                Some(i) => Some(&f[i].1),
                None => None,
            }
        },
        _ => None,
    }
}

/// Sets the field `key` of `f` to `v`, as `value[key] = v` does on an object.
fn set_field(f: &mut Vec<(String, Json)>, key: &str, v: Json)
    ensures
        field_models(final(f)@) == set_field_model(field_models(old(f)@), key@, json_model(v)),
{
    proof {
        lemma_field_models(old(f)@);
    }
    let ghost m = json_model(v);
    match find_field(f, key) {
        Some(i) => {
            f.set(i, (crate::text::to_owned_string(key), v));
            proof {
                lemma_field_models(f@);
                assert(field_models(f@) =~= field_models(old(f)@).update(i as int, (key@, m)));
            }
        },
        None => {
            let ghost before = f@;
            f.push((crate::text::to_owned_string(key), v));
            proof {
                assert(f@.drop_last() =~= before);
            }
        },
    }
}



/// Setting a field of an object and reading it back gives the value set, and
/// every other field reads as before: what makes a later aggregation of a name
/// replace the earlier one and leave the others.
pub proof fn law_set_field_reads_back(
    f: Seq<(Seq<char>, JsonModel)>,
    key: Seq<char>,
    v: JsonModel,
    other: Seq<char>,
)
    ensures
        model_get(JsonModel::Object(set_field_model(f, key, v)), key) == Some(v),
        other != key ==> model_get(JsonModel::Object(set_field_model(f, key, v)), other) == model_get(
            JsonModel::Object(f),
            other,
        ),
{
    let g = set_field_model(f, key, v);
    if has_field(f, key) {
        let i = first_field(f, key);
        lemma_has_first(f, key);
        assert(is_first_field(g, key, i));
        lemma_first_field(g, key, i);
        if other != key {
            if has_field(f, other) {
                let j = first_field(f, other);
                lemma_has_first(f, other);
                assert(is_first_field(g, other, j));
                lemma_first_field(g, other, j);
            } else {
                if has_field(g, other) {
                    let j = choose|j: int| 0 <= j < g.len() && (#[trigger] g[j]).0 == other;
                    assert(f[j].0 == other);
                }
            }
        }
    } else {
        let i = f.len() as int;
        assert(is_first_field(g, key, i));
        lemma_first_field(g, key, i);
        if other != key {
            if has_field(f, other) {
                let j = first_field(f, other);
                lemma_has_first(f, other);
                assert(is_first_field(g, other, j));
                lemma_first_field(g, other, j);
            } else {
                if has_field(g, other) {
                    let j = choose|j: int| 0 <= j < g.len() && (#[trigger] g[j]).0 == other;
                    assert(f[j].0 == other);
                }
            }
        }
    }
}

// ---------------------------------------------------------------- request bodies

/// The parts of a search request body.
pub struct SearchBodyModel {
    pub query: Option<JsonModel>,
    pub from: Option<u64>,
    pub size: Option<u64>,
    pub sort: Seq<JsonModel>,
    pub source: Option<JsonModel>,
    pub aggregations: Option<Seq<(Seq<char>, JsonModel)>>,
    pub highlight: Option<JsonModel>,
}

/// An object of one field.
pub open spec fn single(key: Seq<char>, v: JsonModel) -> JsonModel {
    JsonModel::Object(seq![(key, v)])
}

/// An object of no field.
pub open spec fn empty_object() -> JsonModel {
    JsonModel::Object(seq![])
}

/// One field where there is a value, none otherwise.
pub open spec fn opt_field(key: Seq<char>, v: Option<JsonModel>) -> Seq<(Seq<char>, JsonModel)> {
    match v {
        Some(m) => seq![(key, m)],
        None => seq![],
    }
}

/// One field holding the array where it is not empty, none otherwise.
pub open spec fn array_field(key: Seq<char>, items: Seq<JsonModel>) -> Seq<(Seq<char>, JsonModel)> {
    if items.len() > 0 {
        seq![(key, JsonModel::Array(items))]
    } else {
        seq![]
    }
}

/// The body sent to the search engine: the query (all documents where none was
/// set), then paging, sort, returned fields, aggregations and highlighting
/// where they were set.
pub open spec fn body_model(b: SearchBodyModel) -> JsonModel {
    JsonModel::Object(
        seq![
            (
                "query"@,
                match b.query {
                    Some(q) => q,
                    None => single("match_all"@, empty_object()),
                },
            ),
        ] + opt_field(
            "from"@,
            match b.from {
                Some(n) => Some(JsonModel::UInt(n)),
                None => None,
            },
        ) + opt_field(
            "size"@,
            match b.size {
                Some(n) => Some(JsonModel::UInt(n)),
                None => None,
            },
        ) + array_field("sort"@, b.sort) + opt_field("_source"@, b.source) + opt_field(
            "aggs"@,
            match b.aggregations {
                Some(f) => Some(JsonModel::Object(f)),
                None => None,
            },
        ) + opt_field("highlight"@, b.highlight),
    )
}

/// The highlighted fields: each name once, at its first place, with an empty
/// object.
pub open spec fn highlight_fields(names: Seq<Seq<char>>) -> Seq<(Seq<char>, JsonModel)>
    decreases names.len(),
{
    if names.len() == 0 {
        seq![]
    } else {
        set_field_model(highlight_fields(names.drop_last()), names.last(), empty_object())
    }
}

/// Builds the body of a search request.
pub struct SearchBuilder {
    query: Option<Json>,
    from: Option<u64>,
    size: Option<u64>,
    sort: Vec<Json>,
    source: Option<Json>,
    aggregations: Option<Vec<(String, Json)>>,
    highlight: Option<Json>,
}

/// The model of an optional document.
pub open spec fn opt_model(j: Option<Json>) -> Option<JsonModel> {
    match j {
        Some(v) => Some(json_model(v)),
        None => None,
    }
}

impl View for SearchBuilder {
    type V = SearchBodyModel;

    closed spec fn view(&self) -> SearchBodyModel {
        SearchBodyModel {
            query: opt_model(self.query),
            from: self.from,
            size: self.size,
            sort: json_models(self.sort@),
            source: opt_model(self.source),
            aggregations: match self.aggregations {
                Some(f) => Some(field_models(f@)),
                None => None,
            },
            highlight: opt_model(self.highlight),
        }
    }
}

/// An object of one field.
fn single_object(key: &str, v: Json) -> (r: Json)
    ensures
        json_model(r) == single(key@, json_model(v)),
{
    let mut f: Vec<(String, Json)> = Vec::new();
    f.push((crate::text::to_owned_string(key), v));
    proof {
        assert(f@.drop_last() =~= Seq::<(String, Json)>::empty());
        assert(field_models(Seq::<(String, Json)>::empty()) =~= seq![]);
        assert(field_models(f@) =~= seq![(key@, json_model(v))]);
    }
    Json::Object(f)
}

/// Appends the field `key` to `f` where there is a value.
fn push_opt_field(f: &mut Vec<(String, Json)>, key: &str, v: Option<Json>)
    ensures
        field_models(final(f)@) == field_models(old(f)@) + opt_field(key@, opt_model(v)),
{
    match v {
        Some(x) => {
            let ghost before = f@;
            f.push((crate::text::to_owned_string(key), x));
            proof {
                assert(f@.drop_last() =~= before);
                assert(field_models(f@) =~= field_models(before) + opt_field(key@, opt_model(v)));
            }
        },
        None => {
            proof {
                assert(field_models(f@) =~= field_models(f@) + opt_field(key@, opt_model(v)));
            }
        },
    }
}

/// An array of documents, or nothing where there are none.
fn nonempty_array(items: Vec<Json>) -> (r: Option<Json>)
    ensures
        opt_field("k"@, opt_model(r)) == array_field("k"@, json_models(items@)),
        items@.len() == 0 <==> r is None,
        r matches Some(a) ==> json_model(a) == JsonModel::Array(json_models(items@)),
{
    proof {
        lemma_json_models(items@);
    }
    if items.len() == 0 {
        None
    } else {
        Some(Json::Array(items))
    }
}

impl SearchBuilder {
    /// A builder with nothing set.
    pub fn new() -> (r: SearchBuilder)
        ensures
            r@.query is None,
            r@.from is None,
            r@.size is None,
            r@.sort.len() == 0,
            r@.source is None,
            r@.aggregations is None,
            r@.highlight is None,
    {
        SearchBuilder {
            query: None,
            from: None,
            size: None,
            sort: Vec::new(),
            source: None,
            aggregations: None,
            highlight: None,
        }
    }

    /// Sets the query.
    pub fn query(self, query: Json) -> (r: SearchBuilder)
        ensures
            r@ == (SearchBodyModel { query: Some(json_model(query)), ..self@ }),
    {
        SearchBuilder { query: Some(query), ..self }
    }

    /// Sets the query to a `match` of `value` on `field`.
    pub fn match_query(self, field: &str, value: Json) -> (r: SearchBuilder)
        ensures
            r@ == (SearchBodyModel {
                query: Some(single("match"@, single(field@, json_model(value)))),
                ..self@
            }),
    {
        let q = single_object("match", single_object(field, value));
        SearchBuilder { query: Some(q), ..self }
    }

    /// Sets the query to a `term` of `value` on `field`.
    pub fn term(self, field: &str, value: Json) -> (r: SearchBuilder)
        ensures
            r@ == (SearchBodyModel {
                query: Some(single("term"@, single(field@, json_model(value)))),
                ..self@
            }),
    {
        let q = single_object("term", single_object(field, value));
        SearchBuilder { query: Some(q), ..self }
    }

    /// Sets the query to a `bool` query of the clauses that are not empty.
    pub fn bool_query(self, must: Vec<Json>, should: Vec<Json>, must_not: Vec<Json>) -> (r:
        SearchBuilder)
        ensures
            r@ == (SearchBodyModel {
                query: Some(
                    single(
                        "bool"@,
                        JsonModel::Object(
                            array_field("must"@, json_models(must@)) + array_field(
                                "should"@,
                                json_models(should@),
                            ) + array_field("must_not"@, json_models(must_not@)),
                        ),
                    ),
                ),
                ..self@
            }),
    {
        let mut f: Vec<(String, Json)> = Vec::new();
        let ghost mm = json_models(must@);
        let ghost sm = json_models(should@);
        let ghost nm = json_models(must_not@);
        let a = nonempty_array(must);
        push_opt_field(&mut f, "must", a);
        let b = nonempty_array(should);
        push_opt_field(&mut f, "should", b);
        let c = nonempty_array(must_not);
        push_opt_field(&mut f, "must_not", c);
        proof {
            assert(field_models(Seq::<(String, Json)>::empty()) =~= seq![]);
            assert(field_models(f@) =~= array_field("must"@, mm) + array_field("should"@, sm)
                + array_field("must_not"@, nm));
        }
        let q = single_object("bool", Json::Object(f));
        SearchBuilder { query: Some(q), ..self }
    }

    /// Sets the query to a `range` on `field`, with the bounds that are given.
    pub fn range(self, field: &str, gte: Option<Json>, lte: Option<Json>) -> (r: SearchBuilder)
        ensures
            r@ == (SearchBodyModel {
                query: Some(
                    single(
                        "range"@,
                        single(
                            field@,
                            JsonModel::Object(
                                opt_field("gte"@, opt_model(gte)) + opt_field("lte"@, opt_model(lte)),
                            ),
                        ),
                    ),
                ),
                ..self@
            }),
    {
        let mut f: Vec<(String, Json)> = Vec::new();
        let ghost g = opt_model(gte);
        let ghost l = opt_model(lte);
        push_opt_field(&mut f, "gte", gte);
        push_opt_field(&mut f, "lte", lte);
        proof {
            assert(field_models(Seq::<(String, Json)>::empty()) =~= seq![]);
            assert(field_models(f@) =~= opt_field("gte"@, g) + opt_field("lte"@, l));
        }
        let q = single_object("range", single_object(field, Json::Object(f)));
        SearchBuilder { query: Some(q), ..self }
    }

    /// Sets the offset of the first hit.
    pub fn from(self, from: u64) -> (r: SearchBuilder)
        ensures
            r@ == (SearchBodyModel { from: Some(from), ..self@ }),
    {
        SearchBuilder { from: Some(from), ..self }
    }

    /// Sets the number of hits.
    pub fn size(self, size: u64) -> (r: SearchBuilder)
        ensures
            r@ == (SearchBodyModel { size: Some(size), ..self@ }),
    {
        SearchBuilder { size: Some(size), ..self }
    }

    /// Adds a sort on `field` in `order`, after the earlier ones.
    pub fn sort(self, field: &str, order: &str) -> (r: SearchBuilder)
        ensures
            r@ == (SearchBodyModel {
                sort: self@.sort.push(single(field@, single("order"@, JsonModel::Str(order@)))),
                ..self@
            }),
    {
        let mut b = self;
        let item = single_object(field, single_object("order", Json::Str(crate::text::to_owned_string(order))));
        let ghost before = b.sort@;
        b.sort.push(item);
        proof {
            assert(b.sort@.drop_last() =~= before);
        }
        b
    }

    /// Sets the returned fields.
    pub fn source(self, fields: Vec<&str>) -> (r: SearchBuilder)
        ensures
            r@ == (SearchBodyModel {
                source: Some(JsonModel::Array(fields@.map_values(|f: &str| JsonModel::Str(f@)))),
                ..self@
            }),
    {
        let mut items: Vec<Json> = Vec::new();
        let mut i: usize = 0;
        while i < fields.len()
            invariant
                i <= fields.len(),
                json_models(items@) =~= fields@.take(i as int).map_values(|f: &str| JsonModel::Str(f@)),
            decreases fields.len() - i,
        {
            let ghost before = items@;
            let t = crate::text::to_owned_string(fields[i]);
            let ghost jt = Json::Str(t);
            proof {
                assert(json_model(jt) == JsonModel::Str(fields@[i as int]@));
            }
            items.push(Json::Str(t));
            proof {
                assert(items@.drop_last() =~= before);
                assert(items@.last() == jt);
                assert(json_models(items@) == json_models(before).push(JsonModel::Str(fields@[i as int]@)));
                assert(fields@.take(i as int + 1).map_values(|f: &str| JsonModel::Str(f@)) =~= fields@.take(
                    i as int,
                ).map_values(|f: &str| JsonModel::Str(f@)).push(JsonModel::Str(fields@[i as int]@)));
            }
            i = i + 1;
        }
        proof {
            assert(fields@.take(fields.len() as int) =~= fields@);
        }
        SearchBuilder { source: Some(Json::Array(items)), ..self }
    }

    /// Sets the aggregation `name`, keeping the others; a later one of the same
    /// name replaces the earlier.
    pub fn aggregation(self, name: &str, agg: Json) -> (r: SearchBuilder)
        ensures
            r@ == (SearchBodyModel {
                aggregations: Some(
                    set_field_model(
                        match self@.aggregations {
                            Some(f) => f,
                            None => seq![],
                        },
                        name@,
                        json_model(agg),
                    ),
                ),
                ..self@
            }),
    {
        let mut b = self;
        let mut aggs = match b.aggregations {
            Some(f) => f,
            None => Vec::new(),
        };
        proof {
            assert(field_models(Seq::<(String, Json)>::empty()) =~= seq![]);
        }
        set_field(&mut aggs, name, agg);
        SearchBuilder { aggregations: Some(aggs), ..b }
    }

    /// Sets the highlighted fields, each once.
    pub fn highlight(self, fields: Vec<&str>) -> (r: SearchBuilder)
        ensures
            r@ == (SearchBodyModel {
                highlight: Some(
                    single(
                        "fields"@,
                        JsonModel::Object(highlight_fields(fields@.map_values(|f: &str| f@))),
                    ),
                ),
                ..self@
            }),
    {
        let ghost names = fields@.map_values(|f: &str| f@);
        let mut obj: Vec<(String, Json)> = Vec::new();
        let mut i: usize = 0;
        proof {
            assert(field_models(Seq::<(String, Json)>::empty()) =~= seq![]);
            assert(names.take(0) =~= Seq::<Seq<char>>::empty());
        }
        while i < fields.len()
            invariant
                i <= fields.len(),
                names == fields@.map_values(|f: &str| f@),
                field_models(obj@) == highlight_fields(names.take(i as int)),
            decreases fields.len() - i,
        {
            let e: Vec<(String, Json)> = Vec::new();
            proof {
                assert(field_models(e@) =~= seq![]);
            }
            set_field(&mut obj, fields[i], Json::Object(e));
            proof {
                assert(names.take(i as int + 1).drop_last() =~= names.take(i as int));
                assert(names.take(i as int + 1).last() == fields@[i as int]@);
            }
            i = i + 1;
        }
        proof {
            assert(names.take(fields.len() as int) =~= names);
        }
        let h = single_object("fields", Json::Object(obj));
        SearchBuilder { highlight: Some(h), ..self }
    }

    /// The request body.
    pub fn build(self) -> (r: Json)
        ensures
            json_model(r) == body_model(self@),
    {
        let ghost m = self@;
        let mut body: Vec<(String, Json)> = Vec::new();
        let e: Vec<(String, Json)> = Vec::new();
        proof {
            assert(field_models(e@) =~= seq![]);
            assert(field_models(body@) =~= seq![]);
        }
        let q = match self.query {
            Some(q) => q,
            None => single_object("match_all", Json::Object(e)),
        };
        push_opt_field(&mut body, "query", Some(q));
        push_opt_field(&mut body, "from", match self.from {
            Some(n) => Some(Json::UInt(n)),
            None => None,
        });
        push_opt_field(&mut body, "size", match self.size {
            Some(n) => Some(Json::UInt(n)),
            None => None,
        });
        let ghost sm = json_models(self.sort@);
        let s = nonempty_array(self.sort);
        push_opt_field(&mut body, "sort", s);
        push_opt_field(&mut body, "_source", self.source);
        let a = match self.aggregations {
            Some(f) => Some(Json::Object(f)),
            None => None,
        };
        push_opt_field(&mut body, "aggs", a);
        push_opt_field(&mut body, "highlight", self.highlight);
        proof {
            assert(opt_field("sort"@, opt_model(s)) =~= array_field("sort"@, sm)) by {
                lemma_json_models(self.sort@);
            }
        }
        let r = Json::Object(body);
        proof {
            assert(json_model(r) =~= body_model(m));
        }
        r
    }
}



// ---------------------------------------------------------------- search responses

/// `Value::as_u64`: a non-negative integer.
pub open spec fn model_as_u64(m: Option<JsonModel>) -> Option<u64> {
    match m {
        Some(JsonModel::UInt(n)) => Some(n),
        Some(JsonModel::Int(n)) => if n >= 0 {
            Some(n as u64)
        } else {
            None
        },
        _ => None,
    }
}

/// `Value::as_str`, or the empty text.
pub open spec fn model_text(m: Option<JsonModel>) -> Seq<char> {
    match m {
        Some(JsonModel::Str(t)) => t,
        _ => seq![],
    }
}

/// The document where it is a number.
pub open spec fn model_number(m: Option<JsonModel>) -> Option<JsonModel> {
    match m {
        Some(JsonModel::UInt(_)) => m,
        Some(JsonModel::Int(_)) => m,
        Some(JsonModel::Number(_)) => m,
        _ => None,
    }
}

/// What a hit holds.
pub struct SearchHitModel {
    pub index: Seq<char>,
    pub id: Seq<char>,
    pub score: Option<JsonModel>,
    pub source: JsonModel,
}

/// A hit read from its document: its index, id, score and source.
pub open spec fn hit_model(h: JsonModel) -> SearchHitModel {
    SearchHitModel {
        index: model_text(model_get(h, "_index"@)),
        id: model_text(model_get(h, "_id"@)),
        score: model_number(model_get(h, "_score"@)),
        source: match model_get(h, "_source"@) {
            Some(s) => s,
            None => empty_object(),
        },
    }
}

/// The `hits` section of a response, or an empty object.
pub open spec fn hits_section(resp: JsonModel) -> JsonModel {
    match model_get(resp, "hits"@) {
        Some(h) => h,
        None => empty_object(),
    }
}

/// The total of a response: `hits.total.value`, or 0.
pub open spec fn result_total(resp: JsonModel) -> u64 {
    let v = match model_get(hits_section(resp), "total"@) {
        Some(t) => model_get(t, "value"@),
        None => None,
    };
    match model_as_u64(v) {
        Some(n) => n,
        None => 0,
    }
}

/// The hits of a response: those of the array `hits.hits`, or none.
pub open spec fn result_hits(resp: JsonModel) -> Seq<SearchHitModel> {
    match model_get(hits_section(resp), "hits"@) {
        Some(JsonModel::Array(a)) => a.map_values(|h: JsonModel| hit_model(h)),
        _ => seq![],
    }
}

/// One hit of a search.
#[derive(Debug)]
pub struct SearchHit {
    pub index: String,
    pub id: String,
    pub score: Option<Json>,
    pub source: Json,
}

impl View for SearchHit {
    type V = SearchHitModel;

    open spec fn view(&self) -> SearchHitModel {
        SearchHitModel {
            index: self.index@,
            id: self.id@,
            score: opt_model(self.score),
            source: json_model(self.source),
        }
    }
}

/// The result of a search.
#[derive(Debug)]
pub struct SearchResult {
    pub total: u64,
    pub hits: Vec<SearchHit>,
    pub aggregations: Option<Json>,
}

fn get_u64(j: Option<&Json>) -> (r: Option<u64>)
    ensures
        r == model_as_u64(
            match j {
                Some(v) => Some(json_model(*v)),
                None => None,
            },
        ),
{
    match j {
        Some(Json::UInt(n)) => Some(*n),
        Some(Json::Int(n)) => if *n >= 0 {
            Some(*n as u64)
        } else {
            None
        },
        _ => None,
    }
}

fn get_text(j: Option<&Json>) -> (r: String)
    ensures
        r@ == model_text(
            match j {
                Some(v) => Some(json_model(*v)),
                None => None,
            },
        ),
{
    match j {
        Some(Json::Str(t)) => t.clone(),
        _ => String::new(),
    }
}

fn get_number(j: Option<&Json>) -> (r: Option<Json>)
    ensures
        opt_model(r) == model_number(
            match j {
                Some(v) => Some(json_model(*v)),
                None => None,
            },
        ),
{
    match j {
        Some(Json::UInt(n)) => Some(Json::UInt(*n)),
        Some(Json::Int(n)) => Some(Json::Int(*n)),
        Some(Json::Number(t)) => Some(Json::Number(t.clone())),
        _ => None,
    }
}

fn read_hit(h: &Json) -> (r: SearchHit)
    ensures
        r@ == hit_model(json_model(*h)),
{
    let index = get_text(json_get(h, "_index"));
    let id = get_text(json_get(h, "_id"));
    let score = get_number(json_get(h, "_score"));
    let source = match json_get(h, "_source") {
        Some(s) => clone_json(s),
        None => {
            let e: Vec<(String, Json)> = Vec::new();
            proof {
                assert(field_models(e@) =~= seq![]);
            }
            Json::Object(e)
        },
    };
    SearchHit { index, id, score, source }
}

/// Reads a search response: the total, the hits and the aggregations.
pub fn parse_search_result(response: Json) -> (r: SearchResult)
    ensures
        r.total == result_total(json_model(response)),
        r.hits@.map_values(|h: SearchHit| h@) == result_hits(json_model(response)),
        opt_model(r.aggregations) == model_get(json_model(response), "aggregations"@),
{
    let ghost m = json_model(response);
    let e: Vec<(String, Json)> = Vec::new();
    proof {
        assert(field_models(e@) =~= seq![]);
    }
    let default_hits = Json::Object(e);
    let hits_obj: &Json = match json_get(&response, "hits") {
        Some(h) => h,
        None => &default_hits,
    };
    assert(json_model(*hits_obj) == hits_section(m));
    let total_v = match json_get(hits_obj, "total") {
        Some(t) => json_get(t, "value"),
        None => None,
    };
    let total = match get_u64(total_v) {
        Some(n) => n,
        None => 0,
    };
    let mut hits: Vec<SearchHit> = Vec::new();
    match json_get(hits_obj, "hits") {
        Some(Json::Array(arr)) => {
            proof {
                lemma_json_models(arr@);
            }
            let ghost hm = json_models(arr@);
            let mut i: usize = 0;
            while i < arr.len()
                invariant
                    i <= arr.len(),
                    hm == json_models(arr@),
                    hm.len() == arr@.len(),
                    forall|k: int| 0 <= k < arr@.len() ==> #[trigger] hm[k] == json_model(arr@[k]),
                    hits@.map_values(|h: SearchHit| h@) =~= hm.take(i as int).map_values(
                        |h: JsonModel| hit_model(h),
                    ),
                decreases arr.len() - i,
            {
                let hit = read_hit(&arr[i]);
                let ghost before = hits@;
                let ghost hv = hit@;
                hits.push(hit);
                proof {
                    assert(hm.take(i as int + 1) =~= hm.take(i as int).push(hm[i as int]));
                    assert(hv == hit_model(hm[i as int]));
                    assert(hits@.map_values(|h: SearchHit| h@) =~= before.map_values(|h: SearchHit| h@).push(hv));
                    assert(hm.take(i as int + 1).map_values(|h: JsonModel| hit_model(h)) =~= hm.take(
                        i as int,
                    ).map_values(|h: JsonModel| hit_model(h)).push(hit_model(hm[i as int])));
                }
                i = i + 1;
            }
            proof {
                assert(hm.take(arr.len() as int) =~= hm);
            }
        },
        _ => {},
    }
    let aggregations = match json_get(&response, "aggregations") {
        Some(a) => Some(clone_json(a)),
        None => None,
    };
    SearchResult { total, hits, aggregations }
}

} // verus!
