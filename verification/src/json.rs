use vstd::prelude::*;

verus! {

/// Mathematical model of a JSON document: what a `JsonValue` denotes in
/// specifications. Objects are ordered sequences of fields; a lookup takes
/// the first binding of a key.
#[verifier::ext_equal]
pub enum Json {
    Null,
    Bool(bool),
    Int(int),
    Str(Seq<char>),
    Arr(Seq<Json>),
    Obj(Seq<(Seq<char>, Json)>),
}

/// Executable JSON document. Numbers are 64-bit integers: every number this
/// service reads or writes (latencies, document counts) is integral, and
/// caller-supplied payloads are nested untouched, never inspected.
#[derive(Debug, PartialEq)]
pub enum JsonValue {
    Null,
    Bool(bool),
    Int(i64),
    Str(String),
    Arr(Vec<JsonValue>),
    Obj(Vec<(String, JsonValue)>),
}

/// First binding of `key` among `fields`, if any.
pub open spec fn lookup_fields(fields: Seq<(Seq<char>, Json)>, key: Seq<char>) -> Option<Json>
    decreases fields.len(),
{
    if fields.len() == 0 {
        None
    } else if fields[0].0 == key {
        Some(fields[0].1)
    } else {
        lookup_fields(fields.drop_first(), key)
    }
}

/// Field lookup on a document: `None` on anything but an object with the key.
pub open spec fn json_get_spec(j: Json, key: Seq<char>) -> Option<Json> {
    match j {
        Json::Obj(fields) => lookup_fields(fields, key),
        _ => None,
    }
}

/// Elementwise model of an array's items.
pub open spec fn model_seq(items: Seq<JsonValue>) -> Seq<Json>
    decreases items,
{
    if items.len() == 0 {
        Seq::empty()
    } else {
        seq![items[0].model()] + model_seq(items.drop_first())
    }
}

/// Elementwise model of an object's fields.
pub open spec fn model_fields(fields: Seq<(String, JsonValue)>) -> Seq<(Seq<char>, Json)>
    decreases fields,
{
    if fields.len() == 0 {
        Seq::empty()
    } else {
        seq![(fields[0].0@, fields[0].1.model())] + model_fields(fields.drop_first())
    }
}

impl JsonValue {
    /// The document this value denotes.
    pub open spec fn model(self) -> Json
        decreases self,
    {
        match self {
            JsonValue::Null => Json::Null,
            JsonValue::Bool(b) => Json::Bool(b),
            JsonValue::Int(i) => Json::Int(i as int),
            JsonValue::Str(s) => Json::Str(s@),
            JsonValue::Arr(items) => Json::Arr(model_seq(items@)),
            JsonValue::Obj(fields) => Json::Obj(model_fields(fields@)),
        }
    }
}

/// `model_seq` maps each item to its model.
pub proof fn lemma_model_seq(items: Seq<JsonValue>)
    ensures
        model_seq(items).len() == items.len(),
        forall|i: int| 0 <= i < items.len() ==> model_seq(items)[i] == items[i].model(),
    decreases items,
{
    if items.len() > 0 {
        lemma_model_seq(items.drop_first());
        assert forall|i: int| 0 <= i < items.len() implies model_seq(items)[i]
            == items[i].model() by {
            if i > 0 {
                assert(items.drop_first()[i - 1] == items[i]);
            }
        }
    }
}

/// `model_fields` maps each field to its key's view and its value's model.
pub proof fn lemma_model_fields(fields: Seq<(String, JsonValue)>)
    ensures
        model_fields(fields).len() == fields.len(),
        forall|i: int| 0 <= i < fields.len() ==> model_fields(fields)[i] == (
            fields[i].0@,
            fields[i].1.model(),
        ),
    decreases fields,
{
    if fields.len() > 0 {
        lemma_model_fields(fields.drop_first());
        assert forall|i: int| 0 <= i < fields.len() implies model_fields(fields)[i] == (
            fields[i].0@,
            fields[i].1.model(),
        ) by {
            if i > 0 {
                assert(fields.drop_first()[i - 1] == fields[i]);
            }
        }
    }
}

impl JsonValue {
    /// Looks `key` up in an object; `None` on a non-object or a missing key.
    #[verifier::loop_isolation(false)]
    pub fn get<'a>(&'a self, key: &String) -> (r: Option<&'a JsonValue>)
        ensures
            match r {
                Some(v) => json_get_spec(self.model(), key@) == Some(v.model()),
                None => json_get_spec(self.model(), key@) is None,
            },
    {
        match self {
            JsonValue::Obj(fields) => {
                let ghost mf = model_fields(fields@);
                proof {
                    lemma_model_fields(fields@);
                    assert(mf.skip(0) =~= mf);
                }
                let mut k: usize = 0;
                while k < fields.len()
                    invariant
                        k <= fields.len(),
                        mf == model_fields(fields@),
                        mf.len() == fields@.len(),
                        forall|i: int| 0 <= i < fields@.len() ==> mf[i] == (
                            fields@[i].0@,
                            fields@[i].1.model(),
                        ),
                        lookup_fields(mf, key@) == lookup_fields(mf.skip(k as int), key@),
                    decreases fields.len() - k,
                {
                    proof {
                        assert(mf.skip(k as int)[0] == mf[k as int]);
                    }
                    if fields[k].0 == *key {
                        proof {
                            assert(mf[k as int].0 == key@);
                            assert(lookup_fields(mf.skip(k as int), key@) == Some(
                                mf[k as int].1,
                            ));
                        }
                        return Some(&fields[k].1);
                    }
                    proof {
                        assert(mf.skip(k as int).drop_first() =~= mf.skip(k as int + 1));
                    }
                    k += 1;
                }
                proof {
                    assert(mf.skip(fields@.len() as int).len() == 0);
                }
                None
            },
            _ => None,
        }
    }

    /// Whether this value is an object.
    pub fn is_object(&self) -> (r: bool)
        ensures
            r <==> self.model() is Obj,
    {
        match self {
            JsonValue::Obj(_) => true,
            _ => false,
        }
    }

    /// Whether this value is an array.
    pub fn is_array(&self) -> (r: bool)
        ensures
            r <==> self.model() is Arr,
    {
        match self {
            JsonValue::Arr(_) => true,
            _ => false,
        }
    }

    /// The string held by a `Str` value.
    pub fn as_str(&self) -> (r: Option<&String>)
        ensures
            match r {
                Some(s) => self.model() == Json::Str(s@),
                None => !(self.model() is Str),
            },
    {
        match self {
            JsonValue::Str(s) => Some(s),
            _ => None,
        }
    }

    /// The integer held by an `Int` value.
    pub fn as_i64(&self) -> (r: Option<i64>)
        ensures
            match r {
                Some(i) => self.model() == Json::Int(i as int),
                None => !(self.model() is Int),
            },
    {
        match self {
            JsonValue::Int(i) => Some(*i),
            _ => None,
        }
    }

    /// Structure-preserving copy: the copy denotes the same document.
    #[verifier::loop_isolation(false)]
    pub fn duplicate(&self) -> (r: JsonValue)
        ensures
            r.model() == self.model(),
        decreases *self,
    {
        match self {
            JsonValue::Null => JsonValue::Null,
            JsonValue::Bool(b) => JsonValue::Bool(*b),
            JsonValue::Int(i) => JsonValue::Int(*i),
            JsonValue::Str(s) => JsonValue::Str(s.clone()),
            JsonValue::Arr(items) => {
                let mut out: Vec<JsonValue> = Vec::new();
                let mut k: usize = 0;
                while k < items.len()
                    invariant
                        k <= items.len(),
                        out@.len() == k,
                        forall|j: int| 0 <= j < k ==> (#[trigger] out@[j]).model()
                            == items@[j].model(),
                    decreases items.len() - k,
                {
                    proof {
                        broadcast use vstd::std_specs::vec::group_vec_axioms;

                        assert(decreases_to!(*self => (*self)->Arr_0@[k as int]));
                        assert(items@[k as int] == (*self)->Arr_0@[k as int]);
                    }
                    out.push(items[k].duplicate());
                    k += 1;
                }
                let r = JsonValue::Arr(out);
                proof {
                    lemma_model_seq(out@);
                    lemma_model_seq(items@);
                    assert(model_seq(out@) =~= model_seq(items@));
                }
                r
            },
            JsonValue::Obj(fields) => {
                let mut out: Vec<(String, JsonValue)> = Vec::new();
                let mut k: usize = 0;
                while k < fields.len()
                    invariant
                        k <= fields.len(),
                        out@.len() == k,
                        forall|j: int| 0 <= j < k ==> (#[trigger] out@[j]).0@ == fields@[j].0@
                            && out@[j].1.model() == fields@[j].1.model(),
                    decreases fields.len() - k,
                {
                    proof {
                        broadcast use vstd::std_specs::vec::group_vec_axioms;

                        assert(decreases_to!(*self => (*self)->Obj_0@[k as int]));
                        assert(decreases_to!(
                            (*self)->Obj_0@[k as int] => (*self)->Obj_0@[k as int].1
                        ));
                        assert(decreases_to!(*self => fields@[k as int].1));
                    }
                    out.push((fields[k].0.clone(), fields[k].1.duplicate()));
                    k += 1;
                }
                let r = JsonValue::Obj(out);
                proof {
                    lemma_model_fields(out@);
                    lemma_model_fields(fields@);
                    assert(model_fields(out@) =~= model_fields(fields@));
                }
                r
            },
        }
    }
}

/// Builds a one-field object.
pub fn obj1(k: &str, v: JsonValue) -> (r: JsonValue)
    ensures
        r.model() == Json::Obj(seq![(k@, v.model())]),
{
    let mut fields: Vec<(String, JsonValue)> = Vec::new();
    fields.push((k.to_owned(), v));
    let r = JsonValue::Obj(fields);
    proof {
        lemma_model_fields(fields@);
        assert(model_fields(fields@) =~= seq![(k@, v.model())]);
    }
    r
}

/// Builds a two-field object.
pub fn obj2(k1: &str, v1: JsonValue, k2: &str, v2: JsonValue) -> (r: JsonValue)
    ensures
        r.model() == Json::Obj(seq![(k1@, v1.model()), (k2@, v2.model())]),
{
    let mut fields: Vec<(String, JsonValue)> = Vec::new();
    fields.push((k1.to_owned(), v1));
    fields.push((k2.to_owned(), v2));
    let r = JsonValue::Obj(fields);
    proof {
        lemma_model_fields(fields@);
        assert(model_fields(fields@) =~= seq![(k1@, v1.model()), (k2@, v2.model())]);
    }
    r
}

/// Builds a three-field object.
pub fn obj3(k1: &str, v1: JsonValue, k2: &str, v2: JsonValue, k3: &str, v3: JsonValue) -> (r:
    JsonValue)
    ensures
        r.model() == Json::Obj(seq![(k1@, v1.model()), (k2@, v2.model()), (k3@, v3.model())]),
{
    let mut fields: Vec<(String, JsonValue)> = Vec::new();
    fields.push((k1.to_owned(), v1));
    fields.push((k2.to_owned(), v2));
    fields.push((k3.to_owned(), v3));
    let r = JsonValue::Obj(fields);
    proof {
        lemma_model_fields(fields@);
        assert(model_fields(fields@) =~= seq![
            (k1@, v1.model()),
            (k2@, v2.model()),
            (k3@, v3.model()),
        ]);
    }
    r
}

/// Builds a one-element array.
pub fn arr1(v: JsonValue) -> (r: JsonValue)
    ensures
        r.model() == Json::Arr(seq![v.model()]),
{
    let mut items: Vec<JsonValue> = Vec::new();
    items.push(v);
    let r = JsonValue::Arr(items);
    proof {
        lemma_model_seq(items@);
        assert(model_seq(items@) =~= seq![v.model()]);
    }
    r
}

} // verus!
