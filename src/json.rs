use vstd::prelude::*;

verus! {

broadcast use vstd::std_specs::vec::group_vec_axioms;

/// Mathematical JSON document.
pub enum Json {
    Null,
    Bool(bool),
    /// A number that is a non-negative integer.
    UInt(u64),
    /// A number that is a negative integer.
    NegInt(i64),
    /// Any other number, in its textual form.
    OtherNumber(Seq<char>),
    Str(Seq<char>),
    Array(Seq<Json>),
    /// Members in document order.
    Object(Seq<(Seq<char>, Json)>),
}

/// A JSON document as the wire codec exchanges it with the text layer.
#[derive(Debug)]
pub enum JsonValue {
    Null,
    Bool(bool),
    UInt(u64),
    NegInt(i64),
    OtherNumber(String),
    Str(String),
    Array(Vec<JsonValue>),
    Object(Vec<(String, JsonValue)>),
}

impl JsonValue {
    pub open spec fn model(&self) -> Json
        decreases self,
    {
        match self {
            JsonValue::Null => Json::Null,
            JsonValue::Bool(b) => Json::Bool(*b),
            JsonValue::UInt(n) => Json::UInt(*n),
            JsonValue::NegInt(n) => Json::NegInt(*n),
            JsonValue::OtherNumber(s) => Json::OtherNumber(s@),
            JsonValue::Str(s) => Json::Str(s@),
            JsonValue::Array(items) => Json::Array(
                Seq::new(
                    items.len() as nat,
                    |i: int|
                        if 0 <= i < items.len() {
                            items[i].model()
                        } else {
                            Json::Null
                        },
                ),
            ),
            JsonValue::Object(fields) => Json::Object(
                Seq::new(
                    fields.len() as nat,
                    |i: int|
                        if 0 <= i < fields.len() {
                            (fields[i].0@, fields[i].1.model())
                        } else {
                            (Seq::empty(), Json::Null)
                        },
                ),
            ),
        }
    }
}

/// Members of an object, as the model sees them.
pub open spec fn fields_model(fields: Seq<(String, JsonValue)>) -> Seq<(Seq<char>, Json)> {
    Seq::new(fields.len(), |i: int| (fields[i].0@, fields[i].1.model()))
}

/// Items of an array, as the model sees them.
pub open spec fn items_model(items: Seq<JsonValue>) -> Seq<Json> {
    Seq::new(items.len(), |i: int| items[i].model())
}

pub proof fn lemma_object_model(fields: Vec<(String, JsonValue)>)
    ensures
        JsonValue::Object(fields).model() == Json::Object(fields_model(fields@)),
{
    assert(JsonValue::Object(fields).model()->Object_0 =~= fields_model(fields@));
}

pub proof fn lemma_array_model(items: Vec<JsonValue>)
    ensures
        JsonValue::Array(items).model() == Json::Array(items_model(items@)),
{
    assert(JsonValue::Array(items).model()->Array_0 =~= items_model(items@));
}

/// Value of the first member named `key`.
pub open spec fn field_of(fields: Seq<(Seq<char>, Json)>, key: Seq<char>) -> Option<Json>
    decreases fields.len(),
{
    if fields.len() == 0 {
        None
    } else if fields[0].0 == key {
        Some(fields[0].1)
    } else {
        field_of(fields.drop_first(), key)
    }
}

/// No two members share a name.
pub open spec fn names_distinct(fields: Seq<(Seq<char>, Json)>) -> bool {
    forall|i: int, j: int| 0 <= i < j < fields.len() ==> fields[i].0 != fields[j].0
}

/// In an object whose member names are distinct, a member is found by its name.
pub proof fn lemma_field_at(fields: Seq<(Seq<char>, Json)>, k: int)
    requires
        0 <= k < fields.len(),
        names_distinct(fields),
    ensures
        field_of(fields, fields[k].0) == Some(fields[k].1),
    decreases k,
{
    if k > 0 {
        let rest = fields.drop_first();
        assert(fields[0].0 != fields[k].0);
        assert(rest[k - 1] == fields[k]);
        assert forall|i: int, j: int| 0 <= i < j < rest.len() implies rest[i].0 != rest[j].0 by {
            assert(rest[i] == fields[i + 1] && rest[j] == fields[j + 1]);
        }
        lemma_field_at(rest, k - 1);
    }
}

/// A member that is missing or null.
pub open spec fn absent_or_null(f: Option<Json>) -> bool {
    f is None || f == Some(Json::Null)
}

/// The first member of `fields` named `key`.
pub fn lookup<'a>(fields: &'a Vec<(String, JsonValue)>, key: &str) -> (r: Option<&'a JsonValue>)
    ensures
        match r {
            Some(v) => field_of(fields_model(fields@), key@) == Some(v.model()),
            None => field_of(fields_model(fields@), key@) is None,
        },
{
    let wanted = key.to_owned();
    let ghost all = fields_model(fields@);
    let mut i: usize = 0;
    assert(all.skip(0) =~= all);
    while i < fields.len()
        invariant
            i <= fields.len(),
            all == fields_model(fields@),
            wanted@ == key@,
            field_of(all, key@) == field_of(all.skip(i as int), key@),
        decreases fields.len() - i,
    {
        let ghost rest = all.skip(i as int);
        assert(rest[0] == all[i as int]);
        if fields[i].0 == wanted {
            return Some(&fields[i].1);
        }
        assert(rest.drop_first() =~= all.skip(i + 1));
        i = i + 1;
    }
    assert(all.skip(i as int).len() == 0);
    None
}

/// Whether `v` is the string `s`.
pub fn is_str(v: &JsonValue, s: &str) -> (r: bool)
    ensures
        r == (v.model() == Json::Str(s@)),
{
    match v {
        JsonValue::Str(t) => {
            let wanted = s.to_owned();
            *t == wanted
        },
        _ => false,
    }
}

/// Whether a looked-up member is missing or null.
pub fn is_absent_or_null(f: Option<&JsonValue>) -> (r: bool)
    ensures
        r == match f {
            None => true,
            Some(v) => v.model() == Json::Null,
        },
{
    match f {
        None => true,
        Some(JsonValue::Null) => true,
        Some(_) => false,
    }
}

} // verus!
