//! JSON values as plain data, and the way to and from text.

use crate::text::str_eq;
use serde_json::Value;
use vstd::prelude::*;
use vstd::string::*;

verus! {

/// A JSON value. Whole numbers are kept apart by sign; any other number keeps its notation and
/// what is left of it as a whole number (cut off, and at the ends of `u64` at most).
#[derive(Debug)]
pub enum Json {
    Null,
    Bool(bool),
    Uint(u64),
    /// A negative whole number.
    Neg(i64),
    Float { notation: String, whole: u64 },
    Str(String),
    Arr(Vec<Json>),
    Obj(Vec<(String, Json)>),
}

/// What a JSON value says.
pub enum JsonView {
    Null,
    Bool(bool),
    Int(int),
    Float { notation: Seq<char>, whole: u64 },
    Str(Seq<char>),
    Arr(Seq<JsonView>),
    Obj(Seq<(Seq<char>, JsonView)>),
}

/// What a JSON value says.
pub open spec fn meaning(j: Json) -> JsonView
    decreases j,
{
    match j {
        Json::Null => JsonView::Null,
        Json::Bool(b) => JsonView::Bool(b),
        Json::Uint(n) => JsonView::Int(n as int),
        Json::Neg(n) => JsonView::Int(n as int),
        Json::Float { notation, whole } => JsonView::Float { notation: notation@, whole },
        Json::Str(s) => JsonView::Str(s@),
        Json::Arr(v) => JsonView::Arr(
            Seq::new(
                v@.len(),
                |i: int| if 0 <= i < v@.len() { meaning(v@[i]) } else { JsonView::Null },
            ),
        ),
        Json::Obj(v) => JsonView::Obj(
            Seq::new(
                v@.len(),
                |i: int|
                    if 0 <= i < v@.len() {
                        (v@[i].0@, meaning(v@[i].1))
                    } else {
                        (seq![], JsonView::Null)
                    },
            ),
        ),
    }
}

impl View for Json {
    type V = JsonView;

    open spec fn view(&self) -> JsonView {
        meaning(*self)
    }
}

impl JsonView {
    /// An object without fields.
    pub open spec fn object() -> JsonView {
        JsonView::Obj(seq![])
    }

    /// The object with one more field.
    pub open spec fn with(self, key: Seq<char>, value: JsonView) -> JsonView {
        match self {
            JsonView::Obj(fields) => JsonView::Obj(fields.push((key, value))),
            _ => self,
        }
    }

    /// The value under a key of an object.
    pub open spec fn field(self, key: Seq<char>) -> Option<JsonView> {
        match self {
            JsonView::Obj(fields) => first_under(fields, key),
            _ => None,
        }
    }

    /// The value under the first of two keys that is there.
    pub open spec fn either(self, key: Seq<char>, other: Seq<char>) -> Option<JsonView> {
        match self.field(key) {
            Some(v) => Some(v),
            None => self.field(other),
        }
    }

    /// The text of a string.
    pub open spec fn text(self) -> Option<Seq<char>> {
        match self {
            JsonView::Str(s) => Some(s),
            _ => None,
        }
    }

    /// The value of a whole number that a `u64` can hold.
    pub open spec fn uint(self) -> Option<u64> {
        match self {
            JsonView::Int(n) => if 0 <= n <= u64::MAX { Some(n as u64) } else { None },
            _ => None,
        }
    }

    /// The value of a boolean.
    pub open spec fn truth(self) -> Option<bool> {
        match self {
            JsonView::Bool(b) => Some(b),
            _ => None,
        }
    }

    /// The items of an array.
    pub open spec fn items(self) -> Option<Seq<JsonView>> {
        match self {
            JsonView::Arr(v) => Some(v),
            _ => None,
        }
    }

    /// The text under a key.
    pub open spec fn text_at(self, key: Seq<char>) -> Option<Seq<char>> {
        match self.field(key) {
            Some(v) => v.text(),
            None => None,
        }
    }

    /// The whole number under a key.
    pub open spec fn uint_at(self, key: Seq<char>) -> Option<u64> {
        match self.field(key) {
            Some(v) => v.uint(),
            None => None,
        }
    }

    /// The items under a key.
    pub open spec fn items_at(self, key: Seq<char>) -> Option<Seq<JsonView>> {
        match self.field(key) {
            Some(v) => v.items(),
            None => None,
        }
    }
}

/// The value of the first entry under a key.
pub open spec fn first_under(fields: Seq<(Seq<char>, JsonView)>, key: Seq<char>) -> Option<JsonView>
    decreases fields.len(),
{
    if fields.len() == 0 {
        None
    } else if fields[0].0 == key {
        Some(fields[0].1)
    } else {
        first_under(fields.drop_first(), key)
    }
}

/// What a list of fields says.
pub open spec fn fields_view(v: Seq<(String, Json)>) -> Seq<(Seq<char>, JsonView)> {
    v.map_values(|e: (String, Json)| (e.0@, e.1@))
}

/// What a list of values says.
pub open spec fn items_view(v: Seq<Json>) -> Seq<JsonView> {
    v.map_values(|j: Json| j@)
}

/// An object says what its fields say.
pub proof fn object_view(v: Vec<(String, Json)>)
    ensures
        Json::Obj(v)@ == JsonView::Obj(fields_view(v@)),
{
    let shown = match Json::Obj(v)@ {
        JsonView::Obj(s) => s,
        _ => seq![],
    };
    assert forall|i: int| 0 <= i < v@.len() implies shown[i] == fields_view(v@)[i] by {
        assert(shown[i].1 == meaning(v@[i].1));
    }
    assert(shown =~= fields_view(v@));
}

/// An array says what its items say.
pub proof fn array_view(v: Vec<Json>)
    ensures
        Json::Arr(v)@ == JsonView::Arr(items_view(v@)),
{
    let shown = match Json::Arr(v)@ {
        JsonView::Arr(s) => s,
        _ => seq![],
    };
    assert forall|i: int| 0 <= i < v@.len() implies shown[i] == items_view(v@)[i] by {
        assert(shown[i] == meaning(v@[i]));
    }
    assert(shown =~= items_view(v@));
}

/// What an optional reference says.
pub open spec fn opt_json(j: Option<&Json>) -> Option<JsonView> {
    match j {
        Some(v) => Some(v@),
        None => None,
    }
}

impl Json {
    /// The value under a key of an object.
    #[verifier::loop_isolation(false)]
    pub fn get(&self, key: &str) -> (r: Option<&Json>)
        ensures
            opt_json(r) == self@.field(key@),
    {
        match self {
            Json::Obj(v) => {
                proof {
                    object_view(*v);
                }
                let ghost all = fields_view(v@);
                let mut i: usize = 0;
                assert(all.skip(0) =~= all);
                while i < v.len()
                    invariant
                        i <= v@.len(),
                        first_under(all.skip(i as int), key@) == first_under(all, key@),
                    decreases v@.len() - i,
                {
                    assert(all.skip(i as int).drop_first() =~= all.skip(i + 1));
                    assert(all[i as int] == (v@[i as int].0@, v@[i as int].1@));
                    if str_eq(v[i].0.as_str(), key) {
                        return Some(&v[i].1);
                    }
                    i += 1;
                }
                None
            },
            _ => None,
        }
    }

    /// The value under the first of two keys that is there.
    pub fn get_either(&self, key: &str, other: &str) -> (r: Option<&Json>)
        ensures
            opt_json(r) == self@.either(key@, other@),
    {
        match self.get(key) {
            Some(v) => Some(v),
            None => self.get(other),
        }
    }

    /// The text of a string.
    pub fn as_str(&self) -> (r: Option<&str>)
        ensures
            match r {
                Some(s) => self@.text() == Some(s@),
                None => self@.text() is None,
            },
    {
        match self {
            Json::Str(s) => Some(s.as_str()),
            _ => None,
        }
    }

    /// The value of a whole number that a `u64` can hold.
    pub fn as_u64(&self) -> (r: Option<u64>)
        ensures
            r == self@.uint(),
    {
        match self {
            Json::Uint(n) => Some(*n),
            Json::Neg(n) => if *n >= 0 { Some(*n as u64) } else { None },
            _ => None,
        }
    }

    /// The value of a boolean.
    pub fn as_bool(&self) -> (r: Option<bool>)
        ensures
            r == self@.truth(),
    {
        match self {
            Json::Bool(b) => Some(*b),
            _ => None,
        }
    }

    /// The items of an array.
    pub fn as_array(&self) -> (r: Option<&Vec<Json>>)
        ensures
            match r {
                Some(v) => self@.items() == Some(items_view(v@)),
                None => self@.items() is None,
            },
    {
        match self {
            Json::Arr(v) => {
                proof {
                    array_view(*v);
                }
                Some(v)
            },
            _ => None,
        }
    }

    /// The text under a key.
    pub fn str_at(&self, key: &str) -> (r: Option<&str>)
        ensures
            match r {
                Some(s) => self@.text_at(key@) == Some(s@),
                None => self@.text_at(key@) is None,
            },
    {
        match self.get(key) {
            Some(v) => v.as_str(),
            None => None,
        }
    }

    /// The whole number under a key.
    pub fn u64_at(&self, key: &str) -> (r: Option<u64>)
        ensures
            r == self@.uint_at(key@),
    {
        match self.get(key) {
            Some(v) => v.as_u64(),
            None => None,
        }
    }

    /// The items under a key.
    pub fn array_at(&self, key: &str) -> (r: Option<&Vec<Json>>)
        ensures
            match r {
                Some(v) => self@.items_at(key@) == Some(items_view(v@)),
                None => self@.items_at(key@) is None,
            },
    {
        match self.get(key) {
            Some(v) => v.as_array(),
            None => None,
        }
    }

    /// A string value.
    pub fn text(s: &str) -> (j: Json)
        ensures
            j@ == JsonView::Str(s@),
    {
        Json::Str(s.to_owned())
    }

    /// An array value.
    pub fn array(v: Vec<Json>) -> (j: Json)
        ensures
            j@ == JsonView::Arr(items_view(v@)),
    {
        proof {
            array_view(v);
        }
        Json::Arr(v)
    }
}

impl Clone for Json {
    #[verifier::loop_isolation(false)]
    fn clone(&self) -> (j: Json)
        ensures
            j@ == self@,
        decreases self,
    {
        match self {
            Json::Null => Json::Null,
            Json::Bool(b) => Json::Bool(*b),
            Json::Uint(n) => Json::Uint(*n),
            Json::Neg(n) => Json::Neg(*n),
            Json::Float { notation, whole } => Json::Float {
                notation: notation.clone(),
                whole: *whole,
            },
            Json::Str(s) => Json::Str(s.clone()),
            Json::Arr(v) => {
                let mut w: Vec<Json> = Vec::new();
                let mut i: usize = 0;
                while i < v.len()
                    invariant
                        i <= v@.len(),
                        w@.len() == i,
                        forall|k: int| 0 <= k < i ==> (#[trigger] w@[k])@ == v@[k]@,
                    decreases v@.len() - i,
                {
                    assert(decreases_to!(self => v));
                    assert(decreases_to!(v => v@[i as int]));
                    w.push(v[i].clone());
                    i += 1;
                }
                proof {
                    array_view(*v);
                    array_view(w);
                    assert(items_view(w@) =~= items_view(v@));
                }
                Json::Arr(w)
            },
            Json::Obj(v) => {
                let mut w: Vec<(String, Json)> = Vec::new();
                let mut i: usize = 0;
                while i < v.len()
                    invariant
                        i <= v@.len(),
                        w@.len() == i,
                        forall|k: int|
                            0 <= k < i ==> (#[trigger] w@[k]).0@ == v@[k].0@ && w@[k].1@ == v@[k].1@,
                    decreases v@.len() - i,
                {
                    assert(decreases_to!(self => v));
                    assert(decreases_to!(v => v@[i as int]));
                    w.push((v[i].0.clone(), v[i].1.clone()));
                    i += 1;
                }
                proof {
                    object_view(*v);
                    object_view(w);
                    assert(fields_view(w@) =~= fields_view(v@));
                }
                Json::Obj(w)
            },
        }
    }
}

/// An object under construction.
pub struct Fields {
    fields: Vec<(String, Json)>,
}

impl View for Fields {
    type V = JsonView;

    closed spec fn view(&self) -> JsonView {
        JsonView::Obj(fields_view(self.fields@))
    }
}

impl Fields {
    pub fn new() -> (f: Fields)
        ensures
            f@ == JsonView::object(),
    {
        let f = Fields { fields: Vec::new() };
        assert(fields_view(f.fields@) =~= seq![]);
        f
    }

    /// One more field.
    pub fn put(self, key: &str, value: Json) -> (f: Fields)
        ensures
            f@ == self@.with(key@, value@),
    {
        let ghost before = fields_view(self.fields@);
        let mut fields = self.fields;
        fields.push((key.to_owned(), value));
        let f = Fields { fields };
        assert(fields_view(f.fields@) =~= before.push((key@, value@)));
        f
    }

    pub fn done(self) -> (j: Json)
        ensures
            j@ == self@,
    {
        proof {
            object_view(self.fields);
        }
        Json::Obj(self.fields)
    }
}

/// One more field at the end is found where no earlier one is.
pub proof fn first_of_longer(
    fields: Seq<(Seq<char>, JsonView)>,
    last: (Seq<char>, JsonView),
    key: Seq<char>,
)
    ensures
        first_under(fields.push(last), key) == (match first_under(fields, key) {
            Some(v) => Some(v),
            None => if last.0 == key { Some(last.1) } else { None },
        }),
    decreases fields.len(),
{
    let all = fields.push(last);
    if fields.len() > 0 {
        first_of_longer(fields.drop_first(), last, key);
        assert(all.drop_first() =~= fields.drop_first().push(last));
    } else {
        assert(first_under(all.drop_first(), key) is None);
    }
}

/// A field added to an object is found unless there was one under its key.
pub proof fn reading_a_longer_object(o: JsonView, key: Seq<char>, value: JsonView)
    ensures
        o is Obj ==> o.with(key, value) is Obj,
        forall|asked: Seq<char>|
            (#[trigger] o.with(key, value).field(asked)) == (match o.field(asked) {
                Some(v) => Some(v),
                None => if o is Obj && key == asked { Some(value) } else { None },
            }),
{
    if let JsonView::Obj(fields) = o {
        assert forall|asked: Seq<char>|
            (#[trigger] o.with(key, value).field(asked)) == (match o.field(asked) {
                Some(v) => Some(v),
                None => if key == asked { Some(value) } else { None },
            }) by {
            first_of_longer(fields, (key, value), asked);
        }
    }
}

// ---------------------------------------------------------------------------
// Text
// ---------------------------------------------------------------------------

/// What `serde_json::from_str` makes of a text: the value, or the wording of the complaint.
pub uninterp spec fn parse_outcome(text: Seq<char>) -> Result<JsonView, Seq<char>>;

/// What `serde_json::Value` prints for a value.
pub uninterp spec fn json_text(value: JsonView) -> Seq<char>;

#[verifier::external_type_specification]
#[verifier::external_body]
pub struct ExValue(Value);

/// Turns a `serde_json::Value` into a [`Json`], variant by variant. Nothing is claimed of it here;
/// what comes out of a text is claimed by [`parse`].
#[verifier::external_body]
fn from_value(v: Value) -> (j: Json) {
    match v {
        Value::Null => Json::Null,
        Value::Bool(b) => Json::Bool(b),
        Value::Number(n) => match (n.as_u64(), n.as_i64()) {
            (Some(u), _) => Json::Uint(u),
            (_, Some(i)) => Json::Neg(i),
            _ => Json::Float { notation: n.to_string(), whole: n.as_f64().map_or(0, |f| f as u64) },
        },
        Value::String(s) => Json::Str(s),
        Value::Array(a) => Json::Arr(a.into_iter().map(from_value).collect()),
        Value::Object(o) => Json::Obj(
            o.into_iter().map(|(k, x)| (k, from_value(x))).collect()),
    }
}

/// Turns a [`Json`] into a `Value`, variant by variant. Nothing is claimed of it
/// here; what is printed for a value is claimed by [`print`].
#[verifier::external_body]
fn to_value(j: &Json) -> (v: Value) {
    match j {
        Json::Null => Value::Null,
        Json::Bool(b) => Value::Bool(*b),
        Json::Uint(n) => Value::from(*n),
        Json::Neg(n) => Value::from(*n),
        Json::Float { notation, .. } => serde_json::from_str(notation).unwrap_or_default(),
        Json::Str(s) => Value::String(s.clone()),
        Json::Arr(a) => Value::Array(a.iter().map(to_value).collect()),
        Json::Obj(o) => Value::Object(
            o.iter().map(|(k, x)| (k.clone(), to_value(x))).collect()),
    }
}

/// Calls `serde_json::from_str`. Claimed: the value, or the wording of the complaint, depends on
/// the text alone.
#[verifier::external_body]
pub(crate) fn parse(text: &str) -> (r: Result<Json, String>)
    ensures
        match r {
            Ok(j) => parse_outcome(text@) == Ok::<JsonView, Seq<char>>(j@),
            Err(e) => parse_outcome(text@) == Err::<JsonView, Seq<char>>(e@),
        },
{
    match serde_json::from_str::<Value>(text) {
        Ok(v) => Ok(from_value(v)),
        Err(e) => Err(e.to_string()),
    }
}

/// Prints a value by the `to_string` of `serde_json::Value`. Claimed: the text depends on the
/// value alone.
#[verifier::external_body]
pub(crate) fn print(j: &Json) -> (s: String)
    ensures
        s@ == json_text(j@),
{
    to_value(j).to_string()
}

} // verus!
