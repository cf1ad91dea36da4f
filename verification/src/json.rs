//! The JSON documents that the Kubernetes API and restic exchange with the
//! library, held as plain values, with the lookups the workflows make.
use vstd::prelude::*;

verus! {

/// A JSON value.  Numbers keep what the workflows read of them: an integer
/// that fits in `i64`, or the fact that some other number stood there.
pub enum Json {
    Null,
    Bool(bool),
    Int(i64),
    OtherNumber,
    Str(String),
    Array(Vec<Json>),
    Object(Vec<(String, Json)>),
}

/// The mathematical value of a `Json`.
pub enum JsonView {
    Null,
    Bool(bool),
    Int(i64),
    OtherNumber,
    Str(Seq<char>),
    Array(Seq<JsonView>),
    Object(Seq<(Seq<char>, JsonView)>),
}

/// The view of a JSON value: strings become their characters, element by element.
pub open spec fn json_view(j: Json) -> JsonView
    decreases j,
{
    match j {
        Json::Null => JsonView::Null,
        Json::Bool(b) => JsonView::Bool(b),
        Json::Int(n) => JsonView::Int(n),
        Json::OtherNumber => JsonView::OtherNumber,
        Json::Str(s) => JsonView::Str(s@),
        Json::Array(v) => JsonView::Array(
            Seq::new(
                v@.len(),
                |i: int|
                    if 0 <= i < v@.len() {
                        json_view(v@[i])
                    } else {
                        JsonView::Null
                    },
            ),
        ),
        Json::Object(v) => JsonView::Object(
            Seq::new(
                v@.len(),
                |i: int|
                    if 0 <= i < v@.len() {
                        (v@[i].0@, json_view(v@[i].1))
                    } else {
                        (Seq::empty(), JsonView::Null)
                    },
            ),
        ),
    }
}

impl View for Json {
    type V = JsonView;

    open spec fn view(&self) -> JsonView {
        json_view(*self)
    }
}

/// The view of an optional JSON value.
pub open spec fn opt_json(o: Option<Json>) -> Option<JsonView> {
    match o {
        Some(j) => Some(j@),
        None => None,
    }
}

/// The value stored under `key` among `entries`: the first entry with that key.
pub open spec fn lookup(entries: Seq<(Seq<char>, JsonView)>, key: Seq<char>) -> Option<JsonView>
    decreases entries.len(),
{
    if entries.len() == 0 {
        None
    } else if entries[0].0 == key {
        Some(entries[0].1)
    } else {
        lookup(entries.drop_first(), key)
    }
}

/// The member `key` of `j`, when `j` is an object that has one.
pub open spec fn field(j: JsonView, key: Seq<char>) -> Option<JsonView> {
    match j {
        JsonView::Object(entries) => lookup(entries, key),
        _ => None,
    }
}

/// `field` lifted to an optional value.
pub open spec fn field_of(o: Option<JsonView>, key: Seq<char>) -> Option<JsonView> {
    match o {
        Some(j) => field(j, key),
        None => None,
    }
}

/// The text of an optional JSON string.
pub open spec fn text_of(o: Option<JsonView>) -> Option<Seq<char>> {
    match o {
        Some(JsonView::Str(s)) => Some(s),
        _ => None,
    }
}

/// The integer of an optional JSON number that fits in `i64`.
pub open spec fn int_of(o: Option<JsonView>) -> Option<i64> {
    match o {
        Some(JsonView::Int(n)) => Some(n),
        _ => None,
    }
}

/// The value of an optional JSON boolean.
pub open spec fn bool_of(o: Option<JsonView>) -> Option<bool> {
    match o {
        Some(JsonView::Bool(b)) => Some(b),
        _ => None,
    }
}

/// The elements of an optional JSON array.
pub open spec fn items_of(o: Option<JsonView>) -> Option<Seq<JsonView>> {
    match o {
        Some(JsonView::Array(v)) => Some(v),
        _ => None,
    }
}

/// The view of the value behind an optional reference.
pub open spec fn opt_ref(o: Option<&Json>) -> Option<JsonView> {
    match o {
        Some(j) => Some(j@),
        None => None,
    }
}

/// Whether two strings hold the same characters.
pub fn same_text(a: &str, b: &str) -> (r: bool)
    ensures
        r == (a@ == b@),
{
    let x = a.to_owned();
    let y = b.to_owned();
    x == y
}

impl Json {
    /// The member `key` of this value, when it is an object that has one.
    pub fn get(&self, key: &str) -> (r: Option<&Json>)
        ensures
            opt_ref(r) == field(self@, key@),
    {
        match self {
            Json::Object(entries) => {
                let ghost es = self@->Object_0;
                assert(es.len() == entries@.len());
                let mut i: usize = 0;
                assert(es.skip(0) =~= es);
                while i < entries.len()
                    invariant
                        i <= entries.len(),
                        self@ == JsonView::Object(es),
                        es.len() == entries@.len(),
                        forall|k: int|
                            0 <= k < es.len() ==> #[trigger] es[k] == (
                            entries@[k].0@,
                            entries@[k].1@,
                        ),
                        field(self@, key@) == lookup(es.skip(i as int), key@),
                    decreases entries.len() - i,
                {
                    assert(es.skip(i as int).drop_first() =~= es.skip(i + 1));
                    assert(es.skip(i as int)[0] == es[i as int]);
                    if same_text(entries[i].0.as_str(), key) {
                        return Some(&entries[i].1);
                    }
                    i = i + 1;
                }
                None
            },
            _ => None,
        }
    }

    /// The text of this value, when it is a string.
    pub fn as_str(&self) -> (r: Option<&String>)
        ensures
            match r {
                Some(s) => text_of(Some(self@)) == Some(s@),
                None => text_of(Some(self@)) is None,
            },
    {
        match self {
            Json::Str(s) => Some(s),
            _ => None,
        }
    }

    /// The integer of this value, when it is a number that fits in `i64`.
    pub fn as_i64(&self) -> (r: Option<i64>)
        ensures
            r == int_of(Some(self@)),
    {
        match self {
            Json::Int(n) => Some(*n),
            _ => None,
        }
    }

    /// The value of this boolean.
    pub fn as_bool(&self) -> (r: Option<bool>)
        ensures
            r == bool_of(Some(self@)),
    {
        match self {
            Json::Bool(b) => Some(*b),
            _ => None,
        }
    }

    /// The elements of this array.
    pub fn as_array(&self) -> (r: Option<&Vec<Json>>)
        ensures
            match r {
                Some(v) => items_of(Some(self@)) == Some(v@.map_values(|x: Json| x@)),
                None => items_of(Some(self@)) is None,
            },
    {
        match self {
            Json::Array(v) => {
                assert(self@->Array_0 =~= v@.map_values(|x: Json| x@));
                Some(v)
            },
            _ => None,
        }
    }
}


/// The views of a sequence of object members.
pub open spec fn members_view(v: Seq<(String, Json)>) -> Seq<(Seq<char>, JsonView)> {
    v.map_values(|e: (String, Json)| (e.0@, e.1@))
}

/// The views of a sequence of values.
pub open spec fn values_view(v: Seq<Json>) -> Seq<JsonView> {
    v.map_values(|x: Json| x@)
}

/// An object of one member.
pub open spec fn obj1(k: Seq<char>, v: JsonView) -> JsonView {
    JsonView::Object(seq![(k, v)])
}

/// An object of two members.
pub open spec fn obj2(k1: Seq<char>, v1: JsonView, k2: Seq<char>, v2: JsonView) -> JsonView {
    JsonView::Object(seq![(k1, v1), (k2, v2)])
}

impl Json {
    /// A JSON object with the given members, in order.
    pub fn object(members: Vec<(String, Json)>) -> (j: Json)
        ensures
            j@ == JsonView::Object(members_view(members@)),
    {
        let j = Json::Object(members);
        assert(j@->Object_0 =~= members_view(members@));
        j
    }

    /// A JSON array with the given elements, in order.
    pub fn array(items: Vec<Json>) -> (j: Json)
        ensures
            j@ == JsonView::Array(values_view(items@)),
    {
        let j = Json::Array(items);
        assert(j@->Array_0 =~= values_view(items@));
        j
    }

    /// A JSON string.
    pub fn text(s: &str) -> (j: Json)
        ensures
            j@ == JsonView::Str(s@),
    {
        Json::Str(s.to_owned())
    }

    /// An object of one member.
    pub fn with1(k: &str, v: Json) -> (j: Json)
        ensures
            j@ == obj1(k@, v@),
    {
        let mut m: Vec<(String, Json)> = Vec::new();
        m.push((k.to_owned(), v));
        let j = Json::object(m);
        assert(members_view(m@) =~= seq![(k@, v@)]);
        j
    }

    /// An object of two members.
    pub fn with2(k1: &str, v1: Json, k2: &str, v2: Json) -> (j: Json)
        ensures
            j@ == obj2(k1@, v1@, k2@, v2@),
    {
        let mut m: Vec<(String, Json)> = Vec::new();
        m.push((k1.to_owned(), v1));
        m.push((k2.to_owned(), v2));
        let j = Json::object(m);
        assert(members_view(m@) =~= seq![(k1@, v1@), (k2@, v2@)]);
        j
    }
}

/// The member `key` of an optional value.
pub fn get_of<'a>(o: Option<&'a Json>, key: &str) -> (r: Option<&'a Json>)
    ensures
        opt_ref(r) == field_of(opt_ref(o), key@),
{
    match o {
        Some(j) => j.get(key),
        None => None,
    }
}

/// The text of an optional JSON string, as a new string.
pub fn owned_text(o: Option<&Json>) -> (r: Option<String>)
    ensures
        match r {
            Some(s) => text_of(opt_ref(o)) == Some(s@),
            None => text_of(opt_ref(o)) is None,
        },
{
    match o {
        Some(j) => match j.as_str() {
            Some(s) => Some(s.clone()),
            None => None,
        },
        None => None,
    }
}

/// Whether an optional value is the JSON string `expected`.
pub fn text_is(o: Option<&Json>, expected: &str) -> (r: bool)
    ensures
        r == (text_of(opt_ref(o)) == Some(expected@)),
{
    match o {
        Some(j) => match j.as_str() {
            Some(s) => same_text(s.as_str(), expected),
            None => false,
        },
        None => false,
    }
}

#[verifier::external_type_specification]
#[verifier::external_body]
pub struct ExJsonValue(serde_json::Value);

/// What `serde_json::from_str::<serde_json::Value>` gives for `text`: the
/// value, or the text of its error.
pub uninterp spec fn json_from_str_spec(text: Seq<char>) -> Result<JsonView, Seq<char>>;

/// Turns a `serde_json::Value` into the library's `Json`, variant for
/// variant; a number becomes `Int` exactly when `Number::as_i64` gives one.
#[verifier::external_body]
fn json_of_value(v: &serde_json::Value) -> Json {
    match v {
        serde_json::Value::Null => Json::Null,
        serde_json::Value::Bool(b) => Json::Bool(*b),
        serde_json::Value::Number(n) => match n.as_i64() {
            Some(i) => Json::Int(i),
            None => Json::OtherNumber,
        },
        serde_json::Value::String(s) => Json::Str(s.clone()),
        serde_json::Value::Array(a) => Json::Array(a.iter().map(json_of_value).collect()),
        serde_json::Value::Object(o) => Json::Object(
            o.iter().map(|(k, x)| (k.clone(), json_of_value(x))).collect(),
        ),
    }
}

/// Parses `text` with `serde_json::from_str::<serde_json::Value>`; an error
/// comes back as its `Display` text.  The contract names the outcome
/// (`json_from_str_spec`): the same text always gives the same outcome, and
/// nothing more is claimed of the JSON grammar.
#[verifier::external_body]
pub(crate) fn json_from_str(text: &str) -> (r: Result<Json, String>)
    ensures
        match r {
            Ok(j) => json_from_str_spec(text@) == Ok::<JsonView, Seq<char>>(j@),
            Err(e) => json_from_str_spec(text@) == Err::<JsonView, Seq<char>>(e@),
        },
{
    match serde_json::from_str::<serde_json::Value>(text) {
        Ok(v) => Ok(json_of_value(&v)),
        Err(e) => Err(e.to_string()),
    }
}

/// The JSON value `text` holds, if it is one JSON document.
pub open spec fn parsed_json(text: Seq<char>) -> Option<JsonView> {
    match json_from_str_spec(text) {
        Ok(j) => Some(j),
        Err(_) => None,
    }
}

/// Parses `text` as one JSON document.
pub fn parse_json(text: &str) -> (r: Option<Json>)
    ensures
        opt_json(r) == parsed_json(text@),
{
    match json_from_str(text) {
        Ok(j) => Some(j),
        Err(_) => None,
    }
}

} // verus!
