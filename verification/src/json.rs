//! JSON documents as plain data.
//!
//! [`Json`] holds a document, [`JsonView`] is what it means, and the two ways
//! between a document and its text go through `serde_json`.
use serde_json::{Number, Value};
use vstd::prelude::*;

verus! {

/// A JSON document.
///
/// A number is kept apart by its kind: an integer that is not negative, an
/// integer that is, or anything else, kept by its decimal text.
#[derive(Debug, PartialEq)]
pub enum Json {
    Null,
    Bool(bool),
    Unsigned(u64),
    Negative(i64),
    Float(String),
    String(String),
    Array(Vec<Json>),
    Object(Vec<(String, Json)>),
}

/// What a JSON document means: an array is a sequence, an object is a map.
pub enum JsonView {
    Null,
    Bool(bool),
    Unsigned(u64),
    Negative(i64),
    Float(Seq<char>),
    String(Seq<char>),
    Array(Seq<JsonView>),
    Object(Map<Seq<char>, JsonView>),
}

/// The map that a list of members stands for: of two members with one name the
/// later one counts.
pub open spec fn members_map(members: Seq<(Seq<char>, JsonView)>) -> Map<Seq<char>, JsonView>
    decreases members.len(),
{
    if members.len() == 0 {
        Map::empty()
    } else {
        members_map(members.drop_last()).insert(members.last().0, members.last().1)
    }
}

/// What a list of documents means.
pub open spec fn documents(items: Seq<Json>) -> Seq<JsonView> {
    Seq::new(items.len(), |i: int| items[i]@)
}

/// What a list of members means.
pub open spec fn members_view(members: Seq<(String, Json)>) -> Seq<(Seq<char>, JsonView)> {
    Seq::new(members.len(), |i: int| (members[i].0@, members[i].1@))
}

/// The map that the members of an object stand for.
pub open spec fn object_map(members: Seq<(String, Json)>) -> Map<Seq<char>, JsonView>
    decreases members,
{
    if members.len() == 0 {
        Map::empty()
    } else {
        object_map(members.drop_last()).insert(members.last().0@, members.last().1.view())
    }
}

impl JsonView {
    /// The member of an object with a name; none of anything but an object.
    pub open spec fn member(self, name: Seq<char>) -> Option<JsonView> {
        match self {
            JsonView::Object(map) => if map.dom().contains(name) {
                Some(map[name])
            } else {
                None
            },
            _ => None,
        }
    }

    /// The text of a string; none of anything else.
    pub open spec fn text(self) -> Option<Seq<char>> {
        match self {
            JsonView::String(s) => Some(s),
            _ => None,
        }
    }

    /// The text of the member with a name, where there is one and it is a string.
    pub open spec fn member_text(self, name: Seq<char>) -> Option<Seq<char>> {
        match self.member(name) {
            Some(value) => value.text(),
            None => None,
        }
    }
}

impl Json {
    pub open spec fn view(&self) -> JsonView
        decreases self,
    {
        match self {
            Json::Null => JsonView::Null,
            Json::Bool(b) => JsonView::Bool(*b),
            Json::Unsigned(n) => JsonView::Unsigned(*n),
            Json::Negative(n) => JsonView::Negative(*n),
            Json::Float(text) => JsonView::Float(text@),
            Json::String(s) => JsonView::String(s@),
            Json::Array(items) => JsonView::Array(
                Seq::new(
                    items@.len(),
                    |i: int|
                        if 0 <= i < items@.len() {
                            items@[i].view()
                        } else {
                            JsonView::Null
                        },
                ),
            ),
            Json::Object(members) => JsonView::Object(object_map(members@)),
        }
    }
}

/// `serde_json`'s own document type.
#[verifier::external_type_specification]
#[verifier::external_body]
pub struct ExValue(Value);

/// What `serde_json::from_str` makes of a text: the document, or the message of
/// the error.
pub uninterp spec fn parsed_text(text: Seq<char>) -> Result<JsonView, Seq<char>>;

/// The text that `serde_json::to_string` gives for a document.
pub uninterp spec fn rendered_text(document: JsonView) -> Seq<char>;

/// How many arrays and objects inside each other `serde_json` reads.
pub const MAX_DEPTH: u8 = 127;

/// Whether a document can be read back from its text: it holds no float, a negative
/// integer is negative, and no more than `depth` arrays and objects stand inside
/// each other.
pub open spec fn readable(document: JsonView, depth: u8) -> bool
    decreases depth,
{
    match document {
        JsonView::Null => true,
        JsonView::Bool(_) => true,
        JsonView::Unsigned(_) => true,
        JsonView::Negative(n) => n < 0,
        JsonView::Float(_) => false,
        JsonView::String(_) => true,
        JsonView::Array(items) => depth > 0 && forall|i: int|
            0 <= i < items.len() ==> readable(#[trigger] items[i], (depth - 1) as u8),
        JsonView::Object(map) => depth > 0 && forall|name: Seq<char>|
            map.dom().contains(name) ==> readable(#[trigger] map[name], (depth - 1) as u8),
    }
}

/// Takes a `serde_json::Value` apart, variant by variant; a number that is no
/// integer of 64 bits is kept by the text that its `Display` gives. Nothing is
/// claimed here: `parse_text` speaks of the whole.
#[verifier::external_body]
fn from_value(value: Value) -> (document: Json) {
    match value {
        Value::Null => Json::Null,
        Value::Bool(b) => Json::Bool(b),
        Value::Number(n) => match (n.as_u64(), n.as_i64()) {
            (Some(unsigned), _) => Json::Unsigned(unsigned),
            (None, Some(negative)) => Json::Negative(negative),
            (None, None) => Json::Float(n.to_string()),
        },
        Value::String(s) => Json::String(s),
        Value::Array(items) => Json::Array(items.into_iter().map(from_value).collect()),
        Value::Object(map) => {
            Json::Object(map.into_iter().map(|(k, v)| (k, from_value(v))).collect())
        },
    }
}

/// Builds a `serde_json::Value`, variant by variant; a float whose text is no
/// finite number becomes null. Nothing is claimed here: `render_text` speaks of
/// the whole.
#[verifier::external_body]
fn to_value(document: &Json) -> (value: Value) {
    match document {
        Json::Null => Value::Null,
        Json::Bool(b) => Value::Bool(*b),
        Json::Unsigned(n) => Value::from(*n),
        Json::Negative(n) => Value::from(*n),
        Json::Float(text) => {
            text.parse().ok().and_then(Number::from_f64).map_or(Value::Null, Value::Number)
        },
        Json::String(s) => Value::String(s.clone()),
        Json::Array(items) => Value::Array(items.iter().map(to_value).collect()),
        Json::Object(members) => Value::Object(members.iter().fold(Default::default(), |mut m, (k, v)| {
            m.insert(k.clone(), to_value(v));
            m
        })),
    }
}

/// Calls `serde_json::from_str`. Claimed: the outcome depends on the text alone,
/// and [`parsed_text`] names it.
#[verifier::external_body]
fn parse_text(text: &str) -> (parsed: Result<Json, String>)
    ensures
        match parsed {
            Ok(document) => parsed_text(text@) == Ok::<JsonView, Seq<char>>(document@),
            Err(message) => parsed_text(text@) == Err::<JsonView, Seq<char>>(message@),
        },
{
    serde_json::from_str::<Value>(text).map(from_value).map_err(|error| error.to_string())
}

/// Calls `serde_json::to_string`, which fails on no `Value`. Claimed: the text
/// depends on what the document means alone, [`rendered_text`] names it, and
/// `serde_json::from_str` reads back from the text of a document without floats
/// what was written, as deep as it reads.
#[verifier::external_body]
fn render_text(document: &Json) -> (text: String)
    ensures
        text@ == rendered_text(document@),
        readable(document@, MAX_DEPTH) ==> (parsed_text(text@)
            == Ok::<JsonView, Seq<char>>(document@)),
{
    serde_json::to_string(&to_value(document)).unwrap()
}

impl Json {
    /// Reads a text as a JSON document; where it is none, the error is what
    /// `serde_json` says of it.
    pub fn parse(text: &str) -> (parsed: Result<Json, String>)
        ensures
            match parsed {
                Ok(document) => parsed_text(text@) == Ok::<JsonView, Seq<char>>(document@),
                Err(message) => parsed_text(text@) == Err::<JsonView, Seq<char>>(message@),
            },
    {
        parse_text(text)
    }

    /// The text of the document, without spaces between its tokens.
    pub fn render(&self) -> (text: String)
        ensures
            text@ == rendered_text(self@),
            readable(self@, MAX_DEPTH) ==> (parsed_text(text@) == Ok::<JsonView, Seq<char>>(self@)),
    {
        render_text(self)
    }

    /// A string.
    pub fn string(text: &str) -> (document: Json)
        ensures
            document@ == JsonView::String(text@),
    {
        Json::String(text.to_string())
    }

    /// An array.
    pub fn array(items: Vec<Json>) -> (document: Json)
        ensures
            document@ == JsonView::Array(documents(items@)),
    {
        let document = Json::Array(items);
        assert(document@->Array_0 =~= documents(items@));
        document
    }

    /// An object; of two members with one name the later one counts.
    pub fn object(members: Vec<(String, Json)>) -> (document: Json)
        ensures
            document@ == JsonView::Object(members_map(members_view(members@))),
    {
        proof {
            lemma_object_map(members@);
        }
        Json::Object(members)
    }

    /// The text of a string; none of anything else.
    pub fn as_str(&self) -> (text: Option<&str>)
        ensures
            text.deep_view() == self@.text(),
    {
        match self {
            Json::String(s) => Some(s.as_str()),
            _ => None,
        }
    }

    /// The items of an array; none of anything else.
    pub fn as_array(&self) -> (items: Option<&Vec<Json>>)
        ensures
            match items {
                Some(list) => self@ == JsonView::Array(documents(list@)),
                None => !(self@ is Array),
            },
    {
        match self {
            Json::Array(list) => {
                assert(self@->Array_0 =~= documents(list@));
                Some(list)
            },
            _ => None,
        }
    }

    /// The member of an object with a name; none of anything but an object.
    pub fn get(&self, name: &str) -> (value: Option<&Json>)
        ensures
            match value {
                Some(document) => self@.member(name@) == Some(document@),
                None => self@.member(name@) is None,
            },
    {
        match self {
            Json::Object(members) => {
                proof {
                    lemma_object_map(members@);
                }
                let ghost all = members_view(members@);
                let mut at: usize = members.len();
                assert(all.take(at as int) =~= all);
                while at > 0
                    invariant
                        at <= members.len(),
                        all == members_view(members@),
                        self@ == JsonView::Object(members_map(all)),
                        members_map(all).dom().contains(name@) <==> members_map(
                            all.take(at as int),
                        ).dom().contains(name@),
                        members_map(all).dom().contains(name@) ==> members_map(all)[name@]
                            == members_map(all.take(at as int))[name@],
                    decreases at,
                {
                    assert(all.take(at as int).drop_last() =~= all.take(at - 1));
                    assert(all.take(at as int).last() == all[at - 1]);
                    if crate::text::same_text(members[at - 1].0.as_str(), name) {
                        return Some(&members[at - 1].1);
                    }
                    at = at - 1;
                }
                assert(all.take(0) =~= Seq::<(Seq<char>, JsonView)>::empty());
                None
            },
            _ => None,
        }
    }

    /// The text of the member with a name, where there is one and it is a string.
    pub fn get_str(&self, name: &str) -> (text: Option<&str>)
        ensures
            text.deep_view() == self@.member_text(name@),
    {
        match self.get(name) {
            Some(value) => value.as_str(),
            None => None,
        }
    }

    /// A document of its own that means the same.
    pub fn copy(&self) -> (copy: Json)
        ensures
            copy@ == self@,
        decreases self,
    {
        match self {
            Json::Null => Json::Null,
            Json::Bool(b) => Json::Bool(*b),
            Json::Unsigned(n) => Json::Unsigned(*n),
            Json::Negative(n) => Json::Negative(*n),
            Json::Float(text) => Json::Float(text.clone()),
            Json::String(text) => Json::String(text.clone()),
            Json::Array(items) => {
                let mut list: Vec<Json> = Vec::new();
                let mut at: usize = 0;
                while at < items.len()
                    invariant
                        at <= items.len(),
                        list.len() == at,
                        *self == Json::Array(*items),
                        forall|i: int| 0 <= i < at ==> (#[trigger] list@[i])@ == items@[i]@,
                    decreases items.len() - at,
                {
                    assert(decreases_to!(*self => self->Array_0));
                    assert(decreases_to!(*items => items@));
                    assert(decreases_to!(items@ => items@[at as int]));
                    let item = items[at].copy();
                    list.push(item);
                    at = at + 1;
                }
                let document = Json::array(list);
                assert(self@->Array_0 =~= documents(list@));
                document
            },
            Json::Object(members) => {
                let mut list: Vec<(String, Json)> = Vec::new();
                let mut at: usize = 0;
                while at < members.len()
                    invariant
                        at <= members.len(),
                        list.len() == at,
                        *self == Json::Object(*members),
                        forall|i: int|
                            0 <= i < at ==> (#[trigger] list@[i]).0@ == members@[i].0@ && list@[i].1@
                                == members@[i].1@,
                    decreases members.len() - at,
                {
                    assert(decreases_to!(*self => self->Object_0));
                    assert(decreases_to!(*members => members@));
                    assert(decreases_to!(members@ => members@[at as int]));
                    assert(decreases_to!(members@[at as int] => members@[at as int].1));
                    let value = members[at].1.copy();
                    list.push((members[at].0.clone(), value));
                    at = at + 1;
                }
                proof {
                    lemma_object_map(members@);
                    assert(members_view(members@) =~= members_view(list@));
                }
                Json::object(list)
            },
        }
    }
}

impl Clone for Json {
    fn clone(&self) -> (copy: Json)
        ensures
            copy@ == self@,
    {
        self.copy()
    }
}

proof fn lemma_object_map(members: Seq<(String, Json)>)
    ensures
        object_map(members) == members_map(members_view(members)),
    decreases members.len(),
{
    if members.len() > 0 {
        lemma_object_map(members.drop_last());
        assert(members_view(members).drop_last() =~= members_view(members.drop_last()));
    }
}

/// Whether the member at a position has the last word on its name.
pub open spec fn decides(members: Seq<(String, Json)>, at: int) -> bool {
    forall|later: int| at < later < members.len() ==> (#[trigger] members[later]).0@ != members[at].0@
}

proof fn lemma_object_map_members(members: Seq<(String, Json)>)
    ensures
        forall|at: int|
            0 <= at < members.len() ==> object_map(members).dom().contains(
                (#[trigger] members[at]).0@,
            ),
        forall|at: int|
            0 <= at < members.len() && decides(members, at) ==> object_map(members)[(
            #[trigger] members[at]).0@] == members[at].1@,
        forall|name: Seq<char>|
            object_map(members).dom().contains(name) ==> exists|at: int|
                0 <= at < members.len() && (#[trigger] members[at]).0@ == name,
    decreases members.len(),
{
    if members.len() > 0 {
        let front = members.drop_last();
        let n = members.len() - 1;
        lemma_object_map_members(front);
        assert(members.last() == members[n]);
        assert forall|at: int| 0 <= at < members.len() implies object_map(members).dom().contains(
            (#[trigger] members[at]).0@,
        ) by {
            if at < n {
                assert(members[at] == front[at]);
            }
        }
        assert forall|at: int| 0 <= at < members.len() && decides(members, at) implies object_map(
            members,
        )[(#[trigger] members[at]).0@] == members[at].1@ by {
            if at < n {
                assert(members[n].0@ != members[at].0@);
                assert(front[at] == members[at]);
                assert(decides(front, at)) by {
                    assert forall|later: int| at < later < front.len() implies (
                    #[trigger] front[later]).0@ != front[at].0@ by {
                        assert(front[later] == members[later]);
                    }
                }
            }
        }
        assert forall|name: Seq<char>| object_map(members).dom().contains(name) implies exists|
            at: int,
        |
            0 <= at < members.len() && (#[trigger] members[at]).0@ == name by {
            if members[n].0@ != name {
                let at = choose|at: int| 0 <= at < front.len() && (#[trigger] front[at]).0@ == name;
                assert(members[at] == front[at]);
            }
        }
    }
}

/// An object has the members of its list, by their names and no others; of two with
/// one name the later one counts.
pub proof fn law_objects_have_their_members(members: Vec<(String, Json)>)
    ensures
        Json::Object(members)@ is Object,
        forall|at: int|
            0 <= at < members@.len() ==> Json::Object(members)@->Object_0.dom().contains(
                (#[trigger] members@[at]).0@,
            ),
        forall|at: int|
            0 <= at < members@.len() && decides(members@, at) ==> Json::Object(
                members,
            )@->Object_0[(#[trigger] members@[at]).0@] == members@[at].1@,
        forall|name: Seq<char>|
            Json::Object(members)@->Object_0.dom().contains(name) ==> exists|at: int|
                0 <= at < members@.len() && (#[trigger] members@[at]).0@ == name,
{
    lemma_object_map_members(members@);
}

/// A document that is no object means what it holds.
pub proof fn law_documents_mean_what_they_hold(
    flag: bool,
    unsigned: u64,
    negative: i64,
    text: String,
    items: Vec<Json>,
)
    ensures
        Json::Null@ == JsonView::Null,
        Json::Bool(flag)@ == JsonView::Bool(flag),
        Json::Unsigned(unsigned)@ == JsonView::Unsigned(unsigned),
        Json::Negative(negative)@ == JsonView::Negative(negative),
        Json::Float(text)@ == JsonView::Float(text@),
        Json::String(text)@ == JsonView::String(text@),
        Json::Array(items)@ is Array,
        Json::Array(items)@->Array_0.len() == items@.len(),
        forall|i: int|
            0 <= i < items@.len() ==> #[trigger] Json::Array(items)@->Array_0[i] == items@[i]@,
{
}

/// A member is found under its name, and only in an object; its text is there if and
/// only if it is a string.
pub proof fn law_members_are_found(
    map: Map<Seq<char>, JsonView>,
    name: Seq<char>,
    text: Seq<char>,
    other: JsonView,
)
    ensures
        map.dom().contains(name) ==> JsonView::Object(map).member(name) == Some(map[name]),
        !map.dom().contains(name) ==> JsonView::Object(map).member(name) is None,
        map.dom().contains(name) && map[name] == JsonView::String(text) ==> JsonView::Object(
            map,
        ).member_text(name) == Some(text),
        !map.dom().contains(name) || !(map[name] is String) ==> JsonView::Object(map).member_text(
            name,
        ) is None,
        !(other is Object) ==> other.member(name) is None && other.member_text(name) is None,
        JsonView::String(text).text() == Some(text),
        !(other is String) ==> other.text() is None,
{
}

/// Whether a document is an object with a string under a name.
pub open spec fn has_string(document: JsonView, name: Seq<char>, text: Seq<char>) -> bool {
    document matches JsonView::Object(map) && map.dom().contains(name) && map[name]
        == JsonView::String(text)
}

/// A text is read from a member if and only if the document is an object and has a
/// string there.
pub proof fn law_texts_are_found(document: JsonView, name: Seq<char>, text: Seq<char>)
    ensures
        document.member_text(name) == Some(text) <==> has_string(document, name, text),
{
}

} // verus!
