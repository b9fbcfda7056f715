//! JSON documents put together member by member, and values read from them.
use crate::json::{documents, members_map, members_view, Json, JsonView};
use vstd::prelude::*;

verus! {

/// A value that can be read from a JSON document.
pub trait FromJson: DeepView + Sized {
    /// The value that a document stands for, where it stands for one.
    spec fn decoded(document: JsonView) -> Option<Self::V>;

    /// Reads the value from a document.
    fn from_json(document: &Json) -> (value: Option<Self>)
        ensures
            value.deep_view() == Self::decoded(document@),
    ;
}

/// The members of an object that is being put together.
pub struct Members {
    list: Vec<(String, Json)>,
}

impl View for Members {
    type V = Map<Seq<char>, JsonView>;

    closed spec fn view(&self) -> Map<Seq<char>, JsonView> {
        members_map(members_view(self.list@))
    }
}

/// A map with one member more, where there is a value for it.
pub open spec fn with_some(
    map: Map<Seq<char>, JsonView>,
    name: Seq<char>,
    value: Option<JsonView>,
) -> Map<Seq<char>, JsonView> {
    match value {
        Some(document) => map.insert(name, document),
        None => map,
    }
}

/// A string, where there is a text for it.
pub open spec fn some_string(text: Option<Seq<char>>) -> Option<JsonView> {
    match text {
        Some(s) => Some(JsonView::String(s)),
        None => None,
    }
}

impl Members {
    /// No members yet.
    pub fn new() -> (members: Members)
        ensures
            members@ == Map::<Seq<char>, JsonView>::empty(),
    {
        let list: Vec<(String, Json)> = Vec::new();
        assert(members_view(list@) =~= Seq::<(Seq<char>, JsonView)>::empty());
        Members { list }
    }

    /// Adds a member, in place of the one with its name if there is one.
    pub fn put(&mut self, name: &str, value: Json)
        ensures
            final(self)@ == old(self)@.insert(name@, value@),
    {
        let ghost before = members_view(self.list@);
        self.list.push((name.to_string(), value));
        proof {
            assert(members_view(self.list@) =~= before.push((name@, value@)));
            assert(before.push((name@, value@)).drop_last() =~= before);
        }
    }

    /// Adds a member that is a string.
    pub fn put_str(&mut self, name: &str, value: &str)
        ensures
            final(self)@ == old(self)@.insert(name@, JsonView::String(value@)),
    {
        self.put(name, Json::string(value));
    }

    /// The object with these members.
    pub fn into_object(self) -> (document: Json)
        ensures
            document@ == JsonView::Object(self@),
    {
        Json::object(self.list)
    }
}

impl FromJson for String {
    open spec fn decoded(document: JsonView) -> Option<Seq<char>> {
        document.text()
    }

    fn from_json(document: &Json) -> (value: Option<String>) {
        match document.as_str() {
            Some(text) => Some(text.to_string()),
            None => None,
        }
    }
}

/// Whether each of some documents stands for a value.
pub open spec fn all_decode<T: FromJson>(items: Seq<JsonView>) -> bool {
    forall|i: int| 0 <= i < items.len() ==> T::decoded(#[trigger] items[i]) is Some
}

/// The values that documents stand for.
pub open spec fn decoded_items<T: FromJson>(items: Seq<JsonView>) -> Seq<T::V> {
    items.map_values(|item: JsonView| T::decoded(item)->0)
}

impl<T: FromJson> FromJson for Vec<T> {
    open spec fn decoded(document: JsonView) -> Option<Seq<T::V>> {
        match document {
            JsonView::Array(items) => if all_decode::<T>(items) {
                Some(decoded_items::<T>(items))
            } else {
                None
            },
            _ => None,
        }
    }

    fn from_json(document: &Json) -> (value: Option<Vec<T>>) {
        let items = match document.as_array() {
            Some(items) => items,
            None => {
                return None;
            },
        };
        let ghost all = documents(items@);
        let mut list: Vec<T> = Vec::new();
        let mut at: usize = 0;
        while at < items.len()
            invariant
                at <= items.len(),
                list.len() == at,
                all == documents(items@),
                document@ == JsonView::Array(all),
                forall|i: int|
                    0 <= i < at ==> T::decoded(#[trigger] all[i]) == Some(list@[i].deep_view()),
            decreases items.len() - at,
        {
            assert(all[at as int] == items@[at as int]@);
            match T::from_json(&items[at]) {
                Some(item) => {
                    list.push(item);
                },
                None => {
                    return None;
                },
            }
            at = at + 1;
        }
        assert(list.deep_view() =~= decoded_items::<T>(all));
        Some(list)
    }
}

impl JsonView {
    /// Whether a document can stand for a record: an object, or an array of no
    /// more items than the record has fields.
    pub open spec fn is_record(self, fields: nat) -> bool {
        match self {
            JsonView::Object(_) => true,
            JsonView::Array(items) => items.len() <= fields,
            _ => false,
        }
    }

    /// The field of a record: an object has it by name, an array by position.
    pub open spec fn field(self, position: nat, name: Seq<char>) -> Option<JsonView> {
        match self {
            JsonView::Object(_) => self.member(name),
            JsonView::Array(items) => if position < items.len() {
                Some(items[position as int])
            } else {
                None
            },
            _ => None,
        }
    }
}

/// The value of a field that must be there.
pub open spec fn required<T: FromJson>(field: Option<JsonView>) -> Option<T::V> {
    match field {
        Some(document) => T::decoded(document),
        None => None,
    }
}

impl Json {
    /// Whether the document can stand for a record of so many fields.
    pub fn is_record(&self, fields: usize) -> (result: bool)
        ensures
            result == self@.is_record(fields as nat),
    {
        match self {
            Json::Object(_) => true,
            Json::Array(items) => items.len() <= fields,
            _ => false,
        }
    }

    /// The field of a record.
    pub fn field(&self, position: usize, name: &str) -> (value: Option<&Json>)
        ensures
            match value {
                Some(document) => self@.field(position as nat, name@) == Some(document@),
                None => self@.field(position as nat, name@) is None,
            },
    {
        match self.as_array() {
            Some(items) => if position < items.len() {
                assert(documents(items@)[position as int] == items@[position as int]@);
                Some(&items[position])
            } else {
                None
            },
            None => self.get(name),
        }
    }

    /// The value of a field that must be there.
    pub fn required_field<T: FromJson>(&self, position: usize, name: &str) -> (value: Option<T>)
        ensures
            value.deep_view() == required::<T>(self@.field(position as nat, name@)),
    {
        match self.field(position, name) {
            Some(document) => T::from_json(document),
            None => None,
        }
    }
}

} // verus!
