//! JSON texts whose objects keep their members in the order in which they were put.
//!
//! [`Json`] is a document, whose objects have no order. An [`Outline`] is what is
//! written: documents inside objects and arrays.
use crate::json::{rendered_text, Json, JsonView};
use crate::text::{join, joined};
use vstd::prelude::*;

verus! {

/// What is written as a JSON text.
#[derive(Debug)]
pub enum Outline {
    Value(Json),
    Array(Vec<Outline>),
    Object(Vec<(&'static str, Outline)>),
}

pub enum OutlineView {
    Value(JsonView),
    Array(Seq<OutlineView>),
    Object(Seq<(Seq<char>, OutlineView)>),
}

impl Outline {
    pub open spec fn view(&self) -> OutlineView
        decreases self,
    {
        match self {
            Outline::Value(document) => OutlineView::Value(document@),
            Outline::Array(items) => OutlineView::Array(
                Seq::new(
                    items@.len(),
                    |i: int|
                        if 0 <= i < items@.len() {
                            items@[i].view()
                        } else {
                            OutlineView::Value(JsonView::Null)
                        },
                ),
            ),
            Outline::Object(fields) => OutlineView::Object(
                Seq::new(
                    fields@.len(),
                    |i: int|
                        if 0 <= i < fields@.len() {
                            (fields@[i].0@, fields@[i].1.view())
                        } else {
                            (Seq::empty(), OutlineView::Value(JsonView::Null))
                        },
                ),
            ),
        }
    }
}

/// What a list of members means.
pub open spec fn fields_view(fields: Seq<(&'static str, Outline)>) -> Seq<(Seq<char>, OutlineView)> {
    Seq::new(fields.len(), |i: int| (fields[i].0@, fields[i].1@))
}

/// Texts between two brackets, with commas between any two.
pub open spec fn bracketed(open: char, pieces: Seq<Seq<char>>, close: char) -> Seq<char> {
    seq![open] + joined(pieces, seq![',']) + seq![close]
}

/// The text of a member: its name as a JSON string, a colon, its value.
pub open spec fn field_text(name: Seq<char>, value: Seq<char>) -> Seq<char> {
    rendered_text(JsonView::String(name)) + seq![':'] + value
}

/// The texts of items, in order.
pub open spec fn item_texts(items: Seq<OutlineView>) -> Seq<Seq<char>>
    decreases items,
{
    if items.len() == 0 {
        Seq::empty()
    } else {
        item_texts(items.drop_last()).push(items.last().text())
    }
}

/// The texts of members, in order.
pub open spec fn field_texts(fields: Seq<(Seq<char>, OutlineView)>) -> Seq<Seq<char>>
    decreases fields,
{
    if fields.len() == 0 {
        Seq::empty()
    } else {
        field_texts(fields.drop_last()).push(
            field_text(fields.last().0, fields.last().1.text()),
        )
    }
}

/// The last member with a name.
pub open spec fn last_field(fields: Seq<(Seq<char>, OutlineView)>, name: Seq<char>) -> Option<
    OutlineView,
>
    decreases fields.len(),
{
    if fields.len() == 0 {
        None
    } else if fields.last().0 == name {
        Some(fields.last().1)
    } else {
        last_field(fields.drop_last(), name)
    }
}

impl OutlineView {
    /// The text, without spaces between its tokens.
    pub open spec fn text(self) -> Seq<char>
        decreases self,
    {
        match self {
            OutlineView::Value(document) => rendered_text(document),
            OutlineView::Array(items) => bracketed('[', item_texts(items), ']'),
            OutlineView::Object(fields) => bracketed('{', field_texts(fields), '}'),
        }
    }

    /// The member of an object with a name; none of anything but an object.
    pub open spec fn member(self, name: Seq<char>) -> Option<OutlineView> {
        match self {
            OutlineView::Object(fields) => last_field(fields, name),
            _ => None,
        }
    }
}

/// A string, as it is written.
pub open spec fn string_outline(text: Seq<char>) -> OutlineView {
    OutlineView::Value(JsonView::String(text))
}

/// A string, where there is a text for it.
pub open spec fn some_string_outline(text: Option<Seq<char>>) -> Option<OutlineView> {
    match text {
        Some(s) => Some(string_outline(s)),
        None => None,
    }
}

/// Members with one more at the end, where there is a value for it.
pub open spec fn push_some(
    fields: Seq<(Seq<char>, OutlineView)>,
    name: Seq<char>,
    value: Option<OutlineView>,
) -> Seq<(Seq<char>, OutlineView)> {
    match value {
        Some(outline) => fields.push((name, outline)),
        None => fields,
    }
}

/// A member that is put at the end is found there, and hides no other name.
pub broadcast proof fn lemma_last_field_push(
    fields: Seq<(Seq<char>, OutlineView)>,
    field: (Seq<char>, OutlineView),
    name: Seq<char>,
)
    ensures
        #[trigger] last_field(fields.push(field), name) == if field.0 == name {
            Some(field.1)
        } else {
            last_field(fields, name)
        },
{
    assert(fields.push(field).drop_last() =~= fields);
}

fn enclose(open: &str, pieces: &Vec<String>, close: &str) -> (text: String)
    ensures
        text@ == open@ + joined(pieces.deep_view(), seq![',']) + close@,
{
    proof {
        reveal_strlit(",");
        assert(","@ =~= seq![',']);
    }
    let mut text = open.to_string();
    text.append(join(pieces, ",").as_str());
    text.append(close);
    text
}

impl Outline {
    /// A string.
    pub fn string(text: &str) -> (outline: Outline)
        ensures
            outline@ == string_outline(text@),
    {
        Outline::Value(Json::string(text))
    }

    /// The text, without spaces between its tokens, the members of objects in the
    /// order in which they were put.
    pub fn render(&self) -> (text: String)
        ensures
            text@ == self@.text(),
        decreases self,
    {
        let mut pieces: Vec<String> = Vec::new();
        let mut at: usize = 0;
        assert(pieces.deep_view() =~= Seq::<Seq<char>>::empty());
        match self {
            Outline::Value(document) => document.render(),
            Outline::Array(items) => {
                let ghost all = self@->Array_0;
                assert(all.take(0) =~= Seq::<OutlineView>::empty());
                while at < items.len()
                    invariant
                        at <= items.len(),
                        *self == Outline::Array(*items),
                        self@ == OutlineView::Array(all),
                        all.len() == items.len(),
                        pieces.deep_view() == item_texts(all.take(at as int)),
                    decreases items.len() - at,
                {
                    assert(decreases_to!(*self => self->Array_0));
                    assert(decreases_to!(*items => items@));
                    assert(decreases_to!(items@ => items@[at as int]));
                    let piece = items[at].render();
                    let ghost before = pieces.deep_view();
                    pieces.push(piece);
                    proof {
                        assert(pieces.deep_view() =~= before.push(piece@));
                        assert(all.take(at + 1).drop_last() =~= all.take(at as int));
                        assert(all.take(at + 1).last() == items@[at as int]@);
                    }
                    at = at + 1;
                }
                assert(all.take(at as int) =~= all);
                proof {
                    reveal_strlit("[");
                    reveal_strlit("]");
                    assert("["@ =~= seq!['[']);
                    assert("]"@ =~= seq![']']);
                }
                enclose("[", &pieces, "]")
            },
            Outline::Object(fields) => {
                let ghost all = self@->Object_0;
                assert(all.take(0) =~= Seq::<(Seq<char>, OutlineView)>::empty());
                while at < fields.len()
                    invariant
                        at <= fields.len(),
                        *self == Outline::Object(*fields),
                        self@ == OutlineView::Object(all),
                        all.len() == fields.len(),
                        pieces.deep_view() == field_texts(all.take(at as int)),
                    decreases fields.len() - at,
                {
                    assert(decreases_to!(*self => self->Object_0));
                    assert(decreases_to!(*fields => fields@));
                    assert(decreases_to!(fields@ => fields@[at as int]));
                    assert(decreases_to!(fields@[at as int] => fields@[at as int].1));
                    let value = fields[at].1.render();
                    let mut piece = Json::string(fields[at].0).render();
                    piece.append(":");
                    piece.append(value.as_str());
                    let ghost before = pieces.deep_view();
                    pieces.push(piece);
                    proof {
                        reveal_strlit(":");
                        assert(":"@ =~= seq![':']);
                        assert(pieces.deep_view() =~= before.push(piece@));
                        assert(all.take(at + 1).drop_last() =~= all.take(at as int));
                        assert(all.take(at + 1).last() == (
                            fields@[at as int].0@,
                            fields@[at as int].1@,
                        ));
                    }
                    at = at + 1;
                }
                assert(all.take(at as int) =~= all);
                proof {
                    reveal_strlit("{");
                    reveal_strlit("}");
                    assert("{"@ =~= seq!['{']);
                    assert("}"@ =~= seq!['}']);
                }
                enclose("{", &pieces, "}")
            },
        }
    }
}

/// The members of an object that is being put together, in order.
pub struct Fields {
    list: Vec<(&'static str, Outline)>,
}

impl View for Fields {
    type V = Seq<(Seq<char>, OutlineView)>;

    closed spec fn view(&self) -> Seq<(Seq<char>, OutlineView)> {
        fields_view(self.list@)
    }
}

impl Fields {
    /// No members yet.
    pub fn new() -> (fields: Fields)
        ensures
            fields@ == Seq::<(Seq<char>, OutlineView)>::empty(),
    {
        let list: Vec<(&'static str, Outline)> = Vec::new();
        assert(fields_view(list@) =~= Seq::<(Seq<char>, OutlineView)>::empty());
        Fields { list }
    }

    /// Puts a member at the end.
    pub fn put(&mut self, name: &'static str, value: Outline)
        ensures
            final(self)@ == old(self)@.push((name@, value@)),
    {
        let ghost before = fields_view(self.list@);
        self.list.push((name, value));
        assert(fields_view(self.list@) =~= before.push((name@, value@)));
    }

    /// Puts a member that is a string.
    pub fn put_str(&mut self, name: &'static str, value: &str)
        ensures
            final(self)@ == old(self)@.push((name@, string_outline(value@))),
    {
        self.put(name, Outline::string(value));
    }

    /// Puts a member that is a string, where there is a text for it.
    pub fn put_some_str(&mut self, name: &'static str, value: &Option<String>)
        ensures
            final(self)@ == push_some(old(self)@, name@, some_string_outline(value.deep_view())),
    {
        match value {
            Some(text) => self.put_str(name, text.as_str()),
            None => {},
        }
    }

    /// The object with these members.
    pub fn into_object(self) -> (outline: Outline)
        ensures
            outline@ == OutlineView::Object(self@),
    {
        let outline = Outline::Object(self.list);
        assert(outline@->Object_0 =~= self@);
        outline
    }
}

/// A value that can be written as a JSON text.
pub trait ToJson: DeepView {
    /// What is written for a value.
    spec fn json(content: Self::V) -> OutlineView;

    /// Lays the value out for writing.
    fn to_json(&self) -> (outline: Outline)
        ensures
            outline@ == Self::json(self.deep_view()),
    ;
}

/// What is written for a list of values.
pub open spec fn json_items<T: ToJson>(items: Seq<T::V>) -> OutlineView {
    OutlineView::Array(items.map_values(|item: T::V| T::json(item)))
}

/// Lays a list of values out as an array.
pub fn array_to_json<T: ToJson>(items: &Vec<T>) -> (outline: Outline)
    ensures
        outline@ == json_items::<T>(items.deep_view()),
{
    let mut list: Vec<Outline> = Vec::new();
    let mut at: usize = 0;
    while at < items.len()
        invariant
            at <= items.len(),
            list.len() == at,
            forall|i: int|
                0 <= i < at ==> (#[trigger] list@[i])@ == T::json(items@[i].deep_view()),
        decreases items.len() - at,
    {
        list.push(items[at].to_json());
        at = at + 1;
    }
    let outline = Outline::Array(list);
    assert(outline@->Array_0 =~= json_items::<T>(items.deep_view())->Array_0);
    outline
}

proof fn lemma_item_texts(front: Seq<OutlineView>, back: Seq<OutlineView>)
    ensures
        item_texts(front + back) == item_texts(front) + item_texts(back),
        item_texts(back).len() == back.len(),
    decreases back.len(),
{
    if back.len() > 0 {
        lemma_item_texts(front, back.drop_last());
        assert((front + back).drop_last() =~= front + back.drop_last());
        assert(item_texts(front + back) =~= item_texts(front) + item_texts(back));
    } else {
        assert(front + back =~= front);
        assert(item_texts(front + back) =~= item_texts(front) + item_texts(back));
    }
}

proof fn lemma_field_texts(
    front: Seq<(Seq<char>, OutlineView)>,
    back: Seq<(Seq<char>, OutlineView)>,
)
    ensures
        field_texts(front + back) == field_texts(front) + field_texts(back),
        field_texts(back).len() == back.len(),
    decreases back.len(),
{
    if back.len() > 0 {
        lemma_field_texts(front, back.drop_last());
        assert((front + back).drop_last() =~= front + back.drop_last());
        assert(field_texts(front + back) =~= field_texts(front) + field_texts(back));
    } else {
        assert(front + back =~= front);
        assert(field_texts(front + back) =~= field_texts(front) + field_texts(back));
    }
}

/// An array is written item by item, in order, with commas between them and square
/// brackets around them.
pub proof fn law_arrays_are_written_in_order(front: Seq<OutlineView>, back: Seq<OutlineView>)
    requires
        front.len() > 0,
        back.len() > 0,
    ensures
        OutlineView::Array(front + back).text() == OutlineView::Array(front).text().drop_last()
            + seq![','] + OutlineView::Array(back).text().drop_first(),
        front.len() == 1 ==> OutlineView::Array(front).text() == seq!['['] + front[0].text()
            + seq![']'],
        OutlineView::Array(Seq::empty()).text() == seq!['[', ']'],
{
    lemma_item_texts(front, back);
    lemma_item_texts(Seq::empty(), front);
    crate::text::law_joined_in_order(item_texts(front), item_texts(back), seq![',']);
    assert(OutlineView::Array(front + back).text() =~= OutlineView::Array(front).text().drop_last()
        + seq![','] + OutlineView::Array(back).text().drop_first());
    if front.len() == 1 {
        assert(front.last() == front[0]);
        assert(item_texts(front)[0] == front[0].text());
    }
    assert(OutlineView::Array(Seq::empty()).text() =~= seq!['[', ']']);
}

/// An object is written member by member, in order, each as its name, a colon and its
/// value, with commas between them and curly brackets around them.
pub proof fn law_objects_are_written_in_order(
    front: Seq<(Seq<char>, OutlineView)>,
    back: Seq<(Seq<char>, OutlineView)>,
)
    requires
        front.len() > 0,
        back.len() > 0,
    ensures
        OutlineView::Object(front + back).text() == OutlineView::Object(front).text().drop_last()
            + seq![','] + OutlineView::Object(back).text().drop_first(),
        front.len() == 1 ==> OutlineView::Object(front).text() == seq!['{'] + rendered_text(
            JsonView::String(front[0].0),
        ) + seq![':'] + front[0].1.text() + seq!['}'],
        OutlineView::Object(Seq::empty()).text() == seq!['{', '}'],
{
    lemma_field_texts(front, back);
    lemma_field_texts(Seq::empty(), front);
    crate::text::law_joined_in_order(field_texts(front), field_texts(back), seq![',']);
    assert(OutlineView::Object(front + back).text() =~= OutlineView::Object(
        front,
    ).text().drop_last() + seq![','] + OutlineView::Object(back).text().drop_first());
    if front.len() == 1 {
        assert(front.last() == front[0]);
        assert(OutlineView::Object(front).text() =~= seq!['{'] + rendered_text(
            JsonView::String(front[0].0),
        ) + seq![':'] + front[0].1.text() + seq!['}']);
    }
    assert(OutlineView::Object(Seq::empty()).text() =~= seq!['{', '}']);
}

/// A document is written as `serde_json` writes it, and an outline means what it
/// holds, in order.
pub proof fn law_outlines_mean_what_they_hold(
    document: Json,
    items: Vec<Outline>,
    fields: Vec<(&'static str, Outline)>,
    text: Seq<char>,
)
    ensures
        Outline::Value(document)@ == OutlineView::Value(document@),
        OutlineView::Value(document@).text() == rendered_text(document@),
        Outline::Array(items)@ is Array,
        Outline::Array(items)@->Array_0.len() == items@.len(),
        forall|i: int|
            0 <= i < items@.len() ==> #[trigger] Outline::Array(items)@->Array_0[i] == items@[i]@,
        Outline::Object(fields)@ is Object,
        Outline::Object(fields)@->Object_0.len() == fields@.len(),
        forall|i: int|
            0 <= i < fields@.len() ==> #[trigger] Outline::Object(fields)@->Object_0[i] == (
                fields@[i].0@,
                fields@[i].1@,
            ),
        string_outline(text) == OutlineView::Value(JsonView::String(text)),
{
}

} // verus!
