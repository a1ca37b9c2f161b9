use vstd::prelude::*;

verus! {

/// A JSON document, as far as decoding reads it.
///
/// Numbers that are whole and fit in 64 signed bits are held as they are;
/// of any other number only the fact that it is one is kept. The members of
/// an object stand in a list; a name is looked up from the front.
#[derive(Debug, PartialEq, Eq)]
pub enum Json {
    Null,
    Bool(bool),
    Integer(i64),
    OtherNumber,
    Text(String),
    Array(Vec<Json>),
    Object(Vec<(String, Json)>),
}

/// The mathematical value of a [`Json`] document.
pub enum JsonView {
    Null,
    Bool(bool),
    Integer(i64),
    OtherNumber,
    Text(Seq<char>),
    Array(Seq<JsonView>),
    Object(Seq<(Seq<char>, JsonView)>),
}

/// The mathematical value of `json`: texts become sequences of characters,
/// lists become sequences, item by item and member by member.
pub open spec fn json_value(json: Json) -> JsonView
    decreases json,
{
    match json {
        Json::Null => JsonView::Null,
        Json::Bool(b) => JsonView::Bool(b),
        Json::Integer(n) => JsonView::Integer(n),
        Json::OtherNumber => JsonView::OtherNumber,
        Json::Text(s) => JsonView::Text(s@),
        Json::Array(items) => JsonView::Array(
            Seq::new(
                items@.len(),
                |i: int|
                    if 0 <= i < items@.len() {
                        json_value(items@[i])
                    } else {
                        JsonView::Null
                    },
            ),
        ),
        Json::Object(members) => JsonView::Object(
            Seq::new(
                members@.len(),
                |i: int|
                    if 0 <= i < members@.len() {
                        (members@[i].0@, json_value(members@[i].1))
                    } else {
                        (Seq::empty(), JsonView::Null)
                    },
            ),
        ),
    }
}

impl View for Json {
    type V = JsonView;

    open spec fn view(&self) -> JsonView {
        json_value(*self)
    }
}

impl DeepView for Json {
    type V = JsonView;

    open spec fn deep_view(&self) -> JsonView {
        json_value(*self)
    }
}

/// The values of the items of a list, in their order.
pub open spec fn items_value(items: Seq<Json>) -> Seq<JsonView> {
    Seq::new(items.len(), |i: int| items[i]@)
}

/// The values of the members of an object, in their order.
pub open spec fn members_value(members: Seq<(String, Json)>) -> Seq<(Seq<char>, JsonView)> {
    Seq::new(members.len(), |i: int| (members[i].0@, members[i].1@))
}

/// The value of a list is the list of the values of its items.
pub proof fn lemma_array_value(items: Vec<Json>)
    ensures
        Json::Array(items)@ == JsonView::Array(items_value(items@)),
{
    assert(Json::Array(items)@->Array_0 =~= items_value(items@));
}

/// The value of an object is the list of its members' names and values.
pub proof fn lemma_object_value(members: Vec<(String, Json)>)
    ensures
        Json::Object(members)@ == JsonView::Object(members_value(members@)),
{
    assert(Json::Object(members)@->Object_0 =~= members_value(members@));
}

/// The value of the member called `name`, looked up from the front.
pub open spec fn lookup(members: Seq<(Seq<char>, JsonView)>, name: Seq<char>) -> Option<
    JsonView,
>
    decreases members.len(),
{
    if members.len() == 0 {
        None
    } else if members[0].0 == name {
        Some(members[0].1)
    } else {
        lookup(members.drop_first(), name)
    }
}

/// A member is found at the first place that holds its name.
pub proof fn lemma_lookup(members: Seq<(Seq<char>, JsonView)>, i: int)
    requires
        0 <= i < members.len(),
        forall|j: int| 0 <= j < i ==> (#[trigger] members[j]).0 != members[i].0,
    ensures
        lookup(members, members[i].0) == Some(members[i].1),
    decreases i,
{
    if i > 0 {
        let rest = members.drop_first();
        assert(rest[i - 1] == members[i]);
        assert forall|j: int| 0 <= j < i - 1 implies (#[trigger] rest[j]).0 != rest[i - 1].0 by {
            assert(rest[j] == members[j + 1]);
        }
        lemma_lookup(rest, i - 1);
    }
}

/// The member called `name`, looked up from the front.
pub fn find_member<'a>(members: &'a Vec<(String, Json)>, name: &str) -> (r: Option<&'a Json>)
    ensures
        match r {
            Some(json) => lookup(members_value(members@), name@) == Some(json@),
            None => lookup(members_value(members@), name@) is None,
        },
{
    let target = name.to_owned();
    let mut i: usize = 0;
    let ghost all = members_value(members@);
    assert(all.skip(0) =~= all);
    while i < members.len()
        invariant
            i <= members.len(),
            all == members_value(members@),
            target@ == name@,
            lookup(all, name@) == lookup(all.skip(i as int), name@),
        decreases members.len() - i,
    {
        if members[i].0 == target {
            assert(all.skip(i as int)[0] == all[i as int]);
            return Some(&members[i].1);
        }
        assert(all.skip(i as int)[0] == all[i as int]);
        assert(all.skip(i as int).drop_first() =~= all.skip(i + 1));
        i += 1;
    }
    None
}

impl JsonView {
    /// The member called `name` of an object; nothing else has members.
    pub open spec fn member(self, name: Seq<char>) -> Option<JsonView> {
        match self {
            JsonView::Object(members) => lookup(members, name),
            _ => None,
        }
    }

    /// Whether a record of `count` fields can be read from this value: from
    /// an object by the fields' names, or from a list of exactly `count`
    /// items by their places.
    pub open spec fn is_record(self, count: nat) -> bool {
        match self {
            JsonView::Object(_) => true,
            JsonView::Array(items) => items.len() == count,
            _ => false,
        }
    }

    /// What stands for the field called `name`, which is number `index` of
    /// its record: the member of that name in an object, the item at that
    /// place in a list. `None` says that nothing stands for it.
    pub open spec fn field(self, name: Seq<char>, index: int) -> Option<JsonView> {
        match self {
            JsonView::Object(members) => lookup(members, name),
            JsonView::Array(items) => if 0 <= index < items.len() {
                Some(items[index])
            } else {
                None
            },
            _ => None,
        }
    }
}

/// A text, read from a JSON text and from nothing else.
pub open spec fn text(json: JsonView) -> Option<Seq<char>> {
    match json {
        JsonView::Text(s) => Some(s),
        _ => None,
    }
}

/// A truth value, read from a JSON truth value and from nothing else.
pub open spec fn boolean(json: JsonView) -> Option<bool> {
    match json {
        JsonView::Bool(b) => Some(b),
        _ => None,
    }
}

/// A 64-bit integer, read from a whole number that fits.
pub open spec fn int64(json: JsonView) -> Option<i64> {
    match json {
        JsonView::Integer(n) => Some(n),
        _ => None,
    }
}

/// A 32-bit integer, read from a whole number that fits.
pub open spec fn int32(json: JsonView) -> Option<i32> {
    match json {
        JsonView::Integer(n) if i32::MIN <= n <= i32::MAX => Some(n as i32),
        _ => None,
    }
}

/// A list of texts, read from a JSON list each of whose items is a text.
/// One item that is none has the whole list refused.
pub open spec fn texts(json: JsonView) -> Option<Seq<Seq<char>>> {
    match json {
        JsonView::Array(items) => if forall|i: int|
            0 <= i < items.len() ==> (#[trigger] text(items[i])) is Some {
            Some(Seq::new(items.len(), |i: int| text(items[i]).unwrap()))
        } else {
            None
        },
        _ => None,
    }
}

/// Whether nothing, or `null`, stands where a value is looked for.
pub open spec fn absent(found: Option<JsonView>) -> bool {
    found is None || found == Some(JsonView::Null)
}

/// A value that may be missing: nothing, or `null`, is read as absent, and
/// anything else as `read` gives it, which is what its decoder made of it.
/// The outer `None` says that the decoder refused what stood there.
pub open spec fn optional<T>(found: Option<JsonView>, read: Option<T>) -> Option<Option<T>> {
    if absent(found) {
        Some(None)
    } else {
        match read {
            Some(value) => Some(Some(value)),
            None => None,
        }
    }
}

/// A text that may be missing.
pub open spec fn optional_text(found: Option<JsonView>) -> Option<Option<Seq<char>>> {
    optional(found, text(found.unwrap()))
}

/// A truth value that may be missing.
pub open spec fn optional_boolean(found: Option<JsonView>) -> Option<Option<bool>> {
    optional(found, boolean(found.unwrap()))
}

/// A 32-bit integer that may be missing.
pub open spec fn optional_int32(found: Option<JsonView>) -> Option<Option<i32>> {
    optional(found, int32(found.unwrap()))
}

/// A 64-bit integer that may be missing.
pub open spec fn optional_int64(found: Option<JsonView>) -> Option<Option<i64>> {
    optional(found, int64(found.unwrap()))
}

/// A list of texts that may be missing.
pub open spec fn optional_texts(found: Option<JsonView>) -> Option<Option<Seq<Seq<char>>>> {
    optional(found, texts(found.unwrap()))
}

/// The document for a text that may be missing: `null` for an absent one.
pub open spec fn text_document(value: Option<Seq<char>>) -> JsonView {
    match value {
        Some(s) => JsonView::Text(s),
        None => JsonView::Null,
    }
}

/// The document for a truth value that may be missing.
pub open spec fn boolean_document(value: Option<bool>) -> JsonView {
    match value {
        Some(b) => JsonView::Bool(b),
        None => JsonView::Null,
    }
}

/// The document for a 32-bit integer that may be missing.
pub open spec fn int32_document(value: Option<i32>) -> JsonView {
    match value {
        Some(n) => JsonView::Integer(n as i64),
        None => JsonView::Null,
    }
}

/// The document for a 64-bit integer that may be missing.
pub open spec fn int64_document(value: Option<i64>) -> JsonView {
    match value {
        Some(n) => JsonView::Integer(n),
        None => JsonView::Null,
    }
}

/// The document for a list of texts that may be missing.
pub open spec fn texts_document(value: Option<Seq<Seq<char>>>) -> JsonView {
    match value {
        Some(list) => JsonView::Array(Seq::new(list.len(), |i: int| JsonView::Text(list[i]))),
        None => JsonView::Null,
    }
}

/// The member called `name` of an object; nothing else has members.
pub fn member<'a>(json: &'a Json, name: &str) -> (r: Option<&'a Json>)
    ensures
        r.deep_view() == json@.member(name@),
{
    match json {
        Json::Object(members) => {
            proof {
                lemma_object_value(*members);
            }
            find_member(members, name)
        },
        _ => None,
    }
}

/// Whether a record of `count` fields can be read from `json`.
pub fn is_record(json: &Json, count: usize) -> (r: bool)
    ensures
        r == json@.is_record(count as nat),
{
    match json {
        Json::Object(_) => true,
        Json::Array(items) => {
            proof {
                lemma_array_value(*items);
            }
            items.len() == count
        },
        _ => false,
    }
}

/// What stands in `json` for the field called `name`, number `index` of its
/// record.
pub fn field<'a>(json: &'a Json, name: &str, index: usize) -> (r: Option<&'a Json>)
    ensures
        r.deep_view() == json@.field(name@, index as int),
{
    match json {
        Json::Object(members) => {
            proof {
                lemma_object_value(*members);
            }
            find_member(members, name)
        },
        Json::Array(items) => {
            proof {
                lemma_array_value(*items);
            }
            if index < items.len() {
                Some(&items[index])
            } else {
                None
            }
        },
        _ => None,
    }
}

/// Reads a text that may be missing.
pub fn read_text(found: Option<&Json>) -> (r: Option<Option<String>>)
    ensures
        r.deep_view() == optional_text(found.deep_view()),
{
    match found {
        None => Some(None),
        Some(Json::Null) => Some(None),
        Some(Json::Text(s)) => Some(Some(s.clone())),
        Some(_) => None,
    }
}

/// Reads a truth value that may be missing.
pub fn read_bool(found: Option<&Json>) -> (r: Option<Option<bool>>)
    ensures
        r.deep_view() == optional_boolean(found.deep_view()),
{
    match found {
        None => Some(None),
        Some(Json::Null) => Some(None),
        Some(Json::Bool(b)) => Some(Some(*b)),
        Some(_) => None,
    }
}

/// Reads a 64-bit integer that may be missing.
pub fn read_i64(found: Option<&Json>) -> (r: Option<Option<i64>>)
    ensures
        r.deep_view() == optional_int64(found.deep_view()),
{
    match found {
        None => Some(None),
        Some(Json::Null) => Some(None),
        Some(Json::Integer(n)) => Some(Some(*n)),
        Some(_) => None,
    }
}

/// Reads a 32-bit integer that may be missing.
pub fn read_i32(found: Option<&Json>) -> (r: Option<Option<i32>>)
    ensures
        r.deep_view() == optional_int32(found.deep_view()),
{
    match found {
        None => Some(None),
        Some(Json::Null) => Some(None),
        Some(Json::Integer(n)) => {
            if -2147483648 <= *n && *n <= 2147483647 {
                Some(Some(*n as i32))
            } else {
                None
            }
        },
        Some(_) => None,
    }
}

/// Reads a list of texts.
pub fn read_text_list(json: &Json) -> (r: Option<Vec<String>>)
    ensures
        r.deep_view() == texts(json@),
{
    match json {
        Json::Array(items) => {
            proof {
                lemma_array_value(*items);
            }
            let ghost values = items_value(items@);
            let mut list: Vec<String> = Vec::new();
            let mut i: usize = 0;
            while i < items.len()
                invariant
                    i <= items.len(),
                    json@ == JsonView::Array(values),
                    values.len() == items.len(),
                    forall|k: int| 0 <= k < items.len() ==> values[k] == (#[trigger] items@[k])@,
                    list@.len() == i,
                    forall|k: int|
                        #![trigger list@[k]]
                        #![trigger text(values[k])]
                        0 <= k < i ==> text(values[k]) == Some(list@[k]@),
                decreases items.len() - i,
            {
                match &items[i] {
                    Json::Text(s) => {
                        list.push(s.clone());
                    },
                    _ => {
                        assert(text(values[i as int]) is None);
                        return None;
                    },
                }
                i += 1;
            }
            assert(list.deep_view() =~= Seq::new(values.len(), |i: int| text(values[i]).unwrap()));
            Some(list)
        },
        _ => None,
    }
}

/// Reads a list of texts that may be missing.
pub fn read_texts(found: Option<&Json>) -> (r: Option<Option<Vec<String>>>)
    ensures
        r.deep_view() == optional_texts(found.deep_view()),
{
    match found {
        None => Some(None),
        Some(Json::Null) => Some(None),
        Some(json) => match read_text_list(json) {
            Some(list) => Some(Some(list)),
            None => None,
        },
    }
}

/// Writes a text that may be missing.
pub fn write_text(value: &Option<String>) -> (r: Json)
    ensures
        r@ == text_document(value.deep_view()),
{
    match value {
        Some(s) => Json::Text(s.clone()),
        None => Json::Null,
    }
}

/// Writes a truth value that may be missing.
pub fn write_bool(value: &Option<bool>) -> (r: Json)
    ensures
        r@ == boolean_document(value.deep_view()),
{
    match value {
        Some(b) => Json::Bool(*b),
        None => Json::Null,
    }
}

/// Writes a 32-bit integer that may be missing.
pub fn write_i32(value: &Option<i32>) -> (r: Json)
    ensures
        r@ == int32_document(value.deep_view()),
{
    match value {
        Some(n) => Json::Integer(*n as i64),
        None => Json::Null,
    }
}

/// Writes a 64-bit integer that may be missing.
pub fn write_i64(value: &Option<i64>) -> (r: Json)
    ensures
        r@ == int64_document(value.deep_view()),
{
    match value {
        Some(n) => Json::Integer(*n),
        None => Json::Null,
    }
}

/// Writes a list of texts that may be missing.
pub fn write_texts(value: &Option<Vec<String>>) -> (r: Json)
    ensures
        r@ == texts_document(value.deep_view()),
{
    match value {
        Some(list) => {
            let mut items: Vec<Json> = Vec::new();
            let mut i: usize = 0;
            while i < list.len()
                invariant
                    i <= list.len(),
                    items@.len() == i,
                    forall|k: int| 0 <= k < i ==> (#[trigger] items@[k])@ == JsonView::Text(list@[k]@),
                decreases list.len() - i,
            {
                items.push(Json::Text(list[i].clone()));
                i += 1;
            }
            proof {
                lemma_array_value(items);
                assert(items_value(items@) =~= Seq::new(
                    list.deep_view().len(),
                    |i: int| JsonView::Text(list.deep_view()[i]),
                ));
            }
            Json::Array(items)
        },
        None => Json::Null,
    }
}

/// What was written for a value that may be missing is read as that value.
pub proof fn lemma_leaves_round_trip(
    t: Option<Seq<char>>,
    b: Option<bool>,
    n: Option<i32>,
    m: Option<i64>,
    l: Option<Seq<Seq<char>>>,
)
    ensures
        optional_text(Some(text_document(t))) == Some(t),
        optional_boolean(Some(boolean_document(b))) == Some(b),
        optional_int32(Some(int32_document(n))) == Some(n),
        optional_int64(Some(int64_document(m))) == Some(m),
        optional_texts(Some(texts_document(l))) == Some(l),
{
    if let Some(list) = l {
        let items = Seq::new(list.len(), |i: int| JsonView::Text(list[i]));
        assert(forall|i: int| 0 <= i < items.len() ==> (#[trigger] text(items[i])) is Some);
        assert(Seq::new(items.len(), |i: int| text(items[i]).unwrap()) =~= list);
    }
}

} // verus!
