use crate::json::field;
use crate::json::is_record;
use crate::json::items_value;
use crate::json::lemma_array_value;
use crate::json::lemma_leaves_round_trip;
use crate::json::lemma_lookup;
use crate::json::lemma_object_value;
use crate::json::members_value;
use crate::json::optional;
use crate::json::optional_boolean;
use crate::json::optional_int32;
use crate::json::optional_int64;
use crate::json::optional_text;
use crate::json::optional_texts;
use crate::json::read_bool;
use crate::json::read_i32;
use crate::json::read_i64;
use crate::json::read_text;
use crate::json::read_texts;
use crate::json::boolean_document;
use crate::json::int32_document;
use crate::json::int64_document;
use crate::json::text_document;
use crate::json::texts_document;
use crate::json::write_bool;
use crate::json::write_i32;
use crate::json::write_i64;
use crate::json::write_text;
use crate::json::write_texts;
use crate::json::Json;
use crate::json::JsonView;
use vstd::prelude::*;

verus! {

/// A reference to an album or an artist.
///
/// Each field may be absent.
#[derive(Debug, PartialEq, Eq)]
pub struct AlbumsDatum {
    pub id: Option<String>,
    pub type_: Option<String>,
    pub href: Option<String>,
}

/// The mathematical value of [`AlbumsDatum`].
pub struct AlbumsDatumView {
    pub id: Option<Seq<char>>,
    pub type_: Option<Seq<char>>,
    pub href: Option<Seq<char>>,
}

impl DeepView for AlbumsDatum {
    type V = AlbumsDatumView;

    open spec fn deep_view(&self) -> AlbumsDatumView {
        AlbumsDatumView {
            id: self.id.deep_view(),
            type_: self.type_.deep_view(),
            href: self.href.deep_view(),
        }
    }
}

impl AlbumsDatum {
    /// What is read from `json`: each field from the member of its name, or,
    /// in a list of exactly 3 items, from the item at its place. A field
    /// for which nothing, or `null`, stands is absent; one that cannot be read
    /// has the whole record refused.
    pub open spec fn decoded(json: JsonView) -> Option<AlbumsDatumView> {
        let id = optional_text(json.field("id"@, 0));
        let type_ = optional_text(json.field("type"@, 1));
        let href = optional_text(json.field("href"@, 2));
        if json.is_record(3) && id is Some && type_ is Some && href is Some {
            Some(
                AlbumsDatumView {
                    id: id.unwrap(),
                    type_: type_.unwrap(),
                    href: href.unwrap(),
                },
            )
        } else {
            None
        }
    }

    /// The document for `value`: an object with one member for each field,
    /// in the fields' order, `null` standing for an absent one.
    pub open spec fn encoded(value: AlbumsDatumView) -> JsonView {
        JsonView::Object(
            seq![
                ("id"@, text_document(value.id)),
                ("type"@, text_document(value.type_)),
                ("href"@, text_document(value.href)),
            ],
        )
    }

    /// A list of records, read from a JSON list each of whose items is read
    /// as a record. One item that is refused has the whole list refused.
    pub open spec fn decoded_list(json: JsonView) -> Option<Seq<AlbumsDatumView>> {
        match json {
            JsonView::Array(items) => if forall|i: int|
                0 <= i < items.len() ==> (#[trigger] AlbumsDatum::decoded(items[i])) is Some {
                Some(Seq::new(items.len(), |i: int| AlbumsDatum::decoded(items[i]).unwrap()))
            } else {
                None
            },
            _ => None,
        }
    }

    /// A list of records that may be missing.
    pub open spec fn decoded_optional_list(found: Option<JsonView>) -> Option<Option<Seq<AlbumsDatumView>>> {
        optional(found, AlbumsDatum::decoded_list(found.unwrap()))
    }

    /// The document for a list of records that may be missing.
    pub open spec fn list_document(value: Option<Seq<AlbumsDatumView>>) -> JsonView {
        match value {
            Some(list) => JsonView::Array(Seq::new(list.len(), |i: int| AlbumsDatum::encoded(list[i]))),
            None => JsonView::Null,
        }
    }

    /// Reads a record from `json`, or refuses it.
    pub fn decode(json: &Json) -> (r: Option<AlbumsDatum>)
        ensures
            r.deep_view() == AlbumsDatum::decoded(json@),
    {
        if !is_record(json, 3) {
            return None;
        }
        let id = read_text(field(json, "id", 0))?;
        let type_ = read_text(field(json, "type", 1))?;
        let href = read_text(field(json, "href", 2))?;
        Some(AlbumsDatum { id, type_, href })
    }

    /// Writes the record as a document.
    pub fn encode(&self) -> (r: Json)
        ensures
            r@ == AlbumsDatum::encoded(self.deep_view()),
    {
        let mut members: Vec<(String, Json)> = Vec::new();
        members.push(("id".to_owned(), write_text(&self.id)));
        members.push(("type".to_owned(), write_text(&self.type_)));
        members.push(("href".to_owned(), write_text(&self.href)));
        proof {
            lemma_object_value(members);
            assert(members_value(members@) =~= AlbumsDatum::encoded(self.deep_view())->Object_0);
        }
        Json::Object(members)
    }

    /// Reads a list of records.
    pub fn decode_list(json: &Json) -> (r: Option<Vec<AlbumsDatum>>)
        ensures
            r.deep_view() == AlbumsDatum::decoded_list(json@),
    {
        match json {
            Json::Array(items) => {
                proof {
                    lemma_array_value(*items);
                }
                let ghost values = items_value(items@);
                let mut list: Vec<AlbumsDatum> = Vec::new();
                let mut i: usize = 0;
                while i < items.len()
                    invariant
                        i <= items.len(),
                        json@ == JsonView::Array(values),
                        values.len() == items.len(),
                        forall|k: int| 0 <= k < items.len() ==> values[k] == (#[trigger] items@[k])@,
                        list@.len() == i,
                        forall|k: int|
                            #![trigger list@[k]]
                            #![trigger AlbumsDatum::decoded(values[k])]
                            0 <= k < i ==> AlbumsDatum::decoded(values[k]) == Some(list@[k].deep_view()),
                    decreases items.len() - i,
                {
                    match AlbumsDatum::decode(&items[i]) {
                        Some(value) => {
                            list.push(value);
                        },
                        None => {
                            assert(AlbumsDatum::decoded(values[i as int]) is None);
                            return None;
                        },
                    }
                    i += 1;
                }
                assert(list.deep_view() =~= Seq::new(
                    values.len(),
                    |i: int| AlbumsDatum::decoded(values[i]).unwrap(),
                ));
                Some(list)
            },
            _ => None,
        }
    }

    /// Reads a list of records that may be missing.
    pub fn read_list(found: Option<&Json>) -> (r: Option<Option<Vec<AlbumsDatum>>>)
        ensures
            r.deep_view() == AlbumsDatum::decoded_optional_list(found.deep_view()),
    {
        match found {
            None => Some(None),
            Some(Json::Null) => Some(None),
            Some(json) => match AlbumsDatum::decode_list(json) {
                Some(list) => Some(Some(list)),
                None => None,
            },
        }
    }

    /// Writes a list of records that may be missing.
    pub fn write_list(value: &Option<Vec<AlbumsDatum>>) -> (r: Json)
        ensures
            r@ == AlbumsDatum::list_document(value.deep_view()),
    {
        match value {
            Some(list) => {
                let mut items: Vec<Json> = Vec::new();
                let mut i: usize = 0;
                while i < list.len()
                    invariant
                        i <= list.len(),
                        items@.len() == i,
                        forall|k: int|
                            0 <= k < i ==> (#[trigger] items@[k])@ == AlbumsDatum::encoded(
                                list@[k].deep_view(),
                            ),
                    decreases list.len() - i,
                {
                    items.push(list[i].encode());
                    i += 1;
                }
                proof {
                    lemma_array_value(items);
                    assert(items_value(items@) =~= Seq::new(
                        list.deep_view().len(),
                        |i: int| AlbumsDatum::encoded(list.deep_view()[i]),
                    ));
                }
                Json::Array(items)
            },
            None => Json::Null,
        }
    }

    /// What is written for a record is read as that record: every field that
    /// was there comes back as it was, and every absent one stays absent.
    pub proof fn lemma_round_trip(value: AlbumsDatumView)
        ensures
            AlbumsDatum::decoded(AlbumsDatum::encoded(value)) == Some(value),
    {
        reveal_strlit("id");
        reveal_strlit("type");
        reveal_strlit("href");
        assert("id"@.len() == 2);
        assert("type"@.len() == 4 && "type"@[0] == 't');
        assert("href"@.len() == 4 && "href"@[0] == 'h');
        lemma_leaves_round_trip(value.id, None, None, None, None);
        lemma_leaves_round_trip(value.type_, None, None, None, None);
        lemma_leaves_round_trip(value.href, None, None, None, None);
        let members = AlbumsDatum::encoded(value)->Object_0;
        lemma_lookup(members, 0);
        lemma_lookup(members, 1);
        lemma_lookup(members, 2);
    }

    /// What is written for a list of records that may be missing is read as
    /// it was.
    pub proof fn lemma_list_round_trip(value: Option<Seq<AlbumsDatumView>>)
        ensures
            AlbumsDatum::decoded_optional_list(Some(AlbumsDatum::list_document(value))) == Some(value),
    {
        if let Some(list) = value {
            let items = Seq::new(list.len(), |i: int| AlbumsDatum::encoded(list[i]));
            assert forall|i: int| 0 <= i < items.len() implies (#[trigger] AlbumsDatum::decoded(
                items[i],
            )) == Some(list[i]) by {
                AlbumsDatum::lemma_round_trip(list[i]);
            }
            assert(Seq::new(items.len(), |i: int| AlbumsDatum::decoded(items[i]).unwrap()) =~= list);
        }
    }
}

/// The albums, or the artists, that a song is related to.
///
/// Each field may be absent.
#[derive(Debug, PartialEq, Eq)]
pub struct Albums {
    pub href: Option<String>,
    pub data: Option<Vec<AlbumsDatum>>,
}

/// The mathematical value of [`Albums`].
pub struct AlbumsView {
    pub href: Option<Seq<char>>,
    pub data: Option<Seq<AlbumsDatumView>>,
}

impl DeepView for Albums {
    type V = AlbumsView;

    open spec fn deep_view(&self) -> AlbumsView {
        AlbumsView {
            href: self.href.deep_view(),
            data: self.data.deep_view(),
        }
    }
}

impl Albums {
    /// What is read from `json`: each field from the member of its name, or,
    /// in a list of exactly 2 items, from the item at its place. A field
    /// for which nothing, or `null`, stands is absent; one that cannot be read
    /// has the whole record refused.
    pub open spec fn decoded(json: JsonView) -> Option<AlbumsView> {
        let href = optional_text(json.field("href"@, 0));
        let data = AlbumsDatum::decoded_optional_list(json.field("data"@, 1));
        if json.is_record(2) && href is Some && data is Some {
            Some(
                AlbumsView {
                    href: href.unwrap(),
                    data: data.unwrap(),
                },
            )
        } else {
            None
        }
    }

    /// The document for `value`: an object with one member for each field,
    /// in the fields' order, `null` standing for an absent one.
    pub open spec fn encoded(value: AlbumsView) -> JsonView {
        JsonView::Object(
            seq![
                ("href"@, text_document(value.href)),
                ("data"@, AlbumsDatum::list_document(value.data)),
            ],
        )
    }

    /// A record that may be missing.
    pub open spec fn decoded_optional(found: Option<JsonView>) -> Option<Option<AlbumsView>> {
        optional(found, Albums::decoded(found.unwrap()))
    }

    /// The document for a record that may be missing.
    pub open spec fn document(value: Option<AlbumsView>) -> JsonView {
        match value {
            Some(v) => Albums::encoded(v),
            None => JsonView::Null,
        }
    }

    /// Reads a record from `json`, or refuses it.
    pub fn decode(json: &Json) -> (r: Option<Albums>)
        ensures
            r.deep_view() == Albums::decoded(json@),
    {
        if !is_record(json, 2) {
            return None;
        }
        let href = read_text(field(json, "href", 0))?;
        let data = AlbumsDatum::read_list(field(json, "data", 1))?;
        Some(Albums { href, data })
    }

    /// Writes the record as a document.
    pub fn encode(&self) -> (r: Json)
        ensures
            r@ == Albums::encoded(self.deep_view()),
    {
        let mut members: Vec<(String, Json)> = Vec::new();
        members.push(("href".to_owned(), write_text(&self.href)));
        members.push(("data".to_owned(), AlbumsDatum::write_list(&self.data)));
        proof {
            lemma_object_value(members);
            assert(members_value(members@) =~= Albums::encoded(self.deep_view())->Object_0);
        }
        Json::Object(members)
    }

    /// Reads a record that may be missing.
    pub fn read(found: Option<&Json>) -> (r: Option<Option<Albums>>)
        ensures
            r.deep_view() == Albums::decoded_optional(found.deep_view()),
    {
        match found {
            None => Some(None),
            Some(Json::Null) => Some(None),
            Some(json) => match Albums::decode(json) {
                Some(value) => Some(Some(value)),
                None => None,
            },
        }
    }

    /// Writes a record that may be missing.
    pub fn write(value: &Option<Albums>) -> (r: Json)
        ensures
            r@ == Albums::document(value.deep_view()),
    {
        match value {
            Some(v) => v.encode(),
            None => Json::Null,
        }
    }

    /// What is written for a record is read as that record: every field that
    /// was there comes back as it was, and every absent one stays absent.
    pub proof fn lemma_round_trip(value: AlbumsView)
        ensures
            Albums::decoded(Albums::encoded(value)) == Some(value),
    {
        reveal_strlit("href");
        reveal_strlit("data");
        assert("href"@.len() == 4 && "href"@[0] == 'h');
        assert("data"@.len() == 4 && "data"@[0] == 'd');
        lemma_leaves_round_trip(value.href, None, None, None, None);
        AlbumsDatum::lemma_list_round_trip(value.data);
        let members = Albums::encoded(value)->Object_0;
        lemma_lookup(members, 0);
        lemma_lookup(members, 1);
    }

    /// What is written for a record that may be missing is read as it was.
    pub proof fn lemma_optional_round_trip(value: Option<AlbumsView>)
        ensures
            Albums::decoded_optional(Some(Albums::document(value))) == Some(value),
    {
        if let Some(v) = value {
            Albums::lemma_round_trip(v);
        }
    }
}

/// What a song is related to.
///
/// Each field may be absent.
#[derive(Debug, PartialEq, Eq)]
pub struct Relationships {
    pub albums: Option<Albums>,
    pub artists: Option<Albums>,
}

/// The mathematical value of [`Relationships`].
pub struct RelationshipsView {
    pub albums: Option<AlbumsView>,
    pub artists: Option<AlbumsView>,
}

impl DeepView for Relationships {
    type V = RelationshipsView;

    open spec fn deep_view(&self) -> RelationshipsView {
        RelationshipsView {
            albums: self.albums.deep_view(),
            artists: self.artists.deep_view(),
        }
    }
}

impl Relationships {
    /// What is read from `json`: each field from the member of its name, or,
    /// in a list of exactly 2 items, from the item at its place. A field
    /// for which nothing, or `null`, stands is absent; one that cannot be read
    /// has the whole record refused.
    pub open spec fn decoded(json: JsonView) -> Option<RelationshipsView> {
        let albums = Albums::decoded_optional(json.field("albums"@, 0));
        let artists = Albums::decoded_optional(json.field("artists"@, 1));
        if json.is_record(2) && albums is Some && artists is Some {
            Some(
                RelationshipsView {
                    albums: albums.unwrap(),
                    artists: artists.unwrap(),
                },
            )
        } else {
            None
        }
    }

    /// The document for `value`: an object with one member for each field,
    /// in the fields' order, `null` standing for an absent one.
    pub open spec fn encoded(value: RelationshipsView) -> JsonView {
        JsonView::Object(
            seq![
                ("albums"@, Albums::document(value.albums)),
                ("artists"@, Albums::document(value.artists)),
            ],
        )
    }

    /// A record that may be missing.
    pub open spec fn decoded_optional(found: Option<JsonView>) -> Option<Option<RelationshipsView>> {
        optional(found, Relationships::decoded(found.unwrap()))
    }

    /// The document for a record that may be missing.
    pub open spec fn document(value: Option<RelationshipsView>) -> JsonView {
        match value {
            Some(v) => Relationships::encoded(v),
            None => JsonView::Null,
        }
    }

    /// Reads a record from `json`, or refuses it.
    pub fn decode(json: &Json) -> (r: Option<Relationships>)
        ensures
            r.deep_view() == Relationships::decoded(json@),
    {
        if !is_record(json, 2) {
            return None;
        }
        let albums = Albums::read(field(json, "albums", 0))?;
        let artists = Albums::read(field(json, "artists", 1))?;
        Some(Relationships { albums, artists })
    }

    /// Writes the record as a document.
    pub fn encode(&self) -> (r: Json)
        ensures
            r@ == Relationships::encoded(self.deep_view()),
    {
        let mut members: Vec<(String, Json)> = Vec::new();
        members.push(("albums".to_owned(), Albums::write(&self.albums)));
        members.push(("artists".to_owned(), Albums::write(&self.artists)));
        proof {
            lemma_object_value(members);
            assert(members_value(members@) =~= Relationships::encoded(self.deep_view())->Object_0);
        }
        Json::Object(members)
    }

    /// Reads a record that may be missing.
    pub fn read(found: Option<&Json>) -> (r: Option<Option<Relationships>>)
        ensures
            r.deep_view() == Relationships::decoded_optional(found.deep_view()),
    {
        match found {
            None => Some(None),
            Some(Json::Null) => Some(None),
            Some(json) => match Relationships::decode(json) {
                Some(value) => Some(Some(value)),
                None => None,
            },
        }
    }

    /// Writes a record that may be missing.
    pub fn write(value: &Option<Relationships>) -> (r: Json)
        ensures
            r@ == Relationships::document(value.deep_view()),
    {
        match value {
            Some(v) => v.encode(),
            None => Json::Null,
        }
    }

    /// What is written for a record is read as that record: every field that
    /// was there comes back as it was, and every absent one stays absent.
    pub proof fn lemma_round_trip(value: RelationshipsView)
        ensures
            Relationships::decoded(Relationships::encoded(value)) == Some(value),
    {
        reveal_strlit("albums");
        reveal_strlit("artists");
        assert("albums"@.len() == 6);
        assert("artists"@.len() == 7);
        Albums::lemma_optional_round_trip(value.albums);
        Albums::lemma_optional_round_trip(value.artists);
        let members = Relationships::encoded(value)->Object_0;
        lemma_lookup(members, 0);
        lemma_lookup(members, 1);
    }

    /// What is written for a record that may be missing is read as it was.
    pub proof fn lemma_optional_round_trip(value: Option<RelationshipsView>)
        ensures
            Relationships::decoded_optional(Some(Relationships::document(value))) == Some(value),
    {
        if let Some(v) = value {
            Relationships::lemma_round_trip(v);
        }
    }
}

/// The version of a song's catalog entry.
///
/// Each field may be absent.
#[derive(Debug, PartialEq, Eq)]
pub struct ContentVersion {
    pub mz_indexer: Option<i32>,
    pub rtci: Option<i32>,
}

/// The mathematical value of [`ContentVersion`].
pub struct ContentVersionView {
    pub mz_indexer: Option<i32>,
    pub rtci: Option<i32>,
}

impl DeepView for ContentVersion {
    type V = ContentVersionView;

    open spec fn deep_view(&self) -> ContentVersionView {
        ContentVersionView {
            mz_indexer: self.mz_indexer.deep_view(),
            rtci: self.rtci.deep_view(),
        }
    }
}

impl ContentVersion {
    /// What is read from `json`: each field from the member of its name, or,
    /// in a list of exactly 2 items, from the item at its place. A field
    /// for which nothing, or `null`, stands is absent; one that cannot be read
    /// has the whole record refused.
    pub open spec fn decoded(json: JsonView) -> Option<ContentVersionView> {
        let mz_indexer = optional_int32(json.field("mz_indexer"@, 0));
        let rtci = optional_int32(json.field("rtci"@, 1));
        if json.is_record(2) && mz_indexer is Some && rtci is Some {
            Some(
                ContentVersionView {
                    mz_indexer: mz_indexer.unwrap(),
                    rtci: rtci.unwrap(),
                },
            )
        } else {
            None
        }
    }

    /// The document for `value`: an object with one member for each field,
    /// in the fields' order, `null` standing for an absent one.
    pub open spec fn encoded(value: ContentVersionView) -> JsonView {
        JsonView::Object(
            seq![
                ("mz_indexer"@, int32_document(value.mz_indexer)),
                ("rtci"@, int32_document(value.rtci)),
            ],
        )
    }

    /// A record that may be missing.
    pub open spec fn decoded_optional(found: Option<JsonView>) -> Option<Option<ContentVersionView>> {
        optional(found, ContentVersion::decoded(found.unwrap()))
    }

    /// The document for a record that may be missing.
    pub open spec fn document(value: Option<ContentVersionView>) -> JsonView {
        match value {
            Some(v) => ContentVersion::encoded(v),
            None => JsonView::Null,
        }
    }

    /// Reads a record from `json`, or refuses it.
    pub fn decode(json: &Json) -> (r: Option<ContentVersion>)
        ensures
            r.deep_view() == ContentVersion::decoded(json@),
    {
        if !is_record(json, 2) {
            return None;
        }
        let mz_indexer = read_i32(field(json, "mz_indexer", 0))?;
        let rtci = read_i32(field(json, "rtci", 1))?;
        Some(ContentVersion { mz_indexer, rtci })
    }

    /// Writes the record as a document.
    pub fn encode(&self) -> (r: Json)
        ensures
            r@ == ContentVersion::encoded(self.deep_view()),
    {
        let mut members: Vec<(String, Json)> = Vec::new();
        members.push(("mz_indexer".to_owned(), write_i32(&self.mz_indexer)));
        members.push(("rtci".to_owned(), write_i32(&self.rtci)));
        proof {
            lemma_object_value(members);
            assert(members_value(members@) =~= ContentVersion::encoded(self.deep_view())->Object_0);
        }
        Json::Object(members)
    }

    /// Reads a record that may be missing.
    pub fn read(found: Option<&Json>) -> (r: Option<Option<ContentVersion>>)
        ensures
            r.deep_view() == ContentVersion::decoded_optional(found.deep_view()),
    {
        match found {
            None => Some(None),
            Some(Json::Null) => Some(None),
            Some(json) => match ContentVersion::decode(json) {
                Some(value) => Some(Some(value)),
                None => None,
            },
        }
    }

    /// Writes a record that may be missing.
    pub fn write(value: &Option<ContentVersion>) -> (r: Json)
        ensures
            r@ == ContentVersion::document(value.deep_view()),
    {
        match value {
            Some(v) => v.encode(),
            None => Json::Null,
        }
    }

    /// What is written for a record is read as that record: every field that
    /// was there comes back as it was, and every absent one stays absent.
    pub proof fn lemma_round_trip(value: ContentVersionView)
        ensures
            ContentVersion::decoded(ContentVersion::encoded(value)) == Some(value),
    {
        reveal_strlit("mz_indexer");
        reveal_strlit("rtci");
        assert("mz_indexer"@.len() == 10);
        assert("rtci"@.len() == 4);
        lemma_leaves_round_trip(None, None, value.mz_indexer, None, None);
        lemma_leaves_round_trip(None, None, value.rtci, None, None);
        let members = ContentVersion::encoded(value)->Object_0;
        lemma_lookup(members, 0);
        lemma_lookup(members, 1);
    }

    /// What is written for a record that may be missing is read as it was.
    pub proof fn lemma_optional_round_trip(value: Option<ContentVersionView>)
        ensures
            ContentVersion::decoded_optional(Some(ContentVersion::document(value))) == Some(value),
    {
        if let Some(v) = value {
            ContentVersion::lemma_round_trip(v);
        }
    }
}

/// What the catalog says of an entry itself.
///
/// Each field may be absent.
#[derive(Debug, PartialEq, Eq)]
pub struct Meta {
    pub content_version: Option<ContentVersion>,
}

/// The mathematical value of [`Meta`].
pub struct MetaView {
    pub content_version: Option<ContentVersionView>,
}

impl DeepView for Meta {
    type V = MetaView;

    open spec fn deep_view(&self) -> MetaView {
        MetaView {
            content_version: self.content_version.deep_view(),
        }
    }
}

impl Meta {
    /// What is read from `json`: each field from the member of its name, or,
    /// in a list of exactly 1 item, from the item at its place. A field
    /// for which nothing, or `null`, stands is absent; one that cannot be read
    /// has the whole record refused.
    pub open spec fn decoded(json: JsonView) -> Option<MetaView> {
        let content_version = ContentVersion::decoded_optional(json.field("content_version"@, 0));
        if json.is_record(1) && content_version is Some {
            Some(
                MetaView {
                    content_version: content_version.unwrap(),
                },
            )
        } else {
            None
        }
    }

    /// The document for `value`: an object with one member for each field,
    /// in the fields' order, `null` standing for an absent one.
    pub open spec fn encoded(value: MetaView) -> JsonView {
        JsonView::Object(
            seq![
                ("content_version"@, ContentVersion::document(value.content_version)),
            ],
        )
    }

    /// A record that may be missing.
    pub open spec fn decoded_optional(found: Option<JsonView>) -> Option<Option<MetaView>> {
        optional(found, Meta::decoded(found.unwrap()))
    }

    /// The document for a record that may be missing.
    pub open spec fn document(value: Option<MetaView>) -> JsonView {
        match value {
            Some(v) => Meta::encoded(v),
            None => JsonView::Null,
        }
    }

    /// Reads a record from `json`, or refuses it.
    pub fn decode(json: &Json) -> (r: Option<Meta>)
        ensures
            r.deep_view() == Meta::decoded(json@),
    {
        if !is_record(json, 1) {
            return None;
        }
        let content_version = ContentVersion::read(field(json, "content_version", 0))?;
        Some(Meta { content_version })
    }

    /// Writes the record as a document.
    pub fn encode(&self) -> (r: Json)
        ensures
            r@ == Meta::encoded(self.deep_view()),
    {
        let mut members: Vec<(String, Json)> = Vec::new();
        members.push(("content_version".to_owned(), ContentVersion::write(&self.content_version)));
        proof {
            lemma_object_value(members);
            assert(members_value(members@) =~= Meta::encoded(self.deep_view())->Object_0);
        }
        Json::Object(members)
    }

    /// Reads a record that may be missing.
    pub fn read(found: Option<&Json>) -> (r: Option<Option<Meta>>)
        ensures
            r.deep_view() == Meta::decoded_optional(found.deep_view()),
    {
        match found {
            None => Some(None),
            Some(Json::Null) => Some(None),
            Some(json) => match Meta::decode(json) {
                Some(value) => Some(Some(value)),
                None => None,
            },
        }
    }

    /// Writes a record that may be missing.
    pub fn write(value: &Option<Meta>) -> (r: Json)
        ensures
            r@ == Meta::document(value.deep_view()),
    {
        match value {
            Some(v) => v.encode(),
            None => Json::Null,
        }
    }

    /// What is written for a record is read as that record: every field that
    /// was there comes back as it was, and every absent one stays absent.
    pub proof fn lemma_round_trip(value: MetaView)
        ensures
            Meta::decoded(Meta::encoded(value)) == Some(value),
    {
        reveal_strlit("content_version");
        assert("content_version"@.len() == 15);
        ContentVersion::lemma_optional_round_trip(value.content_version);
        let members = Meta::encoded(value)->Object_0;
        lemma_lookup(members, 0);
    }

    /// What is written for a record that may be missing is read as it was.
    pub proof fn lemma_optional_round_trip(value: Option<MetaView>)
        ensures
            Meta::decoded_optional(Some(Meta::document(value))) == Some(value),
    {
        if let Some(v) = value {
            Meta::lemma_round_trip(v);
        }
    }
}

/// A preview of a song.
///
/// Each field may be absent.
#[derive(Debug, PartialEq, Eq)]
pub struct Preview {
    pub url: Option<String>,
}

/// The mathematical value of [`Preview`].
pub struct PreviewView {
    pub url: Option<Seq<char>>,
}

impl DeepView for Preview {
    type V = PreviewView;

    open spec fn deep_view(&self) -> PreviewView {
        PreviewView {
            url: self.url.deep_view(),
        }
    }
}

impl Preview {
    /// What is read from `json`: each field from the member of its name, or,
    /// in a list of exactly 1 item, from the item at its place. A field
    /// for which nothing, or `null`, stands is absent; one that cannot be read
    /// has the whole record refused.
    pub open spec fn decoded(json: JsonView) -> Option<PreviewView> {
        let url = optional_text(json.field("url"@, 0));
        if json.is_record(1) && url is Some {
            Some(
                PreviewView {
                    url: url.unwrap(),
                },
            )
        } else {
            None
        }
    }

    /// The document for `value`: an object with one member for each field,
    /// in the fields' order, `null` standing for an absent one.
    pub open spec fn encoded(value: PreviewView) -> JsonView {
        JsonView::Object(
            seq![
                ("url"@, text_document(value.url)),
            ],
        )
    }

    /// A list of records, read from a JSON list each of whose items is read
    /// as a record. One item that is refused has the whole list refused.
    pub open spec fn decoded_list(json: JsonView) -> Option<Seq<PreviewView>> {
        match json {
            JsonView::Array(items) => if forall|i: int|
                0 <= i < items.len() ==> (#[trigger] Preview::decoded(items[i])) is Some {
                Some(Seq::new(items.len(), |i: int| Preview::decoded(items[i]).unwrap()))
            } else {
                None
            },
            _ => None,
        }
    }

    /// A list of records that may be missing.
    pub open spec fn decoded_optional_list(found: Option<JsonView>) -> Option<Option<Seq<PreviewView>>> {
        optional(found, Preview::decoded_list(found.unwrap()))
    }

    /// The document for a list of records that may be missing.
    pub open spec fn list_document(value: Option<Seq<PreviewView>>) -> JsonView {
        match value {
            Some(list) => JsonView::Array(Seq::new(list.len(), |i: int| Preview::encoded(list[i]))),
            None => JsonView::Null,
        }
    }

    /// Reads a record from `json`, or refuses it.
    pub fn decode(json: &Json) -> (r: Option<Preview>)
        ensures
            r.deep_view() == Preview::decoded(json@),
    {
        if !is_record(json, 1) {
            return None;
        }
        let url = read_text(field(json, "url", 0))?;
        Some(Preview { url })
    }

    /// Writes the record as a document.
    pub fn encode(&self) -> (r: Json)
        ensures
            r@ == Preview::encoded(self.deep_view()),
    {
        let mut members: Vec<(String, Json)> = Vec::new();
        members.push(("url".to_owned(), write_text(&self.url)));
        proof {
            lemma_object_value(members);
            assert(members_value(members@) =~= Preview::encoded(self.deep_view())->Object_0);
        }
        Json::Object(members)
    }

    /// Reads a list of records.
    pub fn decode_list(json: &Json) -> (r: Option<Vec<Preview>>)
        ensures
            r.deep_view() == Preview::decoded_list(json@),
    {
        match json {
            Json::Array(items) => {
                proof {
                    lemma_array_value(*items);
                }
                let ghost values = items_value(items@);
                let mut list: Vec<Preview> = Vec::new();
                let mut i: usize = 0;
                while i < items.len()
                    invariant
                        i <= items.len(),
                        json@ == JsonView::Array(values),
                        values.len() == items.len(),
                        forall|k: int| 0 <= k < items.len() ==> values[k] == (#[trigger] items@[k])@,
                        list@.len() == i,
                        forall|k: int|
                            #![trigger list@[k]]
                            #![trigger Preview::decoded(values[k])]
                            0 <= k < i ==> Preview::decoded(values[k]) == Some(list@[k].deep_view()),
                    decreases items.len() - i,
                {
                    match Preview::decode(&items[i]) {
                        Some(value) => {
                            list.push(value);
                        },
                        None => {
                            assert(Preview::decoded(values[i as int]) is None);
                            return None;
                        },
                    }
                    i += 1;
                }
                assert(list.deep_view() =~= Seq::new(
                    values.len(),
                    |i: int| Preview::decoded(values[i]).unwrap(),
                ));
                Some(list)
            },
            _ => None,
        }
    }

    /// Reads a list of records that may be missing.
    pub fn read_list(found: Option<&Json>) -> (r: Option<Option<Vec<Preview>>>)
        ensures
            r.deep_view() == Preview::decoded_optional_list(found.deep_view()),
    {
        match found {
            None => Some(None),
            Some(Json::Null) => Some(None),
            Some(json) => match Preview::decode_list(json) {
                Some(list) => Some(Some(list)),
                None => None,
            },
        }
    }

    /// Writes a list of records that may be missing.
    pub fn write_list(value: &Option<Vec<Preview>>) -> (r: Json)
        ensures
            r@ == Preview::list_document(value.deep_view()),
    {
        match value {
            Some(list) => {
                let mut items: Vec<Json> = Vec::new();
                let mut i: usize = 0;
                while i < list.len()
                    invariant
                        i <= list.len(),
                        items@.len() == i,
                        forall|k: int|
                            0 <= k < i ==> (#[trigger] items@[k])@ == Preview::encoded(
                                list@[k].deep_view(),
                            ),
                    decreases list.len() - i,
                {
                    items.push(list[i].encode());
                    i += 1;
                }
                proof {
                    lemma_array_value(items);
                    assert(items_value(items@) =~= Seq::new(
                        list.deep_view().len(),
                        |i: int| Preview::encoded(list.deep_view()[i]),
                    ));
                }
                Json::Array(items)
            },
            None => Json::Null,
        }
    }

    /// What is written for a record is read as that record: every field that
    /// was there comes back as it was, and every absent one stays absent.
    pub proof fn lemma_round_trip(value: PreviewView)
        ensures
            Preview::decoded(Preview::encoded(value)) == Some(value),
    {
        reveal_strlit("url");
        assert("url"@.len() == 3);
        lemma_leaves_round_trip(value.url, None, None, None, None);
        let members = Preview::encoded(value)->Object_0;
        lemma_lookup(members, 0);
    }

    /// What is written for a list of records that may be missing is read as
    /// it was.
    pub proof fn lemma_list_round_trip(value: Option<Seq<PreviewView>>)
        ensures
            Preview::decoded_optional_list(Some(Preview::list_document(value))) == Some(value),
    {
        if let Some(list) = value {
            let items = Seq::new(list.len(), |i: int| Preview::encoded(list[i]));
            assert forall|i: int| 0 <= i < items.len() implies (#[trigger] Preview::decoded(
                items[i],
            )) == Some(list[i]) by {
                Preview::lemma_round_trip(list[i]);
            }
            assert(Seq::new(items.len(), |i: int| Preview::decoded(items[i]).unwrap()) =~= list);
        }
    }
}

/// What a player needs to play a song.
///
/// Each field may be absent.
#[derive(Debug, PartialEq, Eq)]
pub struct PlayParams {
    pub id: Option<String>,
    pub kind: Option<String>,
}

/// The mathematical value of [`PlayParams`].
pub struct PlayParamsView {
    pub id: Option<Seq<char>>,
    pub kind: Option<Seq<char>>,
}

impl DeepView for PlayParams {
    type V = PlayParamsView;

    open spec fn deep_view(&self) -> PlayParamsView {
        PlayParamsView {
            id: self.id.deep_view(),
            kind: self.kind.deep_view(),
        }
    }
}

impl PlayParams {
    /// What is read from `json`: each field from the member of its name, or,
    /// in a list of exactly 2 items, from the item at its place. A field
    /// for which nothing, or `null`, stands is absent; one that cannot be read
    /// has the whole record refused.
    pub open spec fn decoded(json: JsonView) -> Option<PlayParamsView> {
        let id = optional_text(json.field("id"@, 0));
        let kind = optional_text(json.field("kind"@, 1));
        if json.is_record(2) && id is Some && kind is Some {
            Some(
                PlayParamsView {
                    id: id.unwrap(),
                    kind: kind.unwrap(),
                },
            )
        } else {
            None
        }
    }

    /// The document for `value`: an object with one member for each field,
    /// in the fields' order, `null` standing for an absent one.
    pub open spec fn encoded(value: PlayParamsView) -> JsonView {
        JsonView::Object(
            seq![
                ("id"@, text_document(value.id)),
                ("kind"@, text_document(value.kind)),
            ],
        )
    }

    /// A record that may be missing.
    pub open spec fn decoded_optional(found: Option<JsonView>) -> Option<Option<PlayParamsView>> {
        optional(found, PlayParams::decoded(found.unwrap()))
    }

    /// The document for a record that may be missing.
    pub open spec fn document(value: Option<PlayParamsView>) -> JsonView {
        match value {
            Some(v) => PlayParams::encoded(v),
            None => JsonView::Null,
        }
    }

    /// Reads a record from `json`, or refuses it.
    pub fn decode(json: &Json) -> (r: Option<PlayParams>)
        ensures
            r.deep_view() == PlayParams::decoded(json@),
    {
        if !is_record(json, 2) {
            return None;
        }
        let id = read_text(field(json, "id", 0))?;
        let kind = read_text(field(json, "kind", 1))?;
        Some(PlayParams { id, kind })
    }

    /// Writes the record as a document.
    pub fn encode(&self) -> (r: Json)
        ensures
            r@ == PlayParams::encoded(self.deep_view()),
    {
        let mut members: Vec<(String, Json)> = Vec::new();
        members.push(("id".to_owned(), write_text(&self.id)));
        members.push(("kind".to_owned(), write_text(&self.kind)));
        proof {
            lemma_object_value(members);
            assert(members_value(members@) =~= PlayParams::encoded(self.deep_view())->Object_0);
        }
        Json::Object(members)
    }

    /// Reads a record that may be missing.
    pub fn read(found: Option<&Json>) -> (r: Option<Option<PlayParams>>)
        ensures
            r.deep_view() == PlayParams::decoded_optional(found.deep_view()),
    {
        match found {
            None => Some(None),
            Some(Json::Null) => Some(None),
            Some(json) => match PlayParams::decode(json) {
                Some(value) => Some(Some(value)),
                None => None,
            },
        }
    }

    /// Writes a record that may be missing.
    pub fn write(value: &Option<PlayParams>) -> (r: Json)
        ensures
            r@ == PlayParams::document(value.deep_view()),
    {
        match value {
            Some(v) => v.encode(),
            None => Json::Null,
        }
    }

    /// What is written for a record is read as that record: every field that
    /// was there comes back as it was, and every absent one stays absent.
    pub proof fn lemma_round_trip(value: PlayParamsView)
        ensures
            PlayParams::decoded(PlayParams::encoded(value)) == Some(value),
    {
        reveal_strlit("id");
        reveal_strlit("kind");
        assert("id"@.len() == 2);
        assert("kind"@.len() == 4);
        lemma_leaves_round_trip(value.id, None, None, None, None);
        lemma_leaves_round_trip(value.kind, None, None, None, None);
        let members = PlayParams::encoded(value)->Object_0;
        lemma_lookup(members, 0);
        lemma_lookup(members, 1);
    }

    /// What is written for a record that may be missing is read as it was.
    pub proof fn lemma_optional_round_trip(value: Option<PlayParamsView>)
        ensures
            PlayParams::decoded_optional(Some(PlayParams::document(value))) == Some(value),
    {
        if let Some(v) = value {
            PlayParams::lemma_round_trip(v);
        }
    }
}

/// The artwork of a song.
///
/// Each field may be absent.
#[derive(Debug, PartialEq, Eq)]
pub struct Artwork {
    pub width: Option<i32>,
    pub url: Option<String>,
    pub height: Option<i32>,
    pub text_color3: Option<String>,
    pub text_color2: Option<String>,
    pub text_color4: Option<String>,
    pub text_color1: Option<String>,
    pub bg_color: Option<String>,
    pub has_p3: Option<bool>,
}

/// The mathematical value of [`Artwork`].
pub struct ArtworkView {
    pub width: Option<i32>,
    pub url: Option<Seq<char>>,
    pub height: Option<i32>,
    pub text_color3: Option<Seq<char>>,
    pub text_color2: Option<Seq<char>>,
    pub text_color4: Option<Seq<char>>,
    pub text_color1: Option<Seq<char>>,
    pub bg_color: Option<Seq<char>>,
    pub has_p3: Option<bool>,
}

impl DeepView for Artwork {
    type V = ArtworkView;

    open spec fn deep_view(&self) -> ArtworkView {
        ArtworkView {
            width: self.width.deep_view(),
            url: self.url.deep_view(),
            height: self.height.deep_view(),
            text_color3: self.text_color3.deep_view(),
            text_color2: self.text_color2.deep_view(),
            text_color4: self.text_color4.deep_view(),
            text_color1: self.text_color1.deep_view(),
            bg_color: self.bg_color.deep_view(),
            has_p3: self.has_p3.deep_view(),
        }
    }
}

impl Artwork {
    /// What is read from `json`: each field from the member of its name, or,
    /// in a list of exactly 9 items, from the item at its place. A field
    /// for which nothing, or `null`, stands is absent; one that cannot be read
    /// has the whole record refused.
    pub open spec fn decoded(json: JsonView) -> Option<ArtworkView> {
        let width = optional_int32(json.field("width"@, 0));
        let url = optional_text(json.field("url"@, 1));
        let height = optional_int32(json.field("height"@, 2));
        let text_color3 = optional_text(json.field("text_color3"@, 3));
        let text_color2 = optional_text(json.field("text_color2"@, 4));
        let text_color4 = optional_text(json.field("text_color4"@, 5));
        let text_color1 = optional_text(json.field("text_color1"@, 6));
        let bg_color = optional_text(json.field("bg_color"@, 7));
        let has_p3 = optional_boolean(json.field("has_p3"@, 8));
        if json.is_record(9) && width is Some && url is Some && height is Some && text_color3 is Some && text_color2 is Some && text_color4 is Some && text_color1 is Some && bg_color is Some && has_p3 is Some {
            Some(
                ArtworkView {
                    width: width.unwrap(),
                    url: url.unwrap(),
                    height: height.unwrap(),
                    text_color3: text_color3.unwrap(),
                    text_color2: text_color2.unwrap(),
                    text_color4: text_color4.unwrap(),
                    text_color1: text_color1.unwrap(),
                    bg_color: bg_color.unwrap(),
                    has_p3: has_p3.unwrap(),
                },
            )
        } else {
            None
        }
    }

    /// The document for `value`: an object with one member for each field,
    /// in the fields' order, `null` standing for an absent one.
    pub open spec fn encoded(value: ArtworkView) -> JsonView {
        JsonView::Object(
            seq![
                ("width"@, int32_document(value.width)),
                ("url"@, text_document(value.url)),
                ("height"@, int32_document(value.height)),
                ("text_color3"@, text_document(value.text_color3)),
                ("text_color2"@, text_document(value.text_color2)),
                ("text_color4"@, text_document(value.text_color4)),
                ("text_color1"@, text_document(value.text_color1)),
                ("bg_color"@, text_document(value.bg_color)),
                ("has_p3"@, boolean_document(value.has_p3)),
            ],
        )
    }

    /// A record that may be missing.
    pub open spec fn decoded_optional(found: Option<JsonView>) -> Option<Option<ArtworkView>> {
        optional(found, Artwork::decoded(found.unwrap()))
    }

    /// The document for a record that may be missing.
    pub open spec fn document(value: Option<ArtworkView>) -> JsonView {
        match value {
            Some(v) => Artwork::encoded(v),
            None => JsonView::Null,
        }
    }

    /// Reads a record from `json`, or refuses it.
    pub fn decode(json: &Json) -> (r: Option<Artwork>)
        ensures
            r.deep_view() == Artwork::decoded(json@),
    {
        if !is_record(json, 9) {
            return None;
        }
        let width = read_i32(field(json, "width", 0))?;
        let url = read_text(field(json, "url", 1))?;
        let height = read_i32(field(json, "height", 2))?;
        let text_color3 = read_text(field(json, "text_color3", 3))?;
        let text_color2 = read_text(field(json, "text_color2", 4))?;
        let text_color4 = read_text(field(json, "text_color4", 5))?;
        let text_color1 = read_text(field(json, "text_color1", 6))?;
        let bg_color = read_text(field(json, "bg_color", 7))?;
        let has_p3 = read_bool(field(json, "has_p3", 8))?;
        Some(Artwork { width, url, height, text_color3, text_color2, text_color4, text_color1, bg_color, has_p3 })
    }

    /// Writes the record as a document.
    pub fn encode(&self) -> (r: Json)
        ensures
            r@ == Artwork::encoded(self.deep_view()),
    {
        let mut members: Vec<(String, Json)> = Vec::new();
        members.push(("width".to_owned(), write_i32(&self.width)));
        members.push(("url".to_owned(), write_text(&self.url)));
        members.push(("height".to_owned(), write_i32(&self.height)));
        members.push(("text_color3".to_owned(), write_text(&self.text_color3)));
        members.push(("text_color2".to_owned(), write_text(&self.text_color2)));
        members.push(("text_color4".to_owned(), write_text(&self.text_color4)));
        members.push(("text_color1".to_owned(), write_text(&self.text_color1)));
        members.push(("bg_color".to_owned(), write_text(&self.bg_color)));
        members.push(("has_p3".to_owned(), write_bool(&self.has_p3)));
        proof {
            lemma_object_value(members);
            assert(members_value(members@) =~= Artwork::encoded(self.deep_view())->Object_0);
        }
        Json::Object(members)
    }

    /// Reads a record that may be missing.
    pub fn read(found: Option<&Json>) -> (r: Option<Option<Artwork>>)
        ensures
            r.deep_view() == Artwork::decoded_optional(found.deep_view()),
    {
        match found {
            None => Some(None),
            Some(Json::Null) => Some(None),
            Some(json) => match Artwork::decode(json) {
                Some(value) => Some(Some(value)),
                None => None,
            },
        }
    }

    /// Writes a record that may be missing.
    pub fn write(value: &Option<Artwork>) -> (r: Json)
        ensures
            r@ == Artwork::document(value.deep_view()),
    {
        match value {
            Some(v) => v.encode(),
            None => Json::Null,
        }
    }

    /// What is written for a record is read as that record: every field that
    /// was there comes back as it was, and every absent one stays absent.
    pub proof fn lemma_round_trip(value: ArtworkView)
        ensures
            Artwork::decoded(Artwork::encoded(value)) == Some(value),
    {
        reveal_strlit("width");
        reveal_strlit("url");
        reveal_strlit("height");
        reveal_strlit("text_color3");
        reveal_strlit("text_color2");
        reveal_strlit("text_color4");
        reveal_strlit("text_color1");
        reveal_strlit("bg_color");
        reveal_strlit("has_p3");
        assert("width"@.len() == 5);
        assert("url"@.len() == 3);
        assert("height"@.len() == 6 && "height"@[1] == 'e');
        assert("text_color3"@.len() == 11 && "text_color3"@[10] == '3');
        assert("text_color2"@.len() == 11 && "text_color2"@[10] == '2');
        assert("text_color4"@.len() == 11 && "text_color4"@[10] == '4');
        assert("text_color1"@.len() == 11 && "text_color1"@[10] == '1');
        assert("bg_color"@.len() == 8);
        assert("has_p3"@.len() == 6 && "has_p3"@[1] == 'a');
        lemma_leaves_round_trip(None, None, value.width, None, None);
        lemma_leaves_round_trip(value.url, None, None, None, None);
        lemma_leaves_round_trip(None, None, value.height, None, None);
        lemma_leaves_round_trip(value.text_color3, None, None, None, None);
        lemma_leaves_round_trip(value.text_color2, None, None, None, None);
        lemma_leaves_round_trip(value.text_color4, None, None, None, None);
        lemma_leaves_round_trip(value.text_color1, None, None, None, None);
        lemma_leaves_round_trip(value.bg_color, None, None, None, None);
        lemma_leaves_round_trip(None, value.has_p3, None, None, None);
        let members = Artwork::encoded(value)->Object_0;
        lemma_lookup(members, 0);
        lemma_lookup(members, 1);
        lemma_lookup(members, 2);
        lemma_lookup(members, 3);
        lemma_lookup(members, 4);
        lemma_lookup(members, 5);
        lemma_lookup(members, 6);
        lemma_lookup(members, 7);
        lemma_lookup(members, 8);
    }

    /// What is written for a record that may be missing is read as it was.
    pub proof fn lemma_optional_round_trip(value: Option<ArtworkView>)
        ensures
            Artwork::decoded_optional(Some(Artwork::document(value))) == Some(value),
    {
        if let Some(v) = value {
            Artwork::lemma_round_trip(v);
        }
    }
}

/// What the catalog knows of a song.
///
/// Each field may be absent.
#[derive(Debug, PartialEq, Eq)]
pub struct Attributes {
    pub album_name: Option<String>,
    pub has_time_synced_lyrics: Option<bool>,
    pub genre_names: Option<Vec<String>>,
    pub track_number: Option<i32>,
    pub duration_in_millis: Option<i64>,
    pub is_vocal_attenuation_allowed: Option<bool>,
    pub is_mastered_for_itunes: Option<bool>,
    pub isrc: Option<String>,
    pub artwork: Option<Artwork>,
    pub composer_name: Option<String>,
    pub audio_locale: Option<String>,
    pub url: Option<String>,
    pub play_params: Option<PlayParams>,
    pub disc_number: Option<i32>,
    pub has_lyrics: Option<bool>,
    pub is_apple_digital_master: Option<bool>,
    pub audio_traits: Option<Vec<String>>,
    pub name: Option<String>,
    pub previews: Option<Vec<Preview>>,
    pub artist_name: Option<String>,
}

/// The mathematical value of [`Attributes`].
pub struct AttributesView {
    pub album_name: Option<Seq<char>>,
    pub has_time_synced_lyrics: Option<bool>,
    pub genre_names: Option<Seq<Seq<char>>>,
    pub track_number: Option<i32>,
    pub duration_in_millis: Option<i64>,
    pub is_vocal_attenuation_allowed: Option<bool>,
    pub is_mastered_for_itunes: Option<bool>,
    pub isrc: Option<Seq<char>>,
    pub artwork: Option<ArtworkView>,
    pub composer_name: Option<Seq<char>>,
    pub audio_locale: Option<Seq<char>>,
    pub url: Option<Seq<char>>,
    pub play_params: Option<PlayParamsView>,
    pub disc_number: Option<i32>,
    pub has_lyrics: Option<bool>,
    pub is_apple_digital_master: Option<bool>,
    pub audio_traits: Option<Seq<Seq<char>>>,
    pub name: Option<Seq<char>>,
    pub previews: Option<Seq<PreviewView>>,
    pub artist_name: Option<Seq<char>>,
}

impl DeepView for Attributes {
    type V = AttributesView;

    open spec fn deep_view(&self) -> AttributesView {
        AttributesView {
            album_name: self.album_name.deep_view(),
            has_time_synced_lyrics: self.has_time_synced_lyrics.deep_view(),
            genre_names: self.genre_names.deep_view(),
            track_number: self.track_number.deep_view(),
            duration_in_millis: self.duration_in_millis.deep_view(),
            is_vocal_attenuation_allowed: self.is_vocal_attenuation_allowed.deep_view(),
            is_mastered_for_itunes: self.is_mastered_for_itunes.deep_view(),
            isrc: self.isrc.deep_view(),
            artwork: self.artwork.deep_view(),
            composer_name: self.composer_name.deep_view(),
            audio_locale: self.audio_locale.deep_view(),
            url: self.url.deep_view(),
            play_params: self.play_params.deep_view(),
            disc_number: self.disc_number.deep_view(),
            has_lyrics: self.has_lyrics.deep_view(),
            is_apple_digital_master: self.is_apple_digital_master.deep_view(),
            audio_traits: self.audio_traits.deep_view(),
            name: self.name.deep_view(),
            previews: self.previews.deep_view(),
            artist_name: self.artist_name.deep_view(),
        }
    }
}

impl Attributes {
    /// What is read from `json`: each field from the member of its name, or,
    /// in a list of exactly 20 items, from the item at its place. A field
    /// for which nothing, or `null`, stands is absent; one that cannot be read
    /// has the whole record refused.
    pub open spec fn decoded(json: JsonView) -> Option<AttributesView> {
        let album_name = optional_text(json.field("album_name"@, 0));
        let has_time_synced_lyrics = optional_boolean(json.field("has_time_synced_lyrics"@, 1));
        let genre_names = optional_texts(json.field("genre_names"@, 2));
        let track_number = optional_int32(json.field("track_number"@, 3));
        let duration_in_millis = optional_int64(json.field("duration_in_millis"@, 4));
        let is_vocal_attenuation_allowed = optional_boolean(json.field("is_vocal_attenuation_allowed"@, 5));
        let is_mastered_for_itunes = optional_boolean(json.field("is_mastered_for_itunes"@, 6));
        let isrc = optional_text(json.field("isrc"@, 7));
        let artwork = Artwork::decoded_optional(json.field("artwork"@, 8));
        let composer_name = optional_text(json.field("composer_name"@, 9));
        let audio_locale = optional_text(json.field("audio_locale"@, 10));
        let url = optional_text(json.field("url"@, 11));
        let play_params = PlayParams::decoded_optional(json.field("play_params"@, 12));
        let disc_number = optional_int32(json.field("disc_number"@, 13));
        let has_lyrics = optional_boolean(json.field("has_lyrics"@, 14));
        let is_apple_digital_master = optional_boolean(json.field("is_apple_digital_master"@, 15));
        let audio_traits = optional_texts(json.field("audio_traits"@, 16));
        let name = optional_text(json.field("name"@, 17));
        let previews = Preview::decoded_optional_list(json.field("previews"@, 18));
        let artist_name = optional_text(json.field("artist_name"@, 19));
        if json.is_record(20) && album_name is Some && has_time_synced_lyrics is Some && genre_names is Some && track_number is Some && duration_in_millis is Some && is_vocal_attenuation_allowed is Some && is_mastered_for_itunes is Some && isrc is Some && artwork is Some && composer_name is Some && audio_locale is Some && url is Some && play_params is Some && disc_number is Some && has_lyrics is Some && is_apple_digital_master is Some && audio_traits is Some && name is Some && previews is Some && artist_name is Some {
            Some(
                AttributesView {
                    album_name: album_name.unwrap(),
                    has_time_synced_lyrics: has_time_synced_lyrics.unwrap(),
                    genre_names: genre_names.unwrap(),
                    track_number: track_number.unwrap(),
                    duration_in_millis: duration_in_millis.unwrap(),
                    is_vocal_attenuation_allowed: is_vocal_attenuation_allowed.unwrap(),
                    is_mastered_for_itunes: is_mastered_for_itunes.unwrap(),
                    isrc: isrc.unwrap(),
                    artwork: artwork.unwrap(),
                    composer_name: composer_name.unwrap(),
                    audio_locale: audio_locale.unwrap(),
                    url: url.unwrap(),
                    play_params: play_params.unwrap(),
                    disc_number: disc_number.unwrap(),
                    has_lyrics: has_lyrics.unwrap(),
                    is_apple_digital_master: is_apple_digital_master.unwrap(),
                    audio_traits: audio_traits.unwrap(),
                    name: name.unwrap(),
                    previews: previews.unwrap(),
                    artist_name: artist_name.unwrap(),
                },
            )
        } else {
            None
        }
    }

    /// The document for `value`: an object with one member for each field,
    /// in the fields' order, `null` standing for an absent one.
    pub open spec fn encoded(value: AttributesView) -> JsonView {
        JsonView::Object(
            seq![
                ("album_name"@, text_document(value.album_name)),
                ("has_time_synced_lyrics"@, boolean_document(value.has_time_synced_lyrics)),
                ("genre_names"@, texts_document(value.genre_names)),
                ("track_number"@, int32_document(value.track_number)),
                ("duration_in_millis"@, int64_document(value.duration_in_millis)),
                ("is_vocal_attenuation_allowed"@, boolean_document(value.is_vocal_attenuation_allowed)),
                ("is_mastered_for_itunes"@, boolean_document(value.is_mastered_for_itunes)),
                ("isrc"@, text_document(value.isrc)),
                ("artwork"@, Artwork::document(value.artwork)),
                ("composer_name"@, text_document(value.composer_name)),
                ("audio_locale"@, text_document(value.audio_locale)),
                ("url"@, text_document(value.url)),
                ("play_params"@, PlayParams::document(value.play_params)),
                ("disc_number"@, int32_document(value.disc_number)),
                ("has_lyrics"@, boolean_document(value.has_lyrics)),
                ("is_apple_digital_master"@, boolean_document(value.is_apple_digital_master)),
                ("audio_traits"@, texts_document(value.audio_traits)),
                ("name"@, text_document(value.name)),
                ("previews"@, Preview::list_document(value.previews)),
                ("artist_name"@, text_document(value.artist_name)),
            ],
        )
    }

    /// A record that may be missing.
    pub open spec fn decoded_optional(found: Option<JsonView>) -> Option<Option<AttributesView>> {
        optional(found, Attributes::decoded(found.unwrap()))
    }

    /// The document for a record that may be missing.
    pub open spec fn document(value: Option<AttributesView>) -> JsonView {
        match value {
            Some(v) => Attributes::encoded(v),
            None => JsonView::Null,
        }
    }

    /// Reads a record from `json`, or refuses it.
    pub fn decode(json: &Json) -> (r: Option<Attributes>)
        ensures
            r.deep_view() == Attributes::decoded(json@),
    {
        if !is_record(json, 20) {
            return None;
        }
        let album_name = read_text(field(json, "album_name", 0))?;
        let has_time_synced_lyrics = read_bool(field(json, "has_time_synced_lyrics", 1))?;
        let genre_names = read_texts(field(json, "genre_names", 2))?;
        let track_number = read_i32(field(json, "track_number", 3))?;
        let duration_in_millis = read_i64(field(json, "duration_in_millis", 4))?;
        let is_vocal_attenuation_allowed = read_bool(field(json, "is_vocal_attenuation_allowed", 5))?;
        let is_mastered_for_itunes = read_bool(field(json, "is_mastered_for_itunes", 6))?;
        let isrc = read_text(field(json, "isrc", 7))?;
        let artwork = Artwork::read(field(json, "artwork", 8))?;
        let composer_name = read_text(field(json, "composer_name", 9))?;
        let audio_locale = read_text(field(json, "audio_locale", 10))?;
        let url = read_text(field(json, "url", 11))?;
        let play_params = PlayParams::read(field(json, "play_params", 12))?;
        let disc_number = read_i32(field(json, "disc_number", 13))?;
        let has_lyrics = read_bool(field(json, "has_lyrics", 14))?;
        let is_apple_digital_master = read_bool(field(json, "is_apple_digital_master", 15))?;
        let audio_traits = read_texts(field(json, "audio_traits", 16))?;
        let name = read_text(field(json, "name", 17))?;
        let previews = Preview::read_list(field(json, "previews", 18))?;
        let artist_name = read_text(field(json, "artist_name", 19))?;
        Some(Attributes { album_name, has_time_synced_lyrics, genre_names, track_number, duration_in_millis, is_vocal_attenuation_allowed, is_mastered_for_itunes, isrc, artwork, composer_name, audio_locale, url, play_params, disc_number, has_lyrics, is_apple_digital_master, audio_traits, name, previews, artist_name })
    }

    /// Writes the record as a document.
    pub fn encode(&self) -> (r: Json)
        ensures
            r@ == Attributes::encoded(self.deep_view()),
    {
        let mut members: Vec<(String, Json)> = Vec::new();
        members.push(("album_name".to_owned(), write_text(&self.album_name)));
        members.push(("has_time_synced_lyrics".to_owned(), write_bool(&self.has_time_synced_lyrics)));
        members.push(("genre_names".to_owned(), write_texts(&self.genre_names)));
        members.push(("track_number".to_owned(), write_i32(&self.track_number)));
        members.push(("duration_in_millis".to_owned(), write_i64(&self.duration_in_millis)));
        members.push(("is_vocal_attenuation_allowed".to_owned(), write_bool(&self.is_vocal_attenuation_allowed)));
        members.push(("is_mastered_for_itunes".to_owned(), write_bool(&self.is_mastered_for_itunes)));
        members.push(("isrc".to_owned(), write_text(&self.isrc)));
        members.push(("artwork".to_owned(), Artwork::write(&self.artwork)));
        members.push(("composer_name".to_owned(), write_text(&self.composer_name)));
        members.push(("audio_locale".to_owned(), write_text(&self.audio_locale)));
        members.push(("url".to_owned(), write_text(&self.url)));
        members.push(("play_params".to_owned(), PlayParams::write(&self.play_params)));
        members.push(("disc_number".to_owned(), write_i32(&self.disc_number)));
        members.push(("has_lyrics".to_owned(), write_bool(&self.has_lyrics)));
        members.push(("is_apple_digital_master".to_owned(), write_bool(&self.is_apple_digital_master)));
        members.push(("audio_traits".to_owned(), write_texts(&self.audio_traits)));
        members.push(("name".to_owned(), write_text(&self.name)));
        members.push(("previews".to_owned(), Preview::write_list(&self.previews)));
        members.push(("artist_name".to_owned(), write_text(&self.artist_name)));
        proof {
            lemma_object_value(members);
            assert(members_value(members@) =~= Attributes::encoded(self.deep_view())->Object_0);
        }
        Json::Object(members)
    }

    /// Reads a record that may be missing.
    pub fn read(found: Option<&Json>) -> (r: Option<Option<Attributes>>)
        ensures
            r.deep_view() == Attributes::decoded_optional(found.deep_view()),
    {
        match found {
            None => Some(None),
            Some(Json::Null) => Some(None),
            Some(json) => match Attributes::decode(json) {
                Some(value) => Some(Some(value)),
                None => None,
            },
        }
    }

    /// Writes a record that may be missing.
    pub fn write(value: &Option<Attributes>) -> (r: Json)
        ensures
            r@ == Attributes::document(value.deep_view()),
    {
        match value {
            Some(v) => v.encode(),
            None => Json::Null,
        }
    }

    /// What is written for a record is read as that record: every field that
    /// was there comes back as it was, and every absent one stays absent.
    pub proof fn lemma_round_trip(value: AttributesView)
        ensures
            Attributes::decoded(Attributes::encoded(value)) == Some(value),
    {
        reveal_strlit("album_name");
        reveal_strlit("has_time_synced_lyrics");
        reveal_strlit("genre_names");
        reveal_strlit("track_number");
        reveal_strlit("duration_in_millis");
        reveal_strlit("is_vocal_attenuation_allowed");
        reveal_strlit("is_mastered_for_itunes");
        reveal_strlit("isrc");
        reveal_strlit("artwork");
        reveal_strlit("composer_name");
        reveal_strlit("audio_locale");
        reveal_strlit("url");
        reveal_strlit("play_params");
        reveal_strlit("disc_number");
        reveal_strlit("has_lyrics");
        reveal_strlit("is_apple_digital_master");
        reveal_strlit("audio_traits");
        reveal_strlit("name");
        reveal_strlit("previews");
        reveal_strlit("artist_name");
        assert("album_name"@.len() == 10 && "album_name"@[0] == 'a');
        assert("has_time_synced_lyrics"@.len() == 22 && "has_time_synced_lyrics"@[0] == 'h');
        assert("genre_names"@.len() == 11 && "genre_names"@[0] == 'g');
        assert("track_number"@.len() == 12 && "track_number"@[6] == 'n');
        assert("duration_in_millis"@.len() == 18);
        assert("is_vocal_attenuation_allowed"@.len() == 28);
        assert("is_mastered_for_itunes"@.len() == 22 && "is_mastered_for_itunes"@[0] == 'i');
        assert("isrc"@.len() == 4 && "isrc"@[0] == 'i');
        assert("artwork"@.len() == 7);
        assert("composer_name"@.len() == 13);
        assert("audio_locale"@.len() == 12 && "audio_locale"@[6] == 'l');
        assert("url"@.len() == 3);
        assert("play_params"@.len() == 11 && "play_params"@[0] == 'p');
        assert("disc_number"@.len() == 11 && "disc_number"@[0] == 'd');
        assert("has_lyrics"@.len() == 10 && "has_lyrics"@[0] == 'h');
        assert("is_apple_digital_master"@.len() == 23);
        assert("audio_traits"@.len() == 12 && "audio_traits"@[6] == 't');
        assert("name"@.len() == 4 && "name"@[0] == 'n');
        assert("previews"@.len() == 8);
        assert("artist_name"@.len() == 11 && "artist_name"@[0] == 'a');
        lemma_leaves_round_trip(value.album_name, None, None, None, None);
        lemma_leaves_round_trip(None, value.has_time_synced_lyrics, None, None, None);
        lemma_leaves_round_trip(None, None, None, None, value.genre_names);
        lemma_leaves_round_trip(None, None, value.track_number, None, None);
        lemma_leaves_round_trip(None, None, None, value.duration_in_millis, None);
        lemma_leaves_round_trip(None, value.is_vocal_attenuation_allowed, None, None, None);
        lemma_leaves_round_trip(None, value.is_mastered_for_itunes, None, None, None);
        lemma_leaves_round_trip(value.isrc, None, None, None, None);
        Artwork::lemma_optional_round_trip(value.artwork);
        lemma_leaves_round_trip(value.composer_name, None, None, None, None);
        lemma_leaves_round_trip(value.audio_locale, None, None, None, None);
        lemma_leaves_round_trip(value.url, None, None, None, None);
        PlayParams::lemma_optional_round_trip(value.play_params);
        lemma_leaves_round_trip(None, None, value.disc_number, None, None);
        lemma_leaves_round_trip(None, value.has_lyrics, None, None, None);
        lemma_leaves_round_trip(None, value.is_apple_digital_master, None, None, None);
        lemma_leaves_round_trip(None, None, None, None, value.audio_traits);
        lemma_leaves_round_trip(value.name, None, None, None, None);
        Preview::lemma_list_round_trip(value.previews);
        lemma_leaves_round_trip(value.artist_name, None, None, None, None);
        let members = Attributes::encoded(value)->Object_0;
        lemma_lookup(members, 0);
        lemma_lookup(members, 1);
        lemma_lookup(members, 2);
        lemma_lookup(members, 3);
        lemma_lookup(members, 4);
        lemma_lookup(members, 5);
        lemma_lookup(members, 6);
        lemma_lookup(members, 7);
        lemma_lookup(members, 8);
        lemma_lookup(members, 9);
        lemma_lookup(members, 10);
        lemma_lookup(members, 11);
        lemma_lookup(members, 12);
        lemma_lookup(members, 13);
        lemma_lookup(members, 14);
        lemma_lookup(members, 15);
        lemma_lookup(members, 16);
        lemma_lookup(members, 17);
        lemma_lookup(members, 18);
        lemma_lookup(members, 19);
    }

    /// What is written for a record that may be missing is read as it was.
    pub proof fn lemma_optional_round_trip(value: Option<AttributesView>)
        ensures
            Attributes::decoded_optional(Some(Attributes::document(value))) == Some(value),
    {
        if let Some(v) = value {
            Attributes::lemma_round_trip(v);
        }
    }
}

/// One song of a search result.
///
/// Each field may be absent.
#[derive(Debug, PartialEq, Eq)]
pub struct AppleMusicSongDatum {
    pub id: Option<String>,
    pub type_: Option<String>,
    pub href: Option<String>,
    pub attributes: Option<Attributes>,
    pub relationships: Option<Relationships>,
    pub meta: Option<Meta>,
}

/// The mathematical value of [`AppleMusicSongDatum`].
pub struct AppleMusicSongDatumView {
    pub id: Option<Seq<char>>,
    pub type_: Option<Seq<char>>,
    pub href: Option<Seq<char>>,
    pub attributes: Option<AttributesView>,
    pub relationships: Option<RelationshipsView>,
    pub meta: Option<MetaView>,
}

impl DeepView for AppleMusicSongDatum {
    type V = AppleMusicSongDatumView;

    open spec fn deep_view(&self) -> AppleMusicSongDatumView {
        AppleMusicSongDatumView {
            id: self.id.deep_view(),
            type_: self.type_.deep_view(),
            href: self.href.deep_view(),
            attributes: self.attributes.deep_view(),
            relationships: self.relationships.deep_view(),
            meta: self.meta.deep_view(),
        }
    }
}

impl AppleMusicSongDatum {
    /// What is read from `json`: each field from the member of its name, or,
    /// in a list of exactly 6 items, from the item at its place. A field
    /// for which nothing, or `null`, stands is absent; one that cannot be read
    /// has the whole record refused.
    pub open spec fn decoded(json: JsonView) -> Option<AppleMusicSongDatumView> {
        let id = optional_text(json.field("id"@, 0));
        let type_ = optional_text(json.field("type"@, 1));
        let href = optional_text(json.field("href"@, 2));
        let attributes = Attributes::decoded_optional(json.field("attributes"@, 3));
        let relationships = Relationships::decoded_optional(json.field("relationships"@, 4));
        let meta = Meta::decoded_optional(json.field("meta"@, 5));
        if json.is_record(6) && id is Some && type_ is Some && href is Some && attributes is Some && relationships is Some && meta is Some {
            Some(
                AppleMusicSongDatumView {
                    id: id.unwrap(),
                    type_: type_.unwrap(),
                    href: href.unwrap(),
                    attributes: attributes.unwrap(),
                    relationships: relationships.unwrap(),
                    meta: meta.unwrap(),
                },
            )
        } else {
            None
        }
    }

    /// The document for `value`: an object with one member for each field,
    /// in the fields' order, `null` standing for an absent one.
    pub open spec fn encoded(value: AppleMusicSongDatumView) -> JsonView {
        JsonView::Object(
            seq![
                ("id"@, text_document(value.id)),
                ("type"@, text_document(value.type_)),
                ("href"@, text_document(value.href)),
                ("attributes"@, Attributes::document(value.attributes)),
                ("relationships"@, Relationships::document(value.relationships)),
                ("meta"@, Meta::document(value.meta)),
            ],
        )
    }

    /// A list of records, read from a JSON list each of whose items is read
    /// as a record. One item that is refused has the whole list refused.
    pub open spec fn decoded_list(json: JsonView) -> Option<Seq<AppleMusicSongDatumView>> {
        match json {
            JsonView::Array(items) => if forall|i: int|
                0 <= i < items.len() ==> (#[trigger] AppleMusicSongDatum::decoded(items[i])) is Some {
                Some(Seq::new(items.len(), |i: int| AppleMusicSongDatum::decoded(items[i]).unwrap()))
            } else {
                None
            },
            _ => None,
        }
    }

    /// A list of records that may be missing.
    pub open spec fn decoded_optional_list(found: Option<JsonView>) -> Option<Option<Seq<AppleMusicSongDatumView>>> {
        optional(found, AppleMusicSongDatum::decoded_list(found.unwrap()))
    }

    /// The document for a list of records that may be missing.
    pub open spec fn list_document(value: Option<Seq<AppleMusicSongDatumView>>) -> JsonView {
        match value {
            Some(list) => JsonView::Array(Seq::new(list.len(), |i: int| AppleMusicSongDatum::encoded(list[i]))),
            None => JsonView::Null,
        }
    }

    /// Reads a record from `json`, or refuses it.
    pub fn decode(json: &Json) -> (r: Option<AppleMusicSongDatum>)
        ensures
            r.deep_view() == AppleMusicSongDatum::decoded(json@),
    {
        if !is_record(json, 6) {
            return None;
        }
        let id = read_text(field(json, "id", 0))?;
        let type_ = read_text(field(json, "type", 1))?;
        let href = read_text(field(json, "href", 2))?;
        let attributes = Attributes::read(field(json, "attributes", 3))?;
        let relationships = Relationships::read(field(json, "relationships", 4))?;
        let meta = Meta::read(field(json, "meta", 5))?;
        Some(AppleMusicSongDatum { id, type_, href, attributes, relationships, meta })
    }

    /// Writes the record as a document.
    pub fn encode(&self) -> (r: Json)
        ensures
            r@ == AppleMusicSongDatum::encoded(self.deep_view()),
    {
        let mut members: Vec<(String, Json)> = Vec::new();
        members.push(("id".to_owned(), write_text(&self.id)));
        members.push(("type".to_owned(), write_text(&self.type_)));
        members.push(("href".to_owned(), write_text(&self.href)));
        members.push(("attributes".to_owned(), Attributes::write(&self.attributes)));
        members.push(("relationships".to_owned(), Relationships::write(&self.relationships)));
        members.push(("meta".to_owned(), Meta::write(&self.meta)));
        proof {
            lemma_object_value(members);
            assert(members_value(members@) =~= AppleMusicSongDatum::encoded(self.deep_view())->Object_0);
        }
        Json::Object(members)
    }

    /// Reads a list of records.
    pub fn decode_list(json: &Json) -> (r: Option<Vec<AppleMusicSongDatum>>)
        ensures
            r.deep_view() == AppleMusicSongDatum::decoded_list(json@),
    {
        match json {
            Json::Array(items) => {
                proof {
                    lemma_array_value(*items);
                }
                let ghost values = items_value(items@);
                let mut list: Vec<AppleMusicSongDatum> = Vec::new();
                let mut i: usize = 0;
                while i < items.len()
                    invariant
                        i <= items.len(),
                        json@ == JsonView::Array(values),
                        values.len() == items.len(),
                        forall|k: int| 0 <= k < items.len() ==> values[k] == (#[trigger] items@[k])@,
                        list@.len() == i,
                        forall|k: int|
                            #![trigger list@[k]]
                            #![trigger AppleMusicSongDatum::decoded(values[k])]
                            0 <= k < i ==> AppleMusicSongDatum::decoded(values[k]) == Some(list@[k].deep_view()),
                    decreases items.len() - i,
                {
                    match AppleMusicSongDatum::decode(&items[i]) {
                        Some(value) => {
                            list.push(value);
                        },
                        None => {
                            assert(AppleMusicSongDatum::decoded(values[i as int]) is None);
                            return None;
                        },
                    }
                    i += 1;
                }
                assert(list.deep_view() =~= Seq::new(
                    values.len(),
                    |i: int| AppleMusicSongDatum::decoded(values[i]).unwrap(),
                ));
                Some(list)
            },
            _ => None,
        }
    }

    /// Reads a list of records that may be missing.
    pub fn read_list(found: Option<&Json>) -> (r: Option<Option<Vec<AppleMusicSongDatum>>>)
        ensures
            r.deep_view() == AppleMusicSongDatum::decoded_optional_list(found.deep_view()),
    {
        match found {
            None => Some(None),
            Some(Json::Null) => Some(None),
            Some(json) => match AppleMusicSongDatum::decode_list(json) {
                Some(list) => Some(Some(list)),
                None => None,
            },
        }
    }

    /// Writes a list of records that may be missing.
    pub fn write_list(value: &Option<Vec<AppleMusicSongDatum>>) -> (r: Json)
        ensures
            r@ == AppleMusicSongDatum::list_document(value.deep_view()),
    {
        match value {
            Some(list) => {
                let mut items: Vec<Json> = Vec::new();
                let mut i: usize = 0;
                while i < list.len()
                    invariant
                        i <= list.len(),
                        items@.len() == i,
                        forall|k: int|
                            0 <= k < i ==> (#[trigger] items@[k])@ == AppleMusicSongDatum::encoded(
                                list@[k].deep_view(),
                            ),
                    decreases list.len() - i,
                {
                    items.push(list[i].encode());
                    i += 1;
                }
                proof {
                    lemma_array_value(items);
                    assert(items_value(items@) =~= Seq::new(
                        list.deep_view().len(),
                        |i: int| AppleMusicSongDatum::encoded(list.deep_view()[i]),
                    ));
                }
                Json::Array(items)
            },
            None => Json::Null,
        }
    }

    /// What is written for a record is read as that record: every field that
    /// was there comes back as it was, and every absent one stays absent.
    pub proof fn lemma_round_trip(value: AppleMusicSongDatumView)
        ensures
            AppleMusicSongDatum::decoded(AppleMusicSongDatum::encoded(value)) == Some(value),
    {
        reveal_strlit("id");
        reveal_strlit("type");
        reveal_strlit("href");
        reveal_strlit("attributes");
        reveal_strlit("relationships");
        reveal_strlit("meta");
        assert("id"@.len() == 2);
        assert("type"@.len() == 4 && "type"@[0] == 't');
        assert("href"@.len() == 4 && "href"@[0] == 'h');
        assert("attributes"@.len() == 10);
        assert("relationships"@.len() == 13);
        assert("meta"@.len() == 4 && "meta"@[0] == 'm');
        lemma_leaves_round_trip(value.id, None, None, None, None);
        lemma_leaves_round_trip(value.type_, None, None, None, None);
        lemma_leaves_round_trip(value.href, None, None, None, None);
        Attributes::lemma_optional_round_trip(value.attributes);
        Relationships::lemma_optional_round_trip(value.relationships);
        Meta::lemma_optional_round_trip(value.meta);
        let members = AppleMusicSongDatum::encoded(value)->Object_0;
        lemma_lookup(members, 0);
        lemma_lookup(members, 1);
        lemma_lookup(members, 2);
        lemma_lookup(members, 3);
        lemma_lookup(members, 4);
        lemma_lookup(members, 5);
    }

    /// What is written for a list of records that may be missing is read as
    /// it was.
    pub proof fn lemma_list_round_trip(value: Option<Seq<AppleMusicSongDatumView>>)
        ensures
            AppleMusicSongDatum::decoded_optional_list(Some(AppleMusicSongDatum::list_document(value))) == Some(value),
    {
        if let Some(list) = value {
            let items = Seq::new(list.len(), |i: int| AppleMusicSongDatum::encoded(list[i]));
            assert forall|i: int| 0 <= i < items.len() implies (#[trigger] AppleMusicSongDatum::decoded(
                items[i],
            )) == Some(list[i]) by {
                AppleMusicSongDatum::lemma_round_trip(list[i]);
            }
            assert(Seq::new(items.len(), |i: int| AppleMusicSongDatum::decoded(items[i]).unwrap()) =~= list);
        }
    }
}

/// The songs that a search found.
///
/// Each field may be absent.
#[derive(Debug, PartialEq, Eq)]
pub struct AppleMusicSong {
    pub data: Option<Vec<AppleMusicSongDatum>>,
}

/// The mathematical value of [`AppleMusicSong`].
pub struct AppleMusicSongView {
    pub data: Option<Seq<AppleMusicSongDatumView>>,
}

impl DeepView for AppleMusicSong {
    type V = AppleMusicSongView;

    open spec fn deep_view(&self) -> AppleMusicSongView {
        AppleMusicSongView {
            data: self.data.deep_view(),
        }
    }
}

impl AppleMusicSong {
    /// What is read from `json`: each field from the member of its name, or,
    /// in a list of exactly 1 item, from the item at its place. A field
    /// for which nothing, or `null`, stands is absent; one that cannot be read
    /// has the whole record refused.
    pub open spec fn decoded(json: JsonView) -> Option<AppleMusicSongView> {
        let data = AppleMusicSongDatum::decoded_optional_list(json.field("data"@, 0));
        if json.is_record(1) && data is Some {
            Some(
                AppleMusicSongView {
                    data: data.unwrap(),
                },
            )
        } else {
            None
        }
    }

    /// The document for `value`: an object with one member for each field,
    /// in the fields' order, `null` standing for an absent one.
    pub open spec fn encoded(value: AppleMusicSongView) -> JsonView {
        JsonView::Object(
            seq![
                ("data"@, AppleMusicSongDatum::list_document(value.data)),
            ],
        )
    }

    /// Reads a record from `json`, or refuses it.
    pub fn decode(json: &Json) -> (r: Option<AppleMusicSong>)
        ensures
            r.deep_view() == AppleMusicSong::decoded(json@),
    {
        if !is_record(json, 1) {
            return None;
        }
        let data = AppleMusicSongDatum::read_list(field(json, "data", 0))?;
        Some(AppleMusicSong { data })
    }

    /// Writes the record as a document.
    pub fn encode(&self) -> (r: Json)
        ensures
            r@ == AppleMusicSong::encoded(self.deep_view()),
    {
        let mut members: Vec<(String, Json)> = Vec::new();
        members.push(("data".to_owned(), AppleMusicSongDatum::write_list(&self.data)));
        proof {
            lemma_object_value(members);
            assert(members_value(members@) =~= AppleMusicSong::encoded(self.deep_view())->Object_0);
        }
        Json::Object(members)
    }

    /// What is written for a record is read as that record: every field that
    /// was there comes back as it was, and every absent one stays absent.
    pub proof fn lemma_round_trip(value: AppleMusicSongView)
        ensures
            AppleMusicSong::decoded(AppleMusicSong::encoded(value)) == Some(value),
    {
        reveal_strlit("data");
        assert("data"@.len() == 4);
        AppleMusicSongDatum::lemma_list_round_trip(value.data);
        let members = AppleMusicSong::encoded(value)->Object_0;
        lemma_lookup(members, 0);
    }
}

} // verus!
