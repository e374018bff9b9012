//! The header fields of a request or of a response. They are kept in the header map of the
//! `http` crate: a name is a token of fewer than 65536 characters, kept in lower case, and
//! it has the values that were added under it, in the order in which they were added. A
//! map holds at most 32768 names.

use vstd::prelude::*;
use vstd::string::StringSliceAdditionalSpecFns;
use vstd::utf8::{encode_utf8, is_ascii_chars, is_ascii_chars_encode_utf8};

verus! {

/// `http::HeaderMap`, the map of the `http` crate from header names to values. Nothing
/// inside it is seen here: what it holds is known through `fields_of` alone.
#[verifier::external_type_specification]
#[verifier::external_body]
#[verifier::reject_recursive_types(T)]
pub struct ExHeaderMap<T>(http::HeaderMap<T>);

/// A field as a contract sees it: its name and its value.
pub type Field = (Seq<char>, Seq<char>);

/// The fields of a message as a contract sees them: for each name that has a field, the
/// values of its fields.
pub type Fields = Map<Seq<char>, Seq<Seq<char>>>;

/// What the header map `map` holds: for each name that has a field, in lower case, the
/// values of its fields in the order in which they were added.
pub uninterp spec fn fields_of(map: http::HeaderMap<String>) -> Map<Seq<char>, Seq<Seq<char>>>;

/// A name has fewer characters than this.
pub const NAME_LIMIT: usize = 65536;

/// A header map holds no more names than this.
pub const COUNT_LIMIT: usize = 32768;

/// No fields.
pub open spec fn no_fields() -> Fields {
    Map::empty()
}

/// Whether `c` may stand in a name: a letter, a digit, or one of
/// `! " # $ % & ' * + - . ^ _ | ~` and the backtick.
pub open spec fn is_token(c: char) -> bool {
    let n = c as u32;
    ||| 33 <= n <= 39
    ||| n == 42 || n == 43 || n == 45 || n == 46
    ||| 48 <= n <= 57
    ||| 65 <= n <= 90
    ||| 94 <= n <= 122
    ||| n == 124 || n == 126
}

/// The character `c` in lower case, where it is one of `A` to `Z`.
pub open spec fn lower(c: char) -> char {
    if 'A' <= c <= 'Z' {
        ((c as u8 + 32) as u8) as char
    } else {
        c
    }
}

/// The name under which a field with the name `name` is kept: `name` in lower case, if it
/// is a name at all.
pub open spec fn key_of(name: Seq<char>) -> Option<Seq<char>> {
    if 0 < name.len() < NAME_LIMIT && (forall|i: int|
        0 <= i < name.len() ==> is_token(#[trigger] name[i])) {
        Some(name.map_values(|c: char| lower(c)))
    } else {
        None
    }
}

/// The values under the name `key`, kept so.
pub open spec fn values_of(fields: Fields, key: Seq<char>) -> Seq<Seq<char>> {
    if fields.dom().contains(key) {
        fields[key]
    } else {
        Seq::empty()
    }
}

/// Whether a field of `fields` has the name `name`.
pub open spec fn has_name(fields: Fields, name: Seq<char>) -> bool {
    key_of(name) matches Some(key) && fields.dom().contains(key)
}

/// The value of the first field of `fields` with the name `name`.
pub open spec fn value_of(fields: Fields, name: Seq<char>) -> Option<Seq<char>> {
    match key_of(name) {
        Some(key) => if fields.dom().contains(key) {
            Some(fields[key][0])
        } else {
            None
        },
        None => None,
    }
}

/// Whether `fields` holds exactly `n` names.
pub open spec fn counts(fields: Fields, n: nat) -> bool {
    fields.dom().finite() && fields.dom().len() == n
}

/// Whether `fields` can take a field under the name `key`: the name is there, or the
/// names are fewer than a map can hold.
pub open spec fn has_room(fields: Fields, key: Seq<char>) -> bool {
    fields.dom().contains(key) || fields.dom().len() < COUNT_LIMIT
}

/// `fields` with the value `value` added behind the values under the name `key`.
pub open spec fn put(fields: Fields, key: Seq<char>, value: Seq<char>) -> Fields {
    fields.insert(key, values_of(fields, key).push(value))
}

/// `fields` with a field added: the value `value` behind the values under the name `name`.
/// Nothing is added where `name` is no name, or where the map cannot take one more name.
pub open spec fn appended(fields: Fields, name: Seq<char>, value: Seq<char>) -> Fields {
    match key_of(name) {
        Some(key) => if has_room(fields, key) {
            put(fields, key, value)
        } else {
            fields
        },
        None => fields,
    }
}

/// `fields` with the value `value` in place of the values under the name `name`. Nothing
/// changes where `name` is no name, or where the map cannot take one more name.
pub open spec fn inserted(fields: Fields, name: Seq<char>, value: Seq<char>) -> Fields {
    match key_of(name) {
        Some(key) => if has_room(fields, key) {
            fields.insert(key, seq![value])
        } else {
            fields
        },
        None => fields,
    }
}

/// `fields` with the field of the name `name` and the value `value` added unless a field
/// has that name.
pub open spec fn or_inserted(fields: Fields, name: Seq<char>, value: Seq<char>) -> Fields {
    if has_name(fields, name) {
        fields
    } else {
        appended(fields, name, value)
    }
}

/// The fields that `list` makes up: each added, in turn, behind those of its name.
pub open spec fn gathered(list: Seq<Field>) -> Fields
    decreases list.len(),
{
    if list.len() == 0 {
        no_fields()
    } else {
        put(gathered(list.drop_last()), list.last().0, list.last().1)
    }
}

/// The names and values of `list` as texts.
pub open spec fn pairs(list: Seq<(String, String)>) -> Seq<Field> {
    list.map_values(|f: (String, String)| (f.0@, f.1@))
}

/// Whether `list` lists `fields`: it makes up `fields`, with every name as it is kept.
pub open spec fn lists(list: Seq<(String, String)>, fields: Fields) -> bool {
    &&& gathered(pairs(list)) == fields
    &&& forall|i: int| 0 <= i < list.len() ==> key_of((#[trigger] list[i]).0@) == Some(list[i].0@)
}

/// The header fields `fields` with the fields of `list` added one after the other.
pub open spec fn all_appended(fields: Fields, list: Seq<Field>) -> Fields
    decreases list.len(),
{
    if list.len() == 0 {
        fields
    } else {
        appended(all_appended(fields, list.drop_last()), list.last().0, list.last().1)
    }
}

/// The fields of `first` and of `second`: under each name the values of `first`, then
/// those of `second`.
pub open spec fn merged(first: Fields, second: Fields) -> Fields {
    Map::new(
        |key: Seq<char>| first.dom().contains(key) || second.dom().contains(key),
        |key: Seq<char>| values_of(first, key) + values_of(second, key),
    )
}

/// Where a map has room for every field of a list, adding the fields one after the other
/// adds under each name the values that the list has for it, in their order there: the
/// order of two fields of different names does not count.
pub proof fn lemma_all_appended(fields: Fields, list: Seq<Field>)
    requires
        fields.dom().finite(),
        fields.dom().len() + list.len() <= COUNT_LIMIT,
        forall|i: int| 0 <= i < list.len() ==> key_of((#[trigger] list[i]).0) == Some(list[i].0),
    ensures
        all_appended(fields, list) == merged(fields, gathered(list)),
        all_appended(fields, list).dom().finite(),
        all_appended(fields, list).dom().len() <= fields.dom().len() + list.len(),
    decreases list.len(),
{
    if list.len() == 0 {
        assert(merged(fields, no_fields()) =~= fields);
    } else {
        let before = list.drop_last();
        let key = list.last().0;
        let value = list.last().1;
        lemma_all_appended(fields, before);
        let sum = all_appended(fields, before);
        assert(put(sum, key, value) =~= merged(fields, put(gathered(before), key, value)));
    }
}

/// `HeaderMap::default`: a map that holds nothing.
#[verifier::external_body]
fn map_new() -> (r: http::HeaderMap<String>)
    ensures
        fields_of(r) == no_fields(),
{
    http::HeaderMap::default()
}

/// `HeaderMap::keys_len`: the number of names that have a field.
#[verifier::external_body]
fn map_keys_len(map: &http::HeaderMap<String>) -> (r: usize)
    ensures
        counts(fields_of(*map), r as nat),
{
    map.keys_len()
}

/// `HeaderMap::get` with the name as a text: the first of the values under the name,
/// whatever the case of its letters; nothing where no field has the name or the text is no
/// name. The call stops on a text of 65536 bytes or more, which is left out.
#[verifier::external_body]
fn map_get<'a>(map: &'a http::HeaderMap<String>, name: &str) -> (r: Option<&'a String>)
    requires
        encode_utf8(name@).len() < NAME_LIMIT,
    ensures
        match r {
            Some(value) => value_of(fields_of(*map), name@) == Some(value@),
            None => value_of(fields_of(*map), name@) is None,
        },
{
    map.get(name)
}

/// `HeaderName::from_bytes` and `HeaderMap::append`: where the text is a name, the value is
/// added behind the values under that name in lower case; where it is none, nothing is
/// added, and the result says so. The first call stops on a text of 65536 bytes or more,
/// the second on a new name for a map that holds 32768: both are left out.
#[verifier::external_body]
fn map_append(map: &mut http::HeaderMap<String>, name: &str, value: &str) -> (r: bool)
    requires
        encode_utf8(name@).len() < NAME_LIMIT,
        key_of(name@) matches Some(key) ==> has_room(fields_of(*old(map)), key),
    ensures
        r == (key_of(name@) is Some),
        fields_of(*final(map)) == appended(fields_of(*old(map)), name@, value@),
{
    match http::header::HeaderName::from_bytes(name.as_bytes()) {
        Ok(key) => {
            map.append(key, value.to_owned());
            true
        },
        Err(_) => false,
    }
}

/// `HeaderName::from_bytes` and `HeaderMap::insert`: where the text is a name, the value
/// takes the place of the values under that name in lower case; where it is none, nothing
/// changes, and the result says so. The calls stop as those behind `map_append` do.
#[verifier::external_body]
fn map_insert(map: &mut http::HeaderMap<String>, name: &str, value: &str) -> (r: bool)
    requires
        encode_utf8(name@).len() < NAME_LIMIT,
        key_of(name@) matches Some(key) ==> has_room(fields_of(*old(map)), key),
    ensures
        r == (key_of(name@) is Some),
        fields_of(*final(map)) == inserted(fields_of(*old(map)), name@, value@),
{
    match http::header::HeaderName::from_bytes(name.as_bytes()) {
        Ok(key) => {
            map.insert(key, value.to_owned());
            true
        },
        Err(_) => false,
    }
}

/// `HeaderMap::clone`: a map that holds the same.
#[verifier::external_body]
fn map_clone(map: &http::HeaderMap<String>) -> (r: http::HeaderMap<String>)
    ensures
        fields_of(r) == fields_of(*map),
{
    map.clone()
}

/// `HeaderMap::iter`: the fields, name by name and under each name in the order in which
/// they were added, each with its name as it is kept.
#[verifier::external_body]
fn map_list(map: &http::HeaderMap<String>) -> (r: Vec<(String, String)>)
    ensures
        lists(r@, fields_of(*map)),
{
    map.iter().map(|(name, value)| (name.as_str().to_owned(), value.clone())).collect()
}

/// A character that may stand in a name is one of the first 128.
pub proof fn lemma_token_is_plain(c: char)
    requires
        is_token(c),
    ensures
        '\0' <= c <= '\u{7f}',
{
}

/// A text of `NAME_LIMIT` bytes or more is no name.
pub proof fn lemma_long_text_is_no_name(name: &str)
    requires
        name.spec_bytes().len() >= NAME_LIMIT,
    ensures
        key_of(name@) is None,
{
    if forall|i: int| 0 <= i < name@.len() ==> is_token(#[trigger] name@[i]) {
        assert forall|i: int| 0 <= i < name@.len() implies '\0' <= #[trigger] name@[i]
            <= '\u{7f}' by {
            lemma_token_is_plain(name@[i]);
        }
        assert(is_ascii_chars(name@));
        is_ascii_chars_encode_utf8(name@);
    }
}

/// The header fields of a message.
#[derive(Debug)]
pub struct Headers {
    map: http::HeaderMap<String>,
}

impl View for Headers {
    type V = Fields;

    closed spec fn view(&self) -> Fields {
        fields_of(self.map)
    }
}

impl Headers {
    /// No fields.
    pub fn new() -> (r: Headers)
        ensures
            r@ == no_fields(),
    {
        Headers { map: map_new() }
    }

    /// The number of names that have a field.
    pub fn keys_len(&self) -> (r: usize)
        ensures
            counts(self@, r as nat),
    {
        map_keys_len(&self.map)
    }

    /// The value of the first field with the name `name`.
    pub fn get(&self, name: &str) -> (r: Option<&String>)
        ensures
            match r {
                Some(value) => value_of(self@, name@) == Some(value@),
                None => value_of(self@, name@) is None,
            },
    {
        if name.as_bytes().len() >= NAME_LIMIT {
            proof {
                lemma_long_text_is_no_name(name);
            }
            None
        } else {
            map_get(&self.map, name)
        }
    }

    /// Whether a field has the name `name`.
    pub fn contains_key(&self, name: &str) -> (r: bool)
        ensures
            r == has_name(self@, name@),
    {
        self.get(name).is_some()
    }

    /// Adds a field behind those of its name, and says whether it did: it does unless
    /// `name` is no name or the fields cannot take one more name.
    pub fn append(&mut self, name: &str, value: &str) -> (r: bool)
        ensures
            final(self)@ == appended(old(self)@, name@, value@),
            r == (key_of(name@) matches Some(key) && has_room(old(self)@, key)),
    {
        if name.as_bytes().len() >= NAME_LIMIT {
            proof {
                lemma_long_text_is_no_name(name);
            }
            return false;
        }
        let known = map_get(&self.map, name).is_some();
        if known || map_keys_len(&self.map) < COUNT_LIMIT {
            map_append(&mut self.map, name, value)
        } else {
            false
        }
    }

    /// Puts a field in the place of those of its name, and says whether it did: it does
    /// unless `name` is no name or the fields cannot take one more name.
    pub fn insert(&mut self, name: &str, value: &str) -> (r: bool)
        ensures
            final(self)@ == inserted(old(self)@, name@, value@),
            r == (key_of(name@) matches Some(key) && has_room(old(self)@, key)),
    {
        if name.as_bytes().len() >= NAME_LIMIT {
            proof {
                lemma_long_text_is_no_name(name);
            }
            return false;
        }
        let known = map_get(&self.map, name).is_some();
        if known || map_keys_len(&self.map) < COUNT_LIMIT {
            map_insert(&mut self.map, name, value)
        } else {
            false
        }
    }

    /// Adds a field unless a field of that name is there.
    pub fn or_insert(&mut self, name: &str, value: &str)
        ensures
            final(self)@ == or_inserted(old(self)@, name@, value@),
    {
        if !self.contains_key(name) {
            self.append(name, value);
        }
    }

    /// The fields, name by name and under each name in the order in which they were added.
    pub fn fields(&self) -> (r: Vec<(String, String)>)
        ensures
            lists(r@, self@),
    {
        map_list(&self.map)
    }

    /// A copy of these fields.
    pub fn duplicate(&self) -> (r: Headers)
        ensures
            r@ == self@,
    {
        Headers { map: map_clone(&self.map) }
    }
}

} // verus!
