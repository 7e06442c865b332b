use vstd::prelude::*;
use vstd::utf8::{decode_utf8, encode_utf8, encode_utf8_valid_utf8, valid_utf8};

use crate::errors::PSP34Error;
use crate::psp34::{events_model, PSP34Event, PSP34EventModel};
use crate::table::{bytes_clone, Table, TableKey};
use crate::types::{Id, IdModel};

verus! {

/// Relies on `String::from_utf8`: it succeeds exactly on valid UTF-8, and the
/// string then holds the characters that the bytes encode.
#[verifier::external_body]
fn utf8_to_string(bytes: Vec<u8>) -> (r: Option<String>)
    ensures
        r is Some <==> valid_utf8(bytes@),
        r matches Some(s) ==> s@ == decode_utf8(bytes@),
{
    String::from_utf8(bytes).ok()
}

/// The UTF-8 bytes of a string.
pub fn string_bytes(s: &String) -> (r: Vec<u8>)
    ensures
        r@ == encode_utf8(s@),
{
    let b = s.as_str().as_bytes();
    let mut r: Vec<u8> = Vec::new();
    let mut i: usize = 0;
    while i < b.len()
        invariant
            0 <= i <= b@.len(),
            r@ == b@.subrange(0, i as int),
        decreases b@.len() - i,
    {
        r.push(b[i]);
        i = i + 1;
    }
    assert(r@ =~= b@);
    r
}

/// The text of some stored bytes: what they decode to when they are valid
/// UTF-8, else the empty string.
pub open spec fn text_or_empty(b: Option<Seq<u8>>) -> Seq<char> {
    match b {
        Some(bytes) => if valid_utf8(bytes) {
            decode_utf8(bytes)
        } else {
            Seq::empty()
        },
        None => Seq::empty(),
    }
}

/// The attribute key under which the base URI is stored: `baseURI`.
pub open spec fn base_uri_key() -> Seq<u8> {
    seq![98u8, 97u8, 115u8, 101u8, 85u8, 82u8, 73u8]
}

/// The characters of each `(name, value)` pair.
pub open spec fn pairs_model(s: Seq<(String, String)>) -> Seq<(Seq<char>, Seq<char>)> {
    s.map_values(|p: (String, String)| (p.0@, p.1@))
}

/// The attribute store as mathematics sees it.
pub struct MetadataModel {
    /// The value of each attribute key of each token.
    pub attributes: Map<(IdModel, Seq<u8>), Seq<u8>>,
    /// How many attribute names were registered.
    pub attribute_count: u32,
    /// The registered names, numbered from 1.
    pub attribute_names: Map<u32, Seq<u8>>,
    /// The registered names as a set.
    pub registered: Set<Seq<u8>>,
}

impl MetadataModel {
    pub open spec fn attribute(self, id: IdModel, key: Seq<u8>) -> Option<Seq<u8>> {
        if self.attributes.contains_key((id, key)) {
            Some(self.attributes[(id, key)])
        } else {
            None
        }
    }

    pub open spec fn with_attribute(self, id: IdModel, key: Seq<u8>, value: Seq<u8>) -> MetadataModel {
        MetadataModel { attributes: self.attributes.insert((id, key), value), ..self }
    }

    /// `name` registered under the next number, unless it is registered
    /// already or the count cannot grow.
    pub open spec fn with_name(self, name: Seq<u8>) -> MetadataModel {
        if self.registered.contains(name) || self.attribute_count == u32::MAX {
            self
        } else {
            let n = (self.attribute_count + 1) as u32;
            MetadataModel {
                attribute_count: n,
                attribute_names: self.attribute_names.insert(n, name),
                registered: self.registered.insert(name),
                ..self
            }
        }
    }

    /// The store after each `(name, value)` pair in turn has registered its
    /// name and set the attribute of token `id`.
    pub open spec fn after_batch(self, id: IdModel, pairs: Seq<(Seq<char>, Seq<char>)>) -> MetadataModel
        decreases pairs.len(),
    {
        if pairs.len() == 0 {
            self
        } else {
            let prev = self.after_batch(id, pairs.drop_last());
            let name = encode_utf8(pairs.last().0);
            prev.with_name(name).with_attribute(id, name, encode_utf8(pairs.last().1))
        }
    }
}

/// The attribute store of the non-fungible ledger, with its registry of
/// attribute names.
pub struct Data {
    attributes: Table<(Id, Vec<u8>), Vec<u8>>,
    attribute_count: u32,
    attribute_names: Table<u32, Vec<u8>>,
    is_attribute: Table<Vec<u8>, bool>,
}

impl View for Data {
    type V = MetadataModel;

    closed spec fn view(&self) -> MetadataModel {
        MetadataModel {
            attributes: self.attributes@.map_values(|v: Vec<u8>| v@),
            attribute_count: self.attribute_count,
            attribute_names: self.attribute_names@.map_values(|v: Vec<u8>| v@),
            registered: self.is_attribute@.dom(),
        }
    }
}

impl Data {
    pub closed spec fn wf(&self) -> bool {
        &&& self.attributes.wf()
        &&& self.attribute_names.wf()
        &&& self.is_attribute.wf()
    }

    pub fn new() -> (r: Data)
        ensures
            r.wf(),
            r@.attributes == Map::<(IdModel, Seq<u8>), Seq<u8>>::empty(),
            r@.attribute_count == 0,
            r@.attribute_names == Map::<u32, Seq<u8>>::empty(),
            r@.registered == Set::<Seq<u8>>::empty(),
    {
        let r = Data {
            attributes: Table::new(),
            attribute_count: 0,
            attribute_names: Table::new(),
            is_attribute: Table::new(),
        };
        assert(r@.attributes =~= Map::<(IdModel, Seq<u8>), Seq<u8>>::empty());
        assert(r@.attribute_names =~= Map::<u32, Seq<u8>>::empty());
        assert(r@.registered =~= Set::<Seq<u8>>::empty());
        r
    }

    pub fn get_attribute(&self, id: Id, key: Vec<u8>) -> (r: Option<Vec<u8>>)
        requires
            self.wf(),
        ensures
            match r {
                Some(v) => self@.attribute(id@, key@) == Some(v@),
                None => self@.attribute(id@, key@) is None,
            },
    {
        match self.attributes.get(&(id, key)) {
            Some(v) => Some(bytes_clone(v)),
            None => None,
        }
    }

    /// Sets attribute `key` of token `id` to `value`, replacing what it held.
    pub fn set_attribute(&mut self, id: Id, key: Vec<u8>, value: Vec<u8>) -> (r: Result<
        Vec<PSP34Event>,
        PSP34Error,
    >)
        requires
            old(self).wf(),
        ensures
            final(self).wf(),
            r matches Ok(ev) && events_model(ev@) == seq![
                PSP34EventModel::AttributeSet { id: id@, key: key@, data: value@ },
            ],
            final(self)@ == old(self)@.with_attribute(id@, key@, value@),
    {
        self.attributes.insert((id.clone(), bytes_clone(&key)), bytes_clone(&value));
        assert(self@.attributes =~= old(self)@.attributes.insert((id@, key@), value@));
        let ev = vec![PSP34Event::AttributeSet { id, key, data: value }];
        assert(events_model(ev@) =~= seq![
            PSP34EventModel::AttributeSet { id: id@, key: key@, data: value@ },
        ]);
        Ok(ev)
    }

    pub fn get_attribute_count(&self) -> (r: u32)
        ensures
            r == self@.attribute_count,
    {
        self.attribute_count
    }

    /// Stores `uri` as the base URI, under attribute `baseURI` of token
    /// `U8(0)`.
    pub fn set_base_uri(&mut self, uri: String) -> (r: Result<(), PSP34Error>)
        requires
            old(self).wf(),
        ensures
            final(self).wf(),
            r is Ok,
            final(self)@ == old(self)@.with_attribute(
                IdModel::U8(0),
                base_uri_key(),
                encode_utf8(uri@),
            ),
    {
        let key: Vec<u8> = vec![98u8, 97u8, 115u8, 101u8, 85u8, 82u8, 73u8];
        assert(key@ =~= base_uri_key());
        let _ = self.set_attribute(Id::U8(0), key, string_bytes(&uri));
        Ok(())
    }

    /// The name registered under number `index`, or the empty string.
    pub fn get_attribute_name(&self, index: u32) -> (r: String)
        requires
            self.wf(),
        ensures
            r@ == text_or_empty(
                if self@.attribute_names.contains_key(index) {
                    Some(self@.attribute_names[index])
                } else {
                    None
                },
            ),
    {
        let attribute = self.attribute_names.get(&index);
        if let Some(value_in_bytes) = attribute {
            if let Some(value_in_string) = utf8_to_string(bytes_clone(value_in_bytes)) {
                return value_in_string;
            } else {
                return String::new();
            }
        } else {
            return String::new();
        }
    }

    /// The base URI followed by `1.json`; an unset or unreadable base URI
    /// counts as empty.
    pub fn token_uri(&self, token_id: u64) -> (r: String)
        requires
            self.wf(),
        ensures
            r@ == text_or_empty(self@.attribute(IdModel::U8(0), base_uri_key())) + "1"@
                + ".json"@,
    {
        let key: Vec<u8> = vec![98u8, 97u8, 115u8, 101u8, 85u8, 82u8, 73u8];
        assert(key@ =~= base_uri_key());
        let value = self.get_attribute(Id::U8(0), key);
        let mut token_uri = String::new();
        if let Some(value_in_bytes) = value {
            if let Some(value_in_string) = utf8_to_string(value_in_bytes) {
                token_uri = value_in_string;
            }
        }
        token_uri.append("1");
        token_uri.append(".json");
        token_uri
    }

    /// For each `(name, value)` in turn: registers the name if it is new (a
    /// name that cannot be registered is passed over) and sets the attribute
    /// of `token_id`. Refused with `InvalidInput` for token `U64(0)`.
    pub fn set_multiple_attributes(&mut self, token_id: Id, metadata: Vec<(String, String)>) -> (r:
        Result<(), PSP34Error>)
        requires
            old(self).wf(),
        ensures
            final(self).wf(),
            token_id@ == IdModel::U64(0) ==> r == Err::<(), PSP34Error>(PSP34Error::InvalidInput)
                && final(self)@ == old(self)@,
            token_id@ != IdModel::U64(0) ==> r is Ok && final(self)@ == old(self)@.after_batch(
                token_id@,
                pairs_model(metadata@),
            ),
    {
        if let Id::U64(v) = &token_id {
            if *v == 0 {
                return Err(PSP34Error::InvalidInput);
            }
        }
        let ghost pairs = pairs_model(metadata@);
        let mut i: usize = 0;
        while i < metadata.len()
            invariant
                self.wf(),
                0 <= i <= metadata@.len(),
                pairs == pairs_model(metadata@),
                self@ == old(self)@.after_batch(token_id@, pairs.subrange(0, i as int)),
            decreases metadata@.len() - i,
        {
            let ghost before = self@;
            let name = string_bytes(&metadata[i].0);
            proof {
                encode_utf8_valid_utf8(metadata@[i as int].0@);
            }
            let _ = self.add_attribute_name(&name);
            let value = string_bytes(&metadata[i].1);
            let _ = self.set_attribute(token_id.clone(), name, value);
            proof {
                assert(pairs.subrange(0, i + 1).drop_last() =~= pairs.subrange(0, i as int));
            }
            i = i + 1;
        }
        assert(pairs.subrange(0, metadata@.len() as int) =~= pairs);
        Ok(())
    }

    /// The text of attribute `attributes[i]` of `token_id`, for each `i`; an
    /// attribute that is unset or not UTF-8 gives the empty string.
    pub fn get_attributes(&self, token_id: Id, attributes: Vec<String>) -> (r: Vec<String>)
        requires
            self.wf(),
        ensures
            r@.len() == attributes@.len(),
            forall|i: int|
                0 <= i < r@.len() ==> #[trigger] r@[i]@ == text_or_empty(
                    self@.attribute(token_id@, encode_utf8(attributes@[i]@)),
                ),
    {
        let length = attributes.len();
        let mut ret: Vec<String> = Vec::new();
        let mut i: usize = 0;
        while i < length
            invariant
                self.wf(),
                length == attributes@.len(),
                0 <= i <= length,
                ret@.len() == i,
                forall|j: int|
                    0 <= j < i ==> #[trigger] ret@[j]@ == text_or_empty(
                        self@.attribute(token_id@, encode_utf8(attributes@[j]@)),
                    ),
            decreases length - i,
        {
            let value = self.get_attribute(token_id.clone(), string_bytes(&attributes[i]));
            if let Some(value_in_bytes) = value {
                if let Some(value_in_string) = utf8_to_string(value_in_bytes) {
                    ret.push(value_in_string);
                } else {
                    ret.push(String::new());
                }
            } else {
                ret.push(String::new());
            }
            i = i + 1;
        }
        ret
    }

    /// Registers `attribute_input` as an attribute name under the next
    /// number. Refused when the bytes are not UTF-8, when the name is
    /// registered already, or when the count cannot grow.
    fn add_attribute_name(&mut self, attribute_input: &Vec<u8>) -> (r: Result<(), PSP34Error>)
        requires
            old(self).wf(),
        ensures
            final(self).wf(),
            r is Err ==> final(self)@ == old(self)@,
            !valid_utf8(attribute_input@) ==> (r matches Err(PSP34Error::Custom(t)) && t@
                == "Attribute input error"@),
            valid_utf8(attribute_input@) && old(self)@.registered.contains(attribute_input@) ==> (
            r matches Err(PSP34Error::Custom(t)) && t@ == "Attribute input exists"@),
            valid_utf8(attribute_input@) && !old(self)@.registered.contains(attribute_input@)
                && old(self)@.attribute_count == u32::MAX ==> (r matches Err(
                PSP34Error::Custom(t),
            ) && t@ == "Fail to increase attribute count"@),
            valid_utf8(attribute_input@) && !old(self)@.registered.contains(attribute_input@)
                && old(self)@.attribute_count < u32::MAX ==> r is Ok && final(self)@ == old(
                self)@.with_name(attribute_input@),
    {
        if utf8_to_string(bytes_clone(attribute_input)).is_some() {
            let exist: bool = self.is_attribute.contains(attribute_input);
            if !exist {
                if self.attribute_count < u32::MAX {
                    let count = self.attribute_count + 1;
                    self.attribute_count = count;
                    self.attribute_names.insert(count, bytes_clone(attribute_input));
                    self.is_attribute.insert(bytes_clone(attribute_input), true);
                    let ghost m = old(self)@;
                    assert(self@.attribute_names =~= m.attribute_names.insert(count, attribute_input@));
                    assert(self@.registered =~= m.registered.insert(attribute_input@));
                    return Ok(());
                } else {
                    return Err(PSP34Error::Custom(String::from_str("Fail to increase attribute count")));
                }
            } else {
                return Err(PSP34Error::Custom(String::from_str("Attribute input exists")));
            }
        } else {
            return Err(PSP34Error::Custom(String::from_str("Attribute input error")));
        }
    }
}

} // verus!
