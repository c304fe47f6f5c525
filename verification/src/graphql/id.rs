//! Globally unique object identifiers.
//!
//! An id pairs an entity's UUID with its type name; on the wire it reads
//! as the base64url encoding of `type:uuid`.

use vstd::prelude::*;
use vstd::slice::slice_subrange;
use vstd::slice::slice_to_vec;
use vstd::string::StrSliceExecFns;
use vstd::utf8::decode_utf8;
use vstd::utf8::encode_utf8;
use vstd::utf8::valid_utf8;

use crate::graphql::InputFault;
use crate::text::b64url_decode_of;
use crate::text::bytes_to_string;
use crate::text::decode_b64url;
use crate::text::encode_b64url;
use crate::text::str_eq;
use crate::uid::UuidValue;
use crate::uid::uuid_parse;
use crate::uid::uuid_parse_of;
use crate::uid::uuid_text_of;
use crate::uid::uuid_to_string;

verus! {

/// Whether the wire bytes of an id split at position `i` — their first
/// colon — into the UTF-8 of `id`'s type name and the UTF-8 of a text
/// that parses to `id`'s UUID.
pub open spec fn wire_splits_at(bytes: Seq<u8>, i: int, id: Id) -> bool {
    &&& 0 <= i < bytes.len()
    &&& bytes[i] == 58
    &&& forall|j: int| 0 <= j < i ==> bytes[j] != 58
    &&& valid_utf8(bytes.subrange(0, i))
    &&& decode_utf8(bytes.subrange(0, i)) == id.spec_type_tag()
    &&& valid_utf8(bytes.subrange(i + 1, bytes.len() as int))
    &&& uuid_parse_of(decode_utf8(bytes.subrange(i + 1, bytes.len() as int))) == Some(
        (id.spec_uuid().hi, id.spec_uuid().lo),
    )
}

/// Whether some id can be read out of wire bytes: they hold a colon, the
/// parts around the first one are valid UTF-8, and the second part parses
/// as a UUID.
pub open spec fn spec_wire_readable(bytes: Seq<u8>) -> bool {
    exists|i: int|
        #![trigger bytes[i]]
        {
            &&& 0 <= i < bytes.len()
            &&& bytes[i] == 58
            &&& (forall|j: int| 0 <= j < i ==> bytes[j] != 58)
            &&& valid_utf8(bytes.subrange(0, i))
            &&& valid_utf8(bytes.subrange(i + 1, bytes.len() as int))
            &&& uuid_parse_of(decode_utf8(bytes.subrange(i + 1, bytes.len() as int))) is Some
        }
}

/// Whether `s` is a wire text whose decoded bytes split, at their first
/// colon, into `id`'s type name and a text parsing to `id`'s UUID.
pub open spec fn spec_decodes_to(s: Seq<char>, id: Id) -> bool {
    exists|bytes: Seq<u8>, i: int|
        #![trigger wire_splits_at(bytes, i, id)]
        b64url_decode_of(s) == Some(bytes) && wire_splits_at(bytes, i, id)
}

/// Wire bytes whose reading fails at their first colon are not readable
/// at all: no other position is a first colon.
proof fn lemma_unreadable_at_first_colon(bytes: Seq<u8>, split: int)
    requires
        0 <= split < bytes.len(),
        bytes[split] == 58,
        forall|j: int| 0 <= j < split ==> bytes[j] != 58,
        !(valid_utf8(bytes.subrange(0, split)) && valid_utf8(
            bytes.subrange(split + 1, bytes.len() as int),
        ) && uuid_parse_of(decode_utf8(bytes.subrange(split + 1, bytes.len() as int))) is Some),
    ensures
        !spec_wire_readable(bytes),
{
    if spec_wire_readable(bytes) {
        let i = choose|i: int|
            {
                &&& 0 <= i < bytes.len()
                &&& bytes[i] == 58
                &&& (forall|j: int| 0 <= j < i ==> bytes[j] != 58)
                &&& valid_utf8(bytes.subrange(0, i))
                &&& valid_utf8(bytes.subrange(i + 1, bytes.len() as int))
                &&& uuid_parse_of(decode_utf8(bytes.subrange(i + 1, bytes.len() as int))) is Some
            };
        if i < split {
            assert(bytes[i] != 58);
        }
        if split < i {
            assert(bytes[split] != 58);
        }
        assert(i == split);
        assert(false);
    }
}

/// A globally unique identifier: an entity's UUID, tagged with the
/// entity's type name.
#[derive(Debug, Clone, PartialEq, Eq)]
pub struct Id {
    uuid: UuidValue,
    type_tag: String,
}

impl Id {
    /// The tagged type name.
    pub closed spec fn spec_type_tag(&self) -> Seq<char> {
        self.type_tag@
    }

    /// The entity's UUID.
    pub closed spec fn spec_uuid(&self) -> UuidValue {
        self.uuid
    }

    /// Tag `uuid` with the type name of the entity it identifies.
    pub fn new(type_tag: &str, uuid: UuidValue) -> (r: Id)
        ensures
            r.spec_type_tag() == type_tag@,
            r.spec_uuid() == uuid,
    {
        Id { uuid, type_tag: type_tag.to_owned() }
    }

    /// The UUID, handed out only under the type name it was tagged with.
    pub fn get(&self, type_tag: &str) -> (r: Result<UuidValue, InputFault>)
        ensures
            r is Ok <==> self.spec_type_tag() == type_tag@,
            r matches Ok(uuid) ==> uuid == self.spec_uuid(),
            r matches Err(e) ==> e == InputFault::InvalidId,
    {
        if str_eq(self.type_tag.as_str(), type_tag) {
            Ok(self.uuid)
        } else {
            Err(InputFault::InvalidId)
        }
    }

    /// The id's wire text: base64url over `type:uuid`, the UUID in its
    /// canonical text, which parses back to the same halves.
    pub fn encode(&self) -> (r: String)
        ensures
            b64url_decode_of(r@) == Some(
                encode_utf8(self.spec_type_tag()) + seq![58u8] + encode_utf8(
                    uuid_text_of(self.spec_uuid().hi, self.spec_uuid().lo),
                ),
            ),
            uuid_parse_of(uuid_text_of(self.spec_uuid().hi, self.spec_uuid().lo)) == Some(
                (self.spec_uuid().hi, self.spec_uuid().lo),
            ),
    {
        let mut bytes = self.type_tag.as_str().as_bytes_vec();
        bytes.push(58);
        let uuid_text = uuid_to_string(self.uuid);
        let mut uuid_bytes = uuid_text.as_str().as_bytes_vec();
        bytes.append(&mut uuid_bytes);
        encode_b64url(&bytes)
    }

    /// Read an id off the wire: base64url text whose decoded bytes split
    /// at the first colon into a type name and a UUID.  Fails exactly when
    /// the text is not base64url or its bytes are not readable as an id.
    pub fn decode(s: &str) -> (r: Option<Id>)
        ensures
            r matches Some(id) ==> spec_decodes_to(s@, id),
            r is None ==> (match b64url_decode_of(s@) {
                None => true,
                Some(bytes) => !spec_wire_readable(bytes),
            }),
    {
        let bytes = match decode_b64url(s) {
            Some(bytes) => bytes,
            None => return None,
        };
        let mut split_at: usize = 0;
        let mut found = false;
        let mut i: usize = 0;
        while i < bytes.len() && !found
            invariant
                i <= bytes.len(),
                found ==> split_at < bytes@.len() && bytes@[split_at as int] == 58,
                found ==> i == split_at,
                forall|j: int| 0 <= j < i ==> bytes@[j] != 58,
            decreases bytes.len() - i + (if found {
                0int
            } else {
                1int
            }),
        {
            if bytes[i] == 58 {
                split_at = i;
                found = true;
            } else {
                i = i + 1;
            }
        }
        if !found {
            proof {
                assert(!spec_wire_readable(bytes@)) by {
                    assert(forall|j: int| 0 <= j < bytes@.len() ==> bytes@[j] != 58);
                }
            }
            return None;
        }
        let ghost split = split_at as int;
        let type_bytes = slice_to_vec(slice_subrange(bytes.as_slice(), 0, split_at));
        let uuid_bytes = slice_to_vec(slice_subrange(bytes.as_slice(), split_at + 1, bytes.len()));
        let type_tag = match bytes_to_string(type_bytes) {
            Some(s) => s,
            None => {
                proof {
                    lemma_unreadable_at_first_colon(bytes@, split);
                }
                return None;
            },
        };
        let uuid_text = match bytes_to_string(uuid_bytes) {
            Some(s) => s,
            None => {
                proof {
                    lemma_unreadable_at_first_colon(bytes@, split);
                }
                return None;
            },
        };
        match uuid_parse(uuid_text.as_str()) {
            Some(uuid) => {
                let ghost uuid_chars = uuid_text@;
                let id = Id { uuid, type_tag };
                proof {
                    assert(bytes@[split] == 58);
                    assert(decode_utf8(bytes@.subrange(0, split)) == id.spec_type_tag());
                    assert(decode_utf8(bytes@.subrange(split + 1, bytes@.len() as int))
                        == uuid_chars);
                    assert(uuid_parse_of(uuid_chars) == Some(
                        (id.spec_uuid().hi, id.spec_uuid().lo),
                    ));
                    assert(wire_splits_at(bytes@, split, id));
                    assert(b64url_decode_of(s@) == Some(bytes@));
                    assert(spec_decodes_to(s@, id));
                }
                Some(id)
            },
            None => {
                proof {
                    lemma_unreadable_at_first_colon(bytes@, split);
                }
                None
            },
        }
    }
}

/// Decoding an id's wire text yields the id again, for every id whose
/// type name's UTF-8 holds no colon byte — the separator — as every type
/// name the API uses does.
pub fn id_round_trip(id: &Id) -> (r: Option<Id>)
    requires
        forall|j: int|
            0 <= j < encode_utf8(id.spec_type_tag()).len() ==> encode_utf8(id.spec_type_tag())[j]
                != 58,
    ensures
        r is Some,
        r matches Some(back) ==> back.spec_type_tag() == id.spec_type_tag() && back.spec_uuid()
            == id.spec_uuid(),
{
    let wire = id.encode();
    let ghost tag_bytes = encode_utf8(id.spec_type_tag());
    let ghost uuid_bytes = encode_utf8(uuid_text_of(id.spec_uuid().hi, id.spec_uuid().lo));
    let ghost bytes = tag_bytes + seq![58u8] + uuid_bytes;
    let ghost split = tag_bytes.len() as int;
    proof {
        broadcast use vstd::utf8::encode_utf8_valid_utf8;
        broadcast use vstd::utf8::encode_utf8_decode_utf8;

        assert(b64url_decode_of(wire@) == Some(bytes));
        assert(bytes.subrange(0, split) =~= tag_bytes);
        assert(bytes.subrange(split + 1, bytes.len() as int) =~= uuid_bytes);
        assert(bytes[split] == 58);
        assert forall|j: int| 0 <= j < split implies bytes[j] != 58 by {
            assert(bytes[j] == tag_bytes[j]);
        }
        assert(decode_utf8(bytes.subrange(0, split)) == id.spec_type_tag());
        assert(decode_utf8(bytes.subrange(split + 1, bytes.len() as int)) == uuid_text_of(
            id.spec_uuid().hi,
            id.spec_uuid().lo,
        ));
        assert(spec_wire_readable(bytes)) by {
            assert(bytes[split] == 58);
        }
    }
    let r = Id::decode(wire.as_str());
    match r {
        Some(back) => {
            proof {
                let (bytes2, i2) = choose|bytes2: Seq<u8>, i2: int|
                    #![trigger wire_splits_at(bytes2, i2, back)]
                    b64url_decode_of(wire@) == Some(bytes2) && wire_splits_at(bytes2, i2, back);
                assert(bytes2 == bytes);
                if i2 < split {
                    assert(bytes[i2] != 58);
                }
                if split < i2 {
                    assert(bytes[split] != 58);
                }
                assert(i2 == split);
                assert(back.spec_type_tag() == decode_utf8(bytes.subrange(0, split)));
                assert(uuid_parse_of(decode_utf8(bytes.subrange(split + 1, bytes.len() as int)))
                    == Some((back.spec_uuid().hi, back.spec_uuid().lo)));
                assert(back.spec_uuid().hi == id.spec_uuid().hi && back.spec_uuid().lo
                    == id.spec_uuid().lo);
            }
            Some(back)
        },
        None => {
            proof {
                assert(false);
            }
            None
        },
    }
}

} // verus!
