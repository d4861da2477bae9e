//! Validation of the bounded text fields of durable reconnect records.
use vstd::prelude::*;
use vstd::string::{StrSliceExecFns, StringSliceAdditionalSpecFns};
use vstd::utf8::encode_utf8;

verus! {

/// The UTF-8 bytes of a text value.
pub open spec fn text_bytes(text: Seq<char>) -> Seq<u8> {
    encode_utf8(text)
}

/// One to 128 bytes, each visible ASCII (`!` through `~`).
pub open spec fn visible_ascii_bytes(b: Seq<u8>) -> bool {
    &&& 0 < b.len() <= 128
    &&& forall|i: int| 0 <= i < b.len() ==> 0x21 <= #[trigger] b[i] <= 0x7e
}

/// A non-empty visible ASCII text of at most 128 bytes.
pub open spec fn visible_ascii_text(text: Seq<char>) -> bool {
    visible_ascii_bytes(text_bytes(text))
}

/// A lower-case hexadecimal digit.
pub open spec fn is_lower_hex(byte: u8) -> bool {
    (0x30 <= byte <= 0x39) || (0x61 <= byte <= 0x66)
}

/// Where the hyphens of the canonical 8-4-4-4-12 form stand.
pub open spec fn is_hyphen_position(index: int) -> bool {
    index == 8 || index == 13 || index == 18 || index == 23
}

/// The 36-byte canonical lower-case UUID text form, not the nil UUID.
pub open spec fn canonical_uuid_bytes(b: Seq<u8>) -> bool {
    &&& b.len() == 36
    &&& forall|i: int|
        0 <= i < 36 ==> if is_hyphen_position(i) {
            #[trigger] b[i] == 0x2d
        } else {
            is_lower_hex(b[i])
        }
    &&& exists|i: int| 0 <= i < 36 && #[trigger] b[i] != 0x30 && b[i] != 0x2d
}

/// A text in canonical lower-case UUID form that is not the nil UUID.
pub open spec fn canonical_uuid_text(text: Seq<char>) -> bool {
    canonical_uuid_bytes(text_bytes(text))
}

/// Whether `value` is a non-empty visible ASCII text of at most 128 bytes.
pub fn non_empty_visible_ascii(value: &str) -> (r: bool)
    ensures
        r == visible_ascii_text(value@),
{
    let bytes = value.as_bytes();
    if bytes.len() == 0 || bytes.len() > 128 {
        return false;
    }
    let mut i: usize = 0;
    while i < bytes.len()
        invariant
            bytes@ == value.spec_bytes(),
            i <= bytes@.len(),
            forall|j: int| 0 <= j < i ==> 0x21 <= #[trigger] bytes@[j] <= 0x7e,
        decreases bytes@.len() - i,
    {
        let byte = bytes[i];
        if byte < 0x21 || byte > 0x7e {
            return false;
        }
        i = i + 1;
    }
    true
}

/// Whether `value` is a canonical lower-case UUID that is not the nil UUID.
pub fn canonical_uuid(value: &str) -> (r: bool)
    ensures
        r == canonical_uuid_text(value@),
{
    let bytes = value.as_bytes();
    if bytes.len() != 36 {
        return false;
    }
    let mut i: usize = 0;
    while i < 36
        invariant
            bytes@ == value.spec_bytes(),
            bytes@.len() == 36,
            i <= 36,
            forall|j: int|
                0 <= j < i ==> if is_hyphen_position(j) {
                    #[trigger] bytes@[j] == 0x2d
                } else {
                    is_lower_hex(bytes@[j])
                },
        decreases 36 - i,
    {
        let byte = bytes[i];
        if i == 8 || i == 13 || i == 18 || i == 23 {
            if byte != 0x2d {
                return false;
            }
        } else if !((0x30 <= byte && byte <= 0x39) || (0x61 <= byte && byte <= 0x66)) {
            return false;
        }
        i = i + 1;
    }
    let mut k: usize = 0;
    while k < 36
        invariant
            bytes@ == value.spec_bytes(),
            bytes@.len() == 36,
            k <= 36,
            forall|j: int|
                0 <= j < 36 ==> if is_hyphen_position(j) {
                    #[trigger] bytes@[j] == 0x2d
                } else {
                    is_lower_hex(bytes@[j])
                },
            forall|j: int| 0 <= j < k ==> #[trigger] bytes@[j] == 0x30 || bytes@[j] == 0x2d,
        decreases 36 - k,
    {
        if bytes[k] != 0x30 && bytes[k] != 0x2d {
            assert(bytes@[k as int] != 0x30 && bytes@[k as int] != 0x2d);
            return true;
        }
        k = k + 1;
    }
    assert forall|i: int| 0 <= i < 36 implies !(#[trigger] bytes@[i] != 0x30 && bytes@[i] != 0x2d) by {}
    false
}

/// Whether `value` holds no character.
pub fn is_empty_text(value: &str) -> (r: bool)
    ensures
        r == (value@.len() == 0),
{
    value.unicode_len() == 0
}

/// Whether two texts are the same text.
pub fn same_text(a: &str, b: &str) -> (r: bool)
    ensures
        r == (a@ == b@),
{
    a.to_owned() == b.to_owned()
}

} // verus!
