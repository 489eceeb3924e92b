use vstd::prelude::*;
use vstd::utf8::{encode_scalar, encode_utf8};

use tonic::metadata::errors::InvalidMetadataValue;
use tonic::metadata::MetadataValue;

verus! {

/// OAuth authentication scope for GCS and GCTTS.
pub const AUTH_SCOPE: &'static str = "https://www.googleapis.com/auth/cloud-platform";

/// The error of the `tonic` crate for text that gRPC metadata cannot hold.
#[verifier::external_type_specification]
#[verifier::external_body]
pub struct ExInvalidMetadataValue(tonic::metadata::errors::InvalidMetadataValue);

/// Can gRPC metadata hold this byte?
pub open spec fn is_metadata_byte(byte: u8) -> bool {
    byte >= 32 && byte != 127 || byte == 9
}

/// Can gRPC metadata hold this text?
pub open spec fn is_metadata_text(text: Seq<char>) -> bool {
    forall|i: int| 0 <= i < encode_utf8(text).len() ==> is_metadata_byte(encode_utf8(text)[i])
}

/// Calls `tonic::metadata::MetadataValue::from_str`, and hands out the bytes of the value.
///
/// Claims that they are the UTF-8 bytes of the text, and that there is an error if and only if one
/// of these is a control character other than a tab.
#[verifier::external_body]
fn metadata_value(text: &str) -> (result: Result<Vec<u8>, InvalidMetadataValue>)
    ensures
        match result {
            Ok(bytes) => is_metadata_text(text@) && bytes@ == encode_utf8(text@),
            Err(_) => !is_metadata_text(text@),
        },
{
    MetadataValue::from_str(text).map(|value| value.as_encoded_bytes().to_vec())
}

/// The value of the `authorization` key of every call, made of an access token.
pub open spec fn bearer(token: Seq<char>) -> Seq<char> {
    "Bearer "@ + token
}

/// Make the value of the `authorization` key out of an access token.
///
/// Returns [`None`] if the token cannot stand there.
pub fn oauth_key(token: &str) -> (key: Option<Vec<u8>>)
    ensures
        match key {
            Some(bytes) => {
                &&& is_metadata_text(bearer(token@))
                &&& bytes@ == encode_utf8(bearer(token@))
            },
            None => !is_metadata_text(bearer(token@)),
        },
{
    let text = "Bearer ".to_owned().concat(token);
    match metadata_value(text.as_str()) {
        Ok(bytes) => Some(bytes),
        Err(_) => None,
    }
}

/// Is this a tab, or no ASCII control character at all?
pub open spec fn is_plain(character: char) -> bool {
    character as u32 >= 32 && character as u32 != 127 || character as u32 == 9
}

/// Characters up to 127 are one byte in UTF-8. All others are made of bytes from 128 on.
proof fn lemma_scalar_bytes(scalar: u32)
    ensures
        scalar <= 127 ==> encode_scalar(scalar) == seq![scalar as u8],
        scalar > 127 ==> forall|i: int|
            0 <= i < encode_scalar(scalar).len() ==> #[trigger] encode_scalar(scalar)[i] >= 128,
        encode_scalar(scalar).len() > 0,
{
    assert(scalar <= 127 ==> (scalar & 0x7F) as u8 == scalar as u8) by (bit_vector);
    assert(0xC0 | ((scalar >> 6) & 0x1F) as u8 >= 128u8) by (bit_vector);
    assert(0xE0 | ((scalar >> 12) & 0x0F) as u8 >= 128u8) by (bit_vector);
    assert(0xF0 | ((scalar >> 18) & 0x7) as u8 >= 128u8) by (bit_vector);
    assert(0x80 | (scalar & 0x3F) as u8 >= 128u8) by (bit_vector);
    assert(0x80 | ((scalar >> 6) & 0x3F) as u8 >= 128u8) by (bit_vector);
    assert(0x80 | ((scalar >> 12) & 0x3F) as u8 >= 128u8) by (bit_vector);
}

/// gRPC metadata can hold exactly the texts without ASCII control characters, among which a tab does not
/// count.
pub proof fn metadata_text_is_plain(text: Seq<char>)
    ensures
        is_metadata_text(text) <==> forall|i: int|
            0 <= i < text.len() ==> is_plain(#[trigger] text[i]),
    decreases text.len(),
{
    if text.len() > 0 {
        let first = encode_scalar(text[0] as u32);
        let rest = text.drop_first();
        let bytes = encode_utf8(text);
        lemma_scalar_bytes(text[0] as u32);
        metadata_text_is_plain(rest);
        assert(bytes == first + encode_utf8(rest));
        if is_metadata_text(text) {
            assert(is_metadata_byte(bytes[0]));
            assert forall|i: int| 0 <= i < encode_utf8(rest).len() implies is_metadata_byte(
                encode_utf8(rest)[i],
            ) by {
                assert(bytes[i + first.len()] == encode_utf8(rest)[i]);
            }
            assert forall|i: int| 0 <= i < text.len() implies is_plain(#[trigger] text[i]) by {
                if i > 0 {
                    assert(rest[i - 1] == text[i]);
                }
            }
        }
        if forall|i: int| 0 <= i < text.len() ==> is_plain(#[trigger] text[i]) {
            assert(is_plain(text[0]));
            assert forall|i: int| 0 <= i < rest.len() implies is_plain(#[trigger] rest[i]) by {
                assert(rest[i] == text[i + 1]);
            }
            assert forall|i: int| 0 <= i < bytes.len() implies is_metadata_byte(bytes[i]) by {
                if i >= first.len() {
                    assert(bytes[i] == encode_utf8(rest)[i - first.len()]);
                } else {
                    assert(bytes[i] == first[i]);
                }
            }
        }
    }
}

/// An access token makes a valid key exactly if it has no ASCII control characters, among which a tab
/// does not count.
pub proof fn oauth_key_needs_plain_token(token: Seq<char>)
    ensures
        is_metadata_text(bearer(token)) <==> forall|i: int|
            0 <= i < token.len() ==> is_plain(#[trigger] token[i]),
{
    reveal_strlit("Bearer ");
    let text = bearer(token);
    metadata_text_is_plain(text);
    assert(text.len() == 7 + token.len());
    assert forall|i: int| 0 <= i < 7 implies is_plain(#[trigger] text[i]) by {
        assert(text[i] == "Bearer "@[i]);
    }
    if is_metadata_text(text) {
        assert forall|i: int| 0 <= i < token.len() implies is_plain(#[trigger] token[i]) by {
            assert(text[i + 7] == token[i]);
        }
    }
    if forall|i: int| 0 <= i < token.len() ==> is_plain(#[trigger] token[i]) {
        assert forall|i: int| 0 <= i < text.len() implies is_plain(#[trigger] text[i]) by {
            if i >= 7 {
                assert(text[i] == token[i - 7]);
            }
        }
    }
}

} // verus!
