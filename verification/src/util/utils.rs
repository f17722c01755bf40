use crate::util::generic_json::{json_from_value, value_json, Json, JsonView};
use base64::Engine;
use vstd::prelude::*;

verus! {

/// An NBT compound as the `nbt` crate holds it, carried through as it is.
#[verifier::external_type_specification]
#[verifier::external_body]
pub struct ExBlob(nbt::Blob);

/// An NBT tag as the `nbt` crate holds it, carried through as it is.
#[verifier::external_type_specification]
#[verifier::external_body]
pub struct ExTag(nbt::Value);

/// The bytes that `text` stands for in standard base64 with padding, if it
/// is such text.
pub uninterp spec fn base64_decoded(text: Seq<char>) -> Option<Seq<u8>>;

/// The JSON document that `serde_json::to_value` writes an NBT tag as, if
/// it writes one.
pub uninterp spec fn tag_json(tag: nbt::Value) -> Option<JsonView>;

/// The named tags of the NBT compound that `bytes` hold in gzip form, each
/// as the JSON document it is written as, if `bytes` hold such a compound.
pub uninterp spec fn gzip_nbt(bytes: Seq<u8>) -> Option<Map<Seq<char>, Option<JsonView>>>;

/// The named tags that an `nbt::Blob` holds, each as the JSON document it
/// is written as.
pub uninterp spec fn blob_tags(blob: nbt::Blob) -> Map<Seq<char>, Option<JsonView>>;

/// `decode` of base64's `general_purpose::STANDARD` engine: succeeds
/// exactly on standard base64 text, and then returns the bytes it stands for.
#[verifier::external_body]
fn decode_base64(text: &str) -> (r: Option<Vec<u8>>)
    ensures
        match r {
            Some(bytes) => base64_decoded(text@) == Some(bytes@),
            None => base64_decoded(text@).is_none(),
        },
{
    base64::engine::general_purpose::STANDARD.decode(text).ok()
}

/// `nbt::from_gzip_reader` to an `nbt::Blob`: succeeds exactly on the bytes
/// that hold an NBT compound in gzip form, and then returns its tags.
#[verifier::external_body]
fn read_gzip_blob(bytes: &Vec<u8>) -> (r: Option<nbt::Blob>)
    ensures
        match r {
            Some(blob) => gzip_nbt(bytes@) == Some(blob_tags(blob)),
            None => gzip_nbt(bytes@).is_none(),
        },
{
    nbt::from_gzip_reader::<_, nbt::Blob>(std::io::Cursor::new(bytes)).ok()
}

/// `get` of `nbt::Blob`: the tag of that name, if the blob has it.
#[verifier::external_body]
fn blob_tag<'a>(blob: &'a nbt::Blob, name: &'static str) -> (r: Option<&'a nbt::Value>)
    ensures
        match r {
            Some(tag) => blob_tags(*blob).contains_key(name@) && blob_tags(*blob)[name@]
                == tag_json(*tag),
            None => !blob_tags(*blob).contains_key(name@),
        },
{
    blob.get(name)
}

/// `serde_json::to_value` of an NBT tag: the tag written as JSON.
#[verifier::external_body]
fn tag_to_value(tag: &nbt::Value) -> (r: Option<serde_json::Value>)
    ensures
        match r {
            Some(value) => tag_json(*tag) == Some(value_json(value)),
            None => tag_json(*tag).is_none(),
        },
{
    serde_json::to_value(tag).ok()
}

/// Milliseconds since the Unix epoch, read from the system clock
/// (`std::time::SystemTime::now`). Nothing is promised of the value: two
/// calls may return anything, in any order.
#[verifier::external_body]
pub fn get_timestamp_millis() -> i64 {
    std::time::SystemTime::now().duration_since(std::time::UNIX_EPOCH).map_or(
        0,
        |elapsed| elapsed.as_millis() as i64,
    )
}

/// What an inventory blob decodes to: the tag `i` of the NBT compound that
/// the text holds in base64 and gzip. A failure at any step gives nothing.
pub open spec fn nbt_items(data: Seq<char>) -> Option<JsonView> {
    match base64_decoded(data) {
        Some(bytes) => tag_of(gzip_nbt(bytes), "i"@),
        None => None,
    }
}

/// The tag of a name among the tags read, if any were read, it is there,
/// and it can be written as JSON.
pub open spec fn tag_of(tags: Option<Map<Seq<char>, Option<JsonView>>>, name: Seq<char>)
    -> Option<JsonView> {
    match tags {
        Some(tags) => if tags.contains_key(name) {
            tags[name]
        } else {
            None
        },
        None => None,
    }
}

/// Decodes an inventory blob: base64, then gzip, then NBT, of which the
/// tag `i` is returned as JSON.
pub fn parse_nbt(data: &str) -> (r: Option<Json>)
    ensures
        r.deep_view() == nbt_items(data@),
{
    match decode_base64(data) {
        Some(bytes) => parse_gzip_nbt(&bytes),
        None => None,
    }
}

/// Decodes the bytes of an inventory blob: gzip, then NBT, of which the
/// tag `i` is returned as JSON.
pub fn parse_gzip_nbt(bytes: &Vec<u8>) -> (r: Option<Json>)
    ensures
        r.deep_view() == tag_of(gzip_nbt(bytes@), "i"@),
{
    match read_gzip_blob(bytes) {
        Some(blob) => match blob_tag(&blob, "i") {
            Some(tag) => match tag_to_value(tag) {
                Some(value) => Some(json_from_value(&value)),
                None => None,
            },
            None => None,
        },
        None => None,
    }
}

} // verus!
