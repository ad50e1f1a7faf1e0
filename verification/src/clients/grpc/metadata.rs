//! The headers of a gRPC request, as `tonic` holds them.
use tonic::metadata::errors::InvalidMetadataValue;
use tonic::metadata::MetadataMap;
use vstd::prelude::*;

verus! {

#[verifier::external_type_specification]
#[verifier::external_body]
pub struct ExMetadataMap(MetadataMap);

#[verifier::external_type_specification]
#[verifier::external_body]
pub struct ExInvalidMetadataValue(InvalidMetadataValue);

/// The values that a `tonic::metadata::MetadataMap` holds under each name, in their order.
pub uninterp spec fn metadata_content(map: MetadataMap) -> Map<Seq<char>, Seq<Seq<char>>>;

/// The headers of a request that has none.
pub open spec fn no_metadata() -> Map<Seq<char>, Seq<Seq<char>>> {
    Map::empty()
}

/// How many names a map may hold so that one more surely fits.
pub open spec fn name_limit() -> nat {
    6553
}

/// The map has room for one more name.
pub open spec fn has_room(map: MetadataMap) -> bool {
    metadata_content(map).dom().finite() && metadata_content(map).dom().len() <= name_limit()
}

/// A name that can be given to a header: small letters only.
pub open spec fn is_header_name(name: Seq<char>) -> bool {
    0 < name.len() <= 64 && forall|i: int|
        0 <= i < name.len() ==> 'a' <= (#[trigger] name[i]) && name[i] <= 'z'
}

/// A character that a header can carry: any but the control characters, of which only the
/// tabulator is carried.
pub open spec fn is_header_char(c: char) -> bool {
    c == '\t' || (' ' <= c && c != '\u{7f}')
}

/// A text that a header can carry.
pub open spec fn is_header_text(text: Seq<char>) -> bool {
    forall|i: int| 0 <= i < text.len() ==> is_header_char(#[trigger] text[i])
}

/// `MetadataMap::new`: no headers.
#[verifier::external_body]
pub(crate) fn new_metadata() -> (map: MetadataMap)
    ensures
        metadata_content(map) == no_metadata(),
{
    MetadataMap::new()
}

/// `MetadataMap::insert` with a value that `MetadataValue::from_str` makes of the text: where
/// a header can carry the text, the name gets it in place of all that it had; where not, an
/// error is given and the map stays as it is. `insert` panics on a name that is no header
/// name, and where the map is full.
#[verifier::external_body]
pub(crate) fn insert_header(map: &mut MetadataMap, name: &'static str, text: &str) -> (res: Result<
    (),
    InvalidMetadataValue,
>)
    requires
        is_header_name(name@),
        has_room(*old(map)),
    ensures
        res is Ok <==> is_header_text(text@),
        res is Ok ==> metadata_content(*final(map)) == metadata_content(*old(map)).insert(
            name@,
            seq![text@],
        ),
        res is Err ==> metadata_content(*final(map)) == metadata_content(*old(map)),
{
    map.insert(name, text.parse()?);
    Ok(())
}

/// What an `InvalidMetadataValue` displays, which is always the same.
#[verifier::external_body]
pub(crate) fn metadata_error_text(error: &InvalidMetadataValue) -> (text: String)
    ensures
        text@ == "failed to parse metadata value"@,
{
    error.to_string()
}

/// A header carries a text exactly if the text holds no control character: none below the blank
/// but the tabulator, and not the delete character.
pub proof fn law_what_a_header_carries(text: Seq<char>)
    ensures
        is_header_text(text) <==> forall|i: int|
            0 <= i < text.len() ==> ((#[trigger] text[i]) as int >= 32 || text[i] as int == 9)
                && text[i] as int != 127,
{
    if is_header_text(text) {
        assert forall|i: int| 0 <= i < text.len() implies ((#[trigger] text[i]) as int >= 32
            || text[i] as int == 9) && text[i] as int != 127 by {
            assert(is_header_char(text[i]));
        }
    }
}

} // verus!
