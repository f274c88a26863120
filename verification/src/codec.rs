//! Decoders that outside crates supply: standard base-64 and PEM blocks.

use vstd::prelude::*;

verus! {

/// `base64::DecodeError`, carried through unopened.
#[verifier::external_type_specification]
#[verifier::external_body]
pub struct ExDecodeError(base64::DecodeError);

/// `nom_pem::PemParsingError`, carried through unopened.
#[verifier::external_type_specification]
#[verifier::external_body]
pub struct ExPemParsingError(nom_pem::PemParsingError);

/// What `text` decodes to as base-64 in the standard alphabet with padding,
/// or `None` where the `base64` crate rejects it.
pub uninterp spec fn base64_decoding(text: Seq<u8>) -> Option<Seq<u8>>;

/// The payload of the first PEM block in `input`, or `None` where `nom_pem`
/// finds no well-formed block at its start.
pub uninterp spec fn pem_block_data(input: Seq<u8>) -> Option<Seq<u8>>;

/// Calls `base64::decode_config` with `base64::STANDARD`, which is also what
/// `base64::decode` does.  The outcome depends on the bytes of `text` alone:
/// the decoded bytes stand under the name `base64_decoding`, and an error is
/// returned exactly where that name gives `None`.
#[verifier::external_body]
fn decode_standard(text: &[u8]) -> (decoded: Result<Vec<u8>, base64::DecodeError>)
    ensures
        decoded matches Ok(bytes) ==> base64_decoding(text@) == Some(bytes@),
        decoded is Err ==> base64_decoding(text@) is None,
{
    base64::decode_config(text, base64::STANDARD)
}

/// Calls `nom_pem::decode_block` and keeps the block's `data`.  The outcome
/// depends on the bytes of `input` alone: the payload stands under the name
/// `pem_block_data`, and an error is returned exactly where that name gives
/// `None`.
#[verifier::external_body]
fn decode_block_data(input: &[u8]) -> (data: Result<Vec<u8>, nom_pem::PemParsingError>)
    ensures
        data matches Ok(bytes) ==> pem_block_data(input@) == Some(bytes@),
        data is Err ==> pem_block_data(input@) is None,
{
    match nom_pem::decode_block(input) {
        Ok(block) => Ok(block.data),
        Err(e) => Err(e),
    }
}

/// The view of an optional buffer.
pub open spec fn bytes_view(bytes: Option<Vec<u8>>) -> Option<Seq<u8>> {
    match bytes {
        Some(b) => Some(b@),
        None => None,
    }
}

/// Decodes standard, padded base-64.  `None` means the text is not valid.
pub fn decode_base64(text: &[u8]) -> (decoded: Option<Vec<u8>>)
    ensures
        bytes_view(decoded) == base64_decoding(text@),
{
    match decode_standard(text) {
        Ok(bytes) => Some(bytes),
        Err(_) => None,
    }
}

/// Extracts the payload of the PEM block that `input` starts with.  `None`
/// means there is no well-formed block.
pub fn decode_pem(input: &[u8]) -> (data: Option<Vec<u8>>)
    ensures
        bytes_view(data) == pem_block_data(input@),
{
    match decode_block_data(input) {
        Ok(bytes) => Some(bytes),
        Err(_) => None,
    }
}

} // verus!
