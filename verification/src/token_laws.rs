//! What tokens prove of peers, in terms of keys, identifiers and signatures.
//!
//! Each law speaks of calls: `call_ensures` holds of the arguments and the result of a call.

use vstd::prelude::*;
use vstd::utf8::{encode_utf8, valid_utf8};

use crate::encoding::{base64_decoded, hex_decoded, hex_value};
use crate::errors::WireGuardError;
use crate::packet::{RODT_ID_PK_SZ, RODT_ID_SIGNATURE_SZ, RODT_ID_SZ};
use crate::reading_laws::{is_digit_of, writes_hex};
use crate::rodt::{
    lemma_cut_at, lemma_zeros_keep_utf8, owner_public_key, rodt_id_request, rodt_id_text,
    signature_from_decoded, token_request, try_verify_rodt_match, verify_and_fetch_rodt_id,
    verify_rodt_match, without_trailing_zeros, Rodt, VerificationFailure,
};
use crate::signature::{check_signature, ed25519_key_decodes, ed25519_verifies, SignatureCheck};

verus! {

/// Whether the owner of `key` made `signature` of `message`, the bytes as they are: the signature can
/// be one, the key is one, and they fit.
pub open spec fn signed_by(key: Seq<u8>, message: Seq<u8>, signature: Seq<u8>) -> bool {
    &&& signature[63] < 32
    &&& ed25519_key_decodes(key)
    &&& ed25519_verifies(key, message, signature)
}

/// Whether an identifier field holds `id`: the bytes of it, and zeros behind them.
pub open spec fn holds_id(field: Seq<u8>, id: Seq<u8>) -> bool {
    &&& field.len() == 128
    &&& id.len() <= 128
    &&& id.len() > 0 ==> id[id.len() - 1] != 0
    &&& forall|i: int| 0 <= i < id.len() ==> #[trigger] field[i] == id[i]
    &&& forall|i: int| id.len() <= i < 128 ==> #[trigger] field[i] == 0
}

pub(crate) proof fn lemma_holds_id(field: Seq<u8>, id: Seq<u8>)
    requires
        holds_id(field, id),
    ensures
        without_trailing_zeros(field) == id,
{
    lemma_cut_at(field, id.len() as int);
    assert(field.take(id.len() as int) =~= id);
}

pub(crate) proof fn lemma_hex_decoded(text: Seq<char>, bytes: Seq<u8>)
    requires
        writes_hex(text, bytes),
    ensures
        hex_decoded(text) == Some(bytes),
{
    assert forall|i: int| 0 <= i < text.len() implies hex_value(#[trigger] text[i]) is Some by {
        let j = i / 2;
        assert(bytes[j] as int / 16 < 16);
        assert(i == 2 * j || i == 2 * j + 1);
    }
    assert forall|i: int| 0 <= i < bytes.len() implies #[trigger] hex_decoded(text)->0[i] == bytes[i] by {
        assert(is_digit_of(text[2 * i], bytes[i] as int / 16));
        assert(bytes[i] as int / 16 < 16);
    }
    assert(hex_decoded(text)->0 =~= bytes);
}

/// Checking a signature comes to a match exactly where it is one of the message, byte for byte, by
/// the owner of the key; and where it is not, to the first reason why.
pub proof fn law_signature_is_checked_on_the_message_itself(
    key: &[u8; RODT_ID_PK_SZ],
    message: &[u8],
    signature: &[u8; RODT_ID_SIGNATURE_SZ],
    check: SignatureCheck,
)
    requires
        call_ensures(check_signature, (key, message, signature), check),
    ensures
        check == SignatureCheck::Match <==> signed_by(key@, message@, signature@),
        check == SignatureCheck::MalformedSignature <==> signature@[63] >= 32,
        check == SignatureCheck::MalformedKey <==> signature@[63] < 32 && !ed25519_key_decodes(key@),
        check == SignatureCheck::Mismatch <==> signature@[63] < 32 && ed25519_key_decodes(key@)
            && !ed25519_verifies(key@, message@, signature@),
{
}

/// Each outcome of a check has a verdict of its own, and only a match is no error.
pub proof fn law_verdicts_tell_the_outcomes_apart(
    check: SignatureCheck,
    verdict: Result<(), WireGuardError>,
)
    requires
        call_ensures(SignatureCheck::verdict, (check,), verdict),
    ensures
        verdict is Ok <==> check == SignatureCheck::Match,
        verdict == Err::<(), WireGuardError>(
            WireGuardError::PeerEd25519SignatureParsingFailure,
        ) <==> check == SignatureCheck::MalformedSignature,
        verdict == Err::<(), WireGuardError>(
            WireGuardError::PeerEd25519PublicKeyParsingFailure,
        ) <==> check == SignatureCheck::MalformedKey,
        verdict == Err::<(), WireGuardError>(
            WireGuardError::PeerEd25519SignatureVerificationFailure,
        ) <==> check == SignatureCheck::Mismatch,
{
}

/// An owner is the key that its text writes in hexadecimal.
pub proof fn law_owner_is_the_key_that_it_writes(
    owner_id: &str,
    key: Option<[u8; RODT_ID_PK_SZ]>,
    bytes: Seq<u8>,
)
    requires
        call_ensures(owner_public_key, (owner_id,), key),
        bytes.len() == 32,
        writes_hex(owner_id@, bytes),
    ensures
        key matches Some(k) && k@ == bytes,
{
    lemma_hex_decoded(owner_id@, bytes);
}

/// An owner that is a key is written with 64 hexadecimal digits.
pub proof fn law_owner_key_has_64_digits(owner_id: &str, key: Option<[u8; RODT_ID_PK_SZ]>)
    requires
        call_ensures(owner_public_key, (owner_id,), key),
    ensures
        key matches Some(k) ==> writes_hex(owner_id@, k@),
{
    if let Some(k) = key {
        let text = owner_id@;
        assert(text.len() == 64);
        assert(hex_decoded(text)->0.len() == 32);
        assert forall|i: int| 0 <= i < 32 implies is_digit_of(text[2 * i], #[trigger] k@[i] as int / 16)
            && is_digit_of(text[2 * i + 1], k@[i] as int % 16) by {
            assert(hex_value(text[2 * i]) is Some);
            assert(hex_value(text[2 * i + 1]) is Some);
            let (high, low) = (hex_value(text[2 * i])->0, hex_value(text[2 * i + 1])->0);
            assert(0 <= high < 16 && 0 <= low < 16);
            assert(k@[i] == hex_decoded(text)->0[i]);
            assert(k@[i] == 16 * high + low);
        }
    }
}

/// Decoded bytes are a signature exactly where they are 64, and then the same ones.
pub proof fn law_signature_is_64_decoded_bytes(
    decoded: Option<Vec<u8>>,
    signature: Option<[u8; RODT_ID_SIGNATURE_SZ]>,
)
    requires
        call_ensures(signature_from_decoded, (decoded,), signature),
    ensures
        match decoded {
            Some(bytes) => if bytes@.len() == 64 {
                signature matches Some(s) && s@ == bytes@
            } else {
                signature is None
            },
            None => signature is None,
        },
{
}

/// The text of a field is the text whose UTF-8 it holds before its zeros, and a field that is no
/// UTF-8 has none.
pub proof fn law_field_gives_the_identifier_back(
    field: &[u8; RODT_ID_SZ],
    read: Option<String>,
    text: Seq<char>,
)
    requires
        call_ensures(rodt_id_text, (field,), read),
    ensures
        holds_id(field@, encode_utf8(text)) ==> (read matches Some(t) && t@ == text),
        read is None <==> !valid_utf8(field@),
{
    if holds_id(field@, encode_utf8(text)) {
        lemma_holds_id(field@, encode_utf8(text));
        vstd::utf8::encode_utf8_valid_utf8(text);
        vstd::utf8::encode_utf8_decode_utf8(text);
        lemma_zeros_keep_utf8(field@);
    }
}

/// A token is asked for by an object with its identifier as it is.
pub proof fn law_request_holds_the_identifier(id: &str, request: String)
    requires
        call_ensures(token_request, (id,), request),
    ensures
        request@ == seq!['{', '"', 't', 'o', 'k', 'e', 'n', '_', 'i', 'd', '"', ':', ' ', '"'] + id@
            + seq!['"', '}'],
{
    reveal_strlit("{\"token_id\": \"");
    reveal_strlit("\"}");
    assert("{\"token_id\": \""@ =~= seq![
        '{',
        '"',
        't',
        'o',
        'k',
        'e',
        'n',
        '_',
        'i',
        'd',
        '"',
        ':',
        ' ',
        '"',
    ]);
    assert("\"}"@ =~= seq!['"', '}']);
}

/// The token that a field names is asked for by the identifier in the field.
pub proof fn law_field_asks_for_its_identifier(
    field: &[u8; RODT_ID_SZ],
    request: String,
    id: &str,
    expected: String,
)
    requires
        call_ensures(rodt_id_request, (field,), request),
        call_ensures(token_request, (id,), expected),
        holds_id(field@, encode_utf8(id@)),
    ensures
        request@ == expected@,
{
    lemma_holds_id(field@, encode_utf8(id@));
    vstd::utf8::encode_utf8_decode_utf8(id@);
}

/// A peer is accepted exactly where the owner of the token, by the key that the token names, made the
/// signature of the identifier in the field; where not, it is refused with the reason, and where there
/// is no token, the process is to end with code 1.
pub proof fn law_peer_is_accepted_by_its_owners_signature(
    field: [u8; RODT_ID_SZ],
    signature: [u8; RODT_ID_SIGNATURE_SZ],
    fetched: Option<Rodt>,
    verified: Result<(bool, Rodt), VerificationFailure>,
    id: Seq<u8>,
    key: Seq<u8>,
)
    requires
        call_ensures(verify_and_fetch_rodt_id, (field, signature, fetched), verified),
        holds_id(field@, id),
        key.len() == 32,
        fetched matches Some(rodt) ==> writes_hex(rodt.owner_id@, key),
    ensures
        match fetched {
            None => verified matches Err(VerificationFailure::Exit(code)) && code == 1,
            Some(rodt) => {
                &&& signed_by(key, id, signature@) ==> (verified matches Ok((accepted, token))
                    && accepted && token == rodt)
                &&& !signed_by(key, id, signature@) ==> (verified matches Err(
                    VerificationFailure::Refused(e),
                ) && e == if signature@[63] >= 32 {
                    WireGuardError::PeerEd25519SignatureParsingFailure
                } else if !ed25519_key_decodes(key) {
                    WireGuardError::PeerEd25519PublicKeyParsingFailure
                } else {
                    WireGuardError::PeerEd25519SignatureVerificationFailure
                })
            },
        },
{
    lemma_holds_id(field@, id);
    if let Some(rodt) = fetched {
        lemma_hex_decoded(rodt.owner_id@, key);
    }
}

/// The provider vouches for a peer exactly where the owner of its token made the signature that the
/// base64 text gives of the identifier in the field. A provider without a token vouches for nobody.
pub proof fn law_provider_vouches_by_its_signature(
    text: String,
    field: [u8; RODT_ID_SZ],
    provider: Option<Rodt>,
    matches: bool,
    id: Seq<u8>,
    key: Seq<u8>,
    signature: Seq<u8>,
)
    requires
        call_ensures(verify_rodt_match, (text, field, provider), matches),
        holds_id(field@, id),
        key.len() == 32,
        provider matches Some(rodt) ==> writes_hex(rodt.owner_id@, key) && base64_decoded(text@)
            == Some(signature),
    ensures
        matches == (provider is Some && signed_by(key, id, signature)),
{
    lemma_holds_id(field@, id);
    if let Some(rodt) = provider {
        lemma_hex_decoded(rodt.owner_id@, key);
    }
}

/// On any input: the verdict on a provider is the same where there is one, and there is none exactly
/// where the field is no text, or the token was found and its owner is no key or the base64 no
/// signature.
pub proof fn law_provider_is_judged_where_it_can_be(
    text: String,
    field: [u8; RODT_ID_SZ],
    provider: Option<Rodt>,
    matches: Option<bool>,
    id: Seq<u8>,
    key: Seq<u8>,
)
    requires
        call_ensures(try_verify_rodt_match, (text, field, provider), matches),
        holds_id(field@, id),
        key.len() == 32,
        provider matches Some(rodt) ==> writes_hex(rodt.owner_id@, key),
    ensures
        matches == if !valid_utf8(field@) {
            None
        } else if provider is None {
            Some(false)
        } else {
            match base64_decoded(text@) {
                Some(signature) if signature.len() == 64 => Some(signed_by(key, id, signature)),
                _ => None,
            }
        },
{
    lemma_holds_id(field@, id);
    if let Some(rodt) = provider {
        lemma_hex_decoded(rodt.owner_id@, key);
    }
}

} // verus!
