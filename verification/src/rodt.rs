//! Tokens by which peers identify themselves.
//!
//! A peer sends the identifier of a token and a signature of it. The token is looked up outside
//! the library, and its owner is the key that the signature has to verify with.

use vstd::prelude::*;
use vstd::utf8::{decode_utf8, encode_scalar, encode_utf8, partial_valid_utf8, valid_utf8};

use crate::bytes::array_at;
use crate::encoding::{base64_decoded, decode_base64, decode_hex, hex_decoded, text_of_utf8, view_of};
use crate::errors::WireGuardError;
use crate::packet::{RODT_ID_PK_SZ, RODT_ID_SIGNATURE_SZ, RODT_ID_SZ};
use crate::signature::{check_signature, checked_signature, SignatureCheck};

verus! {

broadcast use vstd::slice::axiom_spec_len;

/// What a token's record says that matters here.
#[derive(Debug)]
pub struct Rodt {
    /// The owner of the token: an Ed25519 public key in hexadecimal.
    pub owner_id: String,
}

/// Why a peer's token was not accepted.
#[derive(Debug, Copy, Clone, PartialEq, Eq, Structural)]
pub enum VerificationFailure {
    /// The token is there, and does not vouch for the peer.
    Refused(WireGuardError),
    /// The token could not be looked up, which ends the process with this code.
    Exit(i32),
}

/// The method of the ledger's contract that answers a look-up.
pub const TOKEN_METHOD: &'static str = "nft_token";

/// The code that the process ends with where the token of a peer cannot be looked up.
pub const LOOKUP_FAILURE_EXIT_CODE: i32 = 1;

/// `s` without the zero bytes at its end.
pub open spec fn without_trailing_zeros(s: Seq<u8>) -> Seq<u8>
    decreases s.len(),
{
    if s.len() > 0 && s.last() == 0 {
        without_trailing_zeros(s.drop_last())
    } else {
        s
    }
}

/// The text of an identifier field.
pub open spec fn rodt_id_chars(rodt_id: Seq<u8>) -> Seq<char> {
    decode_utf8(without_trailing_zeros(rodt_id))
}

/// The identifier field that holds `id`: as much of it as leaves room for a zero byte, and zeros.
pub open spec fn padded_rodt_id(id: Seq<u8>) -> Seq<u8> {
    Seq::new(
        RODT_ID_SZ as nat,
        |i: int|
            if i < id.len() && i < RODT_ID_SZ - 1 {
                id[i]
            } else {
                0
            },
    )
}

/// What is asked for when the token with the identifier `id` is looked up.
pub open spec fn token_request_chars(id: Seq<char>) -> Seq<char> {
    "{\"token_id\": \""@ + id + "\"}"@
}

/// Whether a token's owner is a key: 64 hexadecimal digits.
pub open spec fn is_owner_key(owner_id: Seq<char>) -> bool {
    hex_decoded(owner_id) is Some && hex_decoded(owner_id)->0.len() == RODT_ID_PK_SZ
}

/// Whether what base64 made of a text has the length of a signature.
pub open spec fn is_signature_text(decoded: Option<Seq<u8>>) -> bool {
    decoded is Some && decoded->0.len() == RODT_ID_SIGNATURE_SZ
}

proof fn lemma_without_trailing_zeros(s: Seq<u8>)
    ensures
        without_trailing_zeros(s).len() <= s.len(),
        without_trailing_zeros(s) == s.take(without_trailing_zeros(s).len() as int),
        forall|i: int| without_trailing_zeros(s).len() <= i < s.len() ==> s[i] == 0,
        without_trailing_zeros(s).len() > 0 ==> without_trailing_zeros(s).last() != 0,
    decreases s.len(),
{
    if s.len() > 0 && s.last() == 0 {
        lemma_without_trailing_zeros(s.drop_last());
        let n = without_trailing_zeros(s.drop_last()).len() as int;
        assert(s.drop_last().take(n) =~= s.take(n));
        assert forall|i: int| n <= i < s.len() implies s[i] == 0 by {
            if i < s.len() - 1 {
                assert(s.drop_last()[i] == s[i]);
            }
        }
    } else {
        assert(s.take(s.len() as int) =~= s);
    }
}

/// Cutting `s` where its trailing zeros start is what `without_trailing_zeros` does.
pub(crate) proof fn lemma_cut_at(s: Seq<u8>, n: int)
    requires
        0 <= n <= s.len(),
        n > 0 ==> s[n - 1] != 0,
        forall|i: int| n <= i < s.len() ==> s[i] == 0,
    ensures
        without_trailing_zeros(s) == s.take(n),
    decreases s.len(),
{
    if n < s.len() {
        lemma_cut_at(s.drop_last(), n);
        assert(s.drop_last().take(n) =~= s.take(n));
    } else {
        assert(s.take(n) =~= s);
    }
}

/// Zeros at the end do not matter for whether bytes are UTF-8.
pub(crate) proof fn lemma_zeros_keep_utf8(s: Seq<u8>)
    ensures
        valid_utf8(s) <==> valid_utf8(without_trailing_zeros(s)),
{
    lemma_without_trailing_zeros(s);
    let n = without_trailing_zeros(s).len() as int;
    assert(s.subrange(0, n) =~= without_trailing_zeros(s));
    assert(s.subrange(0, s.len() as int) =~= s);
    if valid_utf8(s) {
        if n < s.len() {
            vstd::utf8::is_char_boundary_iff_not_is_continuation_byte(s, n);
        } else {
            vstd::utf8::is_char_boundary_start_end_of_seq(s);
        }
        vstd::utf8::valid_utf8_split(s, n);
    } else if valid_utf8(without_trailing_zeros(s)) {
        assert(partial_valid_utf8(s, n));
        vstd::utf8::partial_valid_utf8_extend_ascii_block(s, n, s.len() as int);
    }
}

/// The bytes of an identifier field without the zeros at its end.
fn trimmed_rodt_id(rodt_id: &[u8; RODT_ID_SZ]) -> (trimmed: &[u8])
    ensures
        trimmed@ == without_trailing_zeros(rodt_id@),
{
    let mut n: usize = RODT_ID_SZ;
    while n > 0 && rodt_id[n - 1] == 0
        invariant
            n <= RODT_ID_SZ,
            forall|i: int| n <= i < RODT_ID_SZ ==> rodt_id@[i] == 0,
        decreases n,
    {
        n = n - 1;
    }
    proof {
        lemma_cut_at(rodt_id@, n as int);
        assert(rodt_id@.subrange(0, n as int) =~= rodt_id@.take(n as int));
    }
    vstd::slice::slice_subrange(rodt_id.as_slice(), 0, n)
}

/// The text of an identifier field; `None` where the field is no UTF-8.
pub fn rodt_id_text(rodt_id: &[u8; RODT_ID_SZ]) -> (text: Option<String>)
    ensures
        match text {
            Some(t) => valid_utf8(rodt_id@) && t@ == rodt_id_chars(rodt_id@),
            None => !valid_utf8(rodt_id@),
        },
{
    proof {
        lemma_zeros_keep_utf8(rodt_id@);
    }
    match text_of_utf8(trimmed_rodt_id(rodt_id)) {
        Some(text) => {
            proof {
                vstd::utf8::encode_utf8_decode_utf8(text@);
            }
            Some(text.to_owned())
        },
        None => None,
    }
}

/// What to ask for when the token with the identifier `id` is looked up.
pub fn token_request(id: &str) -> (request: String)
    ensures
        request@ == token_request_chars(id@),
{
    "{\"token_id\": \"".to_owned().concat(id).concat("\"}")
}

/// What to ask for when the token that an identifier field names is looked up.
pub fn rodt_id_request(rodt_id: &[u8; RODT_ID_SZ]) -> (request: String)
    requires
        valid_utf8(rodt_id@),
    ensures
        request@ == token_request_chars(rodt_id_chars(rodt_id@)),
{
    match rodt_id_text(rodt_id) {
        Some(text) => token_request(text.as_str()),
        None => String::new(),
    }
}

/// The key that a token's owner is; `None` where the owner is not 64 hexadecimal digits.
pub fn owner_public_key(owner_id: &str) -> (key: Option<[u8; RODT_ID_PK_SZ]>)
    ensures
        match key {
            Some(k) => is_owner_key(owner_id@) && hex_decoded(owner_id@) == Some(k@),
            None => !is_owner_key(owner_id@),
        },
{
    match decode_hex(owner_id) {
        Some(bytes) if bytes.len() == RODT_ID_PK_SZ => {
            let key: [u8; RODT_ID_PK_SZ] = *array_at::<RODT_ID_PK_SZ>(bytes.as_slice(), 0);
            assert(key@ =~= bytes@);
            Some(key)
        },
        _ => None,
    }
}

/// The signature that decoding a base64 text led to; `None` where it led to no 64 bytes.
pub fn signature_from_decoded(decoded: Option<Vec<u8>>) -> (signature: Option<[u8; RODT_ID_SIGNATURE_SZ]>)
    ensures
        match signature {
            Some(s) => is_signature_text(view_of(decoded)) && view_of(decoded) == Some(s@),
            None => !is_signature_text(view_of(decoded)),
        },
{
    match decoded {
        Some(bytes) if bytes.len() == RODT_ID_SIGNATURE_SZ => {
            let signature: [u8; RODT_ID_SIGNATURE_SZ] = *array_at::<RODT_ID_SIGNATURE_SZ>(
                bytes.as_slice(),
                0,
            );
            assert(signature@ =~= bytes@);
            Some(signature)
        },
        _ => None,
    }
}

/// The outcome of checking `signature` on the identifier in `rodt_id` against a token's owner.
pub open spec fn owner_signed(owner_id: Seq<char>, rodt_id: Seq<u8>, signature: Seq<u8>) -> SignatureCheck {
    checked_signature(hex_decoded(owner_id)->0, without_trailing_zeros(rodt_id), signature)
}

/// Whether the peer that sent `rodt_id` and `rodt_id_signature` owns the token of that identifier,
/// where looking the token up by [`rodt_id_request`] led to `fetched`.
pub fn verify_and_fetch_rodt_id(
    rodt_id: [u8; RODT_ID_SZ],
    rodt_id_signature: [u8; RODT_ID_SIGNATURE_SZ],
    fetched: Option<Rodt>,
) -> (verified: Result<(bool, Rodt), VerificationFailure>)
    requires
        valid_utf8(rodt_id@),
        fetched matches Some(rodt) ==> is_owner_key(rodt.owner_id@),
    ensures
        match fetched {
            None => verified == Err::<(bool, Rodt), VerificationFailure>(
                VerificationFailure::Exit(LOOKUP_FAILURE_EXIT_CODE),
            ),
            Some(rodt) => match owner_signed(rodt.owner_id@, rodt_id@, rodt_id_signature@).error() {
                None => verified == Ok::<(bool, Rodt), VerificationFailure>((true, rodt)),
                Some(e) => verified == Err::<(bool, Rodt), VerificationFailure>(
                    VerificationFailure::Refused(e),
                ),
            },
        },
{
    match fetched {
        None => Err(VerificationFailure::Exit(LOOKUP_FAILURE_EXIT_CODE)),
        Some(rodt) => {
            let check: SignatureCheck = match owner_public_key(rodt.owner_id.as_str()) {
                Some(key) => check_signature(&key, trimmed_rodt_id(&rodt_id), &rodt_id_signature),
                None => SignatureCheck::MalformedKey,
            };
            match check.verdict() {
                Ok(()) => Ok((true, rodt)),
                Err(e) => Err(VerificationFailure::Refused(e)),
            }
        },
    }
}

/// Whether the service provider signed the peer's identifier, by the base64 signature that the
/// peer's token carries, where looking the provider's token up by [`token_request`] led to
/// `own_serviceprovider_rodt`. A token that could not be looked up vouches for nobody.
pub fn verify_rodt_match(
    peer_serviceprovidersignature: String,
    peer_token_id: [u8; RODT_ID_SZ],
    own_serviceprovider_rodt: Option<Rodt>,
) -> (matches: bool)
    requires
        valid_utf8(peer_token_id@),
        own_serviceprovider_rodt matches Some(rodt) ==> {
            &&& is_owner_key(rodt.owner_id@)
            &&& is_signature_text(base64_decoded(peer_serviceprovidersignature@))
        },
    ensures
        matches == match own_serviceprovider_rodt {
            None => false,
            Some(rodt) => owner_signed(
                rodt.owner_id@,
                peer_token_id@,
                base64_decoded(peer_serviceprovidersignature@)->0,
            ) == SignatureCheck::Match,
        },
{
    match own_serviceprovider_rodt {
        None => false,
        Some(rodt) => {
            let key: Option<[u8; RODT_ID_PK_SZ]> = owner_public_key(rodt.owner_id.as_str());
            let signature: Option<[u8; RODT_ID_SIGNATURE_SZ]> = signature_from_decoded(
                decode_base64(peer_serviceprovidersignature.as_str()),
            );
            match (key, signature) {
                (Some(key), Some(signature)) => check_signature(
                    &key,
                    trimmed_rodt_id(&peer_token_id),
                    &signature,
                ) == SignatureCheck::Match,
                _ => false,
            }
        },
    }
}

/// [`verify_rodt_match`] for any input: `None` where the identifier is no UTF-8, or where the
/// token was found and its owner is no key or the text no base64 of a signature.
pub fn try_verify_rodt_match(
    peer_serviceprovidersignature: String,
    peer_token_id: [u8; RODT_ID_SZ],
    own_serviceprovider_rodt: Option<Rodt>,
) -> (matches: Option<bool>)
    ensures
        matches == if !valid_utf8(peer_token_id@) {
            None
        } else {
            match own_serviceprovider_rodt {
                None => Some(false),
                Some(rodt) => if is_owner_key(rodt.owner_id@) && is_signature_text(
                    base64_decoded(peer_serviceprovidersignature@),
                ) {
                    Some(
                        owner_signed(
                            rodt.owner_id@,
                            peer_token_id@,
                            base64_decoded(peer_serviceprovidersignature@)->0,
                        ) == SignatureCheck::Match,
                    )
                } else {
                    None
                },
            }
        },
{
    if rodt_id_text(&peer_token_id).is_none() {
        return None;
    }
    if let Some(rodt) = &own_serviceprovider_rodt {
        if owner_public_key(rodt.owner_id.as_str()).is_none() {
            return None;
        }
        if signature_from_decoded(decode_base64(peer_serviceprovidersignature.as_str())).is_none() {
            return None;
        }
    }
    Some(verify_rodt_match(peer_serviceprovidersignature, peer_token_id, own_serviceprovider_rodt))
}

/// The last byte of a character's encoding is zero only for the zero character.
proof fn lemma_last_scalar_byte(c: char)
    ensures
        encode_scalar(c as u32).len() > 0,
        encode_scalar(c as u32).last() == 0 <==> c == '\0',
{
    let u = c as u32;
    assert(u < 0x80 ==> ((u & 0x7f) as u8 == 0 <==> u == 0)) by (bit_vector);
    assert(0x80 | (u & 0x3f) as u8 != 0) by (bit_vector);
}

/// The last byte of a text is zero only where its last character is.
proof fn lemma_last_byte(text: Seq<char>)
    ensures
        text.len() > 0 ==> encode_utf8(text).len() > 0 && (encode_utf8(text).last() == 0
            <==> text.last() == '\0'),
        text.len() == 0 ==> encode_utf8(text).len() == 0,
    decreases text.len(),
{
    if text.len() > 0 {
        lemma_last_scalar_byte(text[0]);
        lemma_last_byte(text.drop_first());
    }
}

/// The encoding of a text ends in that of its last character.
proof fn lemma_encode_last(text: Seq<char>)
    requires
        text.len() > 0,
    ensures
        encode_utf8(text) == encode_utf8(text.drop_last()) + encode_scalar(text.last() as u32),
    decreases text.len(),
{
    if text.len() == 1 {
        assert(encode_utf8(text.drop_first()) =~= Seq::empty());
        assert(encode_utf8(text.drop_last()) =~= Seq::empty());
    } else {
        lemma_encode_last(text.drop_first());
        assert(text.drop_first().drop_last() =~= text.drop_last().drop_first());
        assert(text.drop_last()[0] == text[0]);
    }
}

/// Every identifier field that a tunnel sends ends in a zero byte.
pub proof fn law_rodt_id_field_ends_in_zero(id: Seq<u8>)
    ensures
        padded_rodt_id(id).last() == 0,
{
}

/// Reading the field of an identifier gives the identifier back, where it is short enough to leave
/// room for a zero byte and does not itself end in one.
pub proof fn law_rodt_id_round_trip(id: Seq<u8>)
    requires
        id.len() < RODT_ID_SZ,
        id.len() > 0 ==> id.last() != 0,
    ensures
        without_trailing_zeros(padded_rodt_id(id)) == id,
{
    let field = padded_rodt_id(id);
    lemma_cut_at(field, id.len() as int);
    assert(field.take(id.len() as int) =~= id);
}

/// The identifier that a tunnel is made with is the one that its peer reads in the field, asks the
/// token by, and checks the signature on, where it is short enough and does not end in a zero
/// character: what the owner of the token signs is the identifier itself.
pub proof fn law_identifier_is_what_the_owner_signs(
    text: Seq<char>,
    owner_id: Seq<char>,
    signature: Seq<u8>,
)
    requires
        encode_utf8(text).len() < RODT_ID_SZ,
        text.len() > 0 ==> text.last() != '\0',
    ensures
        valid_utf8(padded_rodt_id(encode_utf8(text))),
        rodt_id_chars(padded_rodt_id(encode_utf8(text))) == text,
        owner_signed(owner_id, padded_rodt_id(encode_utf8(text)), signature) == checked_signature(
            hex_decoded(owner_id)->0,
            encode_utf8(text),
            signature,
        ),
{
    let id = encode_utf8(text);
    lemma_last_byte(text);
    law_rodt_id_round_trip(id);
    vstd::utf8::encode_utf8_valid_utf8(text);
    vstd::utf8::encode_utf8_decode_utf8(text);
    lemma_zeros_keep_utf8(padded_rodt_id(id));
}

/// `text` without the zero characters at its end.
pub open spec fn without_trailing_nuls(text: Seq<char>) -> Seq<char>
    decreases text.len(),
{
    if text.len() > 0 && text.last() == '\0' {
        without_trailing_nuls(text.drop_last())
    } else {
        text
    }
}

/// Cutting the zero characters off a text cuts the zero bytes off its bytes.
proof fn lemma_trimmed_text(text: Seq<char>)
    ensures
        decode_utf8(without_trailing_zeros(encode_utf8(text))) == without_trailing_nuls(text),
    decreases text.len(),
{
    lemma_last_byte(text);
    if text.len() > 0 && text.last() == '\0' {
        lemma_encode_last(text);
        assert(0u32 & 0x7f == 0) by (bit_vector);
        assert(encode_utf8(text).drop_last() =~= encode_utf8(text.drop_last()));
        lemma_trimmed_text(text.drop_last());
    } else {
        vstd::utf8::encode_utf8_decode_utf8(text);
    }
}

/// Cutting the zero bytes off an identifier field is cutting the zero characters off its text.
pub proof fn law_rodt_id_is_the_trimmed_text(field: Seq<u8>)
    requires
        valid_utf8(field),
    ensures
        rodt_id_chars(field) == without_trailing_nuls(decode_utf8(field)),
        encode_utf8(rodt_id_chars(field)) == without_trailing_zeros(field),
{
    lemma_zeros_keep_utf8(field);
    vstd::utf8::decode_utf8_encode_utf8(without_trailing_zeros(field));
    vstd::utf8::decode_utf8_encode_utf8(field);
    lemma_trimmed_text(decode_utf8(field));
}

} // verus!
