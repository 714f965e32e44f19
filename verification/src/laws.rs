//! The guarantees the codecs give, each proved from the contracts stated in
//! the other modules: round trips from the domain side, canonical-form
//! stability from the wire side, and the typed rejection of malformed input.

use vstd::prelude::*;

use crate::auth::{decode_base, decode_module, encode_base, encode_module, BaseAccountMsgView,
    BaseAccountView, ModuleAccountMsgView, ModuleAccountView};
use crate::error::ParseError;
use crate::ident::{lemma_separator_unique, parse_address, valid_address, valid_split,
    AccountIdView};
use crate::key::{decode_key, ed25519_url, encode_key, lemma_urls_distinct, secp256k1_url,
    AnyMsgView, PublicKeyView, ED25519_KEY_LEN, SECP256K1_KEY_LEN};

verus! {

/// Parsing the canonical string form of a well-formed identifier gives back
/// exactly that identifier.
pub proof fn lemma_address_round_trip(a: AccountIdView)
    requires
        a.wf(),
    ensures
        parse_address(a.chars) == Ok::<AccountIdView, ParseError>(a),
{
    assert(valid_split(a.chars, a.hrp_len));
    let k: int = choose|i: int| valid_split(a.chars, i);
    lemma_separator_unique(a.chars, k, a.hrp_len);
    assert(AccountIdView { chars: a.chars, hrp_len: a.hrp_len } =~= a);
}

/// A successfully parsed identifier is well-formed and keeps the wire string
/// character for character, so re-rendering it reproduces the input.
pub proof fn lemma_address_canonical(s: Seq<char>, a: AccountIdView)
    requires
        parse_address(s) == Ok::<AccountIdView, ParseError>(a),
    ensures
        a.chars == s,
        a.wf(),
{
    assert(valid_address(s));
}

/// Decoding the wire form of a well-formed public key gives back exactly
/// that key.
pub proof fn lemma_key_round_trip(k: PublicKeyView)
    requires
        k.wf(),
    ensures
        decode_key(encode_key(k)) == Ok::<PublicKeyView, ParseError>(k),
{
    lemma_urls_distinct();
}

/// A successfully decoded key re-encodes into exactly the wire message it
/// came from: the accepted type tags are the canonical ones.
pub proof fn lemma_key_canonical(m: AnyMsgView, k: PublicKeyView)
    requires
        decode_key(m) == Ok::<PublicKeyView, ParseError>(k),
    ensures
        encode_key(k) == m,
        k.wf(),
{
    assert(encode_key(k) =~= m);
}

/// For every well-formed base account `x`, decoding its encoding gives back
/// exactly `x`.
pub proof fn lemma_base_account_round_trip(x: BaseAccountView)
    requires
        x.wf(),
    ensures
        decode_base(encode_base(x)) == Ok::<BaseAccountView, ParseError>(x),
{
    lemma_address_round_trip(x.address);
    match x.pubkey {
        Some(k) => {
            lemma_key_round_trip(k);
        },
        None => {},
    }
    match decode_base(encode_base(x)) {
        Ok(y) => {
            assert(y =~= x);
        },
        Err(_) => {},
    }
}

/// A successfully decoded base account re-encodes into exactly the wire
/// message it came from: decoding accepts only canonical-form messages.
pub proof fn lemma_base_account_canonical(m: BaseAccountMsgView, a: BaseAccountView)
    requires
        decode_base(m) == Ok::<BaseAccountView, ParseError>(a),
    ensures
        encode_base(a) == m,
        a.wf(),
{
    let addr = parse_address(m.address);
    match addr {
        Ok(id) => {
            lemma_address_canonical(m.address, id);
        },
        Err(_) => {},
    }
    match m.pub_key {
        Some(km) => match decode_key(km) {
            Ok(k) => {
                lemma_key_canonical(km, k);
            },
            Err(_) => {},
        },
        None => {},
    }
    assert(encode_base(a) =~= m);
}

/// For every well-formed module account `y`, decoding its encoding gives
/// back exactly `y`, including when the embedded base account is absent.
pub proof fn lemma_module_account_round_trip(y: ModuleAccountView)
    requires
        y.wf(),
    ensures
        decode_module(encode_module(y)) == Ok::<ModuleAccountView, ParseError>(y),
{
    match y.base_account {
        Some(b) => {
            lemma_base_account_round_trip(b);
        },
        None => {},
    }
    match decode_module(encode_module(y)) {
        Ok(z) => {
            assert(z =~= y);
        },
        Err(_) => {},
    }
}

/// A successfully decoded module account re-encodes into exactly the wire
/// message it came from.
pub proof fn lemma_module_account_canonical(m: ModuleAccountMsgView, a: ModuleAccountView)
    requires
        decode_module(m) == Ok::<ModuleAccountView, ParseError>(a),
    ensures
        encode_module(a) == m,
        a.wf(),
{
    match m.base_account {
        Some(bm) => match decode_base(bm) {
            Ok(b) => {
                lemma_base_account_canonical(bm, b);
            },
            Err(_) => {},
        },
        None => {},
    }
    assert(encode_module(a) =~= m);
}

/// Decoding a wire message whose address is the empty string fails with
/// `IdentifierParse`.
pub proof fn lemma_empty_address_rejected(m: BaseAccountMsgView)
    requires
        m.address.len() == 0,
    ensures
        decode_base(m) == Err::<BaseAccountView, ParseError>(ParseError::IdentifierParse),
{
    if valid_address(m.address) {
        let k: int = choose|i: int| valid_split(m.address, i);
    }
}

/// Decoding a wire message that declares a supported key algorithm but
/// carries a byte length that does not match it fails with `KeyDecode`.
/// (The address is examined first, so it is assumed valid here.)
pub proof fn lemma_key_length_mismatch_rejected(m: BaseAccountMsgView, km: AnyMsgView)
    requires
        valid_address(m.address),
        m.pub_key == Some(km),
        (km.type_url == secp256k1_url() && km.value.len() != SECP256K1_KEY_LEN) || (km.type_url
            == ed25519_url() && km.value.len() != ED25519_KEY_LEN),
    ensures
        decode_base(m) == Err::<BaseAccountView, ParseError>(ParseError::KeyDecode),
{
    lemma_urls_distinct();
}

/// A module-account decode whose nested base-account message is malformed
/// fails with the same error that decoding the nested message alone
/// produces, propagated unchanged.
pub proof fn lemma_nested_error_propagated(m: ModuleAccountMsgView, bm: BaseAccountMsgView,
    e: ParseError)
    requires
        m.base_account == Some(bm),
        decode_base(bm) == Err::<BaseAccountView, ParseError>(e),
    ensures
        decode_module(m) == Err::<ModuleAccountView, ParseError>(e),
{
}

} // verus!
