//! Polymorphic public keys and their wire form.
//!
//! A key is a tagged variant, one case per supported algorithm, each carrying
//! its algorithm-specific bytes. On the wire a key travels as a message
//! holding a type tag that names the algorithm and the raw key bytes; a tag
//! outside the supported set, or a byte length that does not match the tagged
//! algorithm, is rejected.

use vstd::prelude::*;
use vstd::string::StringExecFns;

use crate::error::ParseError;

verus! {

/// Byte length of a compressed secp256k1 public key.
pub const SECP256K1_KEY_LEN: usize = 33;

/// Byte length of an Ed25519 public key.
pub const ED25519_KEY_LEN: usize = 32;

/// Wire type tag of a secp256k1 public key.
pub open spec fn secp256k1_url() -> Seq<char> {
    "/cosmos.crypto.secp256k1.PubKey"@
}

/// Wire type tag of an Ed25519 public key.
pub open spec fn ed25519_url() -> Seq<char> {
    "/cosmos.crypto.ed25519.PubKey"@
}

/// The two supported type tags differ, so a wire message declares at most
/// one algorithm.
pub proof fn lemma_urls_distinct()
    ensures
        secp256k1_url() != ed25519_url(),
{
    reveal_strlit("/cosmos.crypto.secp256k1.PubKey");
    reveal_strlit("/cosmos.crypto.ed25519.PubKey");
    assert(secp256k1_url().len() == 31);
    assert(ed25519_url().len() == 29);
}

/// An account's public key, polymorphic over the supported key algorithms.
#[derive(Clone, Debug, PartialEq, Eq)]
pub enum PublicKey {
    /// A compressed secp256k1 public key of [`SECP256K1_KEY_LEN`] bytes.
    Secp256k1(Vec<u8>),
    /// An Ed25519 public key of [`ED25519_KEY_LEN`] bytes.
    Ed25519(Vec<u8>),
}

/// Mathematical model of a [`PublicKey`].
#[verifier::ext_equal]
pub ghost enum PublicKeyView {
    Secp256k1(Seq<u8>),
    Ed25519(Seq<u8>),
}

impl PublicKeyView {
    /// The key bytes have the length their algorithm prescribes.
    pub open spec fn wf(&self) -> bool {
        match self {
            PublicKeyView::Secp256k1(b) => b.len() == SECP256K1_KEY_LEN,
            PublicKeyView::Ed25519(b) => b.len() == ED25519_KEY_LEN,
        }
    }
}

impl View for PublicKey {
    type V = PublicKeyView;

    open spec fn view(&self) -> PublicKeyView {
        match self {
            PublicKey::Secp256k1(b) => PublicKeyView::Secp256k1(b@),
            PublicKey::Ed25519(b) => PublicKeyView::Ed25519(b@),
        }
    }
}

/// Wire form of a public key: a type tag naming the algorithm, and the raw
/// key bytes.
#[derive(Clone, Debug, PartialEq, Eq)]
pub struct AnyMsg {
    /// Type tag naming the key algorithm.
    pub type_url: String,
    /// Raw key bytes.
    pub value: Vec<u8>,
}

/// Mathematical model of an [`AnyMsg`].
#[verifier::ext_equal]
pub ghost struct AnyMsgView {
    pub type_url: Seq<char>,
    pub value: Seq<u8>,
}

impl View for AnyMsg {
    type V = AnyMsgView;

    open spec fn view(&self) -> AnyMsgView {
        AnyMsgView { type_url: self.type_url@, value: self.value@ }
    }
}

/// What decoding a wire key message yields: the variant named by the type
/// tag, carrying the bytes verbatim, provided the byte length matches the
/// tagged algorithm; `KeyDecode` on an unknown tag or a length mismatch.
pub open spec fn decode_key(m: AnyMsgView) -> Result<PublicKeyView, ParseError> {
    if m.type_url == secp256k1_url() {
        if m.value.len() == SECP256K1_KEY_LEN {
            Ok(PublicKeyView::Secp256k1(m.value))
        } else {
            Err(ParseError::KeyDecode)
        }
    } else if m.type_url == ed25519_url() {
        if m.value.len() == ED25519_KEY_LEN {
            Ok(PublicKeyView::Ed25519(m.value))
        } else {
            Err(ParseError::KeyDecode)
        }
    } else {
        Err(ParseError::KeyDecode)
    }
}

/// What encoding a public key yields: the canonical tag of its algorithm,
/// and its bytes verbatim.
pub open spec fn encode_key(k: PublicKeyView) -> AnyMsgView {
    match k {
        PublicKeyView::Secp256k1(b) => AnyMsgView { type_url: secp256k1_url(), value: b },
        PublicKeyView::Ed25519(b) => AnyMsgView { type_url: ed25519_url(), value: b },
    }
}

/// The view of a key decode result, for stating contracts.
pub open spec fn key_result_view(r: Result<PublicKey, ParseError>) -> Result<
    PublicKeyView,
    ParseError,
> {
    match r {
        Ok(k) => Ok(k@),
        Err(e) => Err(e),
    }
}

impl PublicKey {
    /// Decode a wire key message into a supported public-key variant.
    pub fn try_from(msg: AnyMsg) -> (r: Result<PublicKey, ParseError>)
        ensures
            key_result_view(r) == decode_key(msg@),
            r matches Ok(k) ==> k@.wf(),
    {
        let secp: String = String::from_str("/cosmos.crypto.secp256k1.PubKey");
        if msg.type_url == secp {
            if msg.value.len() == SECP256K1_KEY_LEN {
                Ok(PublicKey::Secp256k1(msg.value))
            } else {
                Err(ParseError::KeyDecode)
            }
        } else {
            let ed: String = String::from_str("/cosmos.crypto.ed25519.PubKey");
            if msg.type_url == ed {
                if msg.value.len() == ED25519_KEY_LEN {
                    Ok(PublicKey::Ed25519(msg.value))
                } else {
                    Err(ParseError::KeyDecode)
                }
            } else {
                Err(ParseError::KeyDecode)
            }
        }
    }
}

impl AnyMsg {
    /// Encode a public key into its wire message. Total: every key value
    /// maps to exactly one wire message.
    pub fn from(key: PublicKey) -> (m: AnyMsg)
        ensures
            m@ == encode_key(key@),
    {
        match key {
            PublicKey::Secp256k1(b) => AnyMsg {
                type_url: String::from_str("/cosmos.crypto.secp256k1.PubKey"),
                value: b,
            },
            PublicKey::Ed25519(b) => AnyMsg {
                type_url: String::from_str("/cosmos.crypto.ed25519.PubKey"),
                value: b,
            },
        }
    }
}

} // verus!
