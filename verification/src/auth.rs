//! Base and module accounts, and the codecs between them and their wire
//! messages.
//!
//! Decoding lifts an untrusted wire message into a validated domain value and
//! fails with a typed [`ParseError`] on malformed input; it is atomic: either
//! a fully valid value is produced, or an error, never a partial value.
//! Encoding is the inverse, total mapping: every valid domain value lowers to
//! exactly one wire message.

use vstd::prelude::*;

use crate::error::ParseError;
use crate::ident::{parse_address, AccountId, AccountIdView};
use crate::key::{decode_key, encode_key, AnyMsg, AnyMsgView, PublicKey, PublicKeyView};

verus! {

/// The ordinal the chain assigned to an account at creation; immutable once
/// assigned.
pub type AccountNumber = u64;

/// A per-account monotonically increasing counter of committed transactions,
/// used for replay protection.
pub type SequenceNumber = u64;

/// Wire form of a [`BaseAccount`].
#[derive(Clone, Debug, PartialEq, Eq)]
pub struct BaseAccountMsg {
    /// Account identifier in string form.
    pub address: String,
    /// Optional public-key message.
    pub pub_key: Option<AnyMsg>,
    /// Account number, carried verbatim.
    pub account_number: u64,
    /// Sequence number, carried verbatim.
    pub sequence: u64,
}

/// Mathematical model of a [`BaseAccountMsg`].
#[verifier::ext_equal]
pub ghost struct BaseAccountMsgView {
    pub address: Seq<char>,
    pub pub_key: Option<AnyMsgView>,
    pub account_number: u64,
    pub sequence: u64,
}

impl View for BaseAccountMsg {
    type V = BaseAccountMsgView;

    open spec fn view(&self) -> BaseAccountMsgView {
        BaseAccountMsgView {
            address: self.address@,
            pub_key: match self.pub_key {
                Some(m) => Some(m@),
                None => None,
            },
            account_number: self.account_number,
            sequence: self.sequence,
        }
    }
}

/// A base account: identity and sequencing state for a single address. Any
/// richer account type extends this one.
#[derive(Clone, Debug, PartialEq, Eq)]
pub struct BaseAccount {
    /// Validated identifier of this account.
    pub address: AccountId,
    /// Optional public key associated with this account; absent when the
    /// account has never broadcast a signed transaction.
    pub pubkey: Option<PublicKey>,
    /// Account number of the account in state.
    pub account_number: AccountNumber,
    /// Number of committed transactions signed by this address.
    pub sequence: SequenceNumber,
}

/// Mathematical model of a [`BaseAccount`].
#[verifier::ext_equal]
pub ghost struct BaseAccountView {
    pub address: AccountIdView,
    pub pubkey: Option<PublicKeyView>,
    pub account_number: u64,
    pub sequence: u64,
}

impl BaseAccountView {
    /// The address is well-formed, and the public key, if present, carries
    /// bytes of its algorithm's length.
    pub open spec fn wf(&self) -> bool {
        &&& self.address.wf()
        &&& match self.pubkey {
            Some(k) => k.wf(),
            None => true,
        }
    }
}

impl View for BaseAccount {
    type V = BaseAccountView;

    open spec fn view(&self) -> BaseAccountView {
        BaseAccountView {
            address: self.address@,
            pubkey: match self.pubkey {
                Some(k) => Some(k@),
                None => None,
            },
            account_number: self.account_number,
            sequence: self.sequence,
        }
    }
}

/// What decoding a wire base-account message yields: the parsed address and
/// decoded key with the ordinals carried verbatim, or the error of the first
/// field that fails. The address is examined first, then the key.
pub open spec fn decode_base(m: BaseAccountMsgView) -> Result<BaseAccountView, ParseError> {
    match parse_address(m.address) {
        Ok(addr) => match m.pub_key {
            Some(km) => match decode_key(km) {
                Ok(k) => Ok(
                    BaseAccountView {
                        address: addr,
                        pubkey: Some(k),
                        account_number: m.account_number,
                        sequence: m.sequence,
                    },
                ),
                Err(e) => Err(e),
            },
            None => Ok(
                BaseAccountView {
                    address: addr,
                    pubkey: None,
                    account_number: m.account_number,
                    sequence: m.sequence,
                },
            ),
        },
        Err(e) => Err(e),
    }
}

/// What encoding a base account yields: the canonical address string, the
/// encoded key if one is present, and the ordinals verbatim.
pub open spec fn encode_base(a: BaseAccountView) -> BaseAccountMsgView {
    BaseAccountMsgView {
        address: a.address.chars,
        pub_key: match a.pubkey {
            Some(k) => Some(encode_key(k)),
            None => None,
        },
        account_number: a.account_number,
        sequence: a.sequence,
    }
}

/// The view of a base-account decode result, for stating contracts.
pub open spec fn base_result_view(r: Result<BaseAccount, ParseError>) -> Result<
    BaseAccountView,
    ParseError,
> {
    match r {
        Ok(a) => Ok(a@),
        Err(e) => Err(e),
    }
}

impl BaseAccount {
    /// Decode a wire message into a base account. Exactly the messages whose
    /// address satisfies the identifier grammar and whose key, if present,
    /// decodes into a supported variant are accepted; everything else fails
    /// with the typed error of the offending field.
    pub fn try_from(msg: BaseAccountMsg) -> (r: Result<BaseAccount, ParseError>)
        ensures
            base_result_view(r) == decode_base(msg@),
            r matches Ok(a) ==> a@.wf(),
    {
        let address = match AccountId::parse(msg.address.as_str()) {
            Ok(id) => id,
            Err(e) => {
                return Err(e);
            },
        };
        let pubkey = match msg.pub_key {
            Some(km) => match PublicKey::try_from(km) {
                Ok(k) => Some(k),
                Err(e) => {
                    return Err(e);
                },
            },
            None => None,
        };
        Ok(
            BaseAccount {
                address,
                pubkey,
                account_number: msg.account_number,
                sequence: msg.sequence,
            },
        )
    }
}

impl BaseAccountMsg {
    /// Encode a base account into its wire message. Total: every account
    /// value maps to exactly one wire message, and encoding never fails.
    pub fn from(account: BaseAccount) -> (m: BaseAccountMsg)
        ensures
            m@ == encode_base(account@),
    {
        let address = account.address.to_text();
        let pub_key = match account.pubkey {
            Some(k) => Some(AnyMsg::from(k)),
            None => None,
        };
        BaseAccountMsg {
            address,
            pub_key,
            account_number: account.account_number,
            sequence: account.sequence,
        }
    }
}

/// Wire form of a [`ModuleAccount`].
#[derive(Clone, Debug, PartialEq, Eq)]
pub struct ModuleAccountMsg {
    /// Optional nested base-account message.
    pub base_account: Option<BaseAccountMsg>,
    /// Module name, carried verbatim.
    pub name: String,
    /// Permission tags, carried verbatim and in order.
    pub permissions: Vec<String>,
}

/// Mathematical model of a [`ModuleAccountMsg`].
#[verifier::ext_equal]
pub ghost struct ModuleAccountMsgView {
    pub base_account: Option<BaseAccountMsgView>,
    pub name: Seq<char>,
    pub permissions: Seq<Seq<char>>,
}

impl View for ModuleAccountMsg {
    type V = ModuleAccountMsgView;

    open spec fn view(&self) -> ModuleAccountMsgView {
        ModuleAccountMsgView {
            base_account: match self.base_account {
                Some(b) => Some(b@),
                None => None,
            },
            name: self.name@,
            permissions: self.permissions.deep_view(),
        }
    }
}

/// An account owned by a protocol module, composing an optional
/// [`BaseAccount`] with module metadata.
#[derive(Clone, Debug, PartialEq, Eq)]
pub struct ModuleAccount {
    /// Base-account record of this module account; absent is a valid, if
    /// unusual, state.
    pub base_account: Option<BaseAccount>,
    /// Name of the module. This layer enforces no grammar on it.
    pub name: String,
    /// Permissions associated with this module account. Duplicates and
    /// ordering are preserved as received; no set semantics imposed.
    pub permissions: Vec<String>,
}

/// Mathematical model of a [`ModuleAccount`].
#[verifier::ext_equal]
pub ghost struct ModuleAccountView {
    pub base_account: Option<BaseAccountView>,
    pub name: Seq<char>,
    pub permissions: Seq<Seq<char>>,
}

impl ModuleAccountView {
    /// The embedded base account, if present, is well-formed.
    pub open spec fn wf(&self) -> bool {
        match self.base_account {
            Some(b) => b.wf(),
            None => true,
        }
    }
}

impl View for ModuleAccount {
    type V = ModuleAccountView;

    open spec fn view(&self) -> ModuleAccountView {
        ModuleAccountView {
            base_account: match self.base_account {
                Some(b) => Some(b@),
                None => None,
            },
            name: self.name@,
            permissions: self.permissions.deep_view(),
        }
    }
}

/// What decoding a wire module-account message yields: the nested base
/// account decoded as a [`decode_base`] of its own, its failure propagated
/// unchanged, and `name` and `permissions` carried verbatim.
pub open spec fn decode_module(m: ModuleAccountMsgView) -> Result<ModuleAccountView, ParseError> {
    match m.base_account {
        Some(bm) => match decode_base(bm) {
            Ok(b) => Ok(
                ModuleAccountView {
                    base_account: Some(b),
                    name: m.name,
                    permissions: m.permissions,
                },
            ),
            Err(e) => Err(e),
        },
        None => Ok(ModuleAccountView { base_account: None, name: m.name, permissions: m.permissions }),
    }
}

/// What encoding a module account yields: the embedded base account lowered
/// by [`encode_base`], and `name` and `permissions` verbatim.
pub open spec fn encode_module(a: ModuleAccountView) -> ModuleAccountMsgView {
    ModuleAccountMsgView {
        base_account: match a.base_account {
            Some(b) => Some(encode_base(b)),
            None => None,
        },
        name: a.name,
        permissions: a.permissions,
    }
}

/// The view of a module-account decode result, for stating contracts.
pub open spec fn module_result_view(r: Result<ModuleAccount, ParseError>) -> Result<
    ModuleAccountView,
    ParseError,
> {
    match r {
        Ok(a) => Ok(a@),
        Err(e) => Err(e),
    }
}

impl ModuleAccount {
    /// Decode a wire message into a module account. A failing nested
    /// base-account decode fails the whole operation with the nested error,
    /// propagated unchanged; `name` and `permissions` are copied verbatim,
    /// with no checks of their own.
    pub fn try_from(msg: ModuleAccountMsg) -> (r: Result<ModuleAccount, ParseError>)
        ensures
            module_result_view(r) == decode_module(msg@),
            r matches Ok(a) ==> a@.wf(),
    {
        let base_account = match msg.base_account {
            Some(bm) => match BaseAccount::try_from(bm) {
                Ok(b) => Some(b),
                Err(e) => {
                    return Err(e);
                },
            },
            None => None,
        };
        Ok(ModuleAccount { base_account, name: msg.name, permissions: msg.permissions })
    }
}

impl ModuleAccountMsg {
    /// Encode a module account into its wire message. Total, like the
    /// base-account encoder it delegates to.
    pub fn from(account: ModuleAccount) -> (m: ModuleAccountMsg)
        ensures
            m@ == encode_module(account@),
    {
        let base_account = match account.base_account {
            Some(b) => Some(BaseAccountMsg::from(b)),
            None => None,
        };
        ModuleAccountMsg { base_account, name: account.name, permissions: account.permissions }
    }
}

} // verus!
