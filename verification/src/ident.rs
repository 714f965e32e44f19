//! Account identifiers: the human-readable-prefixed string that names an
//! on-chain account, and its validated in-memory form.
//!
//! The identifier grammar accepted here is: a non-empty human-readable prefix
//! of lowercase ASCII letters, the separator character `'1'`, and a data part
//! of at least six lowercase ASCII letters or digits, the whole identifier at
//! most ninety characters long. Because the prefix may not contain `'1'`, the
//! separator is always the first `'1'` of the string, so every valid string
//! splits in exactly one way.

use vstd::prelude::*;
use vstd::string::StrSliceExecFns;

use crate::error::ParseError;

verus! {

/// Largest number of characters an account identifier may have.
pub const MAX_ADDRESS_LEN: usize = 90;

/// Smallest number of characters the data part (after the separator) may have.
pub const MIN_DATA_LEN: usize = 6;

/// A character the human-readable prefix may contain: a lowercase ASCII
/// letter. Note that the separator `'1'` is not among them.
pub open spec fn is_hrp_char(c: char) -> bool {
    'a' as u32 <= c as u32 && c as u32 <= 'z' as u32
}

/// A character the data part may contain: a lowercase ASCII letter or an
/// ASCII digit.
pub open spec fn is_data_char(c: char) -> bool {
    is_hrp_char(c) || ('0' as u32 <= c as u32 && c as u32 <= '9' as u32)
}

/// Position `i` of `s` separates a well-formed prefix from the rest: it holds
/// the separator character `'1'` and everything before it is a prefix
/// character.
pub open spec fn is_separator(s: Seq<char>, i: int) -> bool {
    &&& 1 <= i < s.len()
    &&& s[i] == '1'
    &&& forall|j: int| 0 <= j < i ==> is_hrp_char(#[trigger] s[j])
}

/// `s` splits at `i` into a complete, valid identifier: a separated prefix,
/// a data part of at least [`MIN_DATA_LEN`] data characters, and an overall
/// length of at most [`MAX_ADDRESS_LEN`].
pub open spec fn valid_split(s: Seq<char>, i: int) -> bool {
    &&& is_separator(s, i)
    &&& i + 1 + MIN_DATA_LEN <= s.len()
    &&& forall|j: int| i < j < s.len() ==> is_data_char(#[trigger] s[j])
    &&& s.len() <= MAX_ADDRESS_LEN
}

/// The account-identifier grammar: `s` is a valid identifier string.
pub open spec fn valid_address(s: Seq<char>) -> bool {
    exists|i: int| valid_split(s, i)
}

/// At most one position of `s` can be a separator: a separator is the first
/// `'1'` of the string, since prefix characters exclude `'1'`.
pub proof fn lemma_separator_unique(s: Seq<char>, i: int, j: int)
    requires
        is_separator(s, i),
        is_separator(s, j),
    ensures
        i == j,
{
    if i < j {
        assert(is_hrp_char(s[i]));
    } else if j < i {
        assert(is_hrp_char(s[j]));
    }
}

/// A separator can only stand at the first `'1'` of the string.
pub proof fn lemma_separator_is_first(s: Seq<char>, k: int, sep: int)
    requires
        is_separator(s, k),
        0 <= sep < s.len(),
        s[sep] == '1',
        forall|j: int| 0 <= j < sep ==> s[j] != '1',
    ensures
        k == sep,
{
    if k < sep {
        assert(s[k] != '1');
    } else if sep < k {
        assert(is_hrp_char(s[sep]));
    }
}

/// Mathematical model of an [`AccountId`]: its character sequence together
/// with the length of its human-readable prefix.
#[verifier::ext_equal]
pub ghost struct AccountIdView {
    pub chars: Seq<char>,
    pub hrp_len: int,
}

impl AccountIdView {
    /// The stored prefix length marks a valid split of the stored characters.
    pub open spec fn wf(&self) -> bool {
        valid_split(self.chars, self.hrp_len)
    }

    /// The human-readable prefix.
    pub open spec fn hrp(&self) -> Seq<char> {
        self.chars.subrange(0, self.hrp_len)
    }

    /// The data part, after the separator.
    pub open spec fn data(&self) -> Seq<char> {
        self.chars.subrange(self.hrp_len + 1, self.chars.len() as int)
    }
}

/// What decoding a wire address string yields: the validated identifier, or
/// `IdentifierParse` when the string fails the grammar.
pub open spec fn parse_address(s: Seq<char>) -> Result<AccountIdView, ParseError> {
    if valid_address(s) {
        Ok(AccountIdView { chars: s, hrp_len: choose|i: int| valid_split(s, i) })
    } else {
        Err(ParseError::IdentifierParse)
    }
}

/// A validated account identifier: the canonical string form together with
/// the length of its human-readable prefix. Values are only constructed by
/// [`AccountId::parse`], so every value is well-formed.
#[derive(Clone, Debug, PartialEq, Eq)]
pub struct AccountId {
    text: String,
    hrp_length: usize,
}

impl View for AccountId {
    type V = AccountIdView;

    closed spec fn view(&self) -> AccountIdView {
        AccountIdView { chars: self.text@, hrp_len: self.hrp_length as int }
    }
}

/// The view of a parse result, for stating contracts.
pub open spec fn id_result_view(r: Result<AccountId, ParseError>) -> Result<
    AccountIdView,
    ParseError,
> {
    match r {
        Ok(id) => Ok(id@),
        Err(e) => Err(e),
    }
}

impl AccountId {
    /// Parse a wire address string under the account-identifier grammar:
    /// exactly the valid strings are accepted, and an accepted string is
    /// stored in canonical form, character for character.
    #[verifier::loop_isolation(false)]
    pub fn parse(s: &str) -> (r: Result<AccountId, ParseError>)
        ensures
            id_result_view(r) == parse_address(s@),
            r matches Ok(id) ==> id@.wf(),
    {
        let n = s.unicode_len();
        if n > MAX_ADDRESS_LEN {
            proof {
                if valid_address(s@) {
                    let k: int = choose|i: int| valid_split(s@, i);
                    assert(s@.len() <= MAX_ADDRESS_LEN);
                }
            }
            return Err(ParseError::IdentifierParse);
        }
        // Find the first separator character, if any.
        let mut sep: usize = n;
        let mut i: usize = 0;
        while i < n
            invariant
                i <= n,
                sep == n || (sep < i && s@[sep as int] == '1'),
                sep == n ==> forall|j: int| 0 <= j < i ==> s@[j] != '1',
                sep < n ==> forall|j: int| 0 <= j < sep ==> s@[j] != '1',
            decreases n - i,
        {
            if sep == n {
                if s.get_char(i) == '1' {
                    sep = i;
                }
            }
            i += 1;
        }
        if sep == n {
            proof {
                if valid_address(s@) {
                    let k: int = choose|i: int| valid_split(s@, i);
                    assert(s@[k] != '1');
                }
            }
            return Err(ParseError::IdentifierParse);
        }
        if sep == 0 {
            proof {
                if valid_address(s@) {
                    let k: int = choose|i: int| valid_split(s@, i);
                    lemma_separator_is_first(s@, k, 0);
                }
            }
            return Err(ParseError::IdentifierParse);
        }
        if n < sep + 1 + MIN_DATA_LEN {
            proof {
                if valid_address(s@) {
                    let k: int = choose|i: int| valid_split(s@, i);
                    lemma_separator_is_first(s@, k, sep as int);
                }
            }
            return Err(ParseError::IdentifierParse);
        }
        // Check that everything before the separator is a prefix character.
        let mut i: usize = 0;
        while i < sep
            invariant
                i <= sep,
                forall|j: int| 0 <= j < i ==> is_hrp_char(#[trigger] s@[j]),
            decreases sep - i,
        {
            let c = s.get_char(i);
            let u = c as u32;
            if u < 97 || u > 122 {
                proof {
                    if valid_address(s@) {
                        let k: int = choose|i: int| valid_split(s@, i);
                        lemma_separator_is_first(s@, k, sep as int);
                        assert(is_hrp_char(s@[i as int]));
                    }
                }
                return Err(ParseError::IdentifierParse);
            }
            i += 1;
        }
        // Check that everything after the separator is a data character.
        let mut k: usize = sep + 1;
        while k < n
            invariant
                sep + 1 <= k <= n,
                forall|j: int| sep < j < k ==> is_data_char(#[trigger] s@[j]),
            decreases n - k,
        {
            let c = s.get_char(k);
            let u = c as u32;
            if !((97 <= u && u <= 122) || (48 <= u && u <= 57)) {
                proof {
                    if valid_address(s@) {
                        let q: int = choose|i: int| valid_split(s@, i);
                        lemma_separator_is_first(s@, q, sep as int);
                        assert(is_data_char(s@[k as int]));
                    }
                }
                return Err(ParseError::IdentifierParse);
            }
            k += 1;
        }
        proof {
            assert(valid_split(s@, sep as int));
            let q: int = choose|i: int| valid_split(s@, i);
            lemma_separator_is_first(s@, q, sep as int);
        }
        Ok(AccountId { text: s.to_owned(), hrp_length: sep })
    }

    /// The canonical string form of this identifier, as it stands on the
    /// wire.
    pub fn to_text(&self) -> (s: String)
        ensures
            s@ == self@.chars,
    {
        self.text.as_str().to_owned()
    }
}

} // verus!
