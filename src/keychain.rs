//! Outcomes of the credential store operations: a missing entry is not an
//! error, stored bytes must be UTF-8 text, other failures are reported with
//! the store's own message.

use vstd::prelude::*;
use vstd::string::{StringExecFns, StringSliceAdditionalSpecFns};
use vstd::utf8::{decode_utf8, encode_utf8, valid_utf8};

verus! {

/// Whether `needle` occurs in `hay` as a contiguous run.
pub open spec fn occurs_in(hay: Seq<u8>, needle: Seq<u8>) -> bool {
    exists|i: int| 0 <= i && i + needle.len() <= hay.len() && #[trigger] hay.subrange(i, i + needle.len()) == needle
}

/// Searches `hay` for `needle`.
pub fn contains_bytes(hay: &[u8], needle: &[u8]) -> (r: bool)
    ensures
        r == occurs_in(hay@, needle@),
{
    if needle.len() > hay.len() {
        return false;
    }
    if needle.len() == 0 {
        assert(hay@.subrange(0, 0int + needle@.len()) =~= needle@);
        return true;
    }
    let n: usize = hay.len();
    let last: usize = n - needle.len();
    let mut i: usize = 0;
    while i <= last
        invariant
            last == hay@.len() - needle@.len(),
            n == hay@.len(),
            needle@.len() >= 1,
            needle@.len() <= hay@.len(),
            i <= last + 1,
            forall|k: int| 0 <= k < i ==> #[trigger] hay@.subrange(k, k + needle@.len()) != needle@,
        decreases last + 1 - i,
    {
        let mut j: usize = 0;
        let mut same = true;
        while j < needle.len()
            invariant
                i <= last,
                last == hay@.len() - needle@.len(),
                n == hay@.len(),
                needle@.len() <= hay@.len(),
                j <= needle@.len(),
                same == (forall|m: int| 0 <= m < j ==> hay@[i + m] == needle@[m]),
            decreases needle@.len() - j,
        {
            if hay[i + j] != needle[j] {
                same = false;
            }
            j = j + 1;
        }
        if same {
            assert(hay@.subrange(i as int, i + needle@.len()) =~= needle@);
            return true;
        }
        assert(hay@.subrange(i as int, i + needle@.len()) != needle@) by {
            let m = choose|m: int| 0 <= m < needle@.len() && hay@[i + m] != needle@[m];
            assert(hay@.subrange(i as int, i + needle@.len())[m] == hay@[i + m]);
        }
        i = i + 1;
    }
    assert forall|k: int| 0 <= k && k + needle@.len() <= hay@.len() implies #[trigger] hay@.subrange(k, k + needle@.len()) != needle@ by {
        assert(k < i);
    }
    false
}

/// The texts by which the store reports an entry that does not exist.
pub open spec fn reports_missing(message: Seq<char>) -> bool {
    ||| occurs_in(encode_utf8(message), "not found".spec_bytes())
    ||| occurs_in(encode_utf8(message), "SecItemNotFound".spec_bytes())
    ||| occurs_in(encode_utf8(message), "-25300".spec_bytes())
}

/// Whether a store failure says that the entry does not exist.
pub fn is_missing_item(message: &str) -> (r: bool)
    ensures
        r == reports_missing(message@),
{
    let hay = message.as_bytes();
    contains_bytes(hay, "not found".as_bytes()) || contains_bytes(hay, "SecItemNotFound".as_bytes())
        || contains_bytes(hay, "-25300".as_bytes())
}

/// Why a credential operation failed; each carries the store's message but
/// the encoding failure.
#[derive(Debug)]
pub enum KeychainError {
    InvalidUtf8,
    Store(String),
    Retrieve(String),
    Delete(String),
}

impl KeychainError {
    pub open spec fn message_spec(&self) -> Seq<char> {
        match self {
            KeychainError::InvalidUtf8 => "Invalid UTF-8 in stored key"@,
            KeychainError::Store(m) => "Failed to store API key: "@ + m@,
            KeychainError::Retrieve(m) => "Failed to retrieve API key: "@ + m@,
            KeychainError::Delete(m) => "Failed to delete API key: "@ + m@,
        }
    }

    /// The message reported to the command caller.
    pub fn message(&self) -> (r: String)
        ensures
            r@ == self.message_spec(),
    {
        match self {
            KeychainError::InvalidUtf8 => "Invalid UTF-8 in stored key".to_owned(),
            KeychainError::Store(m) => "Failed to store API key: ".to_owned().concat(m.as_str()),
            KeychainError::Retrieve(m) => "Failed to retrieve API key: ".to_owned().concat(m.as_str()),
            KeychainError::Delete(m) => "Failed to delete API key: ".to_owned().concat(m.as_str()),
        }
    }
}

/// Relies on `String::from_utf8`: it succeeds exactly on valid UTF-8 and
/// then holds the decoded characters.
#[verifier::external_body]
fn utf8_to_string(bytes: Vec<u8>) -> (r: Option<String>)
    ensures
        r is Some <==> valid_utf8(bytes@),
        r matches Some(s) ==> s@ == decode_utf8(bytes@),
{
    String::from_utf8(bytes).ok()
}

/// The outcome of writing the key, from the store's answer to the write
/// (the earlier removal of an old entry is not consulted).
pub fn store_api_key(written: Result<(), String>) -> (r: Result<(), KeychainError>)
    ensures
        written is Ok <==> r is Ok,
        written matches Err(m) ==> r matches Err(KeychainError::Store(n)) && n@ == m@,
{
    match written {
        Ok(()) => Ok(()),
        Err(m) => Err(KeychainError::Store(m)),
    }
}

/// The stored key, from the store's answer to the lookup: `None` when no
/// entry exists, the text when the bytes are UTF-8.
pub fn retrieve_api_key(found: Result<Vec<u8>, String>) -> (r: Result<Option<String>, KeychainError>)
    ensures
        found matches Ok(b) ==> (if valid_utf8(b@) {
            r matches Ok(Some(s)) && s@ == decode_utf8(b@)
        } else {
            r matches Err(KeychainError::InvalidUtf8)
        }),
        found matches Err(m) ==> (if reports_missing(m@) {
            r matches Ok(None)
        } else {
            r matches Err(KeychainError::Retrieve(n)) && n@ == m@
        }),
{
    match found {
        Ok(bytes) => match utf8_to_string(bytes) {
            Some(s) => Ok(Some(s)),
            None => Err(KeychainError::InvalidUtf8),
        },
        Err(m) => {
            if is_missing_item(m.as_str()) {
                Ok(None)
            } else {
                Err(KeychainError::Retrieve(m))
            }
        },
    }
}

/// The outcome of removing the key: removing an entry that does not exist
/// succeeds.
pub fn delete_api_key(removed: Result<(), String>) -> (r: Result<(), KeychainError>)
    ensures
        removed is Ok ==> r is Ok,
        removed matches Err(m) ==> (if reports_missing(m@) {
            r is Ok
        } else {
            r matches Err(KeychainError::Delete(n)) && n@ == m@
        }),
{
    match removed {
        Ok(()) => Ok(()),
        Err(m) => {
            if is_missing_item(m.as_str()) {
                Ok(())
            } else {
                Err(KeychainError::Delete(m))
            }
        },
    }
}

} // verus!
