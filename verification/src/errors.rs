//! Errors a node reports to peers and to its API clients.

use vstd::prelude::*;
use vstd::string::StringExecFns;
use crate::text::{append_bytes, bytes_text};

verus! {

/// Neither the object nor a pointer to it was found for a key.
pub struct NoValueOrPointerFound {
    pub peer_id: String,
    pub key: Vec<u8>,
    pub source: Vec<u8>,
}

/// A request arrived that the node had no reason to expect.
pub struct UnexpectedRequest {
    pub key: Vec<u8>,
}

/// The key is unknown to the node.
pub struct KeyDoesNotExist {
    pub key: Vec<u8>,
}

/// The key is already known to the node.
pub struct KeyAlreadyExists {
    pub key: Vec<u8>,
}

/// The errors of the directory protocol.
pub enum DirectorySpecificErrors {
    NoValueOrPointerFound(NoValueOrPointerFound),
    UnexpectedRequest(UnexpectedRequest),
    KeyDoesNotExist(KeyDoesNotExist),
    KeyAlreadyExists(KeyAlreadyExists),
}

/// The mathematical form of a `DirectorySpecificErrors`.
pub enum DirectorySpecificErrorsView {
    NoValueOrPointerFound { peer_id: Seq<char>, key: Seq<u8>, source: Seq<u8> },
    UnexpectedRequest { key: Seq<u8> },
    KeyDoesNotExist { key: Seq<u8> },
    KeyAlreadyExists { key: Seq<u8> },
}

impl View for DirectorySpecificErrors {
    type V = DirectorySpecificErrorsView;

    open spec fn view(&self) -> DirectorySpecificErrorsView {
        match self {
            DirectorySpecificErrors::NoValueOrPointerFound(e) => DirectorySpecificErrorsView::NoValueOrPointerFound {
                peer_id: e.peer_id@,
                key: e.key@,
                source: e.source@,
            },
            DirectorySpecificErrors::UnexpectedRequest(e) => DirectorySpecificErrorsView::UnexpectedRequest { key: e.key@ },
            DirectorySpecificErrors::KeyDoesNotExist(e) => DirectorySpecificErrorsView::KeyDoesNotExist { key: e.key@ },
            DirectorySpecificErrors::KeyAlreadyExists(e) => DirectorySpecificErrorsView::KeyAlreadyExists { key: e.key@ },
        }
    }
}

/// A copy of a byte string.
pub fn copy_bytes(b: &Vec<u8>) -> (r: Vec<u8>)
    ensures
        r@ == b@,
{
    let r = b.clone();
    assert(r@ =~= b@);
    r
}

impl Clone for NoValueOrPointerFound {
    fn clone(&self) -> (r: Self)
        ensures
            r.peer_id@ == self.peer_id@,
            r.key@ == self.key@,
            r.source@ == self.source@,
    {
        NoValueOrPointerFound {
            peer_id: self.peer_id.clone(),
            key: copy_bytes(&self.key),
            source: copy_bytes(&self.source),
        }
    }
}

impl Clone for UnexpectedRequest {
    fn clone(&self) -> (r: Self)
        ensures
            r.key@ == self.key@,
    {
        UnexpectedRequest { key: copy_bytes(&self.key) }
    }
}

impl Clone for KeyDoesNotExist {
    fn clone(&self) -> (r: Self)
        ensures
            r.key@ == self.key@,
    {
        KeyDoesNotExist { key: copy_bytes(&self.key) }
    }
}

impl Clone for KeyAlreadyExists {
    fn clone(&self) -> (r: Self)
        ensures
            r.key@ == self.key@,
    {
        KeyAlreadyExists { key: copy_bytes(&self.key) }
    }
}

impl Clone for DirectorySpecificErrors {
    fn clone(&self) -> (r: Self)
        ensures
            r@ == self@,
    {
        match self {
            DirectorySpecificErrors::NoValueOrPointerFound(e) => DirectorySpecificErrors::NoValueOrPointerFound(e.clone()),
            DirectorySpecificErrors::UnexpectedRequest(e) => DirectorySpecificErrors::UnexpectedRequest(e.clone()),
            DirectorySpecificErrors::KeyDoesNotExist(e) => DirectorySpecificErrors::KeyDoesNotExist(e.clone()),
            DirectorySpecificErrors::KeyAlreadyExists(e) => DirectorySpecificErrors::KeyAlreadyExists(e.clone()),
        }
    }
}

/// The text that `Debug` writes for a string: the string in double quotes,
/// with quotes, backslashes and control characters escaped.
pub uninterp spec fn string_debug_text(s: Seq<char>) -> Seq<char>;

/// `<str as Debug>::fmt`, through `format!`.
#[verifier::external_body]
fn string_debug(s: &str) -> (r: String)
    ensures
        r@ == string_debug_text(s@),
{
    format!("{:?}", s)
}

/// The message of a `NoValueOrPointerFound`: the error as `Debug` writes it.
pub open spec fn no_value_or_pointer_found_text(peer_id: Seq<char>, key: Seq<u8>, source: Seq<u8>) -> Seq<char> {
    "No Value or Pointer NoValueOrPointerFound { peer_id: "@ + string_debug_text(peer_id) + ", key: "@ + bytes_text(key)
        + ", source: "@ + bytes_text(source) + " }"@
}

/// The message of an `UnexpectedRequest`.
pub open spec fn unexpected_request_text(key: Seq<u8>) -> Seq<char> {
    "UnexpectedRequest for key "@ + bytes_text(key)
}

/// The message of a `KeyDoesNotExist`.
pub open spec fn key_does_not_exist_text(key: Seq<u8>) -> Seq<char> {
    "Key "@ + bytes_text(key) + " does not exist"@
}

/// The message of a `KeyAlreadyExists`.
pub open spec fn key_already_exists_text(key: Seq<u8>) -> Seq<char> {
    "Key "@ + bytes_text(key) + " already exists"@
}

/// The message of a directory error.
pub open spec fn error_text(e: DirectorySpecificErrorsView) -> Seq<char> {
    match e {
        DirectorySpecificErrorsView::NoValueOrPointerFound { peer_id, key, source } => no_value_or_pointer_found_text(peer_id, key, source),
        DirectorySpecificErrorsView::UnexpectedRequest { key } => unexpected_request_text(key),
        DirectorySpecificErrorsView::KeyDoesNotExist { key } => key_does_not_exist_text(key),
        DirectorySpecificErrorsView::KeyAlreadyExists { key } => key_already_exists_text(key),
    }
}

impl NoValueOrPointerFound {
    /// The message shown for this error.
    pub fn to_string(&self) -> (r: String)
        ensures
            r@ == no_value_or_pointer_found_text(self.peer_id@, self.key@, self.source@),
    {
        let mut s = String::from_str("No Value or Pointer NoValueOrPointerFound { peer_id: ");
        s.append(string_debug(self.peer_id.as_str()).as_str());
        s.append(", key: ");
        append_bytes(&mut s, self.key.as_slice());
        s.append(", source: ");
        append_bytes(&mut s, self.source.as_slice());
        s.append(" }");
        assert(s@ =~= no_value_or_pointer_found_text(self.peer_id@, self.key@, self.source@));
        s
    }
}

impl UnexpectedRequest {
    /// The message shown for this error.
    pub fn to_string(&self) -> (r: String)
        ensures
            r@ == unexpected_request_text(self.key@),
    {
        let mut s = String::from_str("UnexpectedRequest for key ");
        append_bytes(&mut s, self.key.as_slice());
        s
    }
}

impl KeyDoesNotExist {
    /// The message shown for this error.
    pub fn to_string(&self) -> (r: String)
        ensures
            r@ == key_does_not_exist_text(self.key@),
    {
        let mut s = String::from_str("Key ");
        append_bytes(&mut s, self.key.as_slice());
        s.append(" does not exist");
        assert(s@ =~= key_does_not_exist_text(self.key@));
        s
    }
}

impl KeyAlreadyExists {
    /// The message shown for this error.
    pub fn to_string(&self) -> (r: String)
        ensures
            r@ == key_already_exists_text(self.key@),
    {
        let mut s = String::from_str("Key ");
        append_bytes(&mut s, self.key.as_slice());
        s.append(" already exists");
        assert(s@ =~= key_already_exists_text(self.key@));
        s
    }
}

impl DirectorySpecificErrors {
    /// The message shown for this error: that of the error it carries.
    pub fn to_string(&self) -> (r: String)
        ensures
            r@ == error_text(self@),
    {
        match self {
            DirectorySpecificErrors::NoValueOrPointerFound(e) => e.to_string(),
            DirectorySpecificErrors::UnexpectedRequest(e) => e.to_string(),
            DirectorySpecificErrors::KeyDoesNotExist(e) => e.to_string(),
            DirectorySpecificErrors::KeyAlreadyExists(e) => e.to_string(),
        }
    }
}

} // verus!
