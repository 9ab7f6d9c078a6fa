//! The keys under which the cache holds values.

use vstd::prelude::*;

verus! {

/// A key: one path segment, so not empty and without a `/`.
pub open spec fn is_key(text: Seq<char>) -> bool {
    text.len() > 0 && !text.contains('/')
}

/// A key of the cache. Every `CacheKey` holds the text of a key: there is
/// none that is empty or holds a `/`.
#[derive(Debug, PartialEq, Eq, Hash)]
pub struct CacheKey {
    text: String,
}

impl View for CacheKey {
    type V = Seq<char>;

    closed spec fn view(&self) -> Seq<char> {
        self.text@
    }
}

impl Clone for CacheKey {
    fn clone(&self) -> (copy: CacheKey)
        ensures
            copy@ == self@,
    {
        proof {
            use_type_invariant(self);
        }
        CacheKey { text: self.text.clone() }
    }
}

/// Whether `text` holds a `/`.
fn has_slash(text: &str) -> (found: bool)
    ensures
        found == text@.contains('/'),
{
    let mut found = false;
    for c in it: text.chars()
        invariant
            it.seq() == text@,
            found == exists|j: int| 0 <= j < it.index() && text@[j] == '/',
    {
        if c == '/' {
            found = true;
        }
    }
    found
}

impl CacheKey {
    #[verifier::type_invariant]
    spec fn well_formed(self) -> bool {
        is_key(self.text@)
    }

    /// The key with the given text, if that is the text of a key.
    pub fn new(text: String) -> (key: Option<CacheKey>)
        ensures
            key is Some == is_key(text@),
            key matches Some(made) ==> made@ == text@,
    {
        if text.as_str().is_empty() || has_slash(text.as_str()) {
            None
        } else {
            Some(CacheKey { text })
        }
    }

    /// The text of the key.
    pub fn as_str(&self) -> (text: &str)
        ensures
            text@ == self@,
            is_key(text@),
    {
        proof {
            use_type_invariant(self);
        }
        self.text.as_str()
    }

    /// The text of the key, as an owned value.
    pub fn into_string(self) -> (text: String)
        ensures
            text@ == self@,
            is_key(text@),
    {
        proof {
            use_type_invariant(&self);
        }
        self.text
    }
}

} // verus!
