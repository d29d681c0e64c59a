//! Session storage of the embedded provider: the keys it stores under, the
//! files they name, how a stored text is read, and the in-memory cache in
//! front of the files.
//!
//! Reading and writing the files belongs to the caller; the cache's methods
//! say what to do with what was read and record what was written.
use vstd::prelude::*;
use crate::text::{chars_of, is_unicode_whitespace, push_str, string_from_chars};

verus! {

/// The key of the stored session.
pub const SESSION_KEY: &'static str = "phantom_embedded_session";

/// The key of the flag that asks to clear the previous session.
pub const CLEAR_PREVIOUS_SESSION_KEY: &'static str = "phantom_should_clear_previous_session";

/// The name of the file that stores `key`: the key and ".json".
pub fn key_file_name(key: &str) -> (r: String)
    ensures
        r@ == key@ + ".json"@,
{
    let mut m = chars_of(key);
    push_str(&mut m, ".json");
    string_from_chars(m.as_slice())
}

/// Whether a stored text holds nothing but white space (it then stores no
/// value).
pub fn is_blank(contents: &str) -> (r: bool)
    ensures
        r == forall|i: int| 0 <= i < contents@.len() ==> is_unicode_whitespace(#[trigger] contents@[i]),
{
    let c = chars_of(contents);
    let mut i: usize = 0;
    while i < c.len()
        invariant
            0 <= i <= c@.len(),
            c@ == contents@,
            forall|j: int| 0 <= j < i ==> is_unicode_whitespace(#[trigger] c@[j]),
        decreases c@.len() - i,
    {
        if !crate::text::is_whitespace_char(c[i]) {
            return false;
        }
        i = i + 1;
    }
    true
}

/// The cached session (of any type `S`) and clear flag of the storage.
pub struct StorageCache<S> {
    session: Option<S>,
    should_clear: bool,
}

/// Abstract state of the cache.
pub struct CacheState<S> {
    pub session: Option<S>,
    pub should_clear: bool,
}

impl<S> View for StorageCache<S> {
    type V = CacheState<S>;

    closed spec fn view(&self) -> CacheState<S> {
        CacheState { session: self.session, should_clear: self.should_clear }
    }
}

impl<S> StorageCache<S> {
    /// An empty cache.
    pub fn new() -> (r: Self)
        ensures
            r@.session is None,
            !r@.should_clear,
    {
        StorageCache { session: None, should_clear: false }
    }

    /// The cached session; when there is none, the file must be read.
    pub fn cached_session(&self) -> (r: Option<&S>)
        ensures
            match self@.session {
                Some(s) => r == Some(&s),
                None => r is None,
            },
    {
        match &self.session {
            Some(s) => Some(s),
            None => None,
        }
    }

    /// The session read from the file is cached when there is one.
    pub fn remember_loaded(&mut self, loaded: Option<S>)
        ensures
            final(self)@.session == match loaded {
                Some(s) => Some(s),
                None => old(self)@.session,
            },
            final(self)@.should_clear == old(self)@.should_clear,
    {
        if let Some(s) = loaded {
            self.session = Some(s);
        }
    }

    /// A saved session is cached.
    pub fn remember_saved(&mut self, session: S)
        ensures
            final(self)@.session == Some(session),
            final(self)@.should_clear == old(self)@.should_clear,
    {
        self.session = Some(session);
    }

    /// A cleared session leaves the cache.
    pub fn forget_session(&mut self)
        ensures
            final(self)@.session is None,
            final(self)@.should_clear == old(self)@.should_clear,
    {
        self.session = None;
    }

    /// Whether the previous session is to be cleared, without reading the
    /// file: known only when the cached flag is set.
    pub fn cached_should_clear(&self) -> (r: bool)
        ensures
            r == self@.should_clear,
    {
        self.should_clear
    }

    /// Whether the previous session is to be cleared: the cached flag, else
    /// the stored flag, else not.
    pub fn should_clear(&self, stored: Option<bool>) -> (r: bool)
        ensures
            r == (self@.should_clear || stored == Some(true)),
    {
        if self.should_clear {
            return true;
        }
        match stored {
            Some(b) => b,
            None => false,
        }
    }

    /// A written flag is cached.
    pub fn remember_should_clear(&mut self, should: bool)
        ensures
            final(self)@.should_clear == should,
            final(self)@.session == old(self)@.session,
    {
        self.should_clear = should;
    }
}

} // verus!
