//! The credential store: the persisted record that carries the API key
//! across runs, and the decision of whether a stored key can be reused or a
//! new one must be entered.
//!
//! The store itself (a per-application config file) is outside this crate.
//! The surrounding program loads the one persisted record at startup, asks
//! [`ConfigFile::check_config`] what to do, and — only when the answer is
//! [`KeyResolution::EntryNeeded`] — prompts for a key, builds the new record
//! with [`ConfigFile::new`] and writes it back. A load failure that is not
//! simply "no record yet" is a fatal config-storage error and never reaches
//! this decision.

use vstd::prelude::*;

verus! {

/// The persisted Credential Record: an opaque key string and a flag telling
/// a real key apart from the zero-value default. A record with
/// `api_key_initialized == false` is never usable; its `api_key` is
/// meaningless in that state.
#[derive(Debug, Clone)]
pub struct ConfigFile {
    pub api_key: String,
    pub api_key_initialized: bool,
}

/// What the credential flow must do next, given the loaded record and the
/// caller's reset request.
#[derive(Debug)]
pub enum KeyResolution {
    /// The stored key is usable as it stands; nothing is written.
    Ready(String),
    /// A key must be solicited, and the record it yields persisted.
    EntryNeeded,
}

/// Whether `r` is the correct outcome of resolving the credential from
/// record `c` under reset flag `reset_key`: the stored key is handed back
/// exactly when the record is initialized and no reset was asked, and
/// otherwise the entry flow is required.
pub open spec fn resolution_matches(c: ConfigFile, reset_key: bool, r: KeyResolution) -> bool {
    if c.api_key_initialized && !reset_key {
        r matches KeyResolution::Ready(k) && k@ == c.api_key@
    } else {
        r is EntryNeeded
    }
}

impl ConfigFile {
    /// A record as the key-entry flow builds it: the entered key, marked
    /// initialized.
    pub fn new(api_key: String) -> (r: Self)
        ensures
            r.api_key == api_key,
            r.api_key_initialized,
    {
        ConfigFile { api_key, api_key_initialized: true }
    }

    /// Decides whether the loaded record's key can be used or the key-entry
    /// flow must run. An absent record is represented by the default
    /// (uninitialized) record and so lands in the entry flow.
    pub fn check_config(&self, reset_key: bool) -> (r: KeyResolution)
        ensures
            resolution_matches(*self, reset_key, r),
    {
        if self.api_key_initialized && !reset_key {
            KeyResolution::Ready(self.api_key.clone())
        } else {
            KeyResolution::EntryNeeded
        }
    }
}

impl Default for ConfigFile {
    /// The zero-value record standing for "no key has been set": empty key,
    /// not initialized.
    fn default() -> (r: Self)
        ensures
            r.api_key@ == Seq::<char>::empty(),
            !r.api_key_initialized,
    {
        ConfigFile { api_key: String::new(), api_key_initialized: false }
    }
}

/// Resolving twice in a row without a reset, against a record that is
/// already initialized, never runs the entry flow — so the second call
/// performs no write — and hands back the stored key both times.
pub proof fn lemma_resolution_idempotent(
    c: ConfigFile,
    r1: KeyResolution,
    r2: KeyResolution,
)
    requires
        c.api_key_initialized,
        resolution_matches(c, false, r1),
        resolution_matches(c, false, r2),
    ensures
        r1 matches KeyResolution::Ready(k1) && k1@ == c.api_key@,
        r2 matches KeyResolution::Ready(k2) && k2@ == c.api_key@,
{
}

/// Round trip of the key-entry flow: a record built from an entered key is
/// initialized and carries that key verbatim, and any faithfully reloaded
/// copy of it resolves — without a new entry and without a write — to the
/// very key that was entered.
pub proof fn lemma_entered_key_round_trip(
    entered: String,
    reloaded: ConfigFile,
    r: KeyResolution,
)
    requires
        reloaded.api_key@ == entered@,
        reloaded.api_key_initialized,
        resolution_matches(reloaded, false, r),
    ensures
        r matches KeyResolution::Ready(k) && k@ == entered@,
{
}

} // verus!
