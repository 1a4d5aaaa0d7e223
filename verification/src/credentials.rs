//! The credential store and the token-set discipline.
//!
//! Credentials are named opaque strings, one value per key; reading a key
//! that was never written is the distinguishable "not authorized yet" error,
//! not an empty value. An OAuth access/refresh/expiry triple is kept under a
//! single key as one encoded value, so overwriting it is one store update:
//! a reader sees either the whole old triple or the whole new one, never a
//! new access token beside a stale refresh token.

use vstd::prelude::*;

verus! {

use vstd::string::*;
use crate::strutil::{
    all_digits,
    digits_val,
    is_digit,
    lemma_digits_val_of_spec_digits,
    lemma_split_on_concat,
    lemma_split_on_no_sep,
    parse_u64,
    spec_digits,
    spec_parse_u64,
    split_on,
    split_on_exec,
    str_eq,
    string_push,
    u64_to_string,
};

/// Reading a credential can fail two ways: the key was never written (run the
/// interactive authorization flow first), or its value does not decode as the
/// expected token set.
#[derive(Debug)]
pub enum CredError {
    NotAuthorized,
    Malformed,
}

/// The value of the newest entry for `k`, if any.
pub open spec fn spec_lookup(s: Seq<(Seq<char>, Seq<char>)>, k: Seq<char>) -> Option<Seq<char>>
    decreases s.len(),
{
    if s.len() == 0 {
        None
    } else if s[0].0 == k {
        Some(s[0].1)
    } else {
        spec_lookup(s.drop_first(), k)
    }
}

/// Named opaque secrets, one value per key. A write for a key stands in
/// front of (and shadows) any older value of that key, so a lookup always
/// reads the newest write.
pub struct CredentialStore {
    entries: Vec<(String, String)>,
}

impl CredentialStore {
    pub closed spec fn raw(&self) -> Seq<(Seq<char>, Seq<char>)> {
        self.entries@.map_values(|p: (String, String)| (p.0@, p.1@))
    }

    /// The current value of `k`: the newest one saved, absent before the
    /// first save.
    pub closed spec fn val(&self, k: Seq<char>) -> Option<Seq<char>> {
        spec_lookup(self.raw(), k)
    }

    /// A store holding no credential at all.
    pub fn new() -> (r: CredentialStore)
        ensures
            forall|k: Seq<char>| r.val(k) is None,
    {
        let r = CredentialStore { entries: Vec::new() };
        proof {
            assert(r.raw() =~= Seq::<(Seq<char>, Seq<char>)>::empty());
        }
        r
    }

    /// Saves `value` under `key`, replacing (shadowing) whatever the key held;
    /// every other key is untouched.
    pub fn save_token(&mut self, key: &str, value: &str)
        ensures
            final(self).val(key@) == Some(value@),
            forall|k: Seq<char>| k != key@ ==> final(self).val(k) == old(self).val(k),
    {
        let ghost before = self.raw();
        self.entries.insert(0, (String::from_str(key), String::from_str(value)));
        proof {
            assert(self.raw() =~= seq![(key@, value@)] + before);
            assert(self.raw()[0] == (key@, value@));
            assert(self.raw().drop_first() =~= before);
        }
    }

    /// Loads the current value of `key`; a key never saved is the
    /// "not authorized yet" error.
    pub fn load_token(&self, key: &str) -> (r: Result<String, CredError>)
        ensures
            match r {
                Ok(v) => self.val(key@) == Some(v@),
                Err(e) => self.val(key@) is None && e == CredError::NotAuthorized,
            },
    {
        let n = self.entries.len();
        let mut i: usize = 0;
        proof {
            assert(self.raw().skip(0) =~= self.raw());
        }
        while i < n
            invariant
                n == self.entries.len(),
                i <= n,
                spec_lookup(self.raw().skip(i as int), key@) == self.val(key@),
            decreases n - i,
        {
            proof {
                assert(self.raw().skip(i as int)[0] == self.raw()[i as int]);
                assert(self.raw().skip(i as int).drop_first() =~= self.raw().skip(i + 1));
            }
            if str_eq(self.entries[i].0.as_str(), key) {
                return Ok(self.entries[i].1.clone());
            }
            i = i + 1;
        }
        proof {
            assert(self.raw().skip(n as int) =~= Seq::<(Seq<char>, Seq<char>)>::empty());
        }
        Err(CredError::NotAuthorized)
    }
}

/// An access token, its refresh token, and the access token's expiry, as a
/// seconds-since-epoch timestamp.
#[derive(Clone)]
pub struct TokenSet {
    pub access: String,
    pub refresh: String,
    pub expiry: u64,
}

/// Tokens are single-line values; the encoding below separates them by
/// newlines.
pub open spec fn token_wf(t: Seq<char>) -> bool {
    !t.contains('\n')
}

impl TokenSet {
    pub open spec fn wf(&self) -> bool {
        token_wf(self.access@) && token_wf(self.refresh@)
    }
}

/// The single value under which a token set is stored: the three parts,
/// newline-separated, the expiry in decimal.
pub open spec fn spec_encode_token_set(access: Seq<char>, refresh: Seq<char>, expiry: u64) -> Seq<
    char,
> {
    access + seq!['\n'] + refresh + seq!['\n'] + spec_digits(expiry as nat)
}

/// What a stored value decodes back to: exactly three newline-separated
/// parts, the third a decimal number.
pub open spec fn spec_decode_token_set(s: Seq<char>) -> Option<(Seq<char>, Seq<char>, u64)> {
    let parts = split_on(s, '\n');
    if parts.len() == 3 {
        match spec_parse_u64(parts[2]) {
            Some(e) => Some((parts[0], parts[1], e)),
            None => None,
        }
    } else {
        None
    }
}

impl TokenSet {
    pub fn encode(&self) -> (r: String)
        ensures
            r@ == spec_encode_token_set(self.access@, self.refresh@, self.expiry),
    {
        let mut s = self.access.clone();
        string_push(&mut s, '\n');
        s.append(self.refresh.as_str());
        string_push(&mut s, '\n');
        let digits = u64_to_string(self.expiry);
        s.append(digits.as_str());
        proof {
            assert(s@ =~= spec_encode_token_set(self.access@, self.refresh@, self.expiry));
        }
        s
    }

    pub fn decode(s: &str) -> (r: Option<TokenSet>)
        ensures
            match r {
                Some(t) => spec_decode_token_set(s@) == Some((t.access@, t.refresh@, t.expiry)),
                None => spec_decode_token_set(s@) is None,
            },
    {
        let parts = split_on_exec(s, '\n');
        if parts.len() != 3 {
            return None;
        }
        match parse_u64(parts[2].as_str()) {
            Some(e) => Some(
                TokenSet { access: parts[0].clone(), refresh: parts[1].clone(), expiry: e },
            ),
            None => None,
        }
    }
}

/// A digit string holds no newline.
proof fn lemma_digits_no_newline(d: Seq<char>)
    requires
        all_digits(d),
    ensures
        !d.contains('\n'),
{
    if d.contains('\n') {
        let i = choose|i: int| 0 <= i < d.len() && d[i] == '\n';
        assert(is_digit(d[i]));
    }
}

/// Encoding a well-formed token set and decoding the stored value gives back
/// exactly the triple that was written: the three parts cannot come apart.
pub proof fn lemma_token_set_round_trip(access: Seq<char>, refresh: Seq<char>, expiry: u64)
    requires
        token_wf(access),
        token_wf(refresh),
    ensures
        spec_decode_token_set(spec_encode_token_set(access, refresh, expiry)) == Some(
            (access, refresh, expiry),
        ),
{
    let d = spec_digits(expiry as nat);
    lemma_digits_val_of_spec_digits(expiry as nat);
    lemma_digits_no_newline(d);
    let tail = refresh + seq!['\n'] + d;
    let enc = spec_encode_token_set(access, refresh, expiry);
    assert(enc =~= access + seq!['\n'] + tail);
    lemma_split_on_concat(access, tail, '\n');
    lemma_split_on_concat(refresh, d, '\n');
    lemma_split_on_no_sep(access, '\n');
    lemma_split_on_no_sep(refresh, '\n');
    lemma_split_on_no_sep(d, '\n');
    assert(split_on(enc, '\n') =~~= seq![access, refresh, d]);
    assert(spec_parse_u64(d) == Some(expiry));
}

impl CredentialStore {
    /// Persists a whole token set under one key, in one store update. There
    /// is no state in which only part of the triple has been replaced.
    pub fn save_token_set(&mut self, key: &str, tokens: &TokenSet)
        ensures
            final(self).val(key@) == Some(
                spec_encode_token_set(tokens.access@, tokens.refresh@, tokens.expiry),
            ),
            forall|k: Seq<char>| k != key@ ==> final(self).val(k) == old(self).val(k),
    {
        let encoded = tokens.encode();
        self.save_token(key, encoded.as_str());
    }

    /// Reads a whole token set back: the triple of the newest
    /// `save_token_set` for the key, `NotAuthorized` before the first one,
    /// `Malformed` if the key holds something else.
    pub fn load_token_set(&self, key: &str) -> (r: Result<TokenSet, CredError>)
        ensures
            match r {
                Ok(t) => self.val(key@) matches Some(v) && spec_decode_token_set(v) == Some(
                    (t.access@, t.refresh@, t.expiry),
                ),
                Err(e) => match self.val(key@) {
                    Some(v) => e == CredError::Malformed && spec_decode_token_set(v) is None,
                    None => e == CredError::NotAuthorized,
                },
            },
    {
        match self.load_token(key) {
            Ok(v) => match TokenSet::decode(v.as_str()) {
                Some(t) => Ok(t),
                None => Err(CredError::Malformed),
            },
            Err(_) => Err(CredError::NotAuthorized),
        }
    }
}

/// Refresh atomicity: a store is only ever observed before or after
/// `save_token_set`, the single mutation of a refresh. In the pre state the
/// key reads back as the complete old triple and in the post state as the
/// complete new one; no observable state pairs the new access token with the
/// old refresh token.
pub proof fn lemma_refresh_atomic(
    pre: CredentialStore,
    post: CredentialStore,
    key: Seq<char>,
    old_tokens: TokenSet,
    new_tokens: TokenSet,
)
    requires
        old_tokens.wf(),
        new_tokens.wf(),
        pre.val(key) == Some(
            spec_encode_token_set(old_tokens.access@, old_tokens.refresh@, old_tokens.expiry),
        ),
        post.val(key) == Some(
            spec_encode_token_set(new_tokens.access@, new_tokens.refresh@, new_tokens.expiry),
        ),
    ensures
        spec_decode_token_set(pre.val(key)->Some_0) == Some(
            (old_tokens.access@, old_tokens.refresh@, old_tokens.expiry),
        ),
        spec_decode_token_set(post.val(key)->Some_0) == Some(
            (new_tokens.access@, new_tokens.refresh@, new_tokens.expiry),
        ),
{
    lemma_token_set_round_trip(old_tokens.access@, old_tokens.refresh@, old_tokens.expiry);
    lemma_token_set_round_trip(new_tokens.access@, new_tokens.refresh@, new_tokens.expiry);
}

/// The credential lifecycle of an OAuth-bearing backend.
pub enum CredentialState {
    NoCredentials,
    Valid,
    Expired,
    Refreshing,
}

/// What happens to the credentials: the interactive flow completes, the
/// clock reaches the stored expiry, or a refresh exchange starts and ends.
pub enum CredentialEvent {
    /// The operator-invoked authorization flow obtained and persisted a
    /// grant.
    Authorized,
    /// Time passed; `expired` says whether the stored expiry timestamp has
    /// been reached.
    Clock { expired: bool },
    /// `deliver` found the access token expired and began exchanging the
    /// refresh token.
    RefreshStarted,
    /// The exchange returned a fresh triple, persisted in one update.
    RefreshSucceeded,
    /// The exchange failed; the delivery fails and is queued for retry.
    RefreshFailed,
}

/// One step of the credential lifecycle. Authorization makes missing
/// credentials valid; a valid token expires when its timestamp is reached;
/// an expired one is refreshed before the transfer, becoming valid again on
/// success and staying expired on failure; any other pairing changes
/// nothing.
pub fn credential_step(state: CredentialState, event: &CredentialEvent) -> (r: CredentialState)
    ensures
        match (state, event) {
            (CredentialState::NoCredentials, CredentialEvent::Authorized) => r
                == CredentialState::Valid,
            (CredentialState::Valid, CredentialEvent::Clock { expired }) => r == (if *expired {
                CredentialState::Expired
            } else {
                CredentialState::Valid
            }),
            (CredentialState::Expired, CredentialEvent::RefreshStarted) => r
                == CredentialState::Refreshing,
            (CredentialState::Refreshing, CredentialEvent::RefreshSucceeded) => r
                == CredentialState::Valid,
            (CredentialState::Refreshing, CredentialEvent::RefreshFailed) => r
                == CredentialState::Expired,
            (s, _) => r == s,
        },
{
    match (state, event) {
        (CredentialState::NoCredentials, CredentialEvent::Authorized) => CredentialState::Valid,
        (CredentialState::Valid, CredentialEvent::Clock { expired }) => if *expired {
            CredentialState::Expired
        } else {
            CredentialState::Valid
        },
        (CredentialState::Expired, CredentialEvent::RefreshStarted) => CredentialState::Refreshing,
        (CredentialState::Refreshing, CredentialEvent::RefreshSucceeded) => CredentialState::Valid,
        (CredentialState::Refreshing, CredentialEvent::RefreshFailed) => CredentialState::Expired,
        (s, _) => s,
    }
}

/// What `deliver` must do about tokens before transferring anything.
pub enum TokenPlan {
    /// No token set stored: fail with the "run the authorization flow" error.
    NotAuthorized,
    /// The access token is fresh: use the loaded set as it is.
    UseCurrent,
    /// The access token has expired: exchange the refresh token first.
    RefreshFirst,
}

/// The stored-credential state at time `now`: absent, still valid, or
/// expired (an access token is expired from its expiry timestamp on).
pub fn credential_state(loaded: &Option<TokenSet>, now: u64) -> (r: CredentialState)
    ensures
        match loaded {
            None => r == CredentialState::NoCredentials,
            Some(t) => r == (if now < t.expiry {
                CredentialState::Valid
            } else {
                CredentialState::Expired
            }),
        },
{
    match loaded {
        None => CredentialState::NoCredentials,
        Some(t) => if now < t.expiry {
            CredentialState::Valid
        } else {
            CredentialState::Expired
        },
    }
}

/// The decision `deliver` takes from that state: missing credentials surface
/// as the actionable not-authorized failure, valid ones are used as they
/// are, expired ones are refreshed before the transfer.
pub fn delivery_token_plan(loaded: &Option<TokenSet>, now: u64) -> (r: TokenPlan)
    ensures
        match loaded {
            None => r == TokenPlan::NotAuthorized,
            Some(t) => r == (if now < t.expiry {
                TokenPlan::UseCurrent
            } else {
                TokenPlan::RefreshFirst
            }),
        },
{
    match credential_state(loaded, now) {
        CredentialState::NoCredentials => TokenPlan::NotAuthorized,
        CredentialState::Valid => TokenPlan::UseCurrent,
        // a freshness check never finds the store mid-refresh: the whole
        // triple is replaced in one update
        CredentialState::Expired | CredentialState::Refreshing => TokenPlan::RefreshFirst,
    }
}

} // verus!
