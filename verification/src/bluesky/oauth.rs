//! Sign-in: the requests that wait for their callback, the errors of the
//! flow, and how keys are written down for keeping.

use crate::bindings::{
    base64_bytes, base64_decode, base64_encode, base64_text, generate_key_bytes, pkce_pair,
    percent_encode, percent_encoded, push_char, random_below, utc_now,
};
use crate::text::chars_of;
use crate::time::Timestamp;
use vstd::prelude::*;

verus! {

// ---------------------------------------------------------------------------
// Errors
// ---------------------------------------------------------------------------

/// What can go wrong during sign-in.
#[derive(Debug, Clone, PartialEq, Eq)]
pub enum OAuthError {
    InvalidHandle(String),
    IdentityResolution(String),
    ServerDiscovery(String),
    InitFailed(String),
    CompleteFailed(String),
    RefreshFailed(String),
    /// No request waits under the state that came back.
    InvalidState,
    /// The request that waited has run out.
    StateExpired,
    MissingCode,
    HttpClient(String),
    KeyGeneration(String),
    KeySerialization(String),
}

impl OAuthError {
    /// The error in words: a fixed text for its kind, followed by its
    /// detail where it has one.
    pub open spec fn message_text(self) -> Seq<char> {
        match self {
            OAuthError::InvalidHandle(d) => "Invalid handle: "@ + d@,
            OAuthError::IdentityResolution(d) => "Failed to resolve identity: "@ + d@,
            OAuthError::ServerDiscovery(d) => "Failed to discover authorization server: "@ + d@,
            OAuthError::InitFailed(d) => "OAuth initialization failed: "@ + d@,
            OAuthError::CompleteFailed(d) => "OAuth completion failed: "@ + d@,
            OAuthError::RefreshFailed(d) => "Token refresh failed: "@ + d@,
            OAuthError::InvalidState => "Invalid state parameter"@,
            OAuthError::StateExpired => "State expired"@,
            OAuthError::MissingCode => "Missing authorization code"@,
            OAuthError::HttpClient(d) => "HTTP client error: "@ + d@,
            OAuthError::KeyGeneration(d) => "Key generation failed: "@ + d@,
            OAuthError::KeySerialization(d) => "Key serialization failed: "@ + d@,
        }
    }

    /// The error in words.
    pub fn message(&self) -> (text: String)
        ensures
            text@ == self.message_text(),
    {
        match self {
            OAuthError::InvalidHandle(d) => String::from_str("Invalid handle: ").concat(d.as_str()),
            OAuthError::IdentityResolution(d) => String::from_str(
                "Failed to resolve identity: ",
            ).concat(d.as_str()),
            OAuthError::ServerDiscovery(d) => String::from_str(
                "Failed to discover authorization server: ",
            ).concat(d.as_str()),
            OAuthError::InitFailed(d) => String::from_str("OAuth initialization failed: ").concat(
                d.as_str(),
            ),
            OAuthError::CompleteFailed(d) => String::from_str("OAuth completion failed: ").concat(
                d.as_str(),
            ),
            OAuthError::RefreshFailed(d) => String::from_str("Token refresh failed: ").concat(
                d.as_str(),
            ),
            OAuthError::InvalidState => String::from_str("Invalid state parameter"),
            OAuthError::StateExpired => String::from_str("State expired"),
            OAuthError::MissingCode => String::from_str("Missing authorization code"),
            OAuthError::HttpClient(d) => String::from_str("HTTP client error: ").concat(d.as_str()),
            OAuthError::KeyGeneration(d) => String::from_str("Key generation failed: ").concat(
                d.as_str(),
            ),
            OAuthError::KeySerialization(d) => String::from_str(
                "Key serialization failed: ",
            ).concat(d.as_str()),
        }
    }
}

// ---------------------------------------------------------------------------
// What is kept of a sign-in that waits for its callback
// ---------------------------------------------------------------------------

/// The bookkeeping of one sign-in attempt.
#[derive(Debug, Clone)]
pub struct OAuthRequest {
    /// The state token, under which the attempt waits.
    pub oauth_state: String,
    pub issuer: String,
    pub authorization_server: String,
    pub nonce: String,
    pub pkce_verifier: String,
    /// The client's signing key, written down.
    pub signing_public_key: String,
    /// The key that proves possession, written down.
    pub dpop_private_key: String,
    pub created_at: Timestamp,
    pub expires_at: Timestamp,
}

/// What an authorization server says of itself.
#[derive(Debug, Clone)]
pub struct AuthorizationServer {
    pub introspection_endpoint: String,
    pub authorization_endpoint: String,
    pub authorization_response_iss_parameter_supported: bool,
    pub client_id_metadata_document_supported: bool,
    pub code_challenge_methods_supported: Vec<String>,
    pub dpop_signing_alg_values_supported: Vec<String>,
    pub grant_types_supported: Vec<String>,
    pub issuer: String,
    pub pushed_authorization_request_endpoint: String,
    pub request_parameter_supported: bool,
    pub require_pushed_authorization_requests: bool,
    pub response_types_supported: Vec<String>,
    pub scopes_supported: Vec<String>,
    pub token_endpoint_auth_methods_supported: Vec<String>,
    pub token_endpoint_auth_signing_alg_values_supported: Vec<String>,
    pub token_endpoint: String,
}

/// A sign-in that waits for its callback.
#[derive(Debug, Clone)]
pub struct PendingOAuthRequest {
    pub oauth_request: OAuthRequest,
    pub authorization_server: AuthorizationServer,
    pub created_at: Timestamp,
}

/// How long a request waits, in seconds, unless the store is told
/// otherwise: ten minutes.
pub const DEFAULT_TTL_SECS: u32 = 600;

/// Whether a request made at `created_at` still waits at `now`, where
/// requests wait for `ttl_secs` seconds: it does while its making is later
/// than `ttl_secs` seconds before `now`.
pub open spec fn still_waits(created_at: Timestamp, now: Timestamp, ttl_secs: u32) -> bool {
    created_at.later_than(now.secs - ttl_secs, now.nanos as int)
}

/// What waits after the requests that have run out at `now` are dropped
/// from `waiting`: the requests that still wait, each as it was.
pub open spec fn swept(
    waiting: Map<Seq<char>, PendingOAuthRequest>,
    now: Timestamp,
    ttl_secs: u32,
) -> Map<Seq<char>, PendingOAuthRequest> {
    waiting.restrict(
        Set::new(
            |key: Seq<char>|
                waiting.contains_key(key) && still_waits(waiting[key].created_at, now, ttl_secs),
        ),
    )
}

/// What a take of `key` hands out, and what waits after it.
pub open spec fn after_take(waiting: Map<Seq<char>, PendingOAuthRequest>, key: Seq<char>) -> (
    Option<PendingOAuthRequest>,
    Map<Seq<char>, PendingOAuthRequest>,
) {
    (
        if waiting.contains_key(key) {
            Some(waiting[key])
        } else {
            None
        },
        waiting.remove(key),
    )
}

/// A request that was stored is handed out by the first take of its state,
/// exactly as it was stored, and by no second take; the requests under
/// other states are not touched by either.
pub proof fn lemma_take_once(
    waiting: Map<Seq<char>, PendingOAuthRequest>,
    key: Seq<char>,
    request: PendingOAuthRequest,
    other: Seq<char>,
)
    requires
        other != key,
    ensures
        after_take(waiting.insert(key, request), key).0 == Some(request),
        after_take(after_take(waiting.insert(key, request), key).1, key).0 is None,
        after_take(waiting.insert(key, request), key).1 == waiting.remove(key),
        after_take(waiting.insert(key, request), key).1.contains_key(other)
            == waiting.contains_key(other),
        waiting.contains_key(other) ==> after_take(waiting.insert(key, request), key).1[other]
            == waiting[other],
{
    assert(waiting.insert(key, request).remove(key) =~= waiting.remove(key));
}

/// A sweep drops a request exactly when it has run out, that is when it was
/// made no later than the time to live before the sweep; a request that has
/// not run out is kept as it is.
pub proof fn lemma_sweep_drops_what_ran_out(
    waiting: Map<Seq<char>, PendingOAuthRequest>,
    key: Seq<char>,
    now: Timestamp,
    ttl_secs: u32,
)
    requires
        waiting.contains_key(key),
    ensures
        !still_waits(waiting[key].created_at, now, ttl_secs) ==> !swept(
            waiting,
            now,
            ttl_secs,
        ).contains_key(key),
        still_waits(waiting[key].created_at, now, ttl_secs) ==> swept(
            waiting,
            now,
            ttl_secs,
        ).contains_key(key) && swept(waiting, now, ttl_secs)[key] == waiting[key],
{
}

/// A sweep never drops or changes a request that is stored after the sweep
/// began. For a request made at the instant of the sweep or later, in a
/// store whose time to live is at least a second as that of every store is:
/// stored before the sweep ends or after it, the request waits afterwards,
/// as it was stored, and the store is the same either way.
pub proof fn lemma_sweep_spares_what_is_stored_later(
    waiting: Map<Seq<char>, PendingOAuthRequest>,
    now: Timestamp,
    ttl_secs: u32,
    key: Seq<char>,
    late: PendingOAuthRequest,
)
    requires
        ttl_secs > 0,
        !now.is_after(late.created_at),
    ensures
        swept(waiting.insert(key, late), now, ttl_secs).contains_key(key),
        swept(waiting.insert(key, late), now, ttl_secs)[key] == late,
        swept(waiting, now, ttl_secs).insert(key, late).contains_key(key),
        swept(waiting, now, ttl_secs).insert(key, late)[key] == late,
        swept(waiting.insert(key, late), now, ttl_secs) == swept(waiting, now, ttl_secs).insert(
            key,
            late,
        ),
        after_take(swept(waiting.insert(key, late), now, ttl_secs), key).0 == Some(late),
{
    assert(still_waits(late.created_at, now, ttl_secs));
    assert(swept(waiting.insert(key, late), now, ttl_secs) =~= swept(
        waiting,
        now,
        ttl_secs,
    ).insert(key, late));
}

/// A request has run out at `now` exactly when `now` is at or after the
/// instant `ttl_secs` seconds after it was made.
pub proof fn lemma_runs_out_after_ttl(created_at: Timestamp, now: Timestamp, ttl_secs: u32)
    ensures
        !still_waits(created_at, now, ttl_secs) <==> (now.secs > created_at.secs + ttl_secs || (
        now.secs == created_at.secs + ttl_secs && now.nanos >= created_at.nanos)),
{
}

/// The requests that wait for their callback, each under its state token.
///
/// Every operation that changes the store takes it exclusively. Callers
/// that share a store behind a lock therefore see each operation as a
/// whole: of two takes of one state at most one finds the request, and a
/// sweep neither loses a request stored beside it nor drops one twice.
pub struct OAuthStateStore {
    entries: Vec<(String, PendingOAuthRequest)>,
    ttl_secs: u32,
}

/// Whether `key` is among the first `n` keys of `entries`.
pub open spec fn key_before(entries: Seq<(String, PendingOAuthRequest)>, key: Seq<char>, n: int)
    -> bool {
    exists|i: int| 0 <= i < n && i < entries.len() && (#[trigger] entries[i]).0@ == key
}

/// The position of `key` among `entries`.
pub open spec fn position(entries: Seq<(String, PendingOAuthRequest)>, key: Seq<char>) -> int {
    choose|i: int| 0 <= i < entries.len() && (#[trigger] entries[i]).0@ == key
}

/// Whether no two of `entries` have the same key.
pub open spec fn distinct_keys(entries: Seq<(String, PendingOAuthRequest)>) -> bool {
    forall|i: int, j: int|
        0 <= i < j < entries.len() ==> (#[trigger] entries[i]).0@ != (#[trigger] entries[j]).0@
}

/// The requests of `entries`, each under its key.
pub open spec fn as_map(entries: Seq<(String, PendingOAuthRequest)>) -> Map<
    Seq<char>,
    PendingOAuthRequest,
> {
    Map::new(
        |key: Seq<char>| key_before(entries, key, entries.len() as int),
        |key: Seq<char>| entries[position(entries, key)].1,
    )
}

proof fn lemma_entry_in_map(entries: Seq<(String, PendingOAuthRequest)>, i: int)
    requires
        distinct_keys(entries),
        0 <= i < entries.len(),
    ensures
        as_map(entries).contains_key(entries[i].0@),
        as_map(entries)[entries[i].0@] == entries[i].1,
{
    let key = entries[i].0@;
    assert(key_before(entries, key, entries.len() as int));
    let j = position(entries, key);
    assert(0 <= j < entries.len() && entries[j].0@ == key);
    if j < i {
        assert(entries[j].0@ != entries[i].0@);
    }
    if i < j {
        assert(entries[i].0@ != entries[j].0@);
    }
}

proof fn lemma_removed_entry(entries: Seq<(String, PendingOAuthRequest)>, i: int)
    requires
        distinct_keys(entries),
        0 <= i < entries.len(),
    ensures
        distinct_keys(entries.remove(i)),
        as_map(entries.remove(i)) == as_map(entries).remove(entries[i].0@),
{
    let after = entries.remove(i);
    let key = entries[i].0@;
    assert forall|a: int, b: int| 0 <= a < b < after.len() implies (#[trigger] after[a]).0@ != (
    #[trigger] after[b]).0@ by {
        let a0 = if a < i {
            a
        } else {
            a + 1
        };
        let b0 = if b < i {
            b
        } else {
            b + 1
        };
        assert(after[a] == entries[a0]);
        assert(after[b] == entries[b0]);
    }
    let left = as_map(after);
    let right = as_map(entries).remove(key);
    assert forall|k: Seq<char>| left.contains_key(k) implies right.contains_key(k) && left[k]
        == right[k] by {
        let a = position(after, k);
        assert(0 <= a < after.len() && after[a].0@ == k);
        let a0 = if a < i {
            a
        } else {
            a + 1
        };
        assert(after[a] == entries[a0]);
        lemma_entry_in_map(entries, a0);
        lemma_entry_in_map(after, a);
        if a0 < i {
            assert(entries[a0].0@ != entries[i].0@);
        } else {
            assert(entries[i].0@ != entries[a0].0@);
        }
    }
    assert forall|k: Seq<char>| right.contains_key(k) implies left.contains_key(k) by {
        let a0 = position(entries, k);
        assert(0 <= a0 < entries.len() && entries[a0].0@ == k);
        assert(a0 != i);
        let a = if a0 < i {
            a0
        } else {
            a0 - 1
        };
        assert(after[a] == entries[a0]);
        lemma_entry_in_map(after, a);
    }
    assert(left =~= right);
}

proof fn lemma_pushed_entry(
    entries: Seq<(String, PendingOAuthRequest)>,
    entry: (String, PendingOAuthRequest),
)
    requires
        distinct_keys(entries),
        !as_map(entries).contains_key(entry.0@),
    ensures
        distinct_keys(entries.push(entry)),
        as_map(entries.push(entry)) == as_map(entries).insert(entry.0@, entry.1),
{
    let after = entries.push(entry);
    assert forall|a: int, b: int| 0 <= a < b < after.len() implies (#[trigger] after[a]).0@ != (
    #[trigger] after[b]).0@ by {
        assert(after[a] == entries[a]);
        if b == entries.len() {
            if after[a].0@ == entry.0@ {
                assert(key_before(entries, entry.0@, entries.len() as int));
            }
        } else {
            assert(after[b] == entries[b]);
        }
    }
    let left = as_map(after);
    let right = as_map(entries).insert(entry.0@, entry.1);
    assert forall|k: Seq<char>| left.contains_key(k) implies right.contains_key(k) && left[k]
        == right[k] by {
        let a = position(after, k);
        assert(0 <= a < after.len() && after[a].0@ == k);
        lemma_entry_in_map(after, a);
        if a < entries.len() {
            assert(after[a] == entries[a]);
            lemma_entry_in_map(entries, a);
        }
    }
    assert forall|k: Seq<char>| right.contains_key(k) implies left.contains_key(k) by {
        if k == entry.0@ {
            assert(after[entries.len() as int] == entry);
            lemma_entry_in_map(after, entries.len() as int);
        } else {
            let a = position(entries, k);
            assert(0 <= a < entries.len() && entries[a].0@ == k);
            assert(after[a] == entries[a]);
            lemma_entry_in_map(after, a);
        }
    }
    assert(left =~= right);
}

impl OAuthStateStore {
    #[verifier::type_invariant]
    spec fn well_formed(self) -> bool {
        distinct_keys(self.entries@) && self.ttl_secs > 0
    }

    /// The requests that wait, each under its state token.
    pub closed spec fn view(self) -> Map<Seq<char>, PendingOAuthRequest> {
        as_map(self.entries@)
    }

    /// How long a request waits, in seconds.
    pub closed spec fn ttl(self) -> u32 {
        self.ttl_secs
    }

    /// A store in which nothing waits, and requests wait for ten minutes.
    pub fn new() -> (store: OAuthStateStore)
        ensures
            store@ == Map::<Seq<char>, PendingOAuthRequest>::empty(),
            store.ttl() == DEFAULT_TTL_SECS,
    {
        OAuthStateStore::with_ttl(DEFAULT_TTL_SECS)
    }

    /// A store in which nothing waits, and requests wait for `ttl_secs`
    /// seconds. The time to live is at least a second: with none at all, a
    /// request stored at the very instant of a sweep would not outlast it.
    pub fn with_ttl(ttl_secs: u32) -> (store: OAuthStateStore)
        requires
            ttl_secs > 0,
        ensures
            store@ == Map::<Seq<char>, PendingOAuthRequest>::empty(),
            store.ttl() == ttl_secs,
    {
        let store = OAuthStateStore { entries: Vec::new(), ttl_secs };
        assert(store@ =~= Map::<Seq<char>, PendingOAuthRequest>::empty());
        store
    }

    /// How long a request waits, in seconds: always at least one.
    pub fn time_to_live(&self) -> (secs: u32)
        ensures
            secs == self.ttl(),
            secs > 0,
    {
        proof {
            use_type_invariant(self);
        }
        self.ttl_secs
    }

    /// How many requests wait.
    pub fn len(&self) -> (n: usize)
        ensures
            n == self@.dom().len(),
            self@.dom().finite(),
    {
        proof {
            use_type_invariant(self);
            lemma_domain_size(self.entries@);
        }
        self.entries.len()
    }

    /// Whether a request waits under `state`.
    pub fn contains(&self, state: &str) -> (r: bool)
        ensures
            r == self@.contains_key(state@),
    {
        match find(&self.entries, state) {
            Some(i) => {
                proof {
                    use_type_invariant(self);
                    lemma_entry_in_map(self.entries@, i as int);
                }
                true
            },
            None => false,
        }
    }

    /// Lets `request` wait under `state`, in place of what waited there
    /// before, if anything. Every other request waits on as before.
    pub fn store(&mut self, state: String, request: PendingOAuthRequest)
        ensures
            final(self)@ == old(self)@.insert(state@, request),
            final(self).ttl() == old(self).ttl(),
    {
        proof {
            use_type_invariant(&*self);
        }
        let mut entries: Vec<(String, PendingOAuthRequest)> = Vec::new();
        core::mem::swap(&mut self.entries, &mut entries);
        let ghost before = entries@;
        match find(&entries, state.as_str()) {
            Some(i) => {
                proof {
                    lemma_removed_entry(before, i as int);
                    lemma_pushed_entry(before.remove(i as int), (state, request));
                    assert(as_map(before).remove(state@).insert(state@, request) =~= as_map(
                        before,
                    ).insert(state@, request));
                }
                entries.remove(i);
            },
            None => {
                proof {
                    lemma_pushed_entry(before, (state, request));
                }
            },
        }
        entries.push((state, request));
        core::mem::swap(&mut self.entries, &mut entries);
    }

    /// Hands out the request that waits under `state`, which waits no
    /// longer: a second call for the same state finds nothing. Every other
    /// request waits on as before.
    pub fn take(&mut self, state: &str) -> (taken: Option<PendingOAuthRequest>)
        ensures
            (taken, final(self)@) == after_take(old(self)@, state@),
            final(self).ttl() == old(self).ttl(),
    {
        proof {
            use_type_invariant(&*self);
        }
        let mut entries: Vec<(String, PendingOAuthRequest)> = Vec::new();
        core::mem::swap(&mut self.entries, &mut entries);
        let ghost before = entries@;
        let taken = match find(&entries, state) {
            Some(i) => {
                proof {
                    lemma_entry_in_map(before, i as int);
                    lemma_removed_entry(before, i as int);
                }
                let entry = entries.remove(i);
                Some(entry.1)
            },
            None => {
                assert(as_map(before).remove(state@) =~= as_map(before));
                None
            },
        };
        core::mem::swap(&mut self.entries, &mut entries);
        taken
    }

    /// Drops every request that has run out at `now`, and no other: what
    /// waits afterwards is what waited before and still waits at `now`.
    pub fn sweep(&mut self, now: Timestamp)
        ensures
            final(self).ttl() == old(self).ttl(),
            final(self)@ == swept(old(self)@, now, old(self).ttl()),
    {
        proof {
            use_type_invariant(&*self);
        }
        let mut entries: Vec<(String, PendingOAuthRequest)> = Vec::new();
        core::mem::swap(&mut self.entries, &mut entries);
        let ghost start = as_map(entries@);
        let ttl = self.ttl_secs;
        let mut i: usize = entries.len();
        while i > 0
            invariant
                i <= entries.len(),
                distinct_keys(entries@),
                forall|j: int|
                    i <= j < entries.len() ==> still_waits(
                        (#[trigger] entries@[j]).1.created_at,
                        now,
                        ttl,
                    ),
                forall|key: Seq<char>| #[trigger]
                    as_map(entries@).contains_key(key) ==> start.contains_key(key) && start[key]
                        == as_map(entries@)[key],
                forall|key: Seq<char>|
                    #[trigger] start.contains_key(key) && still_waits(
                        start[key].created_at,
                        now,
                        ttl,
                    ) ==> as_map(entries@).contains_key(key),
            decreases i,
        {
            i -= 1;
            let keep = entries[i].1.created_at.after_minus(&now, ttl);
            if !keep {
                let ghost current = entries@;
                proof {
                    lemma_entry_in_map(current, i as int);
                    lemma_removed_entry(current, i as int);
                }
                entries.remove(i);
                assert forall|j: int| i <= j < entries.len() implies still_waits(
                    (#[trigger] entries@[j]).1.created_at,
                    now,
                    ttl,
                ) by {
                    assert(entries@[j] == current[j + 1]);
                }
                proof {
                    let gone = current[i as int].0@;
                    let was = as_map(current);
                    let is = as_map(entries@);
                    assert(is == was.remove(gone));
                    assert(was[gone] == current[i as int].1);
                    assert forall|key: Seq<char>| #[trigger]
                        is.contains_key(key) implies start.contains_key(key) && start[key]
                        == is[key] by {
                        assert(was.contains_key(key));
                    }
                    assert forall|key: Seq<char>|
                        #[trigger] start.contains_key(key) && still_waits(
                            start[key].created_at,
                            now,
                            ttl,
                        ) implies is.contains_key(key) by {
                        assert(was.contains_key(key));
                        if key == gone {
                            assert(start[key] == was[key]);
                        }
                    }
                }
            }
        }
        proof {
            let end = as_map(entries@);
            assert forall|key: Seq<char>| end.contains_key(key) implies still_waits(
                start[key].created_at,
                now,
                ttl,
            ) by {
                let a = position(entries@, key);
                assert(0 <= a < entries@.len() && entries@[a].0@ == key);
                lemma_entry_in_map(entries@, a);
            }
            assert(end =~= swept(start, now, ttl));
        }
        core::mem::swap(&mut self.entries, &mut entries);
    }

    /// Drops every request that has run out by now: what waits afterwards
    /// is what a sweep leaves at the instant that the clock showed. Which
    /// instant that was is not known here, so that it is only said that
    /// there is one; whatever it was, nothing is added and nothing that
    /// stays is changed.
    pub fn cleanup_expired(&mut self)
        ensures
            final(self).ttl() == old(self).ttl(),
            exists|now: Timestamp|
                final(self)@ == #[trigger] swept(old(self)@, now, old(self).ttl()),
            forall|key: Seq<char>|
                final(self)@.contains_key(key) ==> old(self)@.contains_key(key) && final(self)@[key]
                    == old(self)@[key],
    {
        let now = utc_now();
        self.sweep(now);
        assert(self@ == swept(old(self)@, now, old(self).ttl()));
    }
}

fn find(entries: &Vec<(String, PendingOAuthRequest)>, state: &str) -> (at: Option<usize>)
    ensures
        match at {
            Some(i) => i < entries@.len() && entries@[i as int].0@ == state@,
            None => !as_map(entries@).contains_key(state@),
        },
{
    let mut i: usize = 0;
    while i < entries.len()
        invariant
            i <= entries.len(),
            !key_before(entries@, state@, i as int),
        decreases entries.len() - i,
    {
        let same = same_str(entries[i].0.as_str(), state);
        if same {
            return Some(i);
        }
        assert(!key_before(entries@, state@, i + 1)) by {
            if key_before(entries@, state@, i + 1) {
                let j = choose|j: int|
                    0 <= j < i + 1 && j < entries@.len() && (#[trigger] entries@[j]).0@ == state@;
                if j < i {
                    assert(key_before(entries@, state@, i as int));
                }
            }
        }
        i += 1;
    }
    None
}

/// Whether two string slices hold the same text.
pub fn same_str(a: &str, b: &str) -> (r: bool)
    ensures
        r == (a@ == b@),
{
    let x = chars_of(a);
    let y = chars_of(b);
    crate::text::same_text(&x, &y)
}

proof fn lemma_domain_size(entries: Seq<(String, PendingOAuthRequest)>)
    requires
        distinct_keys(entries),
    ensures
        as_map(entries).dom().finite(),
        as_map(entries).dom().len() == entries.len(),
    decreases entries.len(),
{
    if entries.len() == 0 {
        assert(as_map(entries).dom() =~= Set::<Seq<char>>::empty());
    } else {
        let last = entries.len() - 1;
        let init = entries.remove(last);
        lemma_entry_in_map(entries, last);
        lemma_removed_entry(entries, last);
        lemma_domain_size(init);
        assert(as_map(entries).dom() =~= as_map(init).dom().insert(entries[last].0@));
    }
}

// ---------------------------------------------------------------------------
// Keys written down
// ---------------------------------------------------------------------------

/// The kinds of keys.
#[derive(Debug, Clone, Copy, PartialEq, Eq, Structural)]
pub enum KeyType {
    P256Private,
    P256Public,
    P384Private,
    P384Public,
    K256Private,
    K256Public,
    Ed25519Private,
    Ed25519Public,
}

impl KeyType {
    /// Whether keys of this kind are private keys.
    pub open spec fn is_private(self) -> bool {
        self is P256Private || self is P384Private || self is K256Private
            || self is Ed25519Private
    }

    /// How many bytes a private key of this kind has: 48 on the curve
    /// P-384, and 32 on the others.
    pub open spec fn secret_len(self) -> nat {
        if self is P384Private {
            48
        } else {
            32
        }
    }
}

/// A key: its kind and its bytes.
#[derive(Debug, Clone, PartialEq, Eq)]
pub struct KeyData {
    pub key_type: KeyType,
    pub bytes: Vec<u8>,
}

/// The byte that stands for a kind of key where a key is written down.
pub open spec fn type_byte(kind: KeyType) -> u8 {
    match kind {
        KeyType::P256Private => 0,
        KeyType::P256Public => 1,
        KeyType::P384Private => 2,
        KeyType::P384Public => 3,
        KeyType::K256Private => 4,
        KeyType::K256Public => 5,
        KeyType::Ed25519Private => 6,
        KeyType::Ed25519Public => 7,
    }
}

/// The kind of key that a byte stands for, if any.
pub open spec fn kind_of_byte(b: u8) -> Option<KeyType> {
    if b == 0 {
        Some(KeyType::P256Private)
    } else if b == 1 {
        Some(KeyType::P256Public)
    } else if b == 2 {
        Some(KeyType::P384Private)
    } else if b == 3 {
        Some(KeyType::P384Public)
    } else if b == 4 {
        Some(KeyType::K256Private)
    } else if b == 5 {
        Some(KeyType::K256Public)
    } else if b == 6 {
        Some(KeyType::Ed25519Private)
    } else if b == 7 {
        Some(KeyType::Ed25519Public)
    } else {
        None
    }
}

/// A key as a record of bytes: the byte of its kind, then its own bytes.
pub open spec fn key_record(kind: KeyType, bytes: Seq<u8>) -> Seq<u8> {
    seq![type_byte(kind)] + bytes
}

/// The key that a record of bytes holds: none where the record is empty or
/// its first byte stands for no kind.
pub open spec fn key_of_record(record: Seq<u8>) -> Option<(KeyType, Seq<u8>)> {
    if record.len() == 0 {
        None
    } else {
        match kind_of_byte(record[0]) {
            Some(kind) => Some((kind, record.skip(1))),
            None => None,
        }
    }
}

/// A key written down: its record in base64.
pub open spec fn serialized_key(key: KeyData) -> Seq<char> {
    base64_text(key_record(key.key_type, key.bytes@))
}

/// The key that a text holds: none where the text is not base64 or its
/// bytes are no record of a key.
pub open spec fn key_of_text(text: Seq<char>) -> Option<(KeyType, Seq<u8>)> {
    match base64_bytes(text) {
        Some(record) => key_of_record(record),
        None => None,
    }
}

/// Reading the record of a key gives the key back.
pub proof fn lemma_key_record_round_trip(kind: KeyType, bytes: Seq<u8>)
    ensures
        kind_of_byte(type_byte(kind)) == Some(kind),
        key_of_record(key_record(kind, bytes)) == Some((kind, bytes)),
{
    assert(key_record(kind, bytes).skip(1) == bytes);
}

/// Wherever reading base64 undoes writing it for the record of a key,
/// reading the key that was written down gives the key back.
pub proof fn lemma_serialized_key_round_trip(key: KeyData)
    requires
        base64_bytes(base64_text(key_record(key.key_type, key.bytes@))) == Some(
            key_record(key.key_type, key.bytes@),
        ),
    ensures
        key_of_text(serialized_key(key)) == Some((key.key_type, key.bytes@)),
{
    lemma_key_record_round_trip(key.key_type, key.bytes@);
}

fn byte_of(kind: KeyType) -> (b: u8)
    ensures
        b == type_byte(kind),
{
    match kind {
        KeyType::P256Private => 0,
        KeyType::P256Public => 1,
        KeyType::P384Private => 2,
        KeyType::P384Public => 3,
        KeyType::K256Private => 4,
        KeyType::K256Public => 5,
        KeyType::Ed25519Private => 6,
        KeyType::Ed25519Public => 7,
    }
}

/// The longest key, in bytes, that can be written down on every machine.
pub const MAX_KEY_BYTES: usize = 0x1000_0000;

/// Writes a key down: the byte of its kind and its own bytes, in base64.
pub fn serialize_key(key: &KeyData) -> (text: String)
    requires
        key.bytes.len() <= MAX_KEY_BYTES,
    ensures
        text@ == serialized_key(*key),
{
    let mut record: Vec<u8> = Vec::new();
    record.push(byte_of(key.key_type));
    let mut i: usize = 0;
    while i < key.bytes.len()
        invariant
            i <= key.bytes.len() <= MAX_KEY_BYTES,
            record@ == seq![type_byte(key.key_type)] + key.bytes@.take(i as int),
        decreases key.bytes.len() - i,
    {
        record.push(key.bytes[i]);
        assert(key.bytes@.take(i + 1) == key.bytes@.take(i as int).push(key.bytes@[i as int]));
        i += 1;
    }
    assert(key.bytes@.take(key.bytes.len() as int) == key.bytes@);
    base64_encode(&record)
}

/// Reads a key from its record of bytes.
pub fn key_from_record(record: Vec<u8>) -> (key: Result<KeyData, OAuthError>)
    ensures
        match key {
            Ok(k) => key_of_record(record@) == Some((k.key_type, k.bytes@)),
            Err(e) => key_of_record(record@) is None && e is KeySerialization,
        },
        record@.len() == 0 ==> (key matches Err(OAuthError::KeySerialization(d)) && d@
            == "Empty key data"@),
        record@.len() > 0 && kind_of_byte(record@[0]) is None ==> (key matches Err(
            OAuthError::KeySerialization(d),
        ) && d@ == "Unknown key type"@),
{
    if record.len() == 0 {
        return Err(OAuthError::KeySerialization(String::from_str("Empty key data")));
    }
    let b = record[0];
    let key_type = if b == 0 {
        KeyType::P256Private
    } else if b == 1 {
        KeyType::P256Public
    } else if b == 2 {
        KeyType::P384Private
    } else if b == 3 {
        KeyType::P384Public
    } else if b == 4 {
        KeyType::K256Private
    } else if b == 5 {
        KeyType::K256Public
    } else if b == 6 {
        KeyType::Ed25519Private
    } else if b == 7 {
        KeyType::Ed25519Public
    } else {
        return Err(OAuthError::KeySerialization(String::from_str("Unknown key type")));
    };
    let mut bytes: Vec<u8> = Vec::new();
    let mut i: usize = 1;
    while i < record.len()
        invariant
            1 <= i <= record.len(),
            bytes@ == record@.subrange(1, i as int),
        decreases record.len() - i,
    {
        bytes.push(record[i]);
        i += 1;
    }
    assert(record@.subrange(1, record.len() as int) == record@.skip(1));
    Ok(KeyData { key_type, bytes })
}

/// Reads a key that was written down. Fails with `KeySerialization` where
/// the text is not base64, holds no bytes, or begins with a byte that
/// stands for no kind of key.
pub fn deserialize_key(serialized: &str) -> (key: Result<KeyData, OAuthError>)
    ensures
        match key {
            Ok(k) => key_of_text(serialized@) == Some((k.key_type, k.bytes@)),
            Err(e) => key_of_text(serialized@) is None && e is KeySerialization,
        },
{
    match base64_decode(serialized) {
        Ok(record) => key_from_record(record),
        Err(e) => Err(OAuthError::KeySerialization(e.to_string())),
    }
}

// ---------------------------------------------------------------------------
// Random tokens and fresh keys
// ---------------------------------------------------------------------------

/// The characters that random tokens are made of.
pub const CHARSET: &'static str = "ABCDEFGHIJKLMNOPQRSTUVWXYZabcdefghijklmnopqrstuvwxyz0123456789";

/// A random token of `len` characters, each an ASCII letter or digit.
pub fn generate_random_string(len: usize) -> (token: String)
    ensures
        token@.len() == len,
        forall|i: int| 0 <= i < len ==> CHARSET@.contains(#[trigger] token@[i]),
{
    let charset = chars_of(CHARSET);
    proof {
        reveal_strlit("ABCDEFGHIJKLMNOPQRSTUVWXYZabcdefghijklmnopqrstuvwxyz0123456789");
    }
    let mut token = String::new();
    let mut i: usize = 0;
    while i < len
        invariant
            i <= len,
            charset@ == CHARSET@,
            charset@.len() == 62,
            token@.len() == i,
            forall|j: int| 0 <= j < i ==> CHARSET@.contains(#[trigger] token@[j]),
        decreases len - i,
    {
        let at = random_below(charset.len());
        push_char(&mut token, charset[at]);
        assert(CHARSET@.contains(charset@[at as int]));
        i += 1;
    }
    token
}

/// A fresh private key on the curve P-256, for proving possession. A key is
/// always made: it is of the kind `P256Private` and has the 32 bytes of
/// such a key, which are drawn afresh at every call.
pub fn generate_dpop_key() -> (key: Result<KeyData, OAuthError>)
    ensures
        key matches Ok(k) && k.key_type == KeyType::P256Private && k.bytes@.len()
            == KeyType::P256Private.secret_len(),
{
    match generate_key_bytes(KeyType::P256Private) {
        Ok(bytes) => Ok(KeyData { key_type: KeyType::P256Private, bytes }),
        Err(e) => Err(OAuthError::KeyGeneration(e.to_string())),
    }
}

// ---------------------------------------------------------------------------
// The steps of a sign-in
// ---------------------------------------------------------------------------

/// The access that is asked for.
pub const OAUTH_SCOPE: &'static str = "atproto transition:generic";

/// How long the state token and the nonce of a sign-in are.
pub const TOKEN_LENGTH: usize = 32;

/// The secrets that go out with a request for authorization.
#[derive(Debug, Clone)]
pub struct OAuthRequestState {
    pub state: String,
    pub nonce: String,
    pub code_challenge: String,
    pub scope: String,
}

/// What the authorization server answers to a pushed request.
#[derive(Debug, Clone)]
pub struct ParResponse {
    pub request_uri: String,
    /// Seconds for which `request_uri` can be used.
    pub expires_in: u64,
}

/// What is made afresh for one sign-in.
#[derive(Debug, Clone)]
pub struct LoginAttempt {
    pub request_state: OAuthRequestState,
    pub code_verifier: String,
    pub dpop_key: KeyData,
}

/// What is needed to finish a sign-in whose callback has come.
#[derive(Debug, Clone)]
pub struct Completion {
    pub pending: PendingOAuthRequest,
    pub dpop_key: KeyData,
}

/// The instant `expires_in` seconds after `now`, or the last second that
/// can be written where that is too late.
pub open spec fn expiry(now: Timestamp, expires_in: u64) -> Timestamp {
    Timestamp {
        secs: if now.secs + expires_in > i64::MAX {
            i64::MAX
        } else {
            (now.secs + expires_in) as i64
        },
        nanos: now.nanos,
    }
}

/// The address the user is sent to: the server's authorization endpoint
/// with the pushed request and the client identifier, both
/// percent-encoded.
pub open spec fn authorization_url(
    endpoint: Seq<char>,
    request_uri: Seq<char>,
    client_id: Seq<char>,
) -> Seq<char> {
    endpoint + "?request_uri="@ + percent_encoded(vstd::utf8::encode_utf8(request_uri))
        + "&client_id="@ + percent_encoded(vstd::utf8::encode_utf8(client_id))
}

/// The signing in of users: who the client is, and the requests that wait.
pub struct OAuthService {
    pub client_id: String,
    pub signing_key: KeyData,
    pub state_store: OAuthStateStore,
}

impl OAuthService {
    /// A service for the client `client_id` with its signing key.
    pub fn new(client_id: String, signing_key: KeyData, state_store: OAuthStateStore) -> (service:
        OAuthService)
        ensures
            service.client_id == client_id,
            service.signing_key == signing_key,
            service.state_store == state_store,
    {
        OAuthService { client_id, signing_key, state_store }
    }

    /// The server that holds a user's data: the first of the endpoints in
    /// the user's identity document. Without any, the identity cannot be
    /// resolved.
    pub fn pick_pds(endpoints: &Vec<String>) -> (pds: Result<String, OAuthError>)
        ensures
            match pds {
                Ok(url) => endpoints@.len() > 0 && url == endpoints@[0],
                Err(e) => endpoints@.len() == 0 && (e matches OAuthError::IdentityResolution(d)
                    && d@ == "No PDS endpoint in DID document"@),
            },
    {
        if endpoints.len() > 0 {
            Ok(endpoints[0].clone())
        } else {
            Err(
                OAuthError::IdentityResolution(String::from_str("No PDS endpoint in DID document")),
            )
        }
    }

    /// What is made afresh for one sign-in: a code verifier with its
    /// challenge, a random state token and nonce, and a key for proving
    /// possession. The making always succeeds.
    pub fn prepare_login() -> (attempt: Result<LoginAttempt, OAuthError>)
        ensures
            attempt is Ok,
            attempt matches Ok(a) ==> {
                &&& a.request_state.state@.len() == TOKEN_LENGTH
                &&& a.request_state.nonce@.len() == TOKEN_LENGTH
                &&& forall|i: int|
                    0 <= i < TOKEN_LENGTH ==> CHARSET@.contains(
                        #[trigger] a.request_state.state@[i],
                    )
                &&& forall|i: int|
                    0 <= i < TOKEN_LENGTH ==> CHARSET@.contains(
                        #[trigger] a.request_state.nonce@[i],
                    )
                &&& a.request_state.scope@ == OAUTH_SCOPE@
                &&& a.dpop_key.key_type == KeyType::P256Private
                &&& a.dpop_key.bytes@.len() == KeyType::P256Private.secret_len()
            },
    {
        let (code_verifier, code_challenge) = pkce_pair();
        let state = generate_random_string(TOKEN_LENGTH);
        let nonce = generate_random_string(TOKEN_LENGTH);
        match generate_dpop_key() {
            Ok(dpop_key) => Ok(
                LoginAttempt {
                    request_state: OAuthRequestState {
                        state,
                        nonce,
                        code_challenge,
                        scope: String::from_str(OAUTH_SCOPE),
                    },
                    code_verifier,
                    dpop_key,
                },
            ),
            Err(e) => Err(e),
        }
    }

    /// Whether `pending` is what is kept of the sign-in `attempt` at
    /// `server`, pushed at `now` with the answer `par`.
    pub open spec fn keeps(
        self,
        pending: PendingOAuthRequest,
        attempt: LoginAttempt,
        server: AuthorizationServer,
        par: ParResponse,
        now: Timestamp,
    ) -> bool {
        &&& pending.authorization_server == server
        &&& pending.created_at == now
        &&& pending.oauth_request.oauth_state@ == attempt.request_state.state@
        &&& pending.oauth_request.issuer@ == server.issuer@
        &&& pending.oauth_request.authorization_server@ == server.issuer@
        &&& pending.oauth_request.nonce@ == attempt.request_state.nonce@
        &&& pending.oauth_request.pkce_verifier@ == attempt.code_verifier@
        &&& pending.oauth_request.signing_public_key@ == serialized_key(self.signing_key)
        &&& pending.oauth_request.dpop_private_key@ == serialized_key(attempt.dpop_key)
        &&& pending.oauth_request.created_at == now
        &&& pending.oauth_request.expires_at == expiry(now, par.expires_in)
    }

    /// Lets a sign-in wait for its callback, under its state token and in
    /// place of whatever waited there, and gives the address to send the
    /// user to.
    pub fn register_login(
        &mut self,
        attempt: LoginAttempt,
        server: AuthorizationServer,
        par: &ParResponse,
        now: Timestamp,
    ) -> (url: String)
        requires
            old(self).signing_key.bytes.len() <= MAX_KEY_BYTES,
            attempt.dpop_key.bytes.len() <= MAX_KEY_BYTES,
        ensures
            url@ == authorization_url(
                server.authorization_endpoint@,
                par.request_uri@,
                old(self).client_id@,
            ),
            final(self).client_id == old(self).client_id,
            final(self).signing_key == old(self).signing_key,
            final(self).state_store.ttl() == old(self).state_store.ttl(),
            final(self).state_store@.contains_key(attempt.request_state.state@),
            old(self).keeps(
                final(self).state_store@[attempt.request_state.state@],
                attempt,
                server,
                *par,
                now,
            ),
            final(self).state_store@ == old(self).state_store@.insert(
                attempt.request_state.state@,
                final(self).state_store@[attempt.request_state.state@],
            ),
    {
        let mut url = server.authorization_endpoint.clone();
        url.append("?request_uri=");
        url.append(percent_encode(par.request_uri.as_str()).as_str());
        url.append("&client_id=");
        url.append(percent_encode(self.client_id.as_str()).as_str());
        let limit: i128 = i64::MAX as i128;
        let sum: i128 = now.secs as i128 + par.expires_in as i128;
        let expires_secs: i64 = if sum > limit {
            i64::MAX
        } else {
            sum as i64
        };
        let LoginAttempt { request_state, code_verifier, dpop_key } = attempt;
        let oauth_request = OAuthRequest {
            oauth_state: request_state.state.clone(),
            issuer: server.issuer.clone(),
            authorization_server: server.issuer.clone(),
            nonce: request_state.nonce,
            pkce_verifier: code_verifier,
            signing_public_key: serialize_key(&self.signing_key),
            dpop_private_key: serialize_key(&dpop_key),
            created_at: now,
            expires_at: Timestamp { secs: expires_secs, nanos: now.nanos },
        };
        let pending = PendingOAuthRequest {
            oauth_request,
            authorization_server: server,
            created_at: now,
        };
        self.state_store.store(request_state.state, pending);
        url
    }

    /// The outcome of a callback with `state` at `now`, given what waited
    /// before it came:
    ///
    /// - nothing waits under `state`: `InvalidState`;
    /// - the request has run out, its expiry being earlier than `now`:
    ///   `StateExpired`;
    /// - its key cannot be read: `KeySerialization`;
    /// - otherwise the request and its key are handed out.
    pub open spec fn completes(
        waiting: Map<Seq<char>, PendingOAuthRequest>,
        state: Seq<char>,
        now: Timestamp,
        outcome: Result<Completion, OAuthError>,
    ) -> bool {
        if !waiting.contains_key(state) {
            outcome matches Err(e) && e is InvalidState
        } else if waiting[state].oauth_request.expires_at.is_before(now) {
            outcome matches Err(e) && e is StateExpired
        } else {
            match key_of_text(waiting[state].oauth_request.dpop_private_key@) {
                None => outcome matches Err(e) && e is KeySerialization,
                Some(key) => outcome matches Ok(c) && c.pending == waiting[state] && (
                c.dpop_key.key_type, c.dpop_key.bytes@) == key,
            }
        }
    }

    /// Takes the request that waits under the `state` of a callback, and
    /// checks it. Whatever the outcome, the request waits no longer.
    pub fn complete_login(&mut self, state: &str, now: Timestamp) -> (outcome: Result<
        Completion,
        OAuthError,
    >)
        ensures
            OAuthService::completes(old(self).state_store@, state@, now, outcome),
            final(self).state_store@ == old(self).state_store@.remove(state@),
            final(self).state_store.ttl() == old(self).state_store.ttl(),
            final(self).client_id == old(self).client_id,
            final(self).signing_key == old(self).signing_key,
    {
        let pending = match self.state_store.take(state) {
            Some(pending) => pending,
            None => {
                return Err(OAuthError::InvalidState);
            },
        };
        if pending.oauth_request.expires_at.before(&now) {
            return Err(OAuthError::StateExpired);
        }
        match deserialize_key(pending.oauth_request.dpop_private_key.as_str()) {
            Ok(dpop_key) => Ok(Completion { pending, dpop_key }),
            Err(e) => Err(e),
        }
    }
}

} // verus!
