//! The credential lifecycle: a remote-issued opaque token paired with a
//! locally generated rotating identity value, refreshed on expiry with
//! at-most-one refresh in flight.
//!
//! [`CredentialManager`] is a pure state machine.  The host process performs
//! the remote token exchange and drives the machine: `begin_refresh` claims
//! the single flight, `complete_refresh` installs the new pair atomically,
//! `fail_attempt` counts a failed exchange and reports when the attempts are
//! exhausted (the `CredentialsUnavailable` condition).

use vstd::prelude::*;
use vstd::string::StringExecFns;
use crate::entropy::random_u128;
use crate::text::dec_str;
use crate::text::u64_to_dec;

verus! {

/// A refresh gives up after this many failed exchange attempts.
pub const MAX_REFRESH_ATTEMPTS: u32 = 3;

/// The character for a hexadecimal digit value.
pub open spec fn hex_char(d: int) -> char {
    if d == 0 {
        '0'
    } else if d == 1 {
        '1'
    } else if d == 2 {
        '2'
    } else if d == 3 {
        '3'
    } else if d == 4 {
        '4'
    } else if d == 5 {
        '5'
    } else if d == 6 {
        '6'
    } else if d == 7 {
        '7'
    } else if d == 8 {
        '8'
    } else if d == 9 {
        '9'
    } else if d == 10 {
        'a'
    } else if d == 11 {
        'b'
    } else if d == 12 {
        'c'
    } else if d == 13 {
        'd'
    } else if d == 14 {
        'e'
    } else {
        'f'
    }
}

/// The last `k` hexadecimal digits of `v`, most significant first.
pub open spec fn hex_pad(v: int, k: nat) -> Seq<char>
    decreases k,
{
    if k == 0 {
        Seq::empty()
    } else {
        hex_pad(v / 16, (k - 1) as nat).push(hex_char(v % 16))
    }
}

/// One hexadecimal digit as a string slice.
fn hex_digit_str(d: u128) -> (r: &'static str)
    requires
        d < 16,
    ensures
        r@ =~= seq![hex_char(d as int)],
{
    proof {
        reveal_strlit("0");
        reveal_strlit("1");
        reveal_strlit("2");
        reveal_strlit("3");
        reveal_strlit("4");
        reveal_strlit("5");
        reveal_strlit("6");
        reveal_strlit("7");
        reveal_strlit("8");
        reveal_strlit("9");
        reveal_strlit("a");
        reveal_strlit("b");
        reveal_strlit("c");
        reveal_strlit("d");
        reveal_strlit("e");
        reveal_strlit("f");
    }
    if d == 0 {
        "0"
    } else if d == 1 {
        "1"
    } else if d == 2 {
        "2"
    } else if d == 3 {
        "3"
    } else if d == 4 {
        "4"
    } else if d == 5 {
        "5"
    } else if d == 6 {
        "6"
    } else if d == 7 {
        "7"
    } else if d == 8 {
        "8"
    } else if d == 9 {
        "9"
    } else if d == 10 {
        "a"
    } else if d == 11 {
        "b"
    } else if d == 12 {
        "c"
    } else if d == 13 {
        "d"
    } else if d == 14 {
        "e"
    } else {
        "f"
    }
}

/// The last `k` hexadecimal digits of `v` as a string.
pub fn hex_str_fixed(v: u128, k: usize) -> (r: String)
    ensures
        r@ == hex_pad(v as int, k as nat),
        r@.len() == k,
    decreases k,
{
    if k == 0 {
        let r = String::new();
        proof {
            assert(r@ =~= hex_pad(v as int, 0));
        }
        r
    } else {
        let mut r = hex_str_fixed(v / 16, k - 1);
        r.append(hex_digit_str(v % 16));
        proof {
            assert(r@ =~= hex_pad(v as int, k as nat));
        }
        r
    }
}

/// A freshly generated identity value: 32 lowercase hexadecimal characters
/// of a random 128-bit value.
pub fn fresh_identity() -> (r: String)
    ensures
        r@.len() == 32,
{
    let v = random_u128();
    hex_str_fixed(v, 32)
}

/// The credential pair: the remote-issued opaque token and the locally
/// generated identity value, stamped with when they were issued.  The two
/// halves are only ever replaced together.
#[derive(Debug)]
pub struct Credential {
    pub token: String,
    pub identity_id: String,
    pub issued_at: i64,
}

impl Credential {
    /// The token with the current unix-epoch milliseconds appended, the form
    /// the remote service expects in its credential header.
    pub fn get_full_token(&self, unix_millis: u64) -> (r: String)
        ensures
            r@ == self.token@ + "_"@ + dec_str(unix_millis as int),
    {
        let mut r = self.token.clone();
        r.append("_");
        let ms = u64_to_dec(unix_millis);
        r.append(ms.as_str());
        r
    }
}

/// Whether the cached credential's age exceeds the validity window at `now`
/// (a missing credential counts as stale).
pub open spec fn spec_stale(m: CredentialManager, now: i64) -> bool {
    match m.current {
        Option::Some(c) => now - c.issued_at > m.validity_millis,
        Option::None => true,
    }
}

/// The relation between a manager before and after one `begin_refresh` call
/// at time `now` that returned `started`.
pub open spec fn begin_rel(
    pre: CredentialManager,
    now: i64,
    post: CredentialManager,
    started: bool,
) -> bool {
    &&& started == (!pre.refresh_in_flight && spec_stale(pre, now))
    &&& post.refresh_in_flight == (pre.refresh_in_flight || started)
    &&& post.current == pre.current
    &&& post.validity_millis == pre.validity_millis
    &&& post.failed_attempts == if started {
        0u32
    } else {
        pre.failed_attempts
    }
}

/// Owns the credential pair and coordinates its refresh.
///
/// Reads (`current`) never wait for a refresh: they return the last-known
/// -good pair even if stale.  Refreshes are single-flight: `begin_refresh`
/// claims the flight and is refused while one is in progress.
#[derive(Debug)]
pub struct CredentialManager {
    pub current: Option<Credential>,
    pub refresh_in_flight: bool,
    pub failed_attempts: u32,
    pub validity_millis: i64,
}

impl CredentialManager {
    /// A manager with no credential yet (the first `current` read will
    /// demand a refresh) and the given validity window in milliseconds.
    pub fn new(validity_millis: i64) -> (r: CredentialManager)
        ensures
            r.current is None,
            !r.refresh_in_flight,
            r.failed_attempts == 0,
            r.validity_millis == validity_millis,
    {
        CredentialManager { current: None, refresh_in_flight: false, failed_attempts: 0,
            validity_millis }
    }

    /// The last-known-good credential, stale or not.  Never blocks.
    pub fn current(&self) -> (r: Option<&Credential>)
        ensures
            match r {
                Option::Some(c) => self.current == Option::Some(*c),
                Option::None => self.current is None,
            },
    {
        match &self.current {
            Some(c) => Some(c),
            None => None,
        }
    }

    /// Whether the cached credential must be refreshed at `now`.
    pub fn needs_refresh(&self, now: i64) -> (r: bool)
        ensures
            r == spec_stale(*self, now),
    {
        match &self.current {
            Some(c) => (now as i128) - (c.issued_at as i128) > (self.validity_millis as i128),
            None => true,
        }
    }

    /// Claims the refresh flight.  Returns true exactly when the credential
    /// is stale at `now` and no refresh is already in flight; a concurrent
    /// caller gets false and must await the in-flight result instead of
    /// issuing a redundant exchange.
    pub fn begin_refresh(&mut self, now: i64) -> (started: bool)
        ensures
            begin_rel(*old(self), now, *final(self), started),
    {
        if self.refresh_in_flight {
            return false;
        }
        if !self.needs_refresh(now) {
            return false;
        }
        self.refresh_in_flight = true;
        self.failed_attempts = 0;
        true
    }

    /// Installs the freshly exchanged token, pairing it with a newly
    /// generated identity value: the two halves are swapped in atomically,
    /// and the flight ends.
    pub fn complete_refresh(&mut self, token: String, now: i64)
        requires
            old(self).refresh_in_flight,
        ensures
            final(self).current matches Some(c) && c.token == token && c.identity_id@.len() == 32
                && c.issued_at == now,
            !final(self).refresh_in_flight,
            final(self).failed_attempts == 0,
            final(self).validity_millis == old(self).validity_millis,
    {
        let identity_id = fresh_identity();
        self.current = Some(Credential { token, identity_id, issued_at: now });
        self.refresh_in_flight = false;
        self.failed_attempts = 0;
    }

    /// Counts one failed exchange attempt of the in-flight refresh.  Returns
    /// true when the attempts are exhausted: the flight ends, the last-known
    /// -good credential stays, and the caller must surface
    /// `CredentialsUnavailable` instead of retrying silently.
    pub fn fail_attempt(&mut self) -> (gave_up: bool)
        requires
            old(self).refresh_in_flight,
            old(self).failed_attempts < MAX_REFRESH_ATTEMPTS,
        ensures
            final(self).failed_attempts == old(self).failed_attempts + 1,
            gave_up == (final(self).failed_attempts == MAX_REFRESH_ATTEMPTS),
            final(self).refresh_in_flight == !gave_up,
            final(self).current == old(self).current,
            final(self).validity_millis == old(self).validity_millis,
    {
        self.failed_attempts = self.failed_attempts + 1;
        if self.failed_attempts == MAX_REFRESH_ATTEMPTS {
            self.refresh_in_flight = false;
            true
        } else {
            false
        }
    }
}

/// While a refresh is in flight, a further `begin_refresh` is refused and
/// changes nothing.  So however many callers find the credential stale in
/// the same window, the exchanges collapse into the one claimed flight:
/// never two concurrent token exchanges.
pub proof fn lemma_single_flight(
    m0: CredentialManager,
    now1: i64,
    m1: CredentialManager,
    started1: bool,
    now2: i64,
    m2: CredentialManager,
    started2: bool,
)
    requires
        begin_rel(m0, now1, m1, started1),
        begin_rel(m1, now2, m2, started2),
        started1,
    ensures
        !started2,
        m2 == m1,
{
}

} // verus!
