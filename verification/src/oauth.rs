//! OAuth2 state tokens: the store that keeps the state token of each
//! authorization flow under way, to recognise the provider's callback and
//! refuse forged ones. Tokens expire; expired ones are forgotten.
//!
//! Times are Unix millisecond timestamps passed in by the caller; the
//! tokens themselves are made by the caller too.

use vstd::prelude::*;

verus! {

/// Lifetime of a state token: 10 minutes.
pub const STATE_TTL_MS: u64 = 600_000;

/// The state of one authorization flow.
#[derive(Debug)]
pub struct OAuthState<P> {
    /// The state token sent to the provider.
    pub token: String,
    /// The provider of the flow.
    pub provider: P,
    /// When the token expires (Unix ms).
    pub expires_at_ms: u64,
}

impl<P: Copy> Clone for OAuthState<P> {
    fn clone(&self) -> (r: Self)
        ensures
            r == *self,
    {
        OAuthState { token: self.token.clone(), provider: self.provider, expires_at_ms: self.expires_at_ms }
    }
}

impl<P: Copy> OAuthState<P> {
    /// A state for `provider` with the given token, made at `now_ms` and
    /// valid for `STATE_TTL_MS`.
    pub fn new(token: String, provider: P, now_ms: u64) -> (s: OAuthState<P>)
        requires
            now_ms + STATE_TTL_MS <= u64::MAX,
        ensures
            s.token == token,
            s.provider == provider,
            s.expires_at_ms == now_ms + STATE_TTL_MS,
    {
        OAuthState { token, provider, expires_at_ms: now_ms + STATE_TTL_MS }
    }

    /// Whether the token has expired at `now_ms`.
    pub fn is_expired(&self, now_ms: u64) -> (r: bool)
        ensures
            r == (self.expires_at_ms <= now_ms),
    {
        self.expires_at_ms <= now_ms
    }
}

/// Whether the state at `i` holds token `t`.
pub open spec fn token_at<P>(s: Seq<OAuthState<P>>, t: Seq<char>, i: int) -> bool {
    0 <= i < s.len() && s[i].token@ == t
}

/// Whether no token occurs twice.
pub open spec fn distinct_tokens<P>(s: Seq<OAuthState<P>>) -> bool {
    forall|i: int, j: int| 0 <= i < j < s.len() ==> s[i].token@ != s[j].token@
}

/// The state kept under token `t`, if any.
pub open spec fn state_for<P>(s: Seq<OAuthState<P>>, t: Seq<char>) -> Option<OAuthState<P>> {
    if exists|i: int| token_at(s, t, i) {
        Some(s[choose|i: int| token_at(s, t, i)])
    } else {
        None
    }
}

/// The states that have not expired at `now`, in order.
pub open spec fn live_states<P>(s: Seq<OAuthState<P>>, now: u64) -> Seq<OAuthState<P>>
    decreases s.len(),
{
    if s.len() == 0 {
        Seq::empty()
    } else if s.last().expires_at_ms > now {
        live_states(s.drop_last(), now).push(s.last())
    } else {
        live_states(s.drop_last(), now)
    }
}

/// The states after keeping `x`: a state with the same token is replaced,
/// else `x` is added at the end.
pub open spec fn with_state<P>(s: Seq<OAuthState<P>>, x: OAuthState<P>) -> Seq<OAuthState<P>> {
    if exists|i: int| token_at(s, x.token@, i) {
        s.update(choose|i: int| token_at(s, x.token@, i), x)
    } else {
        s.push(x)
    }
}

/// The states without the one holding token `t`.
pub open spec fn without_token<P>(s: Seq<OAuthState<P>>, t: Seq<char>) -> Seq<OAuthState<P>> {
    if exists|i: int| token_at(s, t, i) {
        s.remove(choose|i: int| token_at(s, t, i))
    } else {
        s
    }
}

proof fn lemma_state_at<P>(s: Seq<OAuthState<P>>, t: Seq<char>, i: int)
    requires
        token_at(s, t, i),
        distinct_tokens(s),
    ensures
        (choose|c: int| token_at(s, t, c)) == i,
        state_for(s, t) == Some(s[i]),
{
    let c = choose|c: int| token_at(s, t, c);
    assert(token_at(s, t, c));
    if c != i {
        assert(s[c].token@ == s[i].token@);
    }
}

proof fn lemma_state_none<P>(s: Seq<OAuthState<P>>, t: Seq<char>)
    requires
        forall|k: int| 0 <= k < s.len() ==> s[k].token@ != t,
    ensures
        state_for(s, t).is_none(),
{
    assert(!exists|i: int| token_at(s, t, i));
}

/// What cleaning up keeps: a state is kept exactly when it is unexpired,
/// and the kept states hold no token twice when the states did not.
proof fn lemma_live<P>(s: Seq<OAuthState<P>>, now: u64)
    ensures
        forall|k: int| 0 <= k < live_states(s, now).len() ==> #[trigger] live_states(s, now)[k].expires_at_ms > now,
        forall|k: int| #![trigger live_states(s, now)[k]] 0 <= k < live_states(s, now).len()
            ==> exists|j: int| 0 <= j < s.len() && #[trigger] s[j] == live_states(s, now)[k],
        forall|j: int| #![trigger s[j]] 0 <= j < s.len() && s[j].expires_at_ms > now
            ==> exists|k: int| 0 <= k < live_states(s, now).len() && #[trigger] live_states(s, now)[k] == s[j],
        distinct_tokens(s) ==> distinct_tokens(live_states(s, now)),
    decreases s.len(),
{
    if s.len() > 0 {
        let d = s.drop_last();
        lemma_live(d, now);
        let ld = live_states(d, now);
        let l = live_states(s, now);
        assert forall|k: int| #![trigger l[k]] 0 <= k < l.len() implies exists|j: int| 0 <= j < s.len() && #[trigger] s[j] == l[k] by {
            if k < ld.len() {
                assert(l[k] == ld[k]);
                let j = choose|j: int| 0 <= j < d.len() && #[trigger] d[j] == ld[k];
                assert(s[j] == d[j]);
            } else {
                assert(s[s.len() - 1] == l[k]);
            }
        }
        assert forall|j: int| #![trigger s[j]] 0 <= j < s.len() && s[j].expires_at_ms > now implies exists|k: int| 0 <= k < l.len() && #[trigger] l[k] == s[j] by {
            if j < d.len() {
                assert(d[j] == s[j]);
                let k = choose|k: int| 0 <= k < ld.len() && #[trigger] ld[k] == d[j];
                assert(l[k] == ld[k]);
            } else {
                assert(l[l.len() - 1] == s[j]);
            }
        }
        if distinct_tokens(s) {
            assert(distinct_tokens(d));
            if s.last().expires_at_ms > now {
                assert forall|a: int, b: int| 0 <= a < b < l.len() implies l[a].token@ != l[b].token@ by {
                    if b == l.len() - 1 {
                        assert(l[a] == ld[a]);
                        let j = choose|j: int| 0 <= j < d.len() && #[trigger] d[j] == ld[a];
                        assert(s[j] == d[j]);
                        assert(s[s.len() - 1] == s.last());
                    } else {
                        assert(l[a] == ld[a]);
                        assert(l[b] == ld[b]);
                    }
                }
            }
        }
    }
}

/// The OAuth2 state store: the state of each flow under way, each token at
/// most once.
#[derive(Debug)]
pub struct OAuth2Agent<P> {
    /// The states kept.
    pub states: Vec<OAuthState<P>>,
}

impl<P: Copy> OAuth2Agent<P> {
    /// Whether no token is kept twice.
    pub open spec fn wf(&self) -> bool {
        distinct_tokens(self.states@)
    }

    /// An empty store.
    pub fn new() -> (a: OAuth2Agent<P>)
        ensures
            a.wf(),
            a.states@.len() == 0,
    {
        OAuth2Agent { states: Vec::new() }
    }

    /// The position of the state holding `token`.
    fn find(&self, token: &str) -> (r: Option<usize>)
        ensures
            match r {
                Some(i) => token_at(self.states@, token@, i as int),
                None => forall|k: int| 0 <= k < self.states@.len() ==> self.states@[k].token@ != token@,
            },
    {
        let mut i: usize = 0;
        while i < self.states.len()
            invariant
                i <= self.states@.len(),
                forall|k: int| 0 <= k < i ==> self.states@[k].token@ != token@,
            decreases self.states@.len() - i,
        {
            if crate::text::str_eq(self.states[i].token.as_str(), token) {
                return Some(i);
            }
            i = i + 1;
        }
        None
    }

    /// Forget every state that has expired at `now_ms`.
    pub fn cleanup_expired(&mut self, now_ms: u64)
        requires
            old(self).wf(),
        ensures
            final(self).wf(),
            final(self).states@ == live_states(old(self).states@, now_ms),
    {
        let ghost s0 = self.states@;
        let n = self.states.len();
        let mut a: usize = 0;
        let mut b: usize = 0;
        assert(s0.take(0) =~= Seq::<OAuthState<P>>::empty());
        assert(s0.skip(0) =~= s0);
        while b < n
            invariant
                n == s0.len(),
                a <= b <= n,
                self.states@ == live_states(s0.take(b as int), now_ms) + s0.skip(b as int),
                a == live_states(s0.take(b as int), now_ms).len(),
            decreases n - b,
        {
            let ghost before = self.states@;
            assert(s0.take(b as int + 1).drop_last() == s0.take(b as int));
            assert(before[a as int] == s0[b as int]);
            if self.states[a].expires_at_ms > now_ms {
                a = a + 1;
            } else {
                self.states.remove(a);
            }
            assert(self.states@ =~= live_states(s0.take(b as int + 1), now_ms) + s0.skip(b as int + 1));
            b = b + 1;
        }
        proof {
            assert(s0.take(n as int) == s0);
            assert(self.states@ =~= live_states(s0, now_ms));
            lemma_live(s0, now_ms);
        }
    }

    /// Keep a state: one with the same token is replaced, else it is added.
    fn put(&mut self, state: OAuthState<P>)
        requires
            old(self).wf(),
        ensures
            final(self).wf(),
            final(self).states@ == with_state(old(self).states@, state),
    {
        let ghost s0 = self.states@;
        let ghost t = state.token@;
        match self.find(state.token.as_str()) {
            Some(i) => {
                proof { lemma_state_at(s0, t, i as int); }
                self.states.set(i, state);
                proof {
                    let s1 = self.states@;
                    assert forall|a: int, b: int| 0 <= a < b < s1.len() implies s1[a].token@ != s1[b].token@ by {
                        if a != i && b != i {
                            assert(s1[a] == s0[a] && s1[b] == s0[b]);
                        } else if a == i {
                            assert(s0[b].token@ != s0[i as int].token@);
                        } else {
                            assert(s0[a].token@ != s0[i as int].token@);
                        }
                    }
                }
            },
            None => {
                proof {
                    assert(!exists|i: int| token_at(s0, t, i));
                }
                self.states.push(state);
                proof {
                    let s1 = self.states@;
                    assert forall|a: int, b: int| 0 <= a < b < s1.len() implies s1[a].token@ != s1[b].token@ by {
                        if b == s0.len() {
                            assert(s1[a] == s0[a]);
                        } else {
                            assert(s1[a] == s0[a] && s1[b] == s0[b]);
                        }
                    }
                }
            },
        }
    }

    /// Record a newly made state at `now_ms`: expired states are forgotten
    /// first, then the state is kept under its token.
    pub fn generate(&mut self, state: OAuthState<P>, now_ms: u64) -> (r: OAuthState<P>)
        requires
            old(self).wf(),
        ensures
            final(self).wf(),
            final(self).states@ == with_state(live_states(old(self).states@, now_ms), state),
            r == state,
    {
        self.cleanup_expired(now_ms);
        let r = state.clone();
        self.put(state);
        r
    }

    /// Check a state token from a callback at `now_ms`: expired states are
    /// forgotten first, then the state kept under the token is returned
    /// when it has not expired.
    pub fn validate(&mut self, token: &str, now_ms: u64) -> (r: Option<OAuthState<P>>)
        requires
            old(self).wf(),
        ensures
            final(self).wf(),
            final(self).states@ == live_states(old(self).states@, now_ms),
            r == state_for(live_states(old(self).states@, now_ms), token@),
    {
        self.cleanup_expired(now_ms);
        match self.find(token) {
            Some(i) => {
                proof { lemma_state_at(self.states@, token@, i as int); }
                if self.states[i].is_expired(now_ms) {
                    proof {
                        lemma_live(old(self).states@, now_ms);
                        assert(self.states@[i as int].expires_at_ms > now_ms);
                    }
                    None
                } else {
                    Some(self.states[i].clone())
                }
            },
            None => {
                proof { lemma_state_none(self.states@, token@); }
                None
            },
        }
    }

    /// Forget the state of a token (once its flow completed). Whether one
    /// was kept is returned.
    pub fn remove(&mut self, token: &str) -> (r: bool)
        requires
            old(self).wf(),
        ensures
            final(self).wf(),
            final(self).states@ == without_token(old(self).states@, token@),
            r == state_for(old(self).states@, token@).is_some(),
    {
        let ghost s0 = self.states@;
        match self.find(token) {
            Some(i) => {
                proof { lemma_state_at(s0, token@, i as int); }
                self.states.remove(i);
                proof {
                    let s1 = self.states@;
                    assert forall|a: int, b: int| 0 <= a < b < s1.len() implies s1[a].token@ != s1[b].token@ by {
                        let a0 = if a < i { a } else { a + 1 };
                        let b0 = if b < i { b } else { b + 1 };
                        assert(s1[a] == s0[a0]);
                        assert(s1[b] == s0[b0]);
                    }
                }
                true
            },
            None => {
                proof { lemma_state_none(s0, token@); }
                false
            },
        }
    }
}

proof fn lemma_with_state<P>(s: Seq<OAuthState<P>>, x: OAuthState<P>)
    requires
        distinct_tokens(s),
    ensures
        distinct_tokens(with_state(s, x)),
        state_for(with_state(s, x), x.token@) == Some(x),
{
    let s1 = with_state(s, x);
    if exists|i: int| token_at(s, x.token@, i) {
        let i = choose|i: int| token_at(s, x.token@, i);
        assert(s1 == s.update(i, x));
        assert forall|a: int, b: int| 0 <= a < b < s1.len() implies s1[a].token@ != s1[b].token@ by {
            if a != i && b != i {
                assert(s1[a] == s[a] && s1[b] == s[b]);
            } else if a == i {
                assert(s[b].token@ != s[i].token@);
            } else {
                assert(s[a].token@ != s[i].token@);
            }
        }
        lemma_state_at(s1, x.token@, i);
    } else {
        assert(s1 == s.push(x));
        assert forall|a: int, b: int| 0 <= a < b < s1.len() implies s1[a].token@ != s1[b].token@ by {
            if b == s.len() {
                assert(s1[a] == s[a]);
                assert(!token_at(s, x.token@, a));
            } else {
                assert(s1[a] == s[a] && s1[b] == s[b]);
            }
        }
        lemma_state_at(s1, x.token@, s.len() as int);
    }
}

proof fn lemma_live_lookup<P>(s: Seq<OAuthState<P>>, t: Seq<char>, now: u64)
    requires
        distinct_tokens(s),
    ensures
        state_for(live_states(s, now), t) == match state_for(s, t) {
            Some(x) => if x.expires_at_ms > now { Some(x) } else { None },
            None => None,
        },
{
    lemma_live(s, now);
    let l = live_states(s, now);
    if exists|i: int| token_at(s, t, i) {
        let i = choose|i: int| token_at(s, t, i);
        lemma_state_at(s, t, i);
        if s[i].expires_at_ms > now {
            let k = choose|k: int| 0 <= k < l.len() && #[trigger] l[k] == s[i];
            lemma_state_at(l, t, k);
        } else {
            assert forall|k: int| 0 <= k < l.len() implies l[k].token@ != t by {
                let j = choose|j: int| 0 <= j < s.len() && #[trigger] s[j] == l[k];
                if l[k].token@ == t {
                    if j != i {
                        assert(s[j].token@ == s[i].token@);
                    }
                    assert(l[k].expires_at_ms > now);
                }
            }
            lemma_state_none(l, t);
        }
    } else {
        assert forall|k: int| 0 <= k < l.len() implies l[k].token@ != t by {
            let j = choose|j: int| 0 <= j < s.len() && #[trigger] s[j] == l[k];
            assert(!token_at(s, t, j));
        }
        lemma_state_none(l, t);
    }
}

/// Law: a state token is accepted by a callback that comes before it
/// expires, and refused by one that comes later (whatever else the store
/// held, as long as no token was kept twice).
pub proof fn law_validate_after_generate<P>(s: Seq<OAuthState<P>>, x: OAuthState<P>, made_at: u64, checked_at: u64)
    requires
        distinct_tokens(s),
    ensures
        x.expires_at_ms > checked_at ==> state_for(live_states(with_state(live_states(s, made_at), x), checked_at), x.token@) == Some(x),
        x.expires_at_ms <= checked_at ==> state_for(live_states(with_state(live_states(s, made_at), x), checked_at), x.token@).is_none(),
{
    lemma_live(s, made_at);
    let s1 = with_state(live_states(s, made_at), x);
    lemma_with_state(live_states(s, made_at), x);
    lemma_live_lookup(s1, x.token@, checked_at);
}

/// Law: validating does not consume a state. A token whose state is kept
/// is accepted by a first validation at `t1` and again by a later one at
/// `t2`, as long as it has not expired at `t2`.
pub proof fn law_validate_twice<P>(s: Seq<OAuthState<P>>, t: Seq<char>, t1: u64, t2: u64)
    requires
        distinct_tokens(s),
        t1 <= t2,
        state_for(s, t) matches Some(x) && x.expires_at_ms > t2,
    ensures
        state_for(live_states(s, t1), t) == state_for(s, t),
        state_for(live_states(live_states(s, t1), t2), t) == state_for(s, t),
{
    lemma_live(s, t1);
    lemma_live_lookup(s, t, t1);
    lemma_live_lookup(live_states(s, t1), t, t2);
}

/// Law: a token that was never kept is refused, also after a state for
/// another token was made.
pub proof fn law_unknown_token_refused<P>(s: Seq<OAuthState<P>>, x: OAuthState<P>, t: Seq<char>, made_at: u64, checked_at: u64)
    requires
        distinct_tokens(s),
        state_for(s, t).is_none(),
        x.token@ != t,
    ensures
        state_for(live_states(s, checked_at), t).is_none(),
        state_for(live_states(with_state(live_states(s, made_at), x), checked_at), t).is_none(),
{
    lemma_live_lookup(s, t, checked_at);
    lemma_live(s, made_at);
    lemma_live_lookup(s, t, made_at);
    let l = live_states(s, made_at);
    let s1 = with_state(l, x);
    lemma_with_state(l, x);
    assert forall|i: int| 0 <= i < s1.len() implies s1[i].token@ != t by {
        if exists|j: int| token_at(l, x.token@, j) {
            let j = choose|j: int| token_at(l, x.token@, j);
            if i != j {
                assert(s1[i] == l[i]);
                assert(!token_at(l, t, i));
            }
        } else if i < l.len() {
            assert(s1[i] == l[i]);
            assert(!token_at(l, t, i));
        }
    }
    assert(!exists|i: int| token_at(s1, t, i));
    lemma_live_lookup(s1, t, checked_at);
}

/// Law: once the state of a token is removed, the token is refused.
pub proof fn law_remove_forgets<P>(s: Seq<OAuthState<P>>, t: Seq<char>, now: u64)
    requires
        distinct_tokens(s),
    ensures
        state_for(without_token(s, t), t).is_none(),
        state_for(live_states(without_token(s, t), now), t).is_none(),
{
    let r = without_token(s, t);
    assert forall|k: int| 0 <= k < r.len() implies r[k].token@ != t by {
        if exists|i: int| token_at(s, t, i) {
            let i = choose|i: int| token_at(s, t, i);
            let k0 = if k < i { k } else { k + 1 };
            assert(r[k] == s[k0]);
            if s[k0].token@ == t {
                assert(s[k0].token@ == s[i].token@);
            }
        } else {
            assert(!token_at(s, t, k));
        }
    }
    lemma_state_none(r, t);
    lemma_live(r, now);
    let l = live_states(r, now);
    assert forall|k: int| 0 <= k < l.len() implies l[k].token@ != t by {
        let j = choose|j: int| 0 <= j < r.len() && #[trigger] r[j] == l[k];
    }
    lemma_state_none(l, t);
}

} // verus!
