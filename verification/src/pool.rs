use vstd::prelude::*;
use crate::error::TikTokError;
use crate::rng::{choose_string, pick_below};
use crate::types::{SessionConfig, TikTokApiConfig};

verus! {

/// How many of the flags are set.
pub open spec fn count_leased(s: Seq<bool>) -> int
    decreases s.len(),
{
    if s.len() == 0 {
        0
    } else {
        count_leased(s.drop_last()) + if s.last() {
            1 as int
        } else {
            0 as int
        }
    }
}

/// How many of the flags are clear.
pub open spec fn count_free(s: Seq<bool>) -> int
    decreases s.len(),
{
    if s.len() == 0 {
        0
    } else {
        count_free(s.drop_last()) + if s.last() {
            0 as int
        } else {
            1 as int
        }
    }
}

/// Pool balance: however checkouts and releases have interleaved, the free
/// sessions and the leased sessions together are exactly the pool.
pub proof fn lemma_pool_balance(s: Seq<bool>)
    ensures
        count_free(s) + count_leased(s) == s.len(),
    decreases s.len(),
{
    if s.len() > 0 {
        lemma_pool_balance(s.drop_last());
    }
}

/// How the pool's closed views hang together, for callers outside this
/// module: the capacity is the length of the lease-flag vector, reading
/// one slot reads that vector, and a well-formed pool has one identity
/// per slot.
pub proof fn lemma_pool_views(p: SessionPool)
    ensures
        p.spec_capacity() == p.leased_flags().len(),
        forall|i: int| 0 <= i < p.spec_capacity() ==> p.spec_leased(i) == p.leased_flags()[i],
        p.wf() <==> p.spec_configs().len() == p.spec_capacity(),
{
}

/// A bounded set of sessions with exclusive checkout. The pool tracks which
/// slots are leased; the execution contexts themselves are held by the
/// caller, one per slot, and are only ever driven by the holder of the
/// slot's lease.
pub struct SessionPool {
    configs: Vec<SessionConfig>,
    leased: Vec<bool>,
}

impl SessionPool {
    /// Both vectors describe the same slots.
    pub closed spec fn wf(self) -> bool {
        self.configs@.len() == self.leased@.len()
    }

    /// The fixed number of sessions, set at construction.
    pub closed spec fn spec_capacity(self) -> int {
        self.leased@.len() as int
    }

    pub closed spec fn spec_leased(self, i: int) -> bool {
        self.leased@[i]
    }

    pub closed spec fn leased_flags(self) -> Seq<bool> {
        self.leased@
    }

    pub closed spec fn spec_configs(self) -> Seq<SessionConfig> {
        self.configs@
    }

    /// A pool over the given session identities, all slots free.
    pub fn new(configs: Vec<SessionConfig>) -> (r: SessionPool)
        ensures
            r.wf(),
            r.spec_capacity() == configs@.len(),
            r.spec_configs() == configs@,
            forall|i: int| 0 <= i < r.spec_capacity() ==> !r.spec_leased(i),
    {
        let n = configs.len();
        let mut leased: Vec<bool> = Vec::new();
        let mut i: usize = 0;
        while i < n
            invariant
                i <= n,
                leased@.len() == i,
                forall|j: int| 0 <= j < i ==> !leased@[j],
            decreases n - i,
        {
            leased.push(false);
            i = i + 1;
        }
        SessionPool { configs, leased }
    }

    pub fn capacity(&self) -> (r: usize)
        ensures
            r == self.spec_capacity(),
    {
        self.leased.len()
    }

    pub fn is_leased(&self, i: usize) -> (r: bool)
        requires
            i < self.spec_capacity(),
        ensures
            r == self.spec_leased(i as int),
    {
        self.leased[i]
    }

    /// The identity of one slot.
    pub fn config_of(&self, i: usize) -> (r: &SessionConfig)
        requires
            self.wf(),
            i < self.spec_capacity(),
        ensures
            r == self.spec_configs()[i as int],
    {
        &self.configs[i]
    }

    /// How many slots are currently leased; zero means the pool is drained
    /// and may be torn down.
    pub fn outstanding(&self) -> (r: usize)
        ensures
            r == count_leased(self.leased_flags()),
    {
        let mut n: usize = 0;
        let mut i: usize = 0;
        while i < self.leased.len()
            invariant
                i <= self.leased@.len(),
                n == count_leased(self.leased@.take(i as int)),
                n <= i,
            decreases self.leased@.len() - i,
        {
            proof {
                assert(self.leased@.take(i as int + 1).drop_last() =~= self.leased@.take(i as int));
                assert(self.leased@.take(i as int + 1).last() == self.leased@[i as int]);
            }
            if self.leased[i] {
                n = n + 1;
            }
            i = i + 1;
        }
        proof {
            assert(self.leased@.take(self.leased@.len() as int) =~= self.leased@);
        }
        n
    }

    /// One attempt to lease a session: a preferred slot when one is named,
    /// otherwise a random free slot. No free slot means PoolExhausted; the
    /// caller decides whether to wait and try again. Nothing changes unless
    /// a lease is granted, and a granted slot was free the moment before —
    /// no session is ever double-leased.
    pub fn try_checkout(&mut self, preferred: Option<usize>) -> (r: Result<usize, TikTokError>)
        ensures
            final(self).wf() == old(self).wf(),
            final(self).spec_capacity() == old(self).spec_capacity(),
            final(self).spec_configs() == old(self).spec_configs(),
            r matches Ok(i) ==> i < old(self).spec_capacity() && !old(self).spec_leased(i as int)
                && final(self).leased_flags() == old(self).leased_flags().update(i as int, true),
            r is Err ==> *final(self) == *old(self),
            preferred matches Some(i) ==> {
                &&& i < old(self).spec_capacity() && !old(self).spec_leased(i as int) ==> r == Ok::<
                    usize,
                    TikTokError,
                >(i)
                &&& i < old(self).spec_capacity() && old(self).spec_leased(i as int) ==> r == Err::<
                    usize,
                    TikTokError,
                >(TikTokError::PoolExhausted)
                &&& i >= old(self).spec_capacity() ==> (r matches Err(e) && e is Other)
            },
            preferred is None ==> ((r is Ok) <==> count_free(old(self).leased_flags()) > 0),
            preferred is None && count_free(old(self).leased_flags()) == 0 ==> r == Err::<
                usize,
                TikTokError,
            >(TikTokError::PoolExhausted),
    {
        match preferred {
            Some(i) => {
                if i >= self.leased.len() {
                    Err(TikTokError::Other(String::from_str("invalid session index")))
                } else if self.leased[i] {
                    Err(TikTokError::PoolExhausted)
                } else {
                    self.leased.set(i, true);
                    Ok(i)
                }
            },
            None => {
                let mut free_idx: Vec<usize> = Vec::new();
                let mut j: usize = 0;
                while j < self.leased.len()
                    invariant
                        j <= self.leased@.len(),
                        free_idx@.len() == count_free(self.leased@.take(j as int)),
                        forall|k: int| 0 <= k < free_idx@.len() ==> (free_idx@[k]
                            < self.leased@.len() && !self.leased@[free_idx@[k] as int]),
                    decreases self.leased@.len() - j,
                {
                    proof {
                        assert(self.leased@.take(j as int + 1).drop_last() =~= self.leased@.take(
                            j as int,
                        ));
                        assert(self.leased@.take(j as int + 1).last() == self.leased@[j as int]);
                    }
                    if !self.leased[j] {
                        free_idx.push(j);
                    }
                    j = j + 1;
                }
                proof {
                    assert(self.leased@.take(self.leased@.len() as int) =~= self.leased@);
                }
                if free_idx.len() == 0 {
                    Err(TikTokError::PoolExhausted)
                } else {
                    let pick = pick_below(free_idx.len());
                    let i = free_idx[pick];
                    self.leased.set(i, true);
                    Ok(i)
                }
            },
        }
    }

    /// Returns a leased session to the free set. Every lease is released
    /// exactly once; the caller's scoped lease handle enforces that, and
    /// the precondition records it.
    pub fn release(&mut self, i: usize)
        requires
            i < old(self).spec_capacity(),
            old(self).spec_leased(i as int),
        ensures
            final(self).wf() == old(self).wf(),
            final(self).spec_capacity() == old(self).spec_capacity(),
            final(self).spec_configs() == old(self).spec_configs(),
            final(self).leased_flags() == old(self).leased_flags().update(i as int, false),
    {
        self.leased.set(i, false);
    }
}

/// The identity a fresh session gets: the fixed device profile, and a token
/// and proxy sampled from the configured pools when any are configured.
pub fn build_profile(cfg: &TikTokApiConfig) -> (r: SessionConfig)
    ensures
        r.user_agent is None,
        r.language@ == "en-US"@,
        r.platform@ == "Windows"@,
        r.timezone@ == "America/New_York"@,
        r.screen_width == 1920,
        r.screen_height == 1080,
        r.cookies is None,
        r.ms_token matches Some(t) ==> (cfg.ms_tokens matches Some(v) && v@.contains(t)),
        cfg.ms_tokens matches Some(v) && v@.len() > 0 ==> r.ms_token is Some,
        r.proxy matches Some(p) ==> (cfg.proxies matches Some(v) && v@.contains(p)),
        cfg.proxies matches Some(v) && v@.len() > 0 ==> r.proxy is Some,
{
    let ms_token = match &cfg.ms_tokens {
        Some(v) => choose_string(v),
        None => None,
    };
    let proxy = match &cfg.proxies {
        Some(v) => choose_string(v),
        None => None,
    };
    SessionConfig {
        user_agent: None,
        language: String::from_str("en-US"),
        platform: String::from_str("Windows"),
        timezone: String::from_str("America/New_York"),
        screen_width: 1920,
        screen_height: 1080,
        ms_token,
        proxy,
        cookies: None,
    }
}

} // verus!
