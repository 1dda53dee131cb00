//! Cookies: the tokens handed to bus clients that hold an inhibition, a
//! throttle or a suspension.
//!
//! A [`CookieJar`] is the set of cookies currently held. A new cookie is
//! found by rejection sampling: random values are drawn until one is not in
//! the jar. The number of draws is bounded; should every draw collide, the
//! lowest value not in the jar is issued instead, so issuing always ends with
//! a cookie nobody holds.

use rand::Rng;
use std::collections::HashSet;
use vstd::prelude::*;
use vstd::set_lib::*;

verus! {

/// How many random values [`CookieJar::issue`] draws before it stops
/// sampling and takes the lowest free cookie.
pub const DRAW_LIMIT: u32 = 128;

/// How many distinct cookies exist.
pub open spec fn cookie_space() -> nat {
    0x1_0000_0000
}

/// Whether some cookie is not in `held`.
pub open spec fn has_room(held: Set<u32>) -> bool {
    exists|c: u32| !held.contains(c)
}

/// The lowest cookie not in `held`, when there is one.
pub open spec fn is_lowest_free(held: Set<u32>, cookie: u32) -> bool {
    &&& !held.contains(cookie)
    &&& forall|c: u32| c < cookie ==> held.contains(c)
}

/// Every set of cookies is finite, holds at most [`cookie_space`] of them,
/// and has room exactly when it holds fewer.
pub proof fn lemma_room(held: Set<u32>)
    ensures
        held.finite(),
        held.len() <= cookie_space(),
        has_room(held) <==> held.len() < cookie_space(),
{
    let below = Set::<u32>::range(0u32, u32::MAX);
    let every = below.insert(u32::MAX);
    range_set_properties::<u32>(0u32, u32::MAX);
    assert(held.subset_of(every));
    lemma_len_subset(held, every);
    if held.len() == cookie_space() {
        lemma_subset_equality(held, every);
    } else if !has_room(held) {
        assert(held =~= every);
    }
}

/// One value from `rand`'s thread-local generator (`Rng::gen` on
/// `thread_rng()`). The value is random: nothing is claimed of it.
#[verifier::external_body]
fn draw() -> u32 {
    rand::thread_rng().gen()
}

/// The cookies currently held by clients.
pub struct CookieJar {
    live: HashSet<u32>,
}

impl View for CookieJar {
    type V = Set<u32>;

    closed spec fn view(&self) -> Set<u32> {
        self.live@
    }
}

impl CookieJar {
    /// A jar in which no cookie is held.
    pub fn new() -> (jar: CookieJar)
        ensures
            jar@ == Set::<u32>::empty(),
    {
        CookieJar { live: HashSet::new() }
    }

    /// Whether no cookie is held.
    pub fn is_empty(&self) -> (empty: bool)
        ensures
            empty == self@.is_empty(),
            empty == (self@ == Set::<u32>::empty()),
    {
        self.live.is_empty()
    }

    /// Whether `cookie` is held.
    pub fn contains(&self, cookie: u32) -> (held: bool)
        ensures
            held == self@.contains(cookie),
    {
        self.live.contains(&cookie)
    }

    /// Whether a cookie is left to issue.
    pub fn has_room(&self) -> (room: bool)
        ensures
            room == has_room(self@),
    {
        proof {
            lemma_room(self@);
        }
        self.live.len() as u64 <= u32::MAX as u64
    }

    /// One step of rejection sampling: holds `candidate` if nobody held it
    /// and says so; leaves the jar alone if somebody did.
    pub fn offer(&mut self, candidate: u32) -> (fresh: bool)
        ensures
            fresh == !old(self)@.contains(candidate),
            final(self)@ == if fresh {
                old(self)@.insert(candidate)
            } else {
                old(self)@
            },
    {
        self.live.insert(candidate)
    }

    /// The lowest cookie that nobody holds.
    pub fn lowest_free(&self) -> (cookie: u32)
        requires
            has_room(self@),
        ensures
            is_lowest_free(self@, cookie),
    {
        let mut cookie: u32 = 0;
        while self.live.contains(&cookie)
            invariant
                has_room(self@),
                forall|c: u32| c < cookie ==> self@.contains(c),
            decreases u32::MAX - cookie,
        {
            cookie = cookie + 1;
        }
        cookie
    }

    /// Issues a cookie that nobody holds and holds it from now on.
    ///
    /// Random values are drawn, at most [`DRAW_LIMIT`] of them, until one is
    /// free; if all of them collide the lowest free cookie is issued.
    pub fn issue(&mut self) -> (cookie: u32)
        requires
            has_room(old(self)@),
        ensures
            !old(self)@.contains(cookie),
            final(self)@ == old(self)@.insert(cookie),
    {
        let mut draws: u32 = 0;
        while draws < DRAW_LIMIT
            invariant
                self@ == old(self)@,
                draws <= DRAW_LIMIT,
            decreases DRAW_LIMIT - draws,
        {
            let candidate = draw();
            if self.offer(candidate) {
                return candidate;
            }
            draws = draws + 1;
        }
        let cookie = self.lowest_free();
        self.live.insert(cookie);
        cookie
    }

    /// Forgets `cookie` and says whether it was held. Releasing a cookie
    /// that is not held changes nothing.
    pub fn release(&mut self, cookie: u32) -> (held: bool)
        ensures
            held == old(self)@.contains(cookie),
            final(self)@ == old(self)@.remove(cookie),
            !held ==> final(self)@ == old(self)@,
    {
        self.live.remove(&cookie)
    }
}

} // verus!
