use vstd::prelude::*;

verus! {

/// A recent ledger hash together with the last block height at which a
/// transaction carrying it is still accepted.
#[derive(Clone, Copy, Debug)]
pub struct FreshnessToken {
    pub hash: [u8; 32],
    pub last_valid_block_height: u64,
}

impl FreshnessToken {
    /// True when both tokens carry the same hash.
    pub open spec fn same_hash(self, other: FreshnessToken) -> bool {
        self.hash@ == other.hash@
    }

    /// A token is stale at `height` once the ledger has grown past its window.
    pub open spec fn expired_at(self, height: u64) -> bool {
        height > self.last_valid_block_height
    }

    pub fn has_same_hash(&self, other: &FreshnessToken) -> (r: bool)
        ensures
            r == self.same_hash(*other),
    {
        let mut i: usize = 0;
        while i < 32
            invariant
                i <= 32,
                forall|j: int| 0 <= j < i ==> self.hash@[j] == other.hash@[j],
            decreases 32 - i,
        {
            if self.hash[i] != other.hash[i] {
                return false;
            }
            i = i + 1;
        }
        assert(self.hash@ =~= other.hash@);
        true
    }

    pub fn is_expired_at(&self, height: u64) -> (r: bool)
        ensures
            r == self.expired_at(height),
    {
        height > self.last_valid_block_height
    }
}

/// The token that the cache holds after it started from `start` and then saw
/// each fetch result of `fetches` in turn (`None` is a failed fetch).
pub open spec fn after_fetches(start: FreshnessToken, fetches: Seq<Option<FreshnessToken>>) -> FreshnessToken
    decreases fetches.len(),
{
    if fetches.len() == 0 {
        start
    } else {
        let prev = after_fetches(start, fetches.drop_last());
        match fetches.last() {
            Some(t) => t,
            None => prev,
        }
    }
}

/// The one current freshness token of the process. It is created from a
/// successful fetch and so is never empty; a refresh replaces the token
/// whole, and a failed refresh leaves it as it was.
pub struct FreshnessCache {
    current: FreshnessToken,
}

impl FreshnessCache {
    pub closed spec fn token(&self) -> FreshnessToken {
        self.current
    }

    /// Starts the cache from the token of the initial fetch.
    pub fn new(initial: FreshnessToken) -> (r: FreshnessCache)
        ensures
            r.token() == initial,
    {
        FreshnessCache { current: initial }
    }

    /// A copy of the current token.
    pub fn read(&self) -> (r: FreshnessToken)
        ensures
            r == self.token(),
    {
        self.current
    }

    /// Replaces the current token.
    pub fn publish(&mut self, token: FreshnessToken)
        ensures
            final(self).token() == token,
    {
        self.current = token;
    }

    /// Takes in the result of one background fetch: a fetched token is
    /// published, a failed fetch keeps the previous token.
    pub fn apply_fetch(&mut self, fetched: Option<FreshnessToken>)
        ensures
            final(self).token() == after_fetches(old(self).token(), seq![fetched]),
            match fetched {
                Some(t) => final(self).token() == t,
                None => final(self).token() == old(self).token(),
            },
    {
        let ghost before = self.current;
        assert(seq![fetched].drop_last() =~= Seq::<Option<FreshnessToken>>::empty());
        assert(after_fetches(before, Seq::<Option<FreshnessToken>>::empty()) == before);
        assert(seq![fetched].last() == fetched);
        match fetched {
            Some(t) => self.current = t,
            None => {},
        }
    }

    /// Takes in several fetch results, oldest first.
    pub fn apply_fetches(&mut self, fetches: &Vec<Option<FreshnessToken>>)
        ensures
            final(self).token() == after_fetches(old(self).token(), fetches@),
    {
        let ghost start = self.token();
        let mut i: usize = 0;
        while i < fetches.len()
            invariant
                i <= fetches@.len(),
                self.token() == after_fetches(start, fetches@.subrange(0, i as int)),
            decreases fetches@.len() - i,
        {
            let f = fetches[i];
            assert(fetches@.subrange(0, i + 1).drop_last() =~= fetches@.subrange(0, i as int));
            self.apply_fetch(f);
            i = i + 1;
        }
        assert(fetches@.subrange(0, fetches@.len() as int) =~= fetches@);
    }
}

/// However many fetches fail in a row, the cache keeps returning the last
/// token that was fetched successfully.
pub proof fn lemma_failed_fetches_keep_token(start: FreshnessToken, fetches: Seq<Option<FreshnessToken>>)
    requires
        forall|i: int| 0 <= i < fetches.len() ==> fetches[i] is None,
    ensures
        after_fetches(start, fetches) == start,
    decreases fetches.len(),
{
    if fetches.len() > 0 {
        lemma_failed_fetches_keep_token(start, fetches.drop_last());
    }
}

/// Failed fetches after a successful one leave its token in place.
pub proof fn lemma_last_success_wins(
    start: FreshnessToken,
    before: Seq<Option<FreshnessToken>>,
    fetched: FreshnessToken,
    failures: Seq<Option<FreshnessToken>>,
)
    requires
        forall|i: int| 0 <= i < failures.len() ==> failures[i] is None,
    ensures
        after_fetches(start, before.push(Some(fetched)) + failures) == fetched,
    decreases failures.len(),
{
    let all = before.push(Some(fetched)) + failures;
    if failures.len() == 0 {
        assert(all =~= before.push(Some(fetched)));
        assert(all.drop_last() =~= before);
    } else {
        assert(all.drop_last() =~= before.push(Some(fetched)) + failures.drop_last());
        lemma_last_success_wins(start, before, fetched, failures.drop_last());
    }
}

/// The cache never holds a token that nobody fetched: it holds the initial
/// token or one of the tokens that a refresh fetched.
pub proof fn lemma_token_was_fetched(start: FreshnessToken, fetches: Seq<Option<FreshnessToken>>)
    ensures
        after_fetches(start, fetches) == start
            || exists|i: int| 0 <= i < fetches.len() && fetches[i] == Some(after_fetches(start, fetches)),
    decreases fetches.len(),
{
    if fetches.len() > 0 {
        let prev = fetches.drop_last();
        lemma_token_was_fetched(start, prev);
        match fetches.last() {
            Some(t) => {
                assert(fetches[fetches.len() - 1] == Some(after_fetches(start, fetches)));
            },
            None => {
                if after_fetches(start, prev) != start {
                    let i = choose|i: int| 0 <= i < prev.len() && prev[i] == Some(after_fetches(start, prev));
                    assert(fetches[i] == prev[i]);
                }
            },
        }
    }
}

} // verus!
