//! The token cache: one entry per scope set, expiry tracked with a safety
//! skew, errors never cached.

use vstd::prelude::*;

use crate::EXPIRY_SKEW_SECS;
use crate::exchange::AccessToken;
use crate::exchange::clone_scopes;
use crate::exchange::token_eq;

verus! {

/// The cache key for a scope list: the set of its scopes. Two scope lists
/// share an entry exactly when they name the same scopes, whatever their
/// order or repetition.
pub open spec fn scope_set(ss: Seq<Seq<char>>) -> Set<Seq<char>> {
    ss.to_set()
}

/// One cached token together with the scope list it was requested for.
pub struct CacheEntry {
    /// The scope list of the callers this entry serves.
    pub scopes: Vec<String>,
    /// The token last fetched for that scope set.
    pub token: AccessToken,
}

/// The key of an entry.
pub open spec fn entry_key(e: CacheEntry) -> Set<Seq<char>> {
    scope_set(e.scopes.deep_view())
}

/// The first entry for the key, if any.
pub open spec fn spec_find(s: Seq<CacheEntry>, k: Set<Seq<char>>) -> Option<AccessToken>
    decreases s.len(),
{
    if s.len() == 0 {
        None
    } else if entry_key(s[0]) == k {
        Some(s[0].token)
    } else {
        spec_find(s.skip(1), k)
    }
}

/// Whether a token may still be handed out at `now`: its expiry lies more
/// than the safety skew ahead.
pub open spec fn token_valid_at(t: AccessToken, now: u64) -> bool {
    now + EXPIRY_SKEW_SECS < t.expires_at
}

/// The token the cache may answer with at `now` for key `k`: a stored entry
/// that is still valid past the skew, and nothing otherwise.
pub open spec fn valid_hit(s: Seq<CacheEntry>, k: Set<Seq<char>>, now: u64) -> Option<AccessToken> {
    match spec_find(s, k) {
        Some(t) => if token_valid_at(t, now) {
            Some(t)
        } else {
            None
        },
        None => None,
    }
}

/// Law: a token just stored is answered unchanged to every request within
/// its validity window less the skew; no second exchange is needed there.
pub proof fn lemma_store_then_hit(s: Seq<CacheEntry>, e: CacheEntry, now: u64)
    requires
        spec_find(s, entry_key(e)) is None,
        token_valid_at(e.token, now),
    ensures
        valid_hit(s.push(e), entry_key(e), now) == Some(e.token),
{
    lemma_find_push(s, e, entry_key(e));
}

/// Law: once `now` reaches `expires_at` (or even the skew window before
/// it), the cache answers nothing for the key, so a fresh exchange is the
/// only way to a token.
pub proof fn lemma_expired_entry_misses(s: Seq<CacheEntry>, k: Set<Seq<char>>, now: u64)
    requires
        (match spec_find(s, k) {
            Some(t) => now + EXPIRY_SKEW_SECS >= t.expires_at,
            None => true,
        }),
    ensures
        valid_hit(s, k, now) is None,
{
}

/// What a push does to a lookup: it answers for the new entry's key only
/// where nothing answered before, and changes no other key.
pub proof fn lemma_find_push(s: Seq<CacheEntry>, e: CacheEntry, k: Set<Seq<char>>)
    ensures
        spec_find(s.push(e), k) == (if spec_find(s, k) is Some {
            spec_find(s, k)
        } else if entry_key(e) == k {
            Some(e.token)
        } else {
            None
        }),
    decreases s.len(),
{
    if s.len() == 0 {
        assert(s.push(e).len() == 1);
        assert(s.push(e)[0] == e);
        assert(s.push(e).skip(1) =~= Seq::<CacheEntry>::empty());
        assert(spec_find(s, k) is None);
        if entry_key(e) == k {
            assert(spec_find(s.push(e), k) == Some(e.token));
        } else {
            assert(spec_find(s.push(e), k) == spec_find(s.push(e).skip(1), k));
        }
    } else {
        assert(s.push(e)[0] == s[0]);
        assert(s.push(e).skip(1) =~= s.skip(1).push(e));
        lemma_find_push(s.skip(1), e, k);
        if entry_key(s[0]) == k {
            assert(spec_find(s.push(e), k) == Some(s[0].token));
            assert(spec_find(s, k) == Some(s[0].token));
        } else {
            assert(spec_find(s.push(e), k) == spec_find(s.skip(1).push(e), k));
            assert(spec_find(s, k) == spec_find(s.skip(1), k));
        }
    }
}

/// The cache itself: entries with pairwise distinct scope-set keys.
pub struct TokenCache {
    /// The stored entries.
    pub entries: Vec<CacheEntry>,
}

impl TokenCache {
    /// Well-formedness: no two entries share a key.
    pub open spec fn wf(&self) -> bool {
        forall|i: int, j: int|
            0 <= i < j < self.entries@.len() ==> entry_key(#[trigger] self.entries@[i])
                != entry_key(#[trigger] self.entries@[j])
    }

    /// An empty cache.
    pub fn new() -> (r: TokenCache)
        ensures
            r.wf(),
            r.entries@.len() == 0,
    {
        TokenCache { entries: Vec::new() }
    }

    /// The still-valid token for the scope set, if one is stored.
    pub fn get_valid(&self, scopes: &Vec<String>, now: u64) -> (r: Option<AccessToken>)
        requires
            now + EXPIRY_SKEW_SECS <= u64::MAX,
        ensures
            (r is Some) == (valid_hit(self.entries@, scope_set(scopes.deep_view()), now) is Some),
            r matches Some(t) ==> token_eq(
                t,
                valid_hit(self.entries@, scope_set(scopes.deep_view()), now).unwrap(),
            ),
    {
        let ghost k = scope_set(scopes.deep_view());
        let ghost model = self.entries@;
        let n: usize = self.entries.len();
        let mut i: usize = 0;
        proof {
            assert(model.skip(0) =~= model);
        }
        while i < n
            invariant
                now + EXPIRY_SKEW_SECS <= u64::MAX,
                n == self.entries@.len(),
                model == self.entries@,
                k == scope_set(scopes.deep_view()),
                i <= n,
                spec_find(model, k) == spec_find(model.skip(i as int), k),
            decreases n - i,
        {
            proof {
                assert(model.skip(i as int)[0] == model[i as int]);
                assert(model.skip(i as int).skip(1) =~= model.skip(i as int + 1));
            }
            let e = &self.entries[i];
            if scope_sets_equal(&e.scopes, scopes) {
                if now + EXPIRY_SKEW_SECS < e.token.expires_at {
                    return Some(e.token.duplicate());
                } else {
                    return None;
                }
            }
            i = i + 1;
        }
        None
    }

    /// Stores `token` for the scope set, replacing any entry for it;
    /// entries for every other scope set stay as they are.
    pub fn store(&mut self, scopes: &Vec<String>, token: AccessToken)
        requires
            old(self).wf(),
        ensures
            final (self).wf(),
            spec_find(final (self).entries@, scope_set(scopes.deep_view())) == Some(token),
            forall|k2: Set<Seq<char>>|
                k2 != scope_set(scopes.deep_view()) ==> #[trigger] spec_find(
                    final (self).entries@,
                    k2,
                ) == spec_find(old(self).entries@, k2),
    {
        self.remove(scopes);
        let ghost mid = self.entries@;
        let ghost k = scope_set(scopes.deep_view());
        let entry = CacheEntry { scopes: clone_scopes(scopes), token };
        proof {
            assert(entry_key(entry) == k);
        }
        self.entries.push(entry);
        proof {
            assert forall|k2: Set<Seq<char>>| true implies #[trigger] spec_find(
                self.entries@,
                k2,
            ) == (if spec_find(mid, k2) is Some {
                spec_find(mid, k2)
            } else if k == k2 {
                Some(entry.token)
            } else {
                None
            }) by {
                lemma_find_push(mid, entry, k2);
            }
            lemma_none_means_absent(mid, k);
            assert forall|i: int, j: int|
                0 <= i < j < self.entries@.len() implies entry_key(#[trigger] self.entries@[i])
                != entry_key(#[trigger] self.entries@[j]) by {
                assert(self.entries@ == mid.push(entry));
                if j == self.entries@.len() - 1 {
                    assert(self.entries@[i] == mid[i]);
                    assert(entry_key(mid[i]) != k);
                } else {
                    assert(self.entries@[i] == mid[i] && self.entries@[j] == mid[j]);
                }
            }
        }
    }

    /// Drops the entry for the scope set, if any; every other entry stays.
    /// This is the move back to the empty state after a failed refresh, so
    /// no stale or partial token survives an error.
    pub fn remove(&mut self, scopes: &Vec<String>)
        requires
            old(self).wf(),
        ensures
            final (self).wf(),
            spec_find(final (self).entries@, scope_set(scopes.deep_view())) is None,
            forall|k2: Set<Seq<char>>|
                k2 != scope_set(scopes.deep_view()) ==> #[trigger] spec_find(
                    final (self).entries@,
                    k2,
                ) == spec_find(old(self).entries@, k2),
    {
        let ghost k = scope_set(scopes.deep_view());
        let ghost orig = self.entries@;
        let n: usize = self.entries.len();
        let mut i: usize = 0;
        proof {
            assert(orig.skip(0) =~= orig);
        }
        while i < n
            invariant
                n == orig.len(),
                i <= n,
                orig == old(self).entries@,
                self.entries@ == orig,
                self.wf(),
                k == scope_set(scopes.deep_view()),
                spec_find(orig, k) == spec_find(orig.skip(i as int), k),
                forall|j: int| 0 <= j < i ==> entry_key(#[trigger] orig[j]) != k,
            decreases n - i,
        {
            proof {
                assert(orig.skip(i as int)[0] == orig[i as int]);
                assert(orig.skip(i as int).skip(1) =~= orig.skip(i as int + 1));
            }
            let e = &self.entries[i];
            if scope_sets_equal(&e.scopes, scopes) {
                self.entries.remove(i);
                proof {
                    lemma_find_remove(orig, i as int, k);
                    assert(self.entries@ == orig.remove(i as int));
                    assert forall|k2: Set<Seq<char>>| k2 != k implies #[trigger] spec_find(
                        self.entries@,
                        k2,
                    ) == spec_find(orig, k2) by {
                        assert(spec_find(orig.remove(i as int), k2) == spec_find(orig, k2));
                    }
                    orig.remove_ensures(i as int);
                    assert forall|a: int, b: int|
                        0 <= a < b < self.entries@.len() implies entry_key(
                        #[trigger] self.entries@[a],
                    ) != entry_key(#[trigger] self.entries@[b]) by {
                        assert(self.entries@[a] == if a < i as int {
                            orig[a]
                        } else {
                            orig[a + 1]
                        });
                        assert(self.entries@[b] == if b < i as int {
                            orig[b]
                        } else {
                            orig[b + 1]
                        });
                    }
                }
                return ;
            }
            i = i + 1;
        }
        proof {
            assert(orig.skip(n as int).len() == 0);
        }
    }
}

/// Where every entry's key differs from `k`, a lookup for `k` answers
/// nothing.
proof fn lemma_absent_means_none(s: Seq<CacheEntry>, k: Set<Seq<char>>)
    requires
        forall|i: int| 0 <= i < s.len() ==> entry_key(#[trigger] s[i]) != k,
    ensures
        spec_find(s, k) is None,
    decreases s.len(),
{
    if s.len() > 0 {
        assert forall|i: int| 0 <= i < s.skip(1).len() implies entry_key(#[trigger] s.skip(1)[i])
            != k by {
            assert(s.skip(1)[i] == s[i + 1]);
        }
        lemma_absent_means_none(s.skip(1), k);
    }
}

/// Where a lookup for `k` answers nothing, no entry carries `k`.
proof fn lemma_none_means_absent(s: Seq<CacheEntry>, k: Set<Seq<char>>)
    requires
        spec_find(s, k) is None,
    ensures
        forall|i: int| 0 <= i < s.len() ==> entry_key(#[trigger] s[i]) != k,
    decreases s.len(),
{
    if s.len() > 0 {
        lemma_none_means_absent(s.skip(1), k);
        assert forall|i: int| 0 <= i < s.len() implies entry_key(#[trigger] s[i]) != k by {
            if i > 0 {
                assert(s[i] == s.skip(1)[i - 1]);
            }
        }
    }
}

/// What removing the one entry for `k` does to lookups: `k` then answers
/// nothing, and every other key answers as before.
proof fn lemma_find_remove(s: Seq<CacheEntry>, idx: int, k: Set<Seq<char>>)
    requires
        0 <= idx < s.len(),
        entry_key(s[idx]) == k,
        forall|i: int, j: int|
            0 <= i < j < s.len() ==> entry_key(#[trigger] s[i]) != entry_key(#[trigger] s[j]),
    ensures
        spec_find(s.remove(idx), k) is None,
        forall|k2: Set<Seq<char>>|
            k2 != k ==> #[trigger] spec_find(s.remove(idx), k2) == spec_find(s, k2),
    decreases s.len(),
{
    let r = s.remove(idx);
    if idx == 0 {
        assert(r =~= s.skip(1));
        assert forall|i: int| 0 <= i < r.len() implies entry_key(#[trigger] r[i]) != k by {
            assert(r[i] == s[i + 1]);
        }
        lemma_absent_means_none(r, k);
        assert forall|k2: Set<Seq<char>>| k2 != k implies #[trigger] spec_find(r, k2) == spec_find(
            s,
            k2,
        ) by {
            assert(entry_key(s[0]) == k);
            assert(spec_find(s, k2) == spec_find(s.skip(1), k2));
        }
    } else {
        let t = s.skip(1);
        assert forall|i: int, j: int|
            0 <= i < j < t.len() implies entry_key(#[trigger] t[i]) != entry_key(
            #[trigger] t[j],
        ) by {
            assert(t[i] == s[i + 1] && t[j] == s[j + 1]);
        }
        assert(t[idx - 1] == s[idx]);
        lemma_find_remove(t, idx - 1, k);
        assert(r.skip(1) =~= t.remove(idx - 1));
        assert(r[0] == s[0]);
        assert(entry_key(s[0]) != k);
        assert(spec_find(r, k) == spec_find(t.remove(idx - 1), k));
        assert forall|k2: Set<Seq<char>>| k2 != k implies #[trigger] spec_find(r, k2) == spec_find(
            s,
            k2,
        ) by {
            if entry_key(s[0]) != k2 {
                assert(spec_find(r, k2) == spec_find(t.remove(idx - 1), k2));
                assert(spec_find(s, k2) == spec_find(t, k2));
            }
        }
    }
}

/// Whether `v` holds a string whose characters equal `s`'s.
pub fn contains_string(v: &Vec<String>, s: &String) -> (r: bool)
    ensures
        r == v.deep_view().contains(s@),
{
    let n: usize = v.len();
    let mut i: usize = 0;
    while i < n
        invariant
            n == v@.len(),
            i <= n,
            forall|j: int| 0 <= j < i ==> v.deep_view()[j] != s@,
        decreases n - i,
    {
        if v[i] == *s {
            proof {
                assert(v.deep_view()[i as int] == s@);
            }
            return true;
        }
        i = i + 1;
    }
    proof {
        assert forall|j: int| 0 <= j < v.deep_view().len() implies v.deep_view()[j] != s@ by {}
    }
    false
}

/// Whether two scope lists name the same scope set.
pub fn scope_sets_equal(a: &Vec<String>, b: &Vec<String>) -> (r: bool)
    ensures
        r == (scope_set(a.deep_view()) == scope_set(b.deep_view())),
{
    let na: usize = a.len();
    let mut i: usize = 0;
    while i < na
        invariant
            na == a@.len(),
            i <= na,
            forall|j: int| 0 <= j < i ==> scope_set(b.deep_view()).contains(#[trigger] a.deep_view()[j]),
        decreases na - i,
    {
        if !contains_string(b, &a[i]) {
            proof {
                assert(a.deep_view().contains(a.deep_view()[i as int]));
                assert(scope_set(a.deep_view()).contains(a.deep_view()[i as int]));
                assert(!scope_set(b.deep_view()).contains(a.deep_view()[i as int]));
            }
            return false;
        }
        i = i + 1;
    }
    let nb: usize = b.len();
    let mut j: usize = 0;
    while j < nb
        invariant
            na == a@.len(),
            nb == b@.len(),
            forall|j2: int|
                0 <= j2 < na ==> scope_set(b.deep_view()).contains(#[trigger] a.deep_view()[j2]),
            j <= nb,
            forall|j2: int|
                0 <= j2 < j ==> scope_set(a.deep_view()).contains(#[trigger] b.deep_view()[j2]),
        decreases nb - j,
    {
        if !contains_string(a, &b[j]) {
            proof {
                assert(b.deep_view().contains(b.deep_view()[j as int]));
                assert(scope_set(b.deep_view()).contains(b.deep_view()[j as int]));
                assert(!scope_set(a.deep_view()).contains(b.deep_view()[j as int]));
            }
            return false;
        }
        j = j + 1;
    }
    proof {
        assert forall|x: Seq<char>|
            scope_set(a.deep_view()).contains(x) == scope_set(b.deep_view()).contains(x) by {
            if a.deep_view().contains(x) {
                let w = choose|w: int| 0 <= w < a.deep_view().len() && a.deep_view()[w] == x;
                assert(scope_set(b.deep_view()).contains(a.deep_view()[w]));
            }
            if b.deep_view().contains(x) {
                let w = choose|w: int| 0 <= w < b.deep_view().len() && b.deep_view()[w] == x;
                assert(scope_set(a.deep_view()).contains(b.deep_view()[w]));
            }
        }
        assert(scope_set(a.deep_view()) =~= scope_set(b.deep_view()));
    }
    true
}

} // verus!
