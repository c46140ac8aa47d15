//! The tokens that are kept for reuse, by audience.

use vstd::prelude::*;

use crate::text::same;
use crate::time::SystemTime;

verus! {

/// A token that is kept for reuse until `expires_at`.
pub struct CachedToken {
    pub aud: String,
    pub token: String,
    pub expires_at: SystemTime,
}

/// The token that is kept for each audience, with the time until which it is
/// used.
pub type Tokens = Map<Seq<char>, (Seq<char>, int)>;

/// Tokens, at most one of which is found for each audience. They stand apart
/// from the provider that minted them, so that its clones can share them.
pub struct TokenCache {
    entries: Vec<CachedToken>,
}

/// Whether the entry at `i` is the first for `aud`.
pub open spec fn is_first(entries: Seq<CachedToken>, i: int, aud: Seq<char>) -> bool {
    &&& 0 <= i < entries.len()
    &&& entries[i].aud@ == aud
    &&& forall|j: int| 0 <= j < i ==> (#[trigger] entries[j]).aud@ != aud
}

/// The token of each audience, with the time until which it is used.
pub open spec fn tokens(entries: Seq<CachedToken>) -> Tokens {
    Map::new(
        |aud: Seq<char>| exists|i: int| is_first(entries, i, aud),
        |aud: Seq<char>|
            {
                let i = choose|i: int| is_first(entries, i, aud);
                (entries[i].token@, entries[i].expires_at@)
            },
    )
}

impl View for TokenCache {
    type V = Tokens;

    /// The token of each audience, with the time until which it is used.
    closed spec fn view(&self) -> Tokens {
        tokens(self.entries@)
    }
}

proof fn lemma_found(entries: Seq<CachedToken>, i: int, aud: Seq<char>)
    requires
        is_first(entries, i, aud),
    ensures
        tokens(entries).contains_key(aud),
        tokens(entries)[aud] == (entries[i].token@, entries[i].expires_at@),
{
    let k = choose|k: int| is_first(entries, k, aud);
    assert(is_first(entries, k, aud));
    if k < i {
        assert(entries[k].aud@ != aud);
    }
    if i < k {
        assert(entries[i].aud@ != aud);
    }
}

proof fn lemma_not_found(entries: Seq<CachedToken>, aud: Seq<char>)
    requires
        forall|j: int| 0 <= j < entries.len() ==> (#[trigger] entries[j]).aud@ != aud,
    ensures
        !tokens(entries).contains_key(aud),
{
}

/// Entries for the same audiences, of which only those for `aud` differ, hold
/// the same for every other audience.
proof fn lemma_others_kept(
    old_entries: Seq<CachedToken>,
    new_entries: Seq<CachedToken>,
    aud: Seq<char>,
    other: Seq<char>,
)
    requires
        other != aud,
        old_entries.len() <= new_entries.len(),
        forall|j: int|
            0 <= j < old_entries.len() ==> (#[trigger] new_entries[j]).aud@ == old_entries[j].aud@,
        forall|j: int|
            0 <= j < old_entries.len() && old_entries[j].aud@ != aud ==> #[trigger] new_entries[j]
                == old_entries[j],
        forall|j: int|
            old_entries.len() <= j < new_entries.len() ==> (#[trigger] new_entries[j]).aud@ == aud,
    ensures
        tokens(new_entries).contains_key(other) == tokens(old_entries).contains_key(other),
        tokens(old_entries).contains_key(other) ==> tokens(new_entries)[other] == tokens(
            old_entries,
        )[other],
{
    if tokens(old_entries).contains_key(other) {
        let i = choose|i: int| is_first(old_entries, i, other);
        assert(is_first(old_entries, i, other));
        assert(is_first(new_entries, i, other)) by {
            assert(new_entries[i] == old_entries[i]);
            assert forall|j: int| 0 <= j < i implies (#[trigger] new_entries[j]).aud@ != other by {
                assert(old_entries[j].aud@ != other);
            }
        }
        lemma_found(old_entries, i, other);
        lemma_found(new_entries, i, other);
    } else if tokens(new_entries).contains_key(other) {
        let i = choose|i: int| is_first(new_entries, i, other);
        assert(is_first(new_entries, i, other));
        assert(i < old_entries.len());
        assert(is_first(old_entries, i, other)) by {
            assert forall|j: int| 0 <= j < i implies (#[trigger] old_entries[j]).aud@ != other by {
                assert(new_entries[j].aud@ != other);
            }
        }
    }
}

/// Whether a token for `aud` is kept that is used at `now`.
pub open spec fn has_cached(tokens: Tokens, aud: Seq<char>, now: int) -> bool {
    tokens.contains_key(aud) && tokens[aud].1 > now
}

impl TokenCache {
    /// A cache without tokens.
    pub fn new() -> (res: TokenCache)
        ensures
            res@ == Map::<Seq<char>, (Seq<char>, int)>::empty(),
    {
        let res = TokenCache { entries: Vec::new() };
        assert(res@ =~= Map::<Seq<char>, (Seq<char>, int)>::empty());
        res
    }

    /// Where the entry for `aud` is.
    fn find(&self, aud: &str) -> (res: Option<usize>)
        ensures
            match res {
                Some(i) => is_first(self.entries@, i as int, aud@),
                None => forall|j: int|
                    0 <= j < self.entries@.len() ==> (#[trigger] self.entries@[j]).aud@ != aud@,
            },
    {
        for i in 0..self.entries.len()
            invariant
                forall|j: int| 0 <= j < i ==> (#[trigger] self.entries@[j]).aud@ != aud@,
        {
            if same(self.entries[i].aud.as_str(), aud) {
                return Some(i);
            }
        }
        None
    }

    /// The token for `aud`, if there is one.
    pub fn get(&self, aud: &str) -> (res: Option<&CachedToken>)
        ensures
            match res {
                Some(c) => self@.contains_key(aud@) && self@[aud@] == (c.token@, c.expires_at@),
                None => !self@.contains_key(aud@),
            },
    {
        match self.find(aud) {
            Some(i) => {
                proof {
                    lemma_found(self.entries@, i as int, aud@);
                }
                Some(&self.entries[i])
            },
            None => {
                proof {
                    lemma_not_found(self.entries@, aud@);
                }
                None
            },
        }
    }

    /// Keeps the token for its audience, in place of one that was kept before.
    pub fn insert(&mut self, cached: CachedToken)
        ensures
            final(self)@ == old(self)@.insert(cached.aud@, (cached.token@, cached.expires_at@)),
    {
        let ghost aud = cached.aud@;
        let ghost kept = (cached.token@, cached.expires_at@);
        let ghost before = self.entries@;
        let at: usize = match self.find(cached.aud.as_str()) {
            Some(i) => {
                self.entries.set(i, cached);
                i
            },
            None => {
                self.entries.push(cached);
                self.entries.len() - 1
            },
        };
        proof {
            let after = self.entries@;
            assert(is_first(after, at as int, aud));
            lemma_found(after, at as int, aud);
            let expected = tokens(before).insert(aud, kept);
            assert forall|k: Seq<char>| #[trigger] tokens(after).dom().contains(k)
                == expected.dom().contains(k) && (expected.dom().contains(k) ==> tokens(after)[k]
                == expected[k]) by {
                if k != aud {
                    lemma_others_kept(before, after, aud, k);
                }
            }
            assert(tokens(after) =~= expected);
        }
    }
}

/// What is kept for an audience is found, with the time until which it is used;
/// nothing is found where nothing is kept, and at first nothing is.
pub proof fn law_kept_is_found(
    tokens: TokenCache,
    aud: &str,
    found: Option<&CachedToken>,
    empty: TokenCache,
)
    requires
        call_ensures(TokenCache::get, (&tokens, aud), found),
        call_ensures(TokenCache::new, (), empty),
    ensures
        found is Some <==> tokens@.contains_key(aud@),
        found matches Some(c) ==> c.token@ == tokens@[aud@].0 && c.expires_at@ == tokens@[aud@].1,
        !empty@.contains_key(aud@),
{
}

} // verus!
