//! The paste store: a single-table key-value store from token to content.
//!
//! This is the verified model of the storage accessor. At most one entry
//! exists per token; an insert of a token that is already present fails
//! cleanly instead of overwriting, and a lookup of an absent token yields the
//! not-found sentinel rather than a fault.

use vstd::prelude::*;

verus! {

/// Error returned by a failed insert.
#[derive(Clone, Copy, PartialEq, Eq, Structural, Debug)]
pub enum StoreError {
    /// The token is already present: a duplicate insert is rejected rather
    /// than overwriting the stored content.
    DuplicateToken,
}

/// One stored paste: a text blob identified by its token.
pub struct Paste {
    /// The short random string serving as the paste's public identifier.
    pub token: String,
    /// The stored text, arbitrary and unvalidated.
    pub content: String,
}

/// The tokens of `s` are pairwise distinct.
pub open spec fn tokens_unique(s: Seq<Paste>) -> bool {
    forall|i: int, j: int| 0 <= i < j < s.len() ==> s[i].token@ != s[j].token@
}

/// The abstract contents of a sequence of pastes: the map that sends each
/// token to the content stored under it (a later entry would win, but the
/// store never holds two entries with one token).
spec fn entries_map(s: Seq<Paste>) -> Map<Seq<char>, Seq<char>>
    decreases s.len(),
{
    if s.len() == 0 {
        Map::empty()
    } else {
        entries_map(s.drop_last()).insert(s.last().token@, s.last().content@)
    }
}

/// The sentinel text that stands in for the content of a token that was
/// never inserted.
pub open spec fn not_found_sentinel() -> Seq<char> {
    "Paste not found"@
}

/// What a lookup yields: the stored content when the token is present, the
/// not-found sentinel when it is not.
pub open spec fn lookup_spec(m: Map<Seq<char>, Seq<char>>, t: Seq<char>) -> Seq<char> {
    if m.dom().contains(t) {
        m[t]
    } else {
        not_found_sentinel()
    }
}

proof fn lemma_entries_map_dom(s: Seq<Paste>, t: Seq<char>)
    ensures
        entries_map(s).dom().contains(t) <==> exists|i: int|
            0 <= i < s.len() && s[i].token@ == t,
    decreases s.len(),
{
    if s.len() > 0 {
        let prefix = s.drop_last();
        lemma_entries_map_dom(prefix, t);
        if s.last().token@ == t {
            assert(s[s.len() - 1].token@ == t);
        } else {
            if exists|i: int| 0 <= i < s.len() && s[i].token@ == t {
                let i = choose|i: int| 0 <= i < s.len() && s[i].token@ == t;
                assert(prefix[i].token@ == t);
            }
            if exists|i: int| 0 <= i < prefix.len() && prefix[i].token@ == t {
                let i = choose|i: int| 0 <= i < prefix.len() && prefix[i].token@ == t;
                assert(s[i].token@ == t);
            }
        }
    }
}

proof fn lemma_entries_map_value(s: Seq<Paste>, i: int)
    requires
        tokens_unique(s),
        0 <= i < s.len(),
    ensures
        entries_map(s).dom().contains(s[i].token@),
        entries_map(s)[s[i].token@] == s[i].content@,
    decreases s.len(),
{
    let prefix = s.drop_last();
    if i == s.len() - 1 {
    } else {
        assert(tokens_unique(prefix)) by {
            assert forall|a: int, b: int|
                0 <= a < b < prefix.len() implies prefix[a].token@ != prefix[b].token@ by {
                assert(prefix[a] == s[a]);
                assert(prefix[b] == s[b]);
            }
        }
        assert(prefix[i] == s[i]);
        lemma_entries_map_value(prefix, i);
        assert(s.last().token@ != s[i].token@);
    }
}

proof fn lemma_entries_map_push(s: Seq<Paste>, p: Paste)
    ensures
        entries_map(s.push(p)) == entries_map(s).insert(p.token@, p.content@),
{
    assert(s.push(p).drop_last() =~= s);
    assert(s.push(p).last() == p);
}

/// The store of all pastes, keyed by token.
pub struct PasteStore {
    entries: Vec<Paste>,
}

impl PasteStore {
    /// Well-formedness: at most one entry per token value.
    pub closed spec fn wf(&self) -> bool {
        tokens_unique(self.entries@)
    }

    /// Create an empty store.
    pub fn new() -> (s: PasteStore)
        ensures
            s.wf(),
            s@ == Map::<Seq<char>, Seq<char>>::empty(),
    {
        PasteStore { entries: Vec::new() }
    }

    /// The index of the entry holding `token`, if one does.
    fn find_index(&self, token: &String) -> (r: Option<usize>)
        ensures
            match r {
                Some(i) => i < self.entries@.len() && self.entries@[i as int].token@ == token@,
                None => forall|i: int|
                    0 <= i < self.entries@.len() ==> self.entries@[i].token@ != token@,
            },
    {
        let mut i: usize = 0;
        while i < self.entries.len()
            invariant
                i <= self.entries@.len(),
                forall|j: int| 0 <= j < i ==> self.entries@[j].token@ != token@,
            decreases self.entries@.len() - i,
        {
            if self.entries[i].token == *token {
                return Some(i);
            }
            i = i + 1;
        }
        None
    }

    /// Store `content` under `token`. Fails with `DuplicateToken`, leaving
    /// the store unchanged, exactly when the token is already present; a
    /// duplicate never overwrites.
    pub fn insert(&mut self, token: String, content: String) -> (r: Result<(), StoreError>)
        requires
            old(self).wf(),
        ensures
            final(self).wf(),
            match r {
                Ok(_) => !old(self)@.dom().contains(token@) && final(self)@ == old(self)@.insert(
                    token@,
                    content@,
                ),
                Err(e) => e == StoreError::DuplicateToken && old(self)@.dom().contains(token@)
                    && final(self)@ == old(self)@,
            },
    {
        proof {
            lemma_entries_map_dom(self.entries@, token@);
        }
        match self.find_index(&token) {
            Some(_) => Err(StoreError::DuplicateToken),
            None => {
                proof {
                    lemma_entries_map_push(
                        self.entries@,
                        Paste { token: token, content: content },
                    );
                }
                let ghost old_entries = self.entries@;
                self.entries.push(Paste { token, content });
                proof {
                    assert forall|a: int, b: int|
                        0 <= a < b < self.entries@.len()
                            implies self.entries@[a].token@ != self.entries@[b].token@ by {
                        if b < self.entries@.len() - 1 {
                            assert(self.entries@[a] == old_entries[a]);
                            assert(self.entries@[b] == old_entries[b]);
                        } else {
                            assert(self.entries@[a] == old_entries[a]);
                        }
                    }
                }
                Ok(())
            },
        }
    }

    /// Retrieve the content stored under `token`, or the not-found sentinel
    /// when no paste carries that token. A miss is not a fault: the sentinel
    /// text comes back on the normal path.
    pub fn lookup(&self, token: &String) -> (content: String)
        requires
            self.wf(),
        ensures
            content@ == lookup_spec(self@, token@),
    {
        proof {
            lemma_entries_map_dom(self.entries@, token@);
        }
        match self.find_index(token) {
            Some(i) => {
                proof {
                    lemma_entries_map_value(self.entries@, i as int);
                }
                self.entries[i].content.clone()
            },
            None => String::from_str("Paste not found"),
        }
    }
}

impl View for PasteStore {
    type V = Map<Seq<char>, Seq<char>>;

    /// The abstract contents of the store: a map from token to content.
    closed spec fn view(&self) -> Map<Seq<char>, Seq<char>> {
        entries_map(self.entries@)
    }
}

/// What a retrieval embeds in its page, for each possible answer of the
/// store: the found content itself, or the not-found sentinel where the store
/// held nothing under the token.
pub fn content_or_not_found(found: Option<String>) -> (content: String)
    ensures
        match found {
            Some(c) => content@ == c@,
            None => content@ == not_found_sentinel(),
        },
{
    match found {
        Some(c) => c,
        None => String::from_str("Paste not found"),
    }
}

/// Law: round-trip identity. Looking up the token under which a successful
/// insert just stored a content yields exactly that content.
pub proof fn lemma_insert_lookup_round_trip(
    m: Map<Seq<char>, Seq<char>>,
    t: Seq<char>,
    c: Seq<char>,
)
    ensures
        lookup_spec(m.insert(t, c), t) == c,
{
}

/// Law: a lookup of a token that was never inserted yields the not-found
/// sentinel.
pub proof fn lemma_lookup_missing(m: Map<Seq<char>, Seq<char>>, t: Seq<char>)
    requires
        !m.dom().contains(t),
    ensures
        lookup_spec(m, t) == not_found_sentinel(),
{
}

} // verus!
