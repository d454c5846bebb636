//! The visited-link store: links are interned by their canonical text, and a
//! link counts as visited once its symbol is in the visited set.

use crate::text::{ascii_lowercase, canonical, is_canonical, lemma_canonical_idempotent};
use crate::utils::tables::{interned, symbols, text_set, Interner, SymbolSet, TextSet};
use vstd::prelude::*;

verus! {

/// The identity of an interned link text inside one store: the position at
/// which the text was interned.
#[derive(Clone, Copy, Debug, PartialEq, Eq, Structural, Hash)]
pub struct Symbol {
    /// The position of the text among the texts the store has interned.
    pub index: u32,
}

/// What a visited-link store holds: the canonical texts it has interned, by
/// position, and the positions that are marked visited.
pub struct StoreModel {
    pub texts: Seq<Seq<char>>,
    pub visited: Set<u32>,
}

impl StoreModel {
    /// The store that has interned nothing and visited nothing.
    pub open spec fn empty() -> StoreModel {
        StoreModel { texts: Seq::empty(), visited: Set::empty() }
    }

    /// No text is interned twice, every text is canonical, every position
    /// fits a symbol, and only positions of interned texts are visited.
    pub open spec fn wf(self) -> bool {
        &&& self.texts.no_duplicates()
        &&& forall|i: int| 0 <= i < self.texts.len() ==> is_canonical(#[trigger] self.texts[i])
        &&& self.texts.len() <= u32::MAX
        &&& self.visited.finite()
        &&& forall|s: u32| #[trigger] self.visited.contains(s) ==> (s as int) < self.texts.len()
    }

    /// Whether the link has a symbol in this store.
    pub open spec fn knows(self, link: Seq<char>) -> bool {
        self.texts.contains(canonical(link))
    }

    /// The symbol position of a link that the store knows.
    pub open spec fn position(self, link: Seq<char>) -> int
        recommends
            self.knows(link),
    {
        self.texts.index_of(canonical(link))
    }

    /// The symbol of a link, where it has one.
    pub open spec fn symbol_of(self, link: Seq<char>) -> Option<Symbol> {
        if self.knows(link) {
            Some(Symbol { index: self.position(link) as u32 })
        } else {
            None
        }
    }

    /// Whether interning the link cannot run out of symbols.
    pub open spec fn has_room_for(self, link: Seq<char>) -> bool {
        self.knows(link) || self.texts.len() < u32::MAX
    }

    /// The store after the link is interned: a known link changes nothing, a
    /// new one gets the next position.
    pub open spec fn intern(self, link: Seq<char>) -> StoreModel {
        if self.knows(link) {
            self
        } else {
            StoreModel { texts: self.texts.push(canonical(link)), visited: self.visited }
        }
    }

    /// Whether the link is marked visited.
    pub open spec fn contains(self, link: Seq<char>) -> bool {
        self.knows(link) && self.visited.contains(self.position(link) as u32)
    }

    /// The store after the symbol is marked visited. A symbol the store never
    /// gave out marks nothing.
    pub open spec fn mark(self, symbol: Symbol) -> StoreModel {
        if (symbol.index as int) < self.texts.len() {
            StoreModel { texts: self.texts, visited: self.visited.insert(symbol.index) }
        } else {
            self
        }
    }

    /// The store after the link is interned and marked visited.
    pub open spec fn insert(self, link: Seq<char>) -> StoreModel {
        let interned = self.intern(link);
        interned.mark(Symbol { index: interned.position(link) as u32 })
    }

    /// The number of visited links.
    pub open spec fn len(self) -> nat {
        self.visited.len()
    }

    /// The canonical texts of the visited links.
    pub open spec fn links(self) -> Set<Seq<char>> {
        Set::new(|t: Seq<char>| is_canonical(t) && self.contains(t))
    }

    /// The store after the same link is inserted `n` times in a row.
    pub open spec fn insert_times(self, link: Seq<char>, n: nat) -> StoreModel
        decreases n,
    {
        if n == 0 {
            self
        } else {
            self.insert(link).insert_times(link, (n - 1) as nat)
        }
    }

    /// How many of `n` insertions of the same link in a row find the link
    /// not yet visited.
    pub open spec fn first_visits(self, link: Seq<char>, n: nat) -> nat
        decreases n,
    {
        if n == 0 {
            0
        } else {
            (if self.contains(link) {
                0nat
            } else {
                1nat
            }) + self.insert(link).first_visits(link, (n - 1) as nat)
        }
    }
}

/// A set of links. A link is held by its canonical text, so two links that
/// differ only in the case of ASCII letters are one member.
pub struct LinkSet {
    texts: TextSet,
}

impl View for LinkSet {
    type V = Set<Seq<char>>;

    closed spec fn view(&self) -> Set<Seq<char>> {
        text_set(self.texts)
    }
}

impl LinkSet {
    /// The set is finite and holds canonical texts only.
    pub open spec fn wf(&self) -> bool {
        &&& self@.finite()
        &&& forall|t: Seq<char>| #[trigger] self@.contains(t) ==> is_canonical(t)
    }

    /// The empty set of links.
    pub fn new() -> (r: Self)
        ensures
            r@ == Set::<Seq<char>>::empty(),
            r.wf(),
    {
        LinkSet { texts: TextSet::new() }
    }

    /// Adds a link; the result tells whether it was new.
    pub fn insert(&mut self, link: &str) -> (r: bool)
        requires
            old(self).wf(),
        ensures
            final(self).wf(),
            final(self)@ == old(self)@.insert(canonical(link@)),
            r == !old(self)@.contains(canonical(link@)),
    {
        proof {
            lemma_canonical_idempotent(link@);
        }
        self.texts.insert(ascii_lowercase(link))
    }

    /// Whether the link is in the set.
    pub fn contains(&self, link: &str) -> (r: bool)
        ensures
            r == self@.contains(canonical(link@)),
    {
        let key = ascii_lowercase(link);
        self.texts.contains(key.as_str())
    }

    /// The number of links in the set.
    pub fn len(&self) -> (r: usize)
        requires
            self.wf(),
        ensures
            r == self@.len(),
    {
        self.texts.len()
    }

    /// The links of the set, each once, in no particular order.
    pub fn into_vec(self) -> (r: Vec<String>)
        ensures
            forall|i: int, j: int| 0 <= i < j < r@.len() ==> r@[i]@ != r@[j]@,
            forall|t: Seq<char>|
                self@.contains(t) <==> exists|i: int| 0 <= i < r@.len() && #[trigger] r@[i]@ == t,
    {
        self.texts.into_texts()
    }
}

/// The visited-link store.
pub struct ListBucket {
    links_visited: SymbolSet,
    interner: Interner,
}

impl View for ListBucket {
    type V = StoreModel;

    closed spec fn view(&self) -> StoreModel {
        StoreModel { texts: interned(self.interner), visited: symbols(self.links_visited) }
    }
}

/// In a sequence without duplicates, an element is found at its position.
pub proof fn lemma_index_of_unique(texts: Seq<Seq<char>>, i: int)
    requires
        texts.no_duplicates(),
        0 <= i < texts.len(),
    ensures
        texts.contains(texts[i]),
        texts.index_of(texts[i]) == i,
{
    assert(texts.contains(texts[i]));
    let j = texts.index_of(texts[i]);
    assert(0 <= j < texts.len() && texts[j] == texts[i]);
}

/// A store that grew by interning alone still says of every link what it
/// said before: whether the link is visited.
pub proof fn lemma_grown_store_contains(before: StoreModel, after: StoreModel, link: Seq<char>)
    requires
        before.wf(),
        after.wf(),
        before.texts.is_prefix_of(after.texts),
        before.visited == after.visited,
    ensures
        after.contains(link) == before.contains(link),
{
    let key = canonical(link);
    if before.texts.contains(key) {
        let i = before.texts.index_of(key);
        assert(after.texts[i] == key);
        lemma_index_of_unique(before.texts, i);
        lemma_index_of_unique(after.texts, i);
    } else if after.texts.contains(key) {
        let i = after.texts.index_of(key);
        lemma_index_of_unique(after.texts, i);
        if after.visited.contains(i as u32) {
            assert(before.texts[i] == after.texts[i]);
            assert(before.texts.contains(key));
        }
    }
}

impl ListBucket {
    /// A store that has visited nothing.
    pub fn new() -> (r: Self)
        ensures
            r@ == StoreModel::empty(),
            r@.wf(),
    {
        ListBucket { links_visited: SymbolSet::new(), interner: Interner::new() }
    }

    /// Interns the link and marks it visited.
    pub fn insert(&mut self, link: &str)
        requires
            old(self)@.wf(),
            old(self)@.has_room_for(link@),
        ensures
            final(self)@ == old(self)@.insert(link@),
            final(self)@.wf(),
    {
        proof {
            lemma_canonical_idempotent(link@);
        }
        let key = ascii_lowercase(link);
        let symbol = self.interner.get_or_intern(key.as_str());
        proof {
            lemma_index_of_unique(interned(self.interner), symbol as int);
        }
        self.links_visited.insert(symbol);
    }

    /// Whether the link is marked visited.
    pub fn contains(&self, link: &str) -> (r: bool)
        requires
            self@.wf(),
        ensures
            r == self@.contains(link@),
    {
        let key = ascii_lowercase(link);
        match self.interner.get(key.as_str()) {
            Some(symbol) => {
                proof {
                    lemma_index_of_unique(interned(self.interner), symbol as int);
                }
                self.links_visited.contains(symbol)
            },
            None => false,
        }
    }

    /// The number of visited links.
    pub fn len(&self) -> (r: usize)
        requires
            self@.wf(),
        ensures
            r == self@.len(),
    {
        self.links_visited.len()
    }

    /// The number of link texts that have a symbol.
    pub fn interned_len(&self) -> (r: usize)
        ensures
            r == self@.texts.len(),
    {
        self.interner.len()
    }

    /// Looks up the symbol of the link, giving it one if it has none, and
    /// tells whether the link is already marked visited. The link is not
    /// marked.
    pub fn intern_and_check(&mut self, link: &str) -> (r: (Symbol, bool))
        requires
            old(self)@.wf(),
            old(self)@.has_room_for(link@),
        ensures
            final(self)@ == old(self)@.intern(link@),
            final(self)@.wf(),
            final(self)@.knows(link@),
            r.0.index == final(self)@.position(link@),
            r.1 == old(self)@.contains(link@),
    {
        proof {
            lemma_canonical_idempotent(link@);
        }
        let key = ascii_lowercase(link);
        let index = self.interner.get_or_intern(key.as_str());
        proof {
            lemma_index_of_unique(interned(self.interner), index as int);
            lemma_grown_store_contains(old(self)@, self@, link@);
        }
        let already_visited = self.links_visited.contains(index);
        (Symbol { index }, already_visited)
    }

    /// The symbol of the link, `None` where the link has none. The store is
    /// left as it is.
    pub fn symbol_of(&self, link: &str) -> (r: Option<Symbol>)
        requires
            self@.wf(),
        ensures
            r == self@.symbol_of(link@),
    {
        let key = ascii_lowercase(link);
        match self.interner.get(key.as_str()) {
            Some(index) => {
                proof {
                    lemma_index_of_unique(interned(self.interner), index as int);
                }
                Some(Symbol { index })
            },
            None => None,
        }
    }

    /// Marks the symbol visited and tells whether this call was the one that
    /// marked it. A symbol that this store never gave out is not marked.
    pub fn mark_visited(&mut self, symbol: Symbol) -> (r: bool)
        requires
            old(self)@.wf(),
        ensures
            final(self)@ == old(self)@.mark(symbol),
            final(self)@.wf(),
            r == ((symbol.index as int) < old(self)@.texts.len() && !old(self)@.visited.contains(
                symbol.index,
            )),
    {
        if (symbol.index as usize) < self.interner.len() {
            self.links_visited.insert(symbol.index)
        } else {
            false
        }
    }

    /// The canonical text of the link that the symbol stands for, `None` for a
    /// symbol that this store never gave out.
    pub fn resolve(&self, symbol: Symbol) -> (r: Option<String>)
        ensures
            match r {
                Some(text) => (symbol.index as int) < self@.texts.len() && text@
                    == self@.texts[symbol.index as int],
                None => symbol.index as int >= self@.texts.len(),
            },
    {
        match self.interner.resolve(symbol.index) {
            Some(text) => Some(String::from_str(text)),
            None => None,
        }
    }

    /// Takes every symbol out of the visited set and hands them over, each
    /// once. The interned texts stay.
    pub fn drain(&mut self) -> (r: Vec<Symbol>)
        requires
            old(self)@.wf(),
        ensures
            final(self)@.wf(),
            final(self)@.texts == old(self)@.texts,
            final(self)@.visited == Set::<u32>::empty(),
            r@.no_duplicates(),
            forall|s: Symbol| r@.contains(s) <==> old(self)@.visited.contains(s.index),
    {
        let indices = self.links_visited.drain();
        let mut drained: Vec<Symbol> = Vec::new();
        let mut i: usize = 0;
        while i < indices.len()
            invariant
                i <= indices.len(),
                drained@.len() == i,
                forall|j: int| 0 <= j < i ==> (#[trigger] drained@[j]).index == indices@[j],
            decreases indices.len() - i,
        {
            drained.push(Symbol { index: indices[i] });
            i += 1;
        }
        proof {
            assert forall|s: Symbol| drained@.contains(s) <==> old(self)@.visited.contains(
                s.index,
            ) by {
                if drained@.contains(s) {
                    let j = choose|j: int| 0 <= j < drained@.len() && drained@[j] == s;
                    assert(indices@.to_set().contains(indices@[j]));
                }
                if old(self)@.visited.contains(s.index) {
                    assert(indices@.to_set().contains(s.index));
                    let j = choose|j: int| 0 <= j < indices@.len() && indices@[j] == s.index;
                    assert(drained@[j] == s);
                }
            }
        }
        drained
    }

    /// Forgets which links are visited. The interned texts stay.
    pub fn clear(&mut self)
        requires
            old(self)@.wf(),
        ensures
            final(self)@.wf(),
            final(self)@.texts == old(self)@.texts,
            final(self)@.visited == Set::<u32>::empty(),
    {
        self.links_visited.clear()
    }

    /// The visited links as a set of their canonical texts.
    pub fn get_links(&self) -> (r: LinkSet)
        requires
            self@.wf(),
        ensures
            r.wf(),
            r@ == self@.links(),
    {
        let indices = self.links_visited.values();
        let mut links = LinkSet::new();
        let mut i: usize = 0;
        while i < indices.len()
            invariant
                i <= indices.len(),
                self@.wf(),
                links.wf(),
                indices@.to_set() == self@.visited,
                forall|t: Seq<char>|
                    links@.contains(t) <==> exists|j: int|
                        0 <= j < i && #[trigger] self@.texts[indices@[j] as int] == t,
            decreases indices.len() - i,
        {
            let index = indices[i];
            assert(indices@.to_set().contains(index));
            match self.interner.resolve(index) {
                Some(text) => {
                    let ghost before = links@;
                    links.insert(text);
                    proof {
                        assert(canonical(text@) == text@);
                        assert forall|t: Seq<char>|
                            links@.contains(t) <==> exists|j: int|
                                0 <= j < i + 1 && #[trigger] self@.texts[indices@[j] as int]
                                    == t by {
                            if before.contains(t) {
                                let j = choose|j: int|
                                    0 <= j < i && #[trigger] self@.texts[indices@[j] as int] == t;
                                assert(0 <= j < i + 1 && self@.texts[indices@[j] as int] == t);
                            }
                            if t == text@ {
                                assert(self@.texts[indices@[i as int] as int] == t);
                            }
                        }
                    }
                },
                None => {},
            }
            i += 1;
        }
        proof {
            assert forall|t: Seq<char>| links@.contains(t) <==> self@.links().contains(t) by {
                if links@.contains(t) {
                    let j = choose|j: int|
                        0 <= j < i && #[trigger] self@.texts[indices@[j] as int] == t;
                    assert(indices@.to_set().contains(indices@[j]));
                    lemma_index_of_unique(self@.texts, indices@[j] as int);
                }
                if self@.links().contains(t) {
                    let p = self@.texts.index_of(t);
                    assert(indices@.to_set().contains(p as u32));
                    let j = choose|j: int| 0 <= j < indices@.len() && indices@[j] == p as u32;
                    assert(self@.texts[indices@[j] as int] == t);
                }
            }
            assert(links@ =~= self@.links());
        }
        links
    }

    /// Interns every candidate link and adds those that are not visited to
    /// `links`.
    pub fn extend_links(&mut self, links: &mut LinkSet, msg: LinkSet)
        requires
            old(self)@.wf(),
            old(links).wf(),
            msg.wf(),
            old(self)@.texts.len() + msg@.len() <= u32::MAX,
        ensures
            final(self)@.wf(),
            final(links).wf(),
            final(self)@.visited == old(self)@.visited,
            old(self)@.texts.is_prefix_of(final(self)@.texts),
            forall|t: Seq<char>|
                final(self)@.texts.contains(t) <==> old(self)@.texts.contains(t) || msg@.contains(
                    t,
                ),
            forall|t: Seq<char>|
                final(links)@.contains(t) <==> old(links)@.contains(t) || (msg@.contains(t)
                    && !old(self)@.contains(t)),
    {
        let ghost candidates = msg@;
        let items = msg.into_vec();
        proof {
            lemma_distinct_texts_len(items@, candidates);
        }
        let mut i: usize = 0;
        while i < items.len()
            invariant
                i <= items.len(),
                self@.wf(),
                links.wf(),
                old(self)@.wf(),
                self@.visited == old(self)@.visited,
                old(self)@.texts.is_prefix_of(self@.texts),
                self@.texts.len() <= old(self)@.texts.len() + i,
                old(self)@.texts.len() + items@.len() <= u32::MAX,
                forall|t: Seq<char>|
                    candidates.contains(t) <==> exists|j: int|
                        0 <= j < items@.len() && #[trigger] items@[j]@ == t,
                forall|t: Seq<char>| #[trigger] candidates.contains(t) ==> is_canonical(t),
                forall|t: Seq<char>|
                    self@.texts.contains(t) <==> old(self)@.texts.contains(t) || exists|j: int|
                        0 <= j < i && #[trigger] items@[j]@ == t,
                forall|t: Seq<char>|
                    links@.contains(t) <==> old(links)@.contains(t) || (!old(self)@.contains(t)
                        && exists|j: int| 0 <= j < i && #[trigger] items@[j]@ == t),
            decreases items.len() - i,
        {
            let link = items[i].as_str();
            let ghost texts_before = self@.texts;
            let ghost links_before = links@;
            assert(candidates.contains(link@)) by {
                assert(items@[i as int]@ == link@);
            }
            assert(canonical(link@) == link@);
            let key = ascii_lowercase(link);
            let symbol = self.interner.get_or_intern(key.as_str());
            proof {
                lemma_index_of_unique(interned(self.interner), symbol as int);
                lemma_grown_store_contains(old(self)@, self@, link@);
            }
            let visited = self.links_visited.contains(symbol);
            if !visited {
                links.insert(link);
            }
            proof {
                assert forall|t: Seq<char>|
                    self@.texts.contains(t) <==> old(self)@.texts.contains(t) || exists|j: int|
                        0 <= j < i + 1 && #[trigger] items@[j]@ == t by {
                    if self@.texts.contains(t) {
                        if texts_before.contains(t) {
                            if !old(self)@.texts.contains(t) {
                                let j = choose|j: int| 0 <= j < i && #[trigger] items@[j]@ == t;
                                assert(0 <= j < i + 1 && items@[j]@ == t);
                            }
                        } else {
                            let p = choose|p: int| 0 <= p < self@.texts.len() && self@.texts[p] == t;
                            assert(t == link@);
                            assert(items@[i as int]@ == t);
                        }
                    }
                    if old(self)@.texts.contains(t) {
                        let p = old(self)@.texts.index_of(t);
                        assert(self@.texts[p] == t);
                    }
                    if exists|j: int| 0 <= j < i + 1 && #[trigger] items@[j]@ == t {
                        let j = choose|j: int| 0 <= j < i + 1 && #[trigger] items@[j]@ == t;
                        if j < i {
                            assert(texts_before.contains(t));
                            let p = texts_before.index_of(t);
                            assert(self@.texts[p] == t);
                        } else {
                            assert(self@.texts[symbol as int] == t);
                        }
                    }
                }
                assert forall|t: Seq<char>|
                    links@.contains(t) <==> old(links)@.contains(t) || (!old(self)@.contains(t)
                        && exists|j: int| 0 <= j < i + 1 && #[trigger] items@[j]@ == t) by {
                    if links_before.contains(t) && !old(links)@.contains(t) {
                        let j = choose|j: int| 0 <= j < i && #[trigger] items@[j]@ == t;
                        assert(0 <= j < i + 1 && items@[j]@ == t);
                    }
                    if t == link@ {
                        assert(items@[i as int]@ == t);
                    }
                    if exists|j: int| 0 <= j < i + 1 && #[trigger] items@[j]@ == t {
                        let j = choose|j: int| 0 <= j < i + 1 && #[trigger] items@[j]@ == t;
                        if j < i {
                            assert(0 <= j < i && items@[j]@ == t);
                        }
                    }
                }
            }
            i += 1;
        }
    }

    /// Adds the link to `links` unless it is visited. The store is left as it
    /// is.
    pub fn extend_with_new_links(&mut self, links: &mut LinkSet, s: &str)
        requires
            old(self)@.wf(),
            old(links).wf(),
        ensures
            final(self)@ == old(self)@,
            final(links).wf(),
            final(links)@ == if old(self)@.contains(s@) {
                old(links)@
            } else {
                old(links)@.insert(canonical(s@))
            },
    {
        if !self.contains(s) {
            links.insert(s);
        }
    }
}

impl Default for ListBucket {
    /// A store that has visited nothing.
    fn default() -> (r: Self)
        ensures
            r@ == StoreModel::empty(),
            r@.wf(),
    {
        ListBucket::new()
    }
}

/// A list of pairwise different texts that lists exactly the members of a
/// set is as long as the set is large.
pub proof fn lemma_distinct_texts_len(items: Seq<String>, set: Set<Seq<char>>)
    requires
        forall|i: int, j: int| 0 <= i < j < items.len() ==> items[i]@ != items[j]@,
        forall|t: Seq<char>|
            set.contains(t) <==> exists|i: int| 0 <= i < items.len() && #[trigger] items[i]@ == t,
    ensures
        set.finite(),
        set.len() == items.len(),
    decreases items.len(),
{
    if items.len() == 0 {
        assert(set =~= Set::<Seq<char>>::empty());
    } else {
        let last = items.last();
        let front = items.drop_last();
        let rest = set.remove(last@);
        assert forall|t: Seq<char>|
            rest.contains(t) <==> exists|i: int| 0 <= i < front.len() && #[trigger] front[i]@
                == t by {
            if rest.contains(t) {
                let i = choose|i: int| 0 <= i < items.len() && #[trigger] items[i]@ == t;
                assert(0 <= i < front.len() && front[i]@ == t);
            }
            if exists|i: int| 0 <= i < front.len() && #[trigger] front[i]@ == t {
                let i = choose|i: int| 0 <= i < front.len() && #[trigger] front[i]@ == t;
                assert(items[i]@ == t);
            }
        }
        lemma_distinct_texts_len(front, rest);
        assert(items[items.len() - 1]@ == last@);
        assert(set.contains(last@));
        assert(set =~= rest.insert(last@));
    }
}

/// Inserting a link keeps the store well formed and leaves the link visited.
pub proof fn lemma_insert_wf(m: StoreModel, link: Seq<char>)
    requires
        m.wf(),
        m.has_room_for(link),
    ensures
        m.insert(link).wf(),
        m.insert(link).knows(link),
        m.insert(link).contains(link),
        m.insert(link).len() == m.len() + if m.contains(link) {
            0nat
        } else {
            1nat
        },
{
    lemma_canonical_idempotent(link);
    let key = canonical(link);
    let grown = m.intern(link);
    if m.knows(link) {
        let p = m.texts.index_of(key);
        lemma_index_of_unique(m.texts, p);
    } else {
        let p = m.texts.len() as int;
        assert(grown.texts[p] == key);
        lemma_index_of_unique(grown.texts, p);
        assert(!m.visited.contains(p as u32));
    }
    let p = grown.texts.index_of(key);
    lemma_index_of_unique(grown.texts, p);
}

/// A link that is visited is not changed by inserting it again.
pub proof fn lemma_insert_visited(m: StoreModel, link: Seq<char>)
    requires
        m.wf(),
        m.contains(link),
    ensures
        m.insert(link) == m,
{
    let p = m.texts.index_of(canonical(link));
    assert(m.visited.insert(p as u32) =~= m.visited);
}

/// Links are told apart by their canonical text alone: two links that differ
/// only in the case of ASCII letters get the same symbol, and the store
/// cannot tell an insertion of one from an insertion of the other.
pub proof fn law_case_insensitive_identity(m: StoreModel, a: Seq<char>, b: Seq<char>)
    requires
        canonical(a) == canonical(b),
    ensures
        m.intern(a) == m.intern(b),
        m.intern(a).position(a) == m.intern(b).position(b),
        m.contains(a) == m.contains(b),
        m.insert(a) == m.insert(b),
{
}

/// However often a link is inserted, it is accepted as new at most once, and
/// only if it was not visited before; the store ends as after one insertion,
/// so its length grows by one for a new link and not at all for a visited
/// one.
pub proof fn law_dedup_idempotence(m: StoreModel, link: Seq<char>, n: nat)
    requires
        m.wf(),
        m.has_room_for(link),
        n >= 1,
    ensures
        m.insert_times(link, n) == m.insert(link),
        m.insert_times(link, n).wf(),
        m.insert_times(link, n).len() == m.len() + if m.contains(link) {
            0nat
        } else {
            1nat
        },
        m.first_visits(link, n) == if m.contains(link) {
            0nat
        } else {
            1nat
        },
    decreases n,
{
    lemma_insert_wf(m, link);
    let once = m.insert(link);
    if n == 1 {
        assert(once.insert_times(link, 0) == once);
        assert(once.first_visits(link, 0) == 0);
    } else {
        law_dedup_idempotence(once, link, (n - 1) as nat);
        lemma_insert_visited(once, link);
    }
}

/// The length of a store is the number of different links it has visited.
pub proof fn law_len_counts_links(m: StoreModel)
    requires
        m.wf(),
    ensures
        m.links().finite(),
        m.links().len() == m.len(),
{
    let text_at = |s: u32| m.texts[s as int];
    assert forall|t: Seq<char>| m.visited.map(text_at).contains(t) <==> m.links().contains(
        t,
    ) by {
        if m.visited.map(text_at).contains(t) {
            let s = choose|s: u32| m.visited.contains(s) && text_at(s) == t;
            lemma_index_of_unique(m.texts, s as int);
        }
        if m.links().contains(t) {
            let p = m.texts.index_of(t);
            assert(m.visited.contains(p as u32) && text_at(p as u32) == t);
        }
    }
    assert(m.visited.map(text_at) =~= m.links());
    assert(vstd::relations::injective_on(text_at, m.visited));
    vstd::set_lib::lemma_map_size(m.visited, m.links(), text_at);
}

} // verus!
