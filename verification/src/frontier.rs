//! The crawl frontier: the links that wait to be visited, and the budget
//! that decides which links may join them.

use crate::utils::interner::{lemma_insert_wf, ListBucket, StoreModel, Symbol};
use std::collections::VecDeque;
use vstd::prelude::*;

verus! {

/// A link that waits to be visited.
#[derive(Debug, Clone, PartialEq, Eq)]
pub struct FrontierEntry {
    /// The link.
    pub url: String,
    /// How many links lead from the start of the crawl to this one.
    pub depth: usize,
    /// The link on whose page this one was found. It is kept for
    /// diagnostics only.
    pub parent: Option<Symbol>,
}

/// What the policies of a crawl say of a link. The frontier does not read
/// links; it takes these answers as they come.
#[derive(Debug, Clone, Copy, PartialEq, Eq, Structural)]
pub struct LinkVerdict {
    /// The text is a link at all.
    pub well_formed: bool,
    /// The link lies within the domains of the crawl.
    pub in_scope: bool,
    /// The link matches the blacklist.
    pub blacklisted: bool,
    /// The rules for robots allow the link.
    pub robots_allowed: bool,
}

/// Why a link was not taken into the frontier.
#[derive(Debug, Clone, Copy, PartialEq, Eq, Structural)]
pub enum Rejection {
    /// The crawl has been cancelled.
    Cancelled,
    /// The text is no link.
    Malformed,
    /// The link lies outside the domains of the crawl.
    OutOfScope,
    /// The link matches the blacklist.
    Blacklisted,
    /// The rules for robots forbid the link.
    Disallowed,
    /// The link lies deeper than the crawl goes.
    TooDeep,
    /// The link has been taken before.
    AlreadyVisited,
    /// As many links have been taken as the crawl may visit pages.
    BudgetSpent,
    /// The visited store has given out all its symbols.
    StoreFull,
}

/// What a frontier holds.
pub struct FrontierModel {
    /// The visited store: every link that was ever taken is visited.
    pub store: StoreModel,
    /// The links that wait, the one to go next first.
    pub pending: Seq<FrontierEntry>,
    /// The number of links that were handed out and are not yet done with.
    pub in_flight: nat,
    /// The most pages to visit; `None` sets no limit.
    pub page_limit: Option<usize>,
    /// The greatest depth of a link; `None` sets no limit.
    pub max_depth: Option<usize>,
    /// Whether the crawl has been cancelled.
    pub cancelled: bool,
}

impl FrontierModel {
    /// The frontier of a crawl that has not begun.
    pub open spec fn new(page_limit: Option<usize>, max_depth: Option<usize>) -> FrontierModel {
        FrontierModel {
            store: StoreModel::empty(),
            pending: Seq::empty(),
            in_flight: 0,
            page_limit,
            max_depth,
            cancelled: false,
        }
    }

    /// The number of links that were taken.
    pub open spec fn accepted(self) -> nat {
        self.store.len()
    }

    /// The store is well formed; no more links wait or are under way than
    /// were taken; no more were taken than the page limit allows; and no
    /// waiting link lies deeper than the crawl goes.
    pub open spec fn wf(self) -> bool {
        &&& self.store.wf()
        &&& self.pending.len() + self.in_flight <= self.accepted()
        &&& self.page_limit matches Some(limit) ==> self.accepted() <= limit
        &&& self.max_depth matches Some(depth) ==> forall|i: int|
            0 <= i < self.pending.len() ==> (#[trigger] self.pending[i]).depth <= depth
    }

    /// Why the link is not taken, `None` where it is. The reasons are asked
    /// in the order in which they stand here, and the first that holds is
    /// given.
    pub open spec fn rejection(self, entry: FrontierEntry, verdict: LinkVerdict) -> Option<
        Rejection,
    > {
        if self.cancelled {
            Some(Rejection::Cancelled)
        } else if !verdict.well_formed {
            Some(Rejection::Malformed)
        } else if !verdict.in_scope {
            Some(Rejection::OutOfScope)
        } else if verdict.blacklisted {
            Some(Rejection::Blacklisted)
        } else if !verdict.robots_allowed {
            Some(Rejection::Disallowed)
        } else if self.max_depth is Some && entry.depth > self.max_depth->0 {
            Some(Rejection::TooDeep)
        } else if self.store.contains(entry.url@) {
            Some(Rejection::AlreadyVisited)
        } else if self.page_limit is Some && self.accepted() >= self.page_limit->0 {
            Some(Rejection::BudgetSpent)
        } else if self.store.texts.len() >= u32::MAX {
            Some(Rejection::StoreFull)
        } else {
            None
        }
    }

    /// The frontier after a link has asked to be taken: a link that is taken
    /// is marked visited and waits behind the others; a link that is not
    /// leaves the frontier as it was.
    pub open spec fn enqueue(self, entry: FrontierEntry, verdict: LinkVerdict) -> FrontierModel {
        if self.rejection(entry, verdict) is None {
            FrontierModel {
                store: self.store.insert(entry.url@),
                pending: self.pending.push(entry),
                ..self
            }
        } else {
            self
        }
    }

    /// Whether a link is handed out next: one waits, and the crawl has not
    /// been cancelled.
    pub open spec fn dispatches(self) -> bool {
        !self.cancelled && self.pending.len() > 0
    }

    /// The frontier after the next link has been asked for.
    pub open spec fn dispatch(self) -> FrontierModel {
        if self.dispatches() {
            FrontierModel {
                pending: self.pending.subrange(1, self.pending.len() as int),
                in_flight: self.in_flight + 1,
                ..self
            }
        } else {
            self
        }
    }

    /// The frontier after a link that was handed out is done with.
    pub open spec fn complete(self) -> FrontierModel {
        if self.in_flight > 0 {
            FrontierModel { in_flight: (self.in_flight - 1) as nat, ..self }
        } else {
            self
        }
    }

    /// Whether the crawl is at its end: nothing is under way, and nothing
    /// will be handed out.
    pub open spec fn exhausted(self) -> bool {
        self.in_flight == 0 && !self.dispatches()
    }

    /// The frontier after one link after the other has asked to be taken.
    pub open spec fn enqueue_all(self, attempts: Seq<(FrontierEntry, LinkVerdict)>) -> FrontierModel
        decreases attempts.len(),
    {
        if attempts.len() == 0 {
            self
        } else {
            self.enqueue(attempts[0].0, attempts[0].1).enqueue_all(attempts.skip(1))
        }
    }

    /// How much a crawl with a page limit has before it, at most: two for
    /// every link that may still be taken, the taking and the handing out,
    /// and one for every link that waits.
    pub open spec fn work_left(self) -> nat
        recommends
            self.page_limit is Some,
    {
        (2 * (self.page_limit->0 - self.accepted()) + self.pending.len()) as nat
    }

    /// How many of the links that ask one after the other are taken.
    pub open spec fn taken_among(self, attempts: Seq<(FrontierEntry, LinkVerdict)>) -> nat
        decreases attempts.len(),
    {
        if attempts.len() == 0 {
            0
        } else {
            (if self.rejection(attempts[0].0, attempts[0].1) is None {
                1nat
            } else {
                0nat
            }) + self.enqueue(attempts[0].0, attempts[0].1).taken_among(attempts.skip(1))
        }
    }
}

/// The depth of a link that was found on a page of the given depth: one
/// more, as far as numbers go.
pub open spec fn child_depth(depth: usize) -> usize {
    if depth < usize::MAX {
        (depth + 1) as usize
    } else {
        depth
    }
}

/// The links that were found on a page, as they ask to be taken: each one
/// level deeper than the page, with the page as its parent.
pub open spec fn children(
    depth: usize,
    parent: Option<Symbol>,
    found: Seq<(String, LinkVerdict)>,
) -> Seq<(FrontierEntry, LinkVerdict)> {
    found.map_values(
        |link: (String, LinkVerdict)|
            (FrontierEntry { url: link.0, depth: child_depth(depth), parent }, link.1),
    )
}

/// Asking one after the other is asking all but the last and then the last.
pub proof fn lemma_enqueue_all_push(
    m: FrontierModel,
    attempts: Seq<(FrontierEntry, LinkVerdict)>,
    last: (FrontierEntry, LinkVerdict),
)
    ensures
        m.enqueue_all(attempts.push(last)) == m.enqueue_all(attempts).enqueue(last.0, last.1),
        m.taken_among(attempts.push(last)) == m.taken_among(attempts) + if m.enqueue_all(
            attempts,
        ).rejection(last.0, last.1) is None {
            1nat
        } else {
            0nat
        },
    decreases attempts.len(),
{
    let all = attempts.push(last);
    if attempts.len() == 0 {
        assert(all.skip(1) =~= Seq::<(FrontierEntry, LinkVerdict)>::empty());
        assert(all[0] == last);
        let after = m.enqueue(last.0, last.1);
        assert(after.enqueue_all(all.skip(1)) == after);
        assert(after.taken_among(all.skip(1)) == 0);
    } else {
        assert(all.skip(1) =~= attempts.skip(1).push(last));
        assert(all[0] == attempts[0]);
        lemma_enqueue_all_push(m.enqueue(attempts[0].0, attempts[0].1), attempts.skip(1), last);
    }
}

/// The crawl frontier.
pub struct Frontier {
    visited: ListBucket,
    pending: VecDeque<FrontierEntry>,
    in_flight: usize,
    page_limit: Option<usize>,
    max_depth: Option<usize>,
    cancelled: bool,
}

impl View for Frontier {
    type V = FrontierModel;

    closed spec fn view(&self) -> FrontierModel {
        FrontierModel {
            store: self.visited@,
            pending: self.pending@,
            in_flight: self.in_flight as nat,
            page_limit: self.page_limit,
            max_depth: self.max_depth,
            cancelled: self.cancelled,
        }
    }
}

impl Frontier {
    /// The frontier of a crawl that has not begun, with its budget.
    pub fn new(page_limit: Option<usize>, max_depth: Option<usize>) -> (r: Self)
        ensures
            r@ == FrontierModel::new(page_limit, max_depth),
            r@.wf(),
    {
        Frontier {
            visited: ListBucket::new(),
            pending: VecDeque::new(),
            in_flight: 0,
            page_limit,
            max_depth,
            cancelled: false,
        }
    }

    /// Asks for a link to be taken into the frontier, and says why where it
    /// is not. A link that is taken is marked visited at once, so that it is
    /// never taken twice.
    pub fn enqueue(&mut self, entry: FrontierEntry, verdict: LinkVerdict) -> (r: Result<
        (),
        Rejection,
    >)
        requires
            old(self)@.wf(),
        ensures
            final(self)@.wf(),
            final(self)@ == old(self)@.enqueue(entry, verdict),
            r == match old(self)@.rejection(entry, verdict) {
                Some(reason) => Err::<(), Rejection>(reason),
                None => Ok::<(), Rejection>(()),
            },
    {
        if self.cancelled {
            return Err(Rejection::Cancelled);
        }
        if !verdict.well_formed {
            return Err(Rejection::Malformed);
        }
        if !verdict.in_scope {
            return Err(Rejection::OutOfScope);
        }
        if verdict.blacklisted {
            return Err(Rejection::Blacklisted);
        }
        if !verdict.robots_allowed {
            return Err(Rejection::Disallowed);
        }
        match self.max_depth {
            Some(depth) => if entry.depth > depth {
                return Err(Rejection::TooDeep);
            },
            None => {},
        }
        if self.visited.contains(entry.url.as_str()) {
            return Err(Rejection::AlreadyVisited);
        }
        match self.page_limit {
            Some(limit) => if self.visited.len() >= limit {
                return Err(Rejection::BudgetSpent);
            },
            None => {},
        }
        if self.visited.interned_len() >= u32::MAX as usize {
            return Err(Rejection::StoreFull);
        }
        proof {
            lemma_insert_wf(self.visited@, entry.url@);
        }
        self.visited.insert(entry.url.as_str());
        self.pending.push_back(entry);
        Ok(())
    }

    /// Hands out the link to visit next, `None` where none waits or the
    /// crawl has been cancelled. A link that is handed out counts as under
    /// way until `complete` is called for it.
    pub fn next(&mut self) -> (r: Option<FrontierEntry>)
        requires
            old(self)@.wf(),
        ensures
            final(self)@.wf(),
            final(self)@ == old(self)@.dispatch(),
            match r {
                Some(entry) => old(self)@.dispatches() && entry == old(self)@.pending[0],
                None => !old(self)@.dispatches(),
            },
    {
        if self.cancelled {
            return None;
        }
        let taken = self.visited.len();
        match self.pending.pop_front() {
            Some(entry) => {
                assert(self.in_flight < taken);
                self.in_flight = self.in_flight + 1;
                Some(entry)
            },
            None => {
                assert(self.pending@ =~= old(self).pending@);
                None
            },
        }
    }

    /// Takes note that a link that was handed out is done with.
    pub fn complete(&mut self)
        requires
            old(self)@.wf(),
        ensures
            final(self)@.wf(),
            final(self)@ == old(self)@.complete(),
    {
        if self.in_flight > 0 {
            self.in_flight = self.in_flight - 1;
        }
    }

    /// Takes note that a page is done with, and asks for every link that was
    /// found on it to be taken, in the order in which they were found. The
    /// result is the number of links that were taken.
    pub fn finish_page(&mut self, page: &FrontierEntry, found: &Vec<(String, LinkVerdict)>) -> (r:
        usize)
        requires
            old(self)@.wf(),
        ensures
            final(self)@.wf(),
            final(self)@ == old(self)@.enqueue_all(
                children(page.depth, old(self)@.store.symbol_of(page.url@), found@),
            ).complete(),
            r == old(self)@.taken_among(
                children(page.depth, old(self)@.store.symbol_of(page.url@), found@),
            ),
    {
        let parent = self.visited.symbol_of(page.url.as_str());
        let depth = if page.depth < usize::MAX {
            page.depth + 1
        } else {
            page.depth
        };
        let ghost asking = children(page.depth, parent, found@);
        let mut taken: usize = 0;
        let mut i: usize = 0;
        assert(asking.take(0) =~= Seq::<(FrontierEntry, LinkVerdict)>::empty());
        while i < found.len()
            invariant
                i <= found@.len(),
                old(self)@.wf(),
                self@.wf(),
                asking == children(page.depth, parent, found@),
                depth == child_depth(page.depth),
                self@ == old(self)@.enqueue_all(asking.take(i as int)),
                taken == old(self)@.taken_among(asking.take(i as int)),
                taken <= i,
            decreases found@.len() - i,
        {
            let entry = FrontierEntry { url: found[i].0.clone(), depth, parent };
            let verdict = found[i].1;
            proof {
                assert(asking[i as int] == (entry, verdict));
                assert(asking.take(i + 1) =~= asking.take(i as int).push((entry, verdict)));
                lemma_enqueue_all_push(old(self)@, asking.take(i as int), (entry, verdict));
            }
            match self.enqueue(entry, verdict) {
                Ok(()) => {
                    taken = taken + 1;
                },
                Err(_) => {},
            }
            i += 1;
        }
        assert(asking.take(found@.len() as int) =~= asking);
        self.complete();
        taken
    }

    /// Cancels the crawl: from now on no link is taken and none is handed
    /// out. Links that are under way may still be completed.
    pub fn cancel(&mut self)
        ensures
            final(self)@ == (FrontierModel { cancelled: true, ..old(self)@ }),
            old(self)@.wf() ==> final(self)@.wf(),
    {
        self.cancelled = true;
    }

    /// Whether the crawl is at its end.
    pub fn is_exhausted(&self) -> (r: bool)
        ensures
            r == self@.exhausted(),
    {
        self.in_flight == 0 && (self.cancelled || self.pending.len() == 0)
    }

    /// The number of links that wait.
    pub fn pending_len(&self) -> (r: usize)
        ensures
            r == self@.pending.len(),
    {
        self.pending.len()
    }

    /// The number of links that are under way.
    pub fn in_flight(&self) -> (r: usize)
        ensures
            r == self@.in_flight,
    {
        self.in_flight
    }

    /// The visited store of the crawl.
    pub fn visited(&self) -> (r: &ListBucket)
        ensures
            r@ == self@.store,
    {
        &self.visited
    }
}

/// The page budget holds: whatever asks to be taken, no more links are taken
/// than the page limit allows, and once the limit is reached every link is
/// turned away and the frontier stays as it is.
pub proof fn law_page_budget(m: FrontierModel, entry: FrontierEntry, verdict: LinkVerdict)
    requires
        m.wf(),
    ensures
        m.enqueue(entry, verdict).wf(),
        m.enqueue(entry, verdict).accepted() == m.accepted() + if m.rejection(entry, verdict)
            is None {
            1nat
        } else {
            0nat
        },
        m.page_limit matches Some(limit) ==> m.enqueue(entry, verdict).accepted() <= limit,
        (m.page_limit matches Some(limit) && m.accepted() >= limit) ==> (m.rejection(
            entry,
            verdict,
        ) is Some && m.enqueue(entry, verdict) == m),
{
    if m.rejection(entry, verdict) is None {
        lemma_insert_wf(m.store, entry.url@);
        let after = m.enqueue(entry, verdict);
        assert forall|i: int| 0 <= i < after.pending.len() implies (m.max_depth matches Some(
            depth,
        ) ==> (#[trigger] after.pending[i]).depth <= depth) by {
            if i < m.pending.len() {
                assert(after.pending[i] == m.pending[i]);
            }
        }
    }
}

/// The page budget holds over a whole crawl, in whatever order links arrive:
/// the visited store grows by exactly the links that are taken, it never
/// grows beyond the page limit, and after the limit is reached nothing that
/// arrives changes the frontier.
pub proof fn law_page_budget_in_any_order(
    m: FrontierModel,
    attempts: Seq<(FrontierEntry, LinkVerdict)>,
)
    requires
        m.wf(),
    ensures
        m.enqueue_all(attempts).wf(),
        m.enqueue_all(attempts).accepted() == m.accepted() + m.taken_among(attempts),
        m.enqueue_all(attempts).page_limit == m.page_limit,
        m.page_limit matches Some(limit) ==> m.enqueue_all(attempts).accepted() <= limit,
        (m.page_limit matches Some(limit) && m.accepted() >= limit) ==> (m.enqueue_all(attempts)
            == m && m.taken_among(attempts) == 0),
    decreases attempts.len(),
{
    if attempts.len() > 0 {
        law_page_budget(m, attempts[0].0, attempts[0].1);
        law_page_budget_in_any_order(m.enqueue(attempts[0].0, attempts[0].1), attempts.skip(1));
    }
}

/// A cancelled crawl takes no link and hands none out.
pub proof fn law_cancelled_frontier_is_still(
    m: FrontierModel,
    entry: FrontierEntry,
    verdict: LinkVerdict,
)
    requires
        m.cancelled,
    ensures
        m.enqueue(entry, verdict) == m,
        m.rejection(entry, verdict) == Some(Rejection::Cancelled),
        m.dispatch() == m,
        m.exhausted() <==> m.in_flight == 0,
{
}

/// Handing out a link and completing it keep the frontier well formed, and
/// every link that is handed out is one less to wait: a crawl with a page
/// limit hands out no more links than the limit.
pub proof fn law_dispatch_is_bounded(m: FrontierModel)
    requires
        m.wf(),
    ensures
        m.dispatch().wf(),
        m.complete().wf(),
        m.dispatches() ==> m.dispatch().pending.len() + 1 == m.pending.len(),
        m.dispatch().accepted() == m.accepted(),
        m.complete().accepted() == m.accepted(),
{
}

/// A crawl with a page limit comes to its end: every link that is taken and
/// every link that is handed out uses up one of the steps that the crawl has
/// before it, nothing gives a step back, and a crawl that begins with a
/// limit of `n` pages has `2 * n` steps before it.
pub proof fn law_limited_crawl_ends(m: FrontierModel, entry: FrontierEntry, verdict: LinkVerdict)
    requires
        m.wf(),
        m.page_limit is Some,
    ensures
        m.rejection(entry, verdict) is None ==> m.enqueue(entry, verdict).work_left() + 1
            == m.work_left(),
        m.rejection(entry, verdict) is Some ==> m.enqueue(entry, verdict).work_left()
            == m.work_left(),
        m.dispatches() ==> m.dispatch().work_left() + 1 == m.work_left(),
        !m.dispatches() ==> m.dispatch().work_left() == m.work_left(),
        m.complete().work_left() == m.work_left(),
        FrontierModel::new(m.page_limit, m.max_depth).work_left() == 2 * m.page_limit->0,
{
    law_page_budget(m, entry, verdict);
    assert(StoreModel::empty().visited.len() == 0);
}

} // verus!
