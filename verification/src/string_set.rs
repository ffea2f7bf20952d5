//! An insertion-ordered set of strings.

use vstd::prelude::*;

verus! {

/// The character sequences of a sequence of strings.
pub open spec fn views_of(v: Seq<String>) -> Seq<Seq<char>> {
    v.map_values(|s: String| s@)
}

/// The window of `s` that starts at `from_index` and holds at most `limit`
/// items. A start at or past the end gives the empty window.
pub open spec fn window<A>(s: Seq<A>, from_index: nat, limit: nat) -> Seq<A> {
    if from_index >= s.len() {
        Seq::empty()
    } else if from_index + limit >= s.len() {
        s.subrange(from_index as int, s.len() as int)
    } else {
        s.subrange(from_index as int, (from_index + limit) as int)
    }
}

/// How many items a page holds when the reader names no limit.
pub const DEFAULT_LIMIT: u64 = 50;

/// The page of `items` that a reader asks for with `from_index` and `limit`:
/// from the start where no index is given, fifty items where no limit is.
pub open spec fn page_of(items: Seq<Seq<char>>, from_index: Option<u128>, limit: Option<u64>) -> Seq<
    Seq<char>,
> {
    window(
        items,
        (match from_index {
            Some(i) => i,
            None => 0u128,
        }) as nat,
        (match limit {
            Some(n) => n,
            None => DEFAULT_LIMIT,
        }) as nat,
    )
}

/// `s` with the item at `i` replaced by the last item, and the last slot dropped.
pub open spec fn swap_removed<A>(s: Seq<A>, i: int) -> Seq<A> {
    s.update(i, s.last()).drop_last()
}

/// `s` with `x` added at the end, unless it is there already.
pub open spec fn inserted_into(s: Seq<Seq<char>>, x: Seq<char>) -> Seq<Seq<char>> {
    if s.contains(x) {
        s
    } else {
        s.push(x)
    }
}

/// `s` without `x`: the last item takes the place of `x`.
pub open spec fn removed_from(s: Seq<Seq<char>>, x: Seq<char>) -> Seq<Seq<char>> {
    if s.contains(x) {
        swap_removed(s, s.index_of(x))
    } else {
        s
    }
}

/// A set of strings that remembers the order of insertion. Removing an item
/// moves the last item into its place.
#[derive(Debug, Clone)]
pub struct StringSet {
    items: Vec<String>,
}

impl View for StringSet {
    type V = Seq<Seq<char>>;

    closed spec fn view(&self) -> Seq<Seq<char>> {
        views_of(self.items@)
    }
}

impl StringSet {
    /// No string occurs twice.
    pub open spec fn wf(&self) -> bool {
        self@.no_duplicates()
    }

    pub fn new() -> (s: Self)
        ensures
            s@ == Seq::<Seq<char>>::empty(),
            s.wf(),
    {
        let s = StringSet { items: Vec::new() };
        assert(s@ =~= Seq::<Seq<char>>::empty());
        s
    }

    pub fn len(&self) -> (n: usize)
        ensures
            n == self@.len(),
    {
        self.items.len()
    }

    pub fn is_empty(&self) -> (b: bool)
        ensures
            b == (self@.len() == 0),
    {
        self.items.len() == 0
    }

    /// The position of `item`, if it is in the set.
    pub fn position(&self, item: &String) -> (r: Option<usize>)
        ensures
            match r {
                Some(i) => i < self@.len() && self@[i as int] == item@,
                None => !self@.contains(item@),
            },
    {
        let mut i: usize = 0;
        while i < self.items.len()
            invariant
                i <= self.items.len(),
                forall|j: int| 0 <= j < i ==> self@[j] != item@,
            decreases self.items.len() - i,
        {
            if self.items[i] == *item {
                return Some(i);
            }
            i += 1;
        }
        None
    }

    pub fn contains(&self, item: &String) -> (b: bool)
        ensures
            b == self@.contains(item@),
    {
        self.position(item).is_some()
    }

    /// Adds `item` at the end unless it is already there; says whether it was added.
    pub fn insert(&mut self, item: String) -> (added: bool)
        requires
            old(self).wf(),
        ensures
            final(self).wf(),
            added == !old(self)@.contains(item@),
            final(self)@ == inserted_into(old(self)@, item@),
            final(self)@.contains(item@),
            !added ==> *final(self) == *old(self),
    {
        if self.contains(&item) {
            return false;
        }
        self.items.push(item);
        assert(self@ =~= old(self)@.push(item@));
        assert(self@[self@.len() - 1] == item@);
        true
    }

    /// Removes `item`, moving the last item into its place; says whether it was there.
    pub fn remove(&mut self, item: &String) -> (removed: bool)
        requires
            old(self).wf(),
        ensures
            final(self).wf(),
            removed == old(self)@.contains(item@),
            !final(self)@.contains(item@),
            final(self)@ == removed_from(old(self)@, item@),
            !removed ==> *final(self) == *old(self),
    {
        match self.position(item) {
            None => false,
            Some(i) => {
                let _ = self.items.swap_remove(i);
                assert(old(self)@.index_of(item@) == i as int);
                assert(self@ =~= swap_removed(old(self)@, i as int));
                true
            },
        }
    }

    /// The items from `from_index` on, at most `limit` of them, in order.
    pub fn page(&self, from_index: u128, limit: u64) -> (out: Vec<String>)
        ensures
            views_of(out@) == window(self@, from_index as nat, limit as nat),
    {
        let mut out: Vec<String> = Vec::new();
        let n: usize = self.items.len();
        if from_index >= n as u128 {
            assert(views_of(out@) =~= window(self@, from_index as nat, limit as nat));
            return out;
        }
        let start: usize = from_index as usize;
        let end: usize = if limit as u128 >= (n - start) as u128 { n } else { start + limit as usize };
        let mut i: usize = start;
        while i < end
            invariant
                start <= i <= end <= n,
                n == self.items.len(),
                views_of(out@) == self@.subrange(start as int, i as int),
            decreases end - i,
        {
            let ghost before = out@;
            assert(views_of(before).len() == before.len());
            assert(self@.len() == n);
            assert(self@.subrange(start as int, i as int).len() == i - start);
            let item = self.items[i].clone();
            assert(item@ == self@[i as int]);
            out.push(item);
            assert(views_of(out@).len() == out@.len());
            assert forall|k: int| 0 <= k < out@.len() implies views_of(out@)[k] == self@.subrange(
                start as int,
                i + 1,
            )[k] by {
                if k < before.len() {
                    assert(views_of(before)[k] == self@.subrange(start as int, i as int)[k]);
                }
            }
            assert(views_of(out@) =~= self@.subrange(start as int, i + 1));
            i += 1;
        }
        out
    }

    /// The page that a reader asks for: see `page_of`.
    pub fn view_page(&self, from_index: Option<u128>, limit: Option<u64>) -> (out: Vec<String>)
        ensures
            views_of(out@) == page_of(self@, from_index, limit),
    {
        let start: u128 = match from_index {
            Some(i) => i,
            None => 0,
        };
        let count: u64 = match limit {
            Some(n) => n,
            None => DEFAULT_LIMIT,
        };
        self.page(start, count)
    }

    /// All items, in order.
    pub fn to_vec(&self) -> (out: Vec<String>)
        ensures
            views_of(out@) == self@,
    {
        let out = self.page(0, u64::MAX);
        let n: usize = self.items.len();
        assert(self@.len() == n);
        assert(n <= u64::MAX);
        assert(self@.subrange(0, self@.len() as int) =~= self@);
        assert(window(self@, 0, u64::MAX as nat) =~= self@);
        out
    }
}

/// What a page holds: as many items as the limit allows and the items
/// provide, each the item of the set at the same distance from the start.
pub proof fn law_page_is_a_window<A>(s: Seq<A>, from_index: nat, limit: nat)
    ensures
        window(s, from_index, limit).len() == (if from_index >= s.len() {
            0
        } else if from_index + limit >= s.len() {
            s.len() - from_index
        } else {
            limit as int
        }),
        forall|i: int|
            0 <= i < window(s, from_index, limit).len() ==> #[trigger] window(
                s,
                from_index,
                limit,
            )[i] == s[from_index + i],
{
}

/// Reading a page twice from the same items gives the same page: a page
/// depends on nothing but the items, the index and the limit.
pub proof fn law_pages_repeat(
    items: Seq<Seq<char>>,
    from_index: Option<u128>,
    limit: Option<u64>,
    first: Seq<Seq<char>>,
    second: Seq<Seq<char>>,
)
    requires
        first == page_of(items, from_index, limit),
        second == page_of(items, from_index, limit),
    ensures
        first == second,
{
}

/// Removing an item from a sequence without duplicates leaves a sequence
/// without duplicates that holds every other item and no longer that one.
pub proof fn lemma_removed_from(s: Seq<Seq<char>>, x: Seq<char>)
    requires
        s.no_duplicates(),
    ensures
        removed_from(s, x).no_duplicates(),
        !removed_from(s, x).contains(x),
        forall|y: Seq<char>| y != x ==> removed_from(s, x).contains(y) == s.contains(y),
{
    if s.contains(x) {
        let i = s.index_of(x);
        let n = s.len() as int;
        let r = removed_from(s, x);
        assert forall|a: int| 0 <= a < r.len() implies #[trigger] r[a] == (if a == i {
            s[n - 1]
        } else {
            s[a]
        }) by {}
        assert forall|y: Seq<char>| y != x implies r.contains(y) == s.contains(y) by {
            if s.contains(y) {
                let b = s.index_of(y);
                assert(r[if b == n - 1 { i } else { b }] == y);
            }
            if r.contains(y) {
                let a = r.index_of(y);
                assert(s[if a == i { n - 1 } else { a }] == y);
            }
        }
        if r.contains(x) {
            let a = r.index_of(x);
            assert(s[if a == i { n - 1 } else { a }] == x);
        }
    }
}

/// Adding an item to a sequence without duplicates leaves a sequence without
/// duplicates that holds it.
pub proof fn lemma_inserted_into(s: Seq<Seq<char>>, x: Seq<char>)
    requires
        s.no_duplicates(),
    ensures
        inserted_into(s, x).no_duplicates(),
        inserted_into(s, x).contains(x),
        forall|y: Seq<char>| y != x ==> inserted_into(s, x).contains(y) == s.contains(y),
{
    if !s.contains(x) {
        let r = s.push(x);
        assert(r[s.len() as int] == x);
        assert forall|y: Seq<char>| y != x implies r.contains(y) == s.contains(y) by {
            if s.contains(y) {
                assert(r[s.index_of(y)] == y);
            }
            if r.contains(y) {
                assert(s[r.index_of(y)] == y);
            }
        }
    }
}

} // verus!
