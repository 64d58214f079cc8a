//! The z-order rendering stack shared by all tool windows of one parent
//! region: an ordered list of window identities, the last one topmost.
//!
//! Identities are opaque 64-bit keys; the rendering shell derives them from
//! the GUI toolkit's hashed widget identities.

use vstd::prelude::*;

verus! {

/// `s` with every occurrence of `id` removed, the order of the rest kept.
pub open spec fn spec_removed(s: Seq<u64>, id: u64) -> Seq<u64>
    decreases s.len(),
{
    if s.len() == 0 {
        Seq::empty()
    } else {
        let rest = spec_removed(s.drop_last(), id);
        if s.last() == id {
            rest
        } else {
            rest.push(s.last())
        }
    }
}

/// What a bring-to-front leaves behind: `id` moved (or added) to the end,
/// the order of the other entries kept.
pub open spec fn spec_bring_to_front(s: Seq<u64>, id: u64) -> Seq<u64> {
    spec_removed(s, id).push(id)
}

/// The entries of `s` that `declared` contains, in their order in `s`.
pub open spec fn spec_kept(s: Seq<u64>, declared: Seq<u64>) -> Seq<u64>
    decreases s.len(),
{
    if s.len() == 0 {
        Seq::empty()
    } else {
        let rest = spec_kept(s.drop_last(), declared);
        if declared.contains(s.last()) {
            rest.push(s.last())
        } else {
            rest
        }
    }
}

/// `stack` with each entry of `declared`, taken front to back, appended
/// unless already present at that moment.
pub open spec fn spec_appended(stack: Seq<u64>, declared: Seq<u64>) -> Seq<u64>
    decreases declared.len(),
{
    if declared.len() == 0 {
        stack
    } else if stack.contains(declared.first()) {
        spec_appended(stack, declared.drop_first())
    } else {
        spec_appended(stack.push(declared.first()), declared.drop_first())
    }
}

/// The rendering order after one frame's sync: entries no longer declared
/// removed, newly declared ones appended in declaration order.
pub open spec fn spec_sync(s: Seq<u64>, declared: Seq<u64>) -> Seq<u64> {
    spec_appended(spec_kept(s, declared), declared)
}

/// The shared per-region state: the order in which windows are rendered.
/// The last entry is drawn last and therefore appears on top.
#[derive(Debug)]
pub struct ToolWindowsState {
    rendering_stack: Vec<u64>,
}

impl View for ToolWindowsState {
    type V = Seq<u64>;

    closed spec fn view(&self) -> Seq<u64> {
        self.rendering_stack@
    }
}

impl ToolWindowsState {
    /// The stack never holds an identity twice.
    pub open spec fn wf(&self) -> bool {
        self@.no_duplicates()
    }

    /// Whether `id` is last in the rendering order, i.e. drawn on top.
    pub open spec fn spec_is_topmost(&self, id: u64) -> bool {
        self@.len() > 0 && self@.last() == id
    }

    /// The rendering order, bottom first.
    pub fn rendering_order(&self) -> (r: Vec<u64>)
        ensures
            r@ == self@,
    {
        let mut r: Vec<u64> = Vec::new();
        let mut i: usize = 0;
        while i < self.rendering_stack.len()
            invariant
                i <= self.rendering_stack.len(),
                r@ == self.rendering_stack@.subrange(0, i as int),
            decreases self.rendering_stack.len() - i,
        {
            r.push(self.rendering_stack[i]);
            i = i + 1;
            assert(r@ =~= self.rendering_stack@.subrange(0, i as int));
        }
        assert(r@ =~= self.rendering_stack@);
        r
    }

    /// Rebuild a state from a stored rendering order; a duplicated identity
    /// keeps only its first occurrence, so the result is always well formed.
    pub fn from_order(order: &Vec<u64>) -> (r: Self)
        ensures
            r@ == spec_appended(Seq::<u64>::empty(), order@),
            r.wf(),
    {
        let ghost d = order@;
        let mut out: Vec<u64> = Vec::new();
        let mut j: usize = 0;
        assert(d.skip(0) =~= d);
        while j < order.len()
            invariant
                j <= order.len(),
                order@ == d,
                out@.no_duplicates(),
                spec_appended(out@, d.skip(j as int)) == spec_appended(Seq::<u64>::empty(), d),
            decreases order.len() - j,
        {
            let v = order[j];
            assert(d.skip(j as int).first() == d[j as int]);
            assert(d.skip(j as int).drop_first() =~= d.skip(j + 1));
            if !vec_contains(&out, v) {
                assert(out@.push(v).no_duplicates());
                out.push(v);
            }
            j = j + 1;
        }
        assert(d.skip(order.len() as int) =~= Seq::<u64>::empty());
        ToolWindowsState { rendering_stack: out }
    }

    /// Whether `id` is the topmost window of this region.
    pub fn is_topmost(&self, id: u64) -> (r: bool)
        ensures
            r == self.spec_is_topmost(id),
    {
        let n = self.rendering_stack.len();
        n > 0 && self.rendering_stack[n - 1] == id
    }

    /// Move `id` to the end of the rendering order (topmost); every other
    /// entry keeps its place relative to the rest.
    pub fn bring_to_front(&mut self, id: u64)
        ensures
            final(self)@ == spec_bring_to_front(old(self)@, id),
            old(self).wf() ==> final(self).wf(),
    {
        let ghost s = self.rendering_stack@;
        let mut out: Vec<u64> = Vec::new();
        let mut i: usize = 0;
        while i < self.rendering_stack.len()
            invariant
                i <= self.rendering_stack.len(),
                self.rendering_stack@ == s,
                out@ == spec_removed(s.subrange(0, i as int), id),
            decreases self.rendering_stack.len() - i,
        {
            let v = self.rendering_stack[i];
            assert(s.subrange(0, i + 1).drop_last() =~= s.subrange(0, i as int));
            if v != id {
                out.push(v);
            }
            i = i + 1;
        }
        assert(s.subrange(0, s.len() as int) =~= s);
        out.push(id);
        self.rendering_stack = out;
        proof {
            if old(self).wf() {
                lemma_removed_keeps(s, id);
                lemma_removed_no_duplicates(s, id);
                assert(final(self).wf());
            }
        }
    }

    /// One frame's sync with the declared window set: drop every identity
    /// not declared this frame, then append the newly declared ones in
    /// declaration order.
    pub fn sync(&mut self, declared: &Vec<u64>)
        ensures
            final(self)@ == spec_sync(old(self)@, declared@),
            old(self).wf() ==> final(self).wf(),
    {
        let ghost s = self.rendering_stack@;
        let ghost d = declared@;

        // remove now-unknown identities
        let mut out: Vec<u64> = Vec::new();
        let mut i: usize = 0;
        while i < self.rendering_stack.len()
            invariant
                i <= self.rendering_stack.len(),
                self.rendering_stack@ == s,
                declared@ == d,
                out@ == spec_kept(s.subrange(0, i as int), d),
            decreases self.rendering_stack.len() - i,
        {
            let v = self.rendering_stack[i];
            assert(s.subrange(0, i + 1).drop_last() =~= s.subrange(0, i as int));
            assert(s.subrange(0, i + 1).last() == s[i as int]);
            if vec_contains(declared, v) {
                out.push(v);
            }
            i = i + 1;
        }
        assert(s.subrange(0, s.len() as int) =~= s);
        assert(out@ == spec_kept(s, d));
        assert(d.skip(0) =~= d);

        // append newly declared identities
        let mut j: usize = 0;
        while j < declared.len()
            invariant
                j <= declared.len(),
                declared@ == d,
                spec_appended(out@, d.skip(j as int)) == spec_appended(spec_kept(s, d), d),
            decreases declared.len() - j,
        {
            let v = declared[j];
            assert(d.skip(j as int).first() == d[j as int]);
            assert(d.skip(j as int).drop_first() =~= d.skip(j + 1));
            if !vec_contains(&out, v) {
                out.push(v);
            }
            j = j + 1;
        }
        assert(d.skip(declared.len() as int) =~= Seq::<u64>::empty());
        self.rendering_stack = out;
        proof {
            if old(self).wf() {
                lemma_sync_wf(s, d);
            }
        }
    }
}

impl Default for ToolWindowsState {
    /// An empty rendering order.
    fn default() -> (r: Self)
        ensures
            r@ == Seq::<u64>::empty(),
            r.wf(),
    {
        ToolWindowsState { rendering_stack: Vec::new() }
    }
}

/// Whether the vector holds `x`.
fn vec_contains(v: &Vec<u64>, x: u64) -> (r: bool)
    ensures
        r == v@.contains(x),
{
    let mut i: usize = 0;
    while i < v.len()
        invariant
            i <= v.len(),
            forall|k: int| 0 <= k < i ==> v@[k] != x,
        decreases v.len() - i,
    {
        if v[i] == x {
            return true;
        }
        i = i + 1;
    }
    false
}

/// Removal keeps exactly the other entries: membership is unchanged for
/// every identity but the removed one, which is gone.
pub proof fn lemma_removed_keeps(s: Seq<u64>, id: u64)
    ensures
        !spec_removed(s, id).contains(id),
        forall|x: u64| x != id ==> (spec_removed(s, id).contains(x) <==> s.contains(x)),
    decreases s.len(),
{
    if s.len() > 0 {
        lemma_removed_keeps(s.drop_last(), id);
        let rest = spec_removed(s.drop_last(), id);
        assert forall|x: u64| x != id implies (spec_removed(s, id).contains(x) <==> s.contains(
            x,
        )) by {
            if s.last() == id {
                assert(s.contains(x) <==> s.drop_last().contains(x)) by {
                    if s.contains(x) {
                        let k = choose|k: int| 0 <= k < s.len() && s[k] == x;
                        assert(k < s.len() - 1);
                        assert(s.drop_last()[k] == x);
                    }
                }
            } else {
                if rest.push(s.last()).contains(x) {
                    if rest.contains(x) {
                        assert(s.drop_last().contains(x));
                        let k = choose|k: int| 0 <= k < s.drop_last().len() && s.drop_last()[k] == x;
                        assert(s[k] == x);
                    } else {
                        assert(x == s.last());
                        assert(s[s.len() - 1] == x);
                    }
                }
                if s.contains(x) {
                    let k = choose|k: int| 0 <= k < s.len() && s[k] == x;
                    if k < s.len() - 1 {
                        assert(s.drop_last()[k] == x);
                        assert(s.drop_last().contains(x));
                        assert(rest.contains(x));
                        let m = choose|m: int| 0 <= m < rest.len() && rest[m] == x;
                        assert(rest.push(s.last())[m] == x);
                    } else {
                        assert(rest.push(s.last()).last() == x);
                    }
                }
            }
        }
        if s.last() != id {
            assert(!rest.push(s.last()).contains(id)) by {
                if rest.push(s.last()).contains(id) {
                    let k = choose|k: int|
                        0 <= k < rest.len() + 1 && rest.push(s.last())[k] == id;
                    assert(k < rest.len());
                    assert(rest[k] == id);
                }
            }
        }
    }
}

/// Removal never introduces a duplicate.
pub proof fn lemma_removed_no_duplicates(s: Seq<u64>, id: u64)
    requires
        s.no_duplicates(),
    ensures
        spec_removed(s, id).no_duplicates(),
        !spec_removed(s, id).contains(id) ==> spec_removed(s, id).push(id).no_duplicates(),
    decreases s.len(),
{
    lemma_removed_keeps(s, id);
    if s.len() > 0 {
        assert(s.drop_last().no_duplicates());
        lemma_removed_no_duplicates(s.drop_last(), id);
        let rest = spec_removed(s.drop_last(), id);
        if s.last() != id {
            lemma_removed_keeps(s.drop_last(), id);
            assert(!s.drop_last().contains(s.last())) by {
                if s.drop_last().contains(s.last()) {
                    let k = choose|k: int|
                        0 <= k < s.len() - 1 && s.drop_last()[k] == s.last();
                    assert(s[k] == s[s.len() - 1]);
                }
            }
            assert(!rest.contains(s.last()));
            assert(rest.push(s.last()).no_duplicates());
        }
    }
    let r = spec_removed(s, id);
    if !r.contains(id) {
        assert(r.push(id).no_duplicates());
    }
}

/// The sync result has no duplicate identities.
pub proof fn lemma_sync_wf(s: Seq<u64>, d: Seq<u64>)
    requires
        s.no_duplicates(),
    ensures
        spec_sync(s, d).no_duplicates(),
{
    lemma_kept_no_duplicates(s, d);
    lemma_appended_no_duplicates(spec_kept(s, d), d);
}

/// Keeping a subset of entries never introduces a duplicate.
pub proof fn lemma_kept_no_duplicates(s: Seq<u64>, d: Seq<u64>)
    requires
        s.no_duplicates(),
    ensures
        spec_kept(s, d).no_duplicates(),
    decreases s.len(),
{
    if s.len() > 0 {
        assert(s.drop_last().no_duplicates());
        lemma_kept_no_duplicates(s.drop_last(), d);
        if d.contains(s.last()) {
            lemma_kept_members(s.drop_last(), d);
            assert(!s.drop_last().contains(s.last())) by {
                if s.drop_last().contains(s.last()) {
                    let k = choose|k: int|
                        0 <= k < s.len() - 1 && s.drop_last()[k] == s.last();
                    assert(s[k] == s[s.len() - 1]);
                }
            }
        }
    }
}

/// An entry of the kept sequence is an entry of the original that is
/// declared, and conversely.
pub proof fn lemma_kept_members(s: Seq<u64>, d: Seq<u64>)
    ensures
        forall|x: u64|
            spec_kept(s, d).contains(x) <==> (s.contains(x) && d.contains(x)),
    decreases s.len(),
{
    if s.len() > 0 {
        lemma_kept_members(s.drop_last(), d);
        let rest = spec_kept(s.drop_last(), d);
        assert forall|x: u64|
            spec_kept(s, d).contains(x) <==> (s.contains(x) && d.contains(x)) by {
            if s.contains(x) && d.contains(x) {
                let k = choose|k: int| 0 <= k < s.len() && s[k] == x;
                if k < s.len() - 1 {
                    assert(s.drop_last()[k] == x);
                    assert(rest.contains(x));
                    if d.contains(s.last()) {
                        let m = choose|m: int| 0 <= m < rest.len() && rest[m] == x;
                        assert(rest.push(s.last())[m] == x);
                    }
                } else {
                    assert(x == s.last());
                    assert(rest.push(s.last()).last() == x);
                }
            }
            if spec_kept(s, d).contains(x) {
                if d.contains(s.last()) {
                    let k = choose|k: int|
                        0 <= k < rest.len() + 1 && rest.push(s.last())[k] == x;
                    if k < rest.len() {
                        assert(rest[k] == x);
                        assert(s.drop_last().contains(x));
                        let m = choose|m: int|
                            0 <= m < s.len() - 1 && s.drop_last()[m] == x;
                        assert(s[m] == x);
                    } else {
                        assert(x == s.last());
                        assert(s[s.len() - 1] == x);
                    }
                } else {
                    assert(s.drop_last().contains(x));
                    let m = choose|m: int| 0 <= m < s.len() - 1 && s.drop_last()[m] == x;
                    assert(s[m] == x);
                }
            }
        }
    }
}

/// Removing an identity is filtering it out: the remaining entries are
/// exactly those different from it, in their original order.
pub proof fn lemma_removed_is_filter(s: Seq<u64>, id: u64)
    ensures
        spec_removed(s, id) == s.filter(|x: u64| x != id),
    decreases s.len(),
{
    reveal(Seq::filter);
    if s.len() > 0 {
        lemma_removed_is_filter(s.drop_last(), id);
    }
}

/// Keeping the declared identities is filtering by declaration: the kept
/// entries are exactly the declared ones, in their original order.
pub proof fn lemma_kept_is_filter(s: Seq<u64>, d: Seq<u64>)
    ensures
        spec_kept(s, d) == s.filter(|x: u64| d.contains(x)),
    decreases s.len(),
{
    reveal(Seq::filter);
    if s.len() > 0 {
        lemma_kept_is_filter(s.drop_last(), d);
    }
}

/// Law: bring-to-front makes the chosen identity the last (topmost) entry,
/// and every other entry keeps its relative order: the rest of the order is
/// the old one with that identity filtered out.
pub proof fn lemma_bring_to_front_order(s: Seq<u64>, id: u64)
    ensures
        spec_bring_to_front(s, id).len() > 0,
        spec_bring_to_front(s, id).last() == id,
        spec_bring_to_front(s, id).drop_last() == s.filter(|x: u64| x != id),
{
    lemma_removed_is_filter(s, id);
    assert(spec_removed(s, id).push(id).drop_last() =~= spec_removed(s, id));
}

/// What appending the declared identities guarantees: the old stack is an
/// unchanged prefix, and everything after it is a declared identity that
/// the stack did not hold.
pub proof fn lemma_appended_shape(stack: Seq<u64>, d: Seq<u64>)
    ensures
        spec_appended(stack, d).len() >= stack.len(),
        spec_appended(stack, d).subrange(0, stack.len() as int) == stack,
        forall|i: int|
            stack.len() <= i < spec_appended(stack, d).len() ==> d.contains(
                #[trigger] spec_appended(stack, d)[i],
            ) && !stack.contains(spec_appended(stack, d)[i]),
    decreases d.len(),
{
    if d.len() == 0 {
        assert(spec_appended(stack, d).subrange(0, stack.len() as int) =~= stack);
    } else {
        let v = d.first();
        let d2 = d.drop_first();
        if stack.contains(v) {
            lemma_appended_shape(stack, d2);
            let r = spec_appended(stack, d);
            assert forall|i: int| stack.len() <= i < r.len() implies d.contains(
                #[trigger] r[i],
            ) && !stack.contains(r[i]) by {
                assert(d2.contains(r[i]));
                let k = choose|k: int| 0 <= k < d2.len() && d2[k] == r[i];
                assert(d[k + 1] == r[i]);
            }
        } else {
            lemma_appended_shape(stack.push(v), d2);
            let r = spec_appended(stack, d);
            assert(r.subrange(0, stack.len() as int + 1) == stack.push(v));
            assert(r.subrange(0, stack.len() as int) =~= stack) by {
                assert forall|i: int| 0 <= i < stack.len() implies r.subrange(
                    0,
                    stack.len() as int,
                )[i] == stack[i] by {
                    assert(r.subrange(0, stack.len() as int + 1)[i] == stack.push(v)[i]);
                }
            }
            assert forall|i: int| stack.len() <= i < r.len() implies d.contains(
                #[trigger] r[i],
            ) && !stack.contains(r[i]) by {
                if i == stack.len() {
                    assert(r.subrange(0, stack.len() as int + 1)[i] == stack.push(v)[i]);
                    assert(r[i] == v);
                    assert(d[0] == v);
                } else {
                    assert(d2.contains(r[i]));
                    let k = choose|k: int| 0 <= k < d2.len() && d2[k] == r[i];
                    assert(d[k + 1] == r[i]);
                    assert(!stack.push(v).contains(r[i]));
                    if stack.contains(r[i]) {
                        let m = choose|m: int| 0 <= m < stack.len() && stack[m] == r[i];
                        assert(stack.push(v)[m] == r[i]);
                    }
                }
            }
        }
    }
}

/// Membership after appending: an identity is present exactly when it was
/// on the stack or is declared.
pub proof fn lemma_appended_members(stack: Seq<u64>, d: Seq<u64>)
    ensures
        forall|x: u64|
            spec_appended(stack, d).contains(x) <==> (stack.contains(x) || d.contains(x)),
    decreases d.len(),
{
    if d.len() > 0 {
        let v = d.first();
        let d2 = d.drop_first();
        assert forall|x: u64| (stack.contains(x) || d.contains(x)) <==> (stack.push(v).contains(
            x,
        ) || d2.contains(x)) || x == v || stack.contains(x) by {
            if d.contains(x) {
                let k = choose|k: int| 0 <= k < d.len() && d[k] == x;
                if k > 0 {
                    assert(d2[k - 1] == x);
                }
            }
            if d2.contains(x) {
                let k = choose|k: int| 0 <= k < d2.len() && d2[k] == x;
                assert(d[k + 1] == x);
            }
        }
        if stack.contains(v) {
            lemma_appended_members(stack, d2);
        } else {
            lemma_appended_members(stack.push(v), d2);
            assert forall|x: u64|
                stack.push(v).contains(x) <==> (stack.contains(x) || x == v) by {
                if stack.push(v).contains(x) {
                    let k = choose|k: int| 0 <= k < stack.len() + 1 && stack.push(v)[k] == x;
                    if k < stack.len() {
                        assert(stack[k] == x);
                    }
                }
                if stack.contains(x) {
                    let k = choose|k: int| 0 <= k < stack.len() && stack[k] == x;
                    assert(stack.push(v)[k] == x);
                }
                if x == v {
                    assert(stack.push(v).last() == x);
                }
            }
            assert forall|x: u64| d.contains(x) implies (x == v || d2.contains(x)) by {
                let k = choose|k: int| 0 <= k < d.len() && d[k] == x;
                if k > 0 {
                    assert(d2[k - 1] == x);
                }
            }
            assert forall|x: u64| d2.contains(x) implies d.contains(x) by {
                let k = choose|k: int| 0 <= k < d2.len() && d2[k] == x;
                assert(d[k + 1] == x);
            }
            assert(d.contains(v)) by {
                assert(d[0] == v);
            }
        }
    }
}

/// Law: after a sync, the rendering order holds exactly the identities
/// declared this frame, without duplicates; the retained identities stand
/// first, in their old relative order (the old order filtered by
/// declaration), and every identity after them is newly declared.
pub proof fn lemma_sync_order(s: Seq<u64>, d: Seq<u64>)
    requires
        s.no_duplicates(),
    ensures
        forall|x: u64| #[trigger] spec_sync(s, d).contains(x) <==> d.contains(x),
        spec_sync(s, d).no_duplicates(),
        spec_sync(s, d).subrange(0, spec_kept(s, d).len() as int) == spec_kept(s, d),
        spec_kept(s, d) == s.filter(|x: u64| d.contains(x)),
        forall|i: int|
            spec_kept(s, d).len() <= i < spec_sync(s, d).len() ==> !s.contains(
                #[trigger] spec_sync(s, d)[i],
            ),
{
    let kept = spec_kept(s, d);
    lemma_sync_wf(s, d);
    lemma_kept_is_filter(s, d);
    lemma_kept_members(s, d);
    lemma_appended_members(kept, d);
    lemma_appended_shape(kept, d);
    assert forall|i: int|
        kept.len() <= i < spec_sync(s, d).len() implies !s.contains(
        #[trigger] spec_sync(s, d)[i],
    ) by {
        let x = spec_sync(s, d)[i];
        assert(d.contains(x) && !kept.contains(x));
        if s.contains(x) {
            assert(kept.contains(x));
        }
    }
}

/// Appending declared entries keeps the stack duplicate-free: only entries
/// not yet present are pushed.
pub proof fn lemma_appended_no_duplicates(stack: Seq<u64>, d: Seq<u64>)
    requires
        stack.no_duplicates(),
    ensures
        spec_appended(stack, d).no_duplicates(),
    decreases d.len(),
{
    if d.len() > 0 {
        if stack.contains(d.first()) {
            lemma_appended_no_duplicates(stack, d.drop_first());
        } else {
            assert(stack.push(d.first()).no_duplicates());
            lemma_appended_no_duplicates(stack.push(d.first()), d.drop_first());
        }
    }
}

} // verus!
