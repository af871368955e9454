//! One shared document listener for every open overlay. Overlays register
//! while open; on each document event the dispatcher tells which of them
//! must close, so that no overlay installs listeners of its own.
use vstd::prelude::*;

verus! {

/// Whether `x` occurs in `v`.
pub fn contains_id(v: &Vec<u64>, x: u64) -> (r: bool)
    ensures
        r == v@.contains(x),
{
    let mut i: usize = 0;
    while i < v.len()
        invariant
            0 <= i <= v@.len(),
            forall|j: int| 0 <= j < i ==> v@[j] != x,
        decreases v@.len() - i,
    {
        if v[i] == x {
            return true;
        }
        i = i + 1;
    }
    false
}

/// The ids of `ids`, in order, whose membership in `set` equals `member`.
pub open spec fn pick(ids: Seq<u64>, set: Seq<u64>, member: bool) -> Seq<u64> {
    ids.filter(|x: u64| set.contains(x) == member)
}

/// Splits `ids` into those found in `set` and the others, keeping the order.
fn partition(ids: &Vec<u64>, set: &Vec<u64>) -> (r: (Vec<u64>, Vec<u64>))
    ensures
        r.0@ == pick(ids@, set@, true),
        r.1@ == pick(ids@, set@, false),
{
    let mut found: Vec<u64> = Vec::new();
    let mut others: Vec<u64> = Vec::new();
    let mut i: usize = 0;
    while i < ids.len()
        invariant
            0 <= i <= ids@.len(),
            found@ == pick(ids@.take(i as int), set@, true),
            others@ == pick(ids@.take(i as int), set@, false),
        decreases ids@.len() - i,
    {
        let x = ids[i];
        proof {
            reveal(Seq::filter);
            assert(ids@.take(i + 1).drop_last() =~= ids@.take(i as int));
            assert(ids@.take(i + 1).last() == x);
        }
        if contains_id(set, x) {
            found.push(x);
        } else {
            others.push(x);
        }
        i = i + 1;
    }
    assert(ids@.take(ids@.len() as int) =~= ids@);
    (found, others)
}

/// The overlays currently open, each registered once, in the order they
/// opened.
pub struct DismissalDispatcher {
    registered: Vec<u64>,
}

impl DismissalDispatcher {
    /// The registered ids.
    pub closed spec fn ids(self) -> Seq<u64> {
        self.registered@
    }

    /// No overlay is registered twice.
    pub closed spec fn wf(self) -> bool {
        self.registered@.no_duplicates()
    }

    pub fn new() -> (r: DismissalDispatcher)
        ensures
            r.wf(),
            r.ids() == Seq::<u64>::empty(),
    {
        DismissalDispatcher { registered: Vec::new() }
    }

    /// The registered ids, in the order they opened.
    pub fn registered(&self) -> (r: &Vec<u64>)
        ensures
            r@ == self.ids(),
    {
        &self.registered
    }

    pub fn is_registered(&self, id: u64) -> (r: bool)
        ensures
            r == self.ids().contains(id),
    {
        contains_id(&self.registered, id)
    }

    /// Registers an overlay that has just opened; registering twice keeps a
    /// single entry.
    pub fn register(&mut self, id: u64)
        requires
            old(self).wf(),
        ensures
            final(self).wf(),
            final(self).ids() == if old(self).ids().contains(id) {
                old(self).ids()
            } else {
                old(self).ids().push(id)
            },
    {
        if !contains_id(&self.registered, id) {
            self.registered.push(id);
        }
    }

    /// Unregisters an overlay that has closed; unregistering an overlay that
    /// is not registered changes nothing.
    pub fn unregister(&mut self, id: u64)
        requires
            old(self).wf(),
        ensures
            final(self).wf(),
            final(self).ids() == pick(old(self).ids(), seq![id], false),
    {
        let single = vec![id];
        assert(single@ =~= seq![id]);
        let (_, others) = partition(&self.registered, &single);
        proof {
            lemma_pick_keeps_distinct(self.registered@, seq![id], false);
        }
        self.registered = others;
    }

    /// The Escape key: every registered overlay closes. Returns their ids,
    /// in the order they opened.
    pub fn on_escape(&mut self) -> (r: Vec<u64>)
        requires
            old(self).wf(),
        ensures
            final(self).wf(),
            r@ == old(self).ids(),
            final(self).ids() == Seq::<u64>::empty(),
    {
        let all = self.registered.clone();
        self.registered = Vec::new();
        all
    }

    /// A pointer went down; `containing` holds the ids of the overlays whose
    /// root element contains its target. Every other registered overlay
    /// closes: their ids are returned, and only the others stay registered.
    pub fn on_pointer_down(&mut self, containing: &Vec<u64>) -> (r: Vec<u64>)
        requires
            old(self).wf(),
        ensures
            final(self).wf(),
            r@ == pick(old(self).ids(), containing@, false),
            final(self).ids() == pick(old(self).ids(), containing@, true),
    {
        let (inside, outside) = partition(&self.registered, containing);
        proof {
            lemma_pick_keeps_distinct(self.registered@, containing@, true);
        }
        self.registered = inside;
        outside
    }
}

/// Picking from a sequence without duplicates gives one without duplicates.
proof fn lemma_pick_keeps_distinct(ids: Seq<u64>, set: Seq<u64>, member: bool)
    requires
        ids.no_duplicates(),
    ensures
        pick(ids, set, member).no_duplicates(),
    decreases ids.len(),
{
    reveal(Seq::filter);
    if ids.len() > 0 {
        let init = ids.drop_last();
        let last = ids.last();
        assert(init.no_duplicates());
        lemma_pick_keeps_distinct(init, set, member);
        assert(!init.contains(last)) by {
            if init.contains(last) {
                let k = choose|k: int| 0 <= k < init.len() && init[k] == last;
                assert(ids[k] == ids[ids.len() - 1]);
            }
        }
        if pick(init, set, member).contains(last) {
            init.lemma_filter_contains_rev(|x: u64| set.contains(x) == member, last);
        }
    }
}

/// On a pointer-down, every registered overlay either stays registered or is
/// closed, never both: it stays exactly when its root contains the target.
pub proof fn lemma_pointer_partition(d: DismissalDispatcher, containing: Seq<u64>, id: u64)
    requires
        d.ids().contains(id),
    ensures
        containing.contains(id) ==> pick(d.ids(), containing, true).contains(id)
            && !pick(d.ids(), containing, false).contains(id),
        !containing.contains(id) ==> pick(d.ids(), containing, false).contains(id)
            && !pick(d.ids(), containing, true).contains(id),
{
    let ids = d.ids();
    let k = choose|k: int| 0 <= k < ids.len() && ids[k] == id;
    let p_in = |x: u64| containing.contains(x) == true;
    let p_out = |x: u64| containing.contains(x) == false;
    if containing.contains(id) {
        ids.lemma_filter_contains(p_in, k);
        if ids.filter(p_out).contains(id) {
            let j = choose|j: int| 0 <= j < ids.filter(p_out).len() && ids.filter(p_out)[j] == id;
            ids.lemma_filter_pred(p_out, j);
        }
    } else {
        ids.lemma_filter_contains(p_out, k);
        if ids.filter(p_in).contains(id) {
            let j = choose|j: int| 0 <= j < ids.filter(p_in).len() && ids.filter(p_in)[j] == id;
            ids.lemma_filter_pred(p_in, j);
        }
    }
}

} // verus!
