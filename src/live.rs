use vstd::prelude::*;

use crate::factory::{describes_new_window, window_descriptor, WindowDescriptor};
use crate::label::{label_of, lemma_label_injective};

verus! {

broadcast use vstd::seq_lib::group_filter_ensures;

/// The labels of the live windows, in the order they were opened.
pub struct LiveWindows {
    labels: Vec<String>,
}

/// The texts of a list of labels.
pub open spec fn texts(labels: Seq<String>) -> Seq<Seq<char>> {
    labels.map_values(|l: String| l@)
}

/// The live set once one more window has been built successfully.
pub open spec fn after_create(s: Seq<Seq<char>>) -> Seq<Seq<char>> {
    s.push(label_of(s.len()))
}

/// The live set after `n` successful creations and nothing else.
pub open spec fn after_creates(s: Seq<Seq<char>>, n: nat) -> Seq<Seq<char>>
    decreases n,
{
    if n == 0 {
        s
    } else {
        after_create(after_creates(s, (n - 1) as nat))
    }
}

/// The live set once the window labelled `l` has closed.
pub open spec fn after_close(s: Seq<Seq<char>>, l: Seq<char>) -> Seq<Seq<char>> {
    s.filter(|x: Seq<char>| x != l)
}

impl View for LiveWindows {
    type V = Seq<Seq<char>>;

    closed spec fn view(&self) -> Seq<Seq<char>> {
        texts(self.labels@)
    }
}

impl LiveWindows {
    /// No live windows.
    pub fn new() -> (r: LiveWindows)
        ensures
            r@ == Seq::<Seq<char>>::empty(),
    {
        let r = LiveWindows { labels: Vec::new() };
        assert(r@ =~= Seq::<Seq<char>>::empty());
        r
    }

    /// The live windows with the given labels.
    pub fn from_labels(labels: Vec<String>) -> (r: LiveWindows)
        ensures
            r@ == texts(labels@),
    {
        LiveWindows { labels }
    }

    /// How many windows are live.
    pub fn len(&self) -> (r: usize)
        ensures
            r == self@.len(),
    {
        self.labels.len()
    }

    /// The label of the live window at position `i`.
    pub fn label(&self, i: usize) -> (r: &String)
        requires
            i < self@.len(),
        ensures
            r@ == self@[i as int],
    {
        &self.labels[i]
    }

    /// The window to create next: labelled after the number of live windows,
    /// with the fixed title, route and geometry of every spawned window.
    pub fn next_window(&self) -> (r: WindowDescriptor)
        ensures
            describes_new_window(r, self@.len()),
    {
        window_descriptor(self.labels.len())
    }

    /// Takes in what came of building the window labelled `label`.
    /// On success the window joins the live set; on failure the set stays as it
    /// was. The outcome, the framework's message included, is handed back.
    pub fn record_build(&mut self, label: String, outcome: Result<(), String>) -> (r: Result<
        (),
        String,
    >)
        ensures
            r == outcome,
            outcome is Ok ==> final(self)@ == old(self)@.push(label@),
            outcome is Err ==> final(self)@ == old(self)@,
    {
        if outcome.is_ok() {
            self.labels.push(label);
            assert(self@ =~= old(self)@.push(label@));
        }
        outcome
    }

    /// Takes in that the window labelled `label` has closed. Returns whether no
    /// window is left, in which case the process ends.
    pub fn close(&mut self, label: &String) -> (exit: bool)
        ensures
            final(self)@ == after_close(old(self)@, label@),
            !final(self)@.contains(label@),
            exit == (final(self)@.len() == 0),
    {
        let ghost p = |x: Seq<char>| x != label@;
        let mut kept: Vec<String> = Vec::new();
        let mut i: usize = 0;
        while i < self.labels.len()
            invariant
                i <= self.labels.len(),
                self@ == old(self)@,
                p == (|x: Seq<char>| x != label@),
                texts(kept@) == self@.take(i as int).filter(p),
            decreases self.labels.len() - i,
        {
            let ghost v = self@;
            proof {
                assert(v[i as int] == self.labels@[i as int]@);
                assert(v.take(i + 1).drop_last() =~= v.take(i as int));
                assert(v.take(i + 1).last() == v[i as int]);
                reveal(Seq::filter);
                assert(v.take(i + 1).filter(p) == (if p(v[i as int]) {
                    v.take(i as int).filter(p).push(v[i as int])
                } else {
                    v.take(i as int).filter(p)
                }));
            }
            if !(self.labels[i] == *label) {
                let ghost before = kept@;
                kept.push(self.labels[i].clone());
                assert(texts(kept@) =~= texts(before).push(v[i as int]));
            }
            assert(texts(kept@) =~= v.take(i + 1).filter(p));
            i = i + 1;
        }
        proof {
            assert(self@.take(i as int) =~= self@);
        }
        self.labels = kept;
        self.labels.len() == 0
    }
}

/// Successive successful creations, with no window closing in between, label
/// the new windows after the number of windows live before each: starting from
/// `s`, the `i`-th new window is labelled after `s.len() + i`, and the windows
/// that were live stay as they were.
pub proof fn lemma_factory_labels(s: Seq<Seq<char>>, n: nat)
    ensures
        after_creates(s, n).len() == s.len() + n,
        after_creates(s, n).take(s.len() as int) == s,
        forall|i: int| 0 <= i < n ==> #[trigger] after_creates(s, n)[s.len() + i] == label_of((s.len() + i) as nat),
    decreases n,
{
    if n > 0 {
        lemma_factory_labels(s, (n - 1) as nat);
        let prev = after_creates(s, (n - 1) as nat);
        assert(after_creates(s, n) == prev.push(label_of(prev.len())));
        assert(after_creates(s, n).take(s.len() as int) =~= prev.take(s.len() as int));
        assert forall|i: int| 0 <= i < n implies #[trigger] after_creates(s, n)[s.len() + i]
            == label_of((s.len() + i) as nat) by {
            if i < n - 1 {
                assert(after_creates(s, n)[s.len() + i] == prev[s.len() + i]);
            }
        }
    } else {
        assert(s.take(s.len() as int) =~= s);
    }
}

/// On a process that starts with no windows, the `n`-th successful creation
/// (counting from one) gives the label formed from `n - 1`.
pub proof fn lemma_factory_labels_from_empty(n: nat)
    requires
        n >= 1,
    ensures
        after_creates(Seq::empty(), n)[n - 1] == label_of((n - 1) as nat),
{
    lemma_factory_labels(Seq::empty(), n);
    assert(after_creates(Seq::empty(), n)[0 + (n - 1)] == label_of((0 + (n - 1)) as nat));
}

/// While no window closes, creations keep labels unique: if the live labels
/// are distinct and none of them is a label that the factory gives at a count
/// from the current number of windows on, every label stays distinct after any
/// number of successful creations.
pub proof fn lemma_creations_keep_labels_unique(s: Seq<Seq<char>>, n: nat)
    requires
        s.no_duplicates(),
        forall|i: int, j: nat| 0 <= i < s.len() && j >= s.len() ==> s[i] != label_of(j),
    ensures
        after_creates(s, n).no_duplicates(),
    decreases n,
{
    if n > 0 {
        lemma_creations_keep_labels_unique(s, (n - 1) as nat);
        lemma_factory_labels(s, (n - 1) as nat);
        let prev = after_creates(s, (n - 1) as nat);
        let fresh = label_of(prev.len());
        assert forall|k: int| 0 <= k < prev.len() implies prev[k] != fresh by {
            if k < s.len() {
                assert(prev[k] == prev.take(s.len() as int)[k]);
            } else {
                let i = k - s.len();
                assert(prev[s.len() + i] == label_of((s.len() + i) as nat));
                lemma_label_injective((s.len() + i) as nat, prev.len());
            }
        }
        assert(after_creates(s, n) == prev.push(fresh));
    }
}

} // verus!
