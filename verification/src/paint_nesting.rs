//! The nesting of clips and layers while a painter records: what is open,
//! innermost last, the push and pop markers recorded so far, and the clip
//! depths that `save` remembers for `restore`.
use vstd::prelude::*;

verus! {

/// A nesting marker in a paint recording.
#[derive(Debug, Clone, Copy, PartialEq, Eq, Structural)]
pub enum NestingOp {
    PushClip,
    PopClip,
    PushLayer,
    PopLayer,
}

/// Number of entries of `open` equal to `layer` (layers are `true`, clips `false`).
pub open spec fn count_open(open: Seq<bool>, layer: bool) -> nat
    decreases open.len(),
{
    if open.len() == 0 {
        0
    } else {
        count_open(open.drop_last(), layer) + if open.last() == layer {
            1nat
        } else {
            0nat
        }
    }
}

/// Number of `op` markers in `ops`.
pub open spec fn count_ops(ops: Seq<NestingOp>, op: NestingOp) -> nat
    decreases ops.len(),
{
    if ops.len() == 0 {
        0
    } else {
        count_ops(ops.drop_last(), op) + if ops.last() == op {
            1nat
        } else {
            0nat
        }
    }
}

/// Index of the innermost open entry of the given kind.
pub open spec fn innermost(open: Seq<bool>, layer: bool) -> Option<int>
    decreases open.len(),
{
    if open.len() == 0 {
        None
    } else if open.last() == layer {
        Some(open.len() - 1)
    } else {
        innermost(open.drop_last(), layer)
    }
}

/// The markers that close everything in `open`, innermost first.
pub open spec fn closing_ops(open: Seq<bool>) -> Seq<NestingOp>
    decreases open.len(),
{
    if open.len() == 0 {
        Seq::empty()
    } else {
        seq![if open.last() {
            NestingOp::PopLayer
        } else {
            NestingOp::PopClip
        }] + closing_ops(open.drop_last())
    }
}

/// `open` after closing its `n` innermost clips (layers stay open).
pub open spec fn without_clips(open: Seq<bool>, n: nat) -> Seq<bool>
    decreases n,
{
    if n == 0 {
        open
    } else {
        match innermost(without_clips(open, (n - 1) as nat), false) {
            Some(i) => without_clips(open, (n - 1) as nat).remove(i),
            None => without_clips(open, (n - 1) as nat),
        }
    }
}

/// `n` copies of a marker.
pub open spec fn repeat_op(op: NestingOp, n: nat) -> Seq<NestingOp> {
    Seq::new(n, |i: int| op)
}

proof fn lemma_count_concat_open(a: Seq<bool>, b: Seq<bool>, layer: bool)
    ensures
        count_open(a + b, layer) == count_open(a, layer) + count_open(b, layer),
    decreases b.len(),
{
    if b.len() == 0 {
        assert(a + b =~= a);
    } else {
        assert((a + b).drop_last() =~= a + b.drop_last());
        lemma_count_concat_open(a, b.drop_last(), layer);
    }
}

proof fn lemma_count_concat_ops(a: Seq<NestingOp>, b: Seq<NestingOp>, op: NestingOp)
    ensures
        count_ops(a + b, op) == count_ops(a, op) + count_ops(b, op),
    decreases b.len(),
{
    if b.len() == 0 {
        assert(a + b =~= a);
    } else {
        assert((a + b).drop_last() =~= a + b.drop_last());
        lemma_count_concat_ops(a, b.drop_last(), op);
    }
}

proof fn lemma_count_single_open(x: bool, layer: bool)
    ensures
        count_open(seq![x], layer) == (if x == layer {
            1nat
        } else {
            0nat
        }),
{
    assert(seq![x].drop_last() =~= Seq::<bool>::empty());
    assert(seq![x].last() == x);
    assert(count_open(Seq::<bool>::empty(), layer) == 0);
    assert(count_open(seq![x], layer) == count_open(seq![x].drop_last(), layer) + (if x == layer {
        1nat
    } else {
        0nat
    }));
}

proof fn lemma_count_single_op(x: NestingOp, op: NestingOp)
    ensures
        count_ops(seq![x], op) == (if x == op {
            1nat
        } else {
            0nat
        }),
{
    assert(seq![x].drop_last() =~= Seq::<NestingOp>::empty());
    assert(seq![x].last() == x);
    assert(count_ops(Seq::<NestingOp>::empty(), op) == 0);
    assert(count_ops(seq![x], op) == count_ops(seq![x].drop_last(), op) + (if x == op {
        1nat
    } else {
        0nat
    }));
}

proof fn lemma_count_remove(open: Seq<bool>, i: int, layer: bool)
    requires
        0 <= i < open.len(),
    ensures
        count_open(open.remove(i), layer) + (if open[i] == layer {
            1nat
        } else {
            0nat
        }) == count_open(open, layer),
{
    assert(open =~= open.take(i) + seq![open[i]] + open.skip(i + 1));
    assert(open.remove(i) =~= open.take(i) + open.skip(i + 1));
    lemma_count_concat_open(open.take(i) + seq![open[i]], open.skip(i + 1), layer);
    lemma_count_concat_open(open.take(i), seq![open[i]], layer);
    lemma_count_concat_open(open.take(i), open.skip(i + 1), layer);
    lemma_count_single_open(open[i], layer);
}

proof fn lemma_innermost(open: Seq<bool>, layer: bool)
    ensures
        innermost(open, layer) matches Some(i) ==> 0 <= i < open.len() && open[i] == layer,
        innermost(open, layer) is None ==> count_open(open, layer) == 0,
        count_open(open, layer) <= open.len(),
    decreases open.len(),
{
    if open.len() > 0 {
        lemma_innermost(open.drop_last(), layer);
    }
}

proof fn lemma_closing_counts(open: Seq<bool>)
    ensures
        count_ops(closing_ops(open), NestingOp::PopClip) == count_open(open, false),
        count_ops(closing_ops(open), NestingOp::PopLayer) == count_open(open, true),
        count_ops(closing_ops(open), NestingOp::PushClip) == 0,
        count_ops(closing_ops(open), NestingOp::PushLayer) == 0,
    decreases open.len(),
{
    if open.len() > 0 {
        lemma_closing_counts(open.drop_last());
        let head = seq![if open.last() {
            NestingOp::PopLayer
        } else {
            NestingOp::PopClip
        }];
        lemma_count_single_op(head[0], NestingOp::PopClip);
        lemma_count_single_op(head[0], NestingOp::PopLayer);
        lemma_count_single_op(head[0], NestingOp::PushClip);
        lemma_count_single_op(head[0], NestingOp::PushLayer);
        assert(head =~= seq![head[0]]);
        lemma_count_concat_ops(head, closing_ops(open.drop_last()), NestingOp::PopClip);
        lemma_count_concat_ops(head, closing_ops(open.drop_last()), NestingOp::PopLayer);
        lemma_count_concat_ops(head, closing_ops(open.drop_last()), NestingOp::PushClip);
        lemma_count_concat_ops(head, closing_ops(open.drop_last()), NestingOp::PushLayer);
    }
}

proof fn lemma_count_push_ops(ops: Seq<NestingOp>, op: NestingOp, pushed: NestingOp)
    ensures
        count_ops(ops.push(pushed), op) == count_ops(ops, op) + if pushed == op {
            1nat
        } else {
            0nat
        },
{
    assert(ops.push(pushed).drop_last() =~= ops);
}

proof fn lemma_count_push_open(open: Seq<bool>, layer: bool, pushed: bool)
    ensures
        count_open(open.push(pushed), layer) == count_open(open, layer) + if pushed == layer {
            1nat
        } else {
            0nat
        },
{
    assert(open.push(pushed).drop_last() =~= open);
}

/// Clip and layer nesting of one recording.
pub struct PaintNesting {
    /// What is open, innermost last: `true` a layer, `false` a clip.
    open: Vec<bool>,
    clip_depth: usize,
    layer_depth: usize,
    /// The clip depth at each `save` not yet restored.
    saved: Vec<usize>,
    /// Nesting markers recorded so far.
    ops: Vec<NestingOp>,
}

impl PaintNesting {
    /// The depths count what is open, and the recorded pushes exceed the
    /// recorded pops by exactly what is open.
    #[verifier::type_invariant]
    closed spec fn wf(&self) -> bool {
        &&& self.clip_depth == count_open(self.open@, false)
        &&& self.layer_depth == count_open(self.open@, true)
        &&& count_ops(self.ops@, NestingOp::PushClip) == count_ops(self.ops@, NestingOp::PopClip)
            + self.clip_depth
        &&& count_ops(self.ops@, NestingOp::PushLayer) == count_ops(self.ops@, NestingOp::PopLayer)
            + self.layer_depth
    }

    /// What is open, innermost last (`true` a layer, `false` a clip).
    pub closed spec fn open(&self) -> Seq<bool> {
        self.open@
    }

    /// Clip depths remembered by `save`, most recent last.
    pub closed spec fn saved(&self) -> Seq<usize> {
        self.saved@
    }

    /// Markers recorded so far.
    pub closed spec fn ops(&self) -> Seq<NestingOp> {
        self.ops@
    }

    /// Nothing open, saved or recorded.
    pub fn new() -> (nesting: Self)
        ensures
            nesting.open() == Seq::<bool>::empty(),
            nesting.saved() == Seq::<usize>::empty(),
            nesting.ops() == Seq::<NestingOp>::empty(),
    {
        PaintNesting {
            open: Vec::new(),
            clip_depth: 0,
            layer_depth: 0,
            saved: Vec::new(),
            ops: Vec::new(),
        }
    }

    /// Moves the whole state out, leaving an empty one behind.
    fn take_all(&mut self) -> (taken: Self)
        ensures
            taken == *old(self),
    {
        let mut taken = PaintNesting::new();
        std::mem::swap(&mut taken, self);
        taken
    }

    /// Number of open clips.
    pub fn clip_depth(&self) -> (depth: usize)
        ensures
            depth == count_open(self.open(), false),
    {
        proof {
            use_type_invariant(self);
        }
        self.clip_depth
    }

    /// Number of open layers.
    pub fn layer_depth(&self) -> (depth: usize)
        ensures
            depth == count_open(self.open(), true),
    {
        proof {
            use_type_invariant(self);
        }
        self.layer_depth
    }

    /// Opens a clip.
    pub fn push_clip(&mut self)
        requires
            old(self).open().len() < usize::MAX,
        ensures
            final(self).open() == old(self).open().push(false),
            final(self).ops() == old(self).ops().push(NestingOp::PushClip),
            final(self).saved() == old(self).saved(),
    {
        proof {
            use_type_invariant(&*self);
            lemma_innermost(self.open@, false);
            lemma_count_push_open(self.open@, false, false);
            lemma_count_push_open(self.open@, true, false);
            lemma_count_push_ops(self.ops@, NestingOp::PushClip, NestingOp::PushClip);
            lemma_count_push_ops(self.ops@, NestingOp::PopClip, NestingOp::PushClip);
            lemma_count_push_ops(self.ops@, NestingOp::PushLayer, NestingOp::PushClip);
            lemma_count_push_ops(self.ops@, NestingOp::PopLayer, NestingOp::PushClip);
        }
        let PaintNesting { mut open, clip_depth, layer_depth, saved, mut ops } = self.take_all();
        open.push(false);
        ops.push(NestingOp::PushClip);
        *self = PaintNesting { open, clip_depth: clip_depth + 1, layer_depth, saved, ops };
    }

    /// Opens a layer.
    pub fn push_layer(&mut self)
        requires
            old(self).open().len() < usize::MAX,
        ensures
            final(self).open() == old(self).open().push(true),
            final(self).ops() == old(self).ops().push(NestingOp::PushLayer),
            final(self).saved() == old(self).saved(),
    {
        proof {
            use_type_invariant(&*self);
            lemma_innermost(self.open@, true);
            lemma_count_push_open(self.open@, false, true);
            lemma_count_push_open(self.open@, true, true);
            lemma_count_push_ops(self.ops@, NestingOp::PushClip, NestingOp::PushLayer);
            lemma_count_push_ops(self.ops@, NestingOp::PopClip, NestingOp::PushLayer);
            lemma_count_push_ops(self.ops@, NestingOp::PushLayer, NestingOp::PushLayer);
            lemma_count_push_ops(self.ops@, NestingOp::PopLayer, NestingOp::PushLayer);
        }
        let PaintNesting { mut open, clip_depth, layer_depth, saved, mut ops } = self.take_all();
        open.push(true);
        ops.push(NestingOp::PushLayer);
        *self = PaintNesting { open, clip_depth, layer_depth: layer_depth + 1, saved, ops };
    }

    fn find_innermost(open: &Vec<bool>, layer: bool) -> (r: Option<usize>)
        ensures
            match r {
                Some(i) => innermost(open@, layer) == Some(i as int),
                None => innermost(open@, layer) is None,
            },
    {
        let mut k = open.len();
        assert(open@.take(k as int) =~= open@);
        while k > 0
            invariant
                k <= open@.len(),
                innermost(open@, layer) == innermost(open@.take(k as int), layer),
            decreases k,
        {
            assert(open@.take(k as int).drop_last() =~= open@.take(k - 1));
            if open[k - 1] == layer {
                return Some(k - 1);
            }
            k = k - 1;
        }
        None
    }

    /// Closes the innermost open entry of one kind, recording its marker;
    /// nothing happens when none is open.
    fn close_innermost(&mut self, layer: bool)
        ensures
            match innermost(old(self).open(), layer) {
                Some(i) => final(self).open() == old(self).open().remove(i) && final(self).ops()
                    == old(self).ops().push(
                    if layer {
                        NestingOp::PopLayer
                    } else {
                        NestingOp::PopClip
                    },
                ),
                None => final(self).open() == old(self).open() && final(self).ops() == old(
                    self,
                ).ops(),
            },
            final(self).saved() == old(self).saved(),
    {
        proof {
            use_type_invariant(&*self);
        }
        match Self::find_innermost(&self.open, layer) {
            None => {},
            Some(at) => {
                let marker = if layer {
                    NestingOp::PopLayer
                } else {
                    NestingOp::PopClip
                };
                proof {
                    lemma_innermost(self.open@, layer);
                    lemma_count_remove(self.open@, at as int, false);
                    lemma_count_remove(self.open@, at as int, true);
                    lemma_count_push_ops(self.ops@, NestingOp::PushClip, marker);
                    lemma_count_push_ops(self.ops@, NestingOp::PopClip, marker);
                    lemma_count_push_ops(self.ops@, NestingOp::PushLayer, marker);
                    lemma_count_push_ops(self.ops@, NestingOp::PopLayer, marker);
                }
                let PaintNesting { mut open, clip_depth, layer_depth, saved, mut ops } =
                    self.take_all();
                open.remove(at);
                ops.push(marker);
                if layer {
                    *self = PaintNesting { open, clip_depth, layer_depth: layer_depth - 1, saved, ops };
                } else {
                    *self = PaintNesting { open, clip_depth: clip_depth - 1, layer_depth, saved, ops };
                }
            },
        }
    }

    /// Closes the innermost open clip (layers opened after it stay open);
    /// nothing happens when no clip is open.
    pub fn pop_clip(&mut self)
        ensures
            match innermost(old(self).open(), false) {
                Some(i) => final(self).open() == old(self).open().remove(i) && final(self).ops()
                    == old(self).ops().push(NestingOp::PopClip),
                None => final(self).open() == old(self).open() && final(self).ops() == old(
                    self,
                ).ops(),
            },
            final(self).saved() == old(self).saved(),
    {
        self.close_innermost(false);
    }

    /// Closes the innermost open layer (clips opened after it stay open);
    /// nothing happens when no layer is open.
    pub fn pop_layer(&mut self)
        ensures
            match innermost(old(self).open(), true) {
                Some(i) => final(self).open() == old(self).open().remove(i) && final(self).ops()
                    == old(self).ops().push(NestingOp::PopLayer),
                None => final(self).open() == old(self).open() && final(self).ops() == old(
                    self,
                ).ops(),
            },
            final(self).saved() == old(self).saved(),
    {
        self.close_innermost(true);
    }

    /// Remembers the current clip depth for the next `restore`.
    pub fn save(&mut self)
        ensures
            final(self).open() == old(self).open(),
            final(self).ops() == old(self).ops(),
            final(self).saved() == old(self).saved().push(count_open(old(self).open(), false) as usize),
    {
        proof {
            use_type_invariant(&*self);
        }
        let PaintNesting { open, clip_depth, layer_depth, mut saved, ops } = self.take_all();
        saved.push(clip_depth);
        *self = PaintNesting { open, clip_depth, layer_depth, saved, ops };
    }

    /// Forgets the most recent `save` and closes the clips opened since it,
    /// innermost first (as a canvas `restore` does); nothing happens when
    /// nothing is saved.
    pub fn restore(&mut self)
        ensures
            old(self).saved().len() == 0 ==> *final(self) == *old(self),
            old(self).saved().len() > 0 ==> ({
                let depth = old(self).saved().last();
                let open = old(self).open();
                let extra: nat = if count_open(open, false) > depth {
                    (count_open(open, false) - depth) as nat
                } else {
                    0
                };
                &&& final(self).saved() == old(self).saved().drop_last()
                &&& final(self).open() == without_clips(open, extra)
                &&& final(self).ops() == old(self).ops() + repeat_op(NestingOp::PopClip, extra)
            }),
    {
        proof {
            use_type_invariant(&*self);
        }
        if self.saved.len() == 0 {
            return;
        }
        let PaintNesting { open, clip_depth, layer_depth, mut saved, ops } = self.take_all();
        let depth = match saved.pop() {
            Some(depth) => depth,
            None => 0,
        };
        *self = PaintNesting { open, clip_depth, layer_depth, saved, ops };
        let ghost start_open = self.open@;
        let ghost start_ops = self.ops@;
        let ghost n: nat = 0;
        while self.clip_depth() > depth
            invariant
                n > 0 ==> count_open(self.open@, false) >= depth,
                self.open@ == without_clips(start_open, n),
                self.ops@ == start_ops + repeat_op(NestingOp::PopClip, n),
                self.saved@ == old(self).saved@.drop_last(),
                count_open(self.open@, false) + n == count_open(start_open, false),
                depth == old(self).saved@.last(),
                start_open == old(self).open@,
                start_ops == old(self).ops@,
            decreases count_open(self.open@, false),
        {
            proof {
                use_type_invariant(&*self);
                lemma_innermost(self.open@, false);
            }
            let ghost before_open = self.open@;
            self.pop_clip();
            proof {
                let i = innermost(before_open, false)->0;
                lemma_count_remove(before_open, i, false);
                n = n + 1;
                assert(self.ops@ =~= start_ops + repeat_op(NestingOp::PopClip, n));
            }
        }
        proof {
            let extra: nat = if count_open(start_open, false) > depth {
                (count_open(start_open, false) - depth) as nat
            } else {
                0
            };
            assert(n == extra);
        }
    }

    /// The markers of the whole recording: those recorded so far, then one
    /// closing marker for everything still open, innermost first. In the
    /// result every clip push has its pop and every layer push has its pop.
    pub fn finish(self) -> (ops: Vec<NestingOp>)
        ensures
            ops@ == self.ops() + closing_ops(self.open()),
            count_ops(ops@, NestingOp::PushClip) == count_ops(ops@, NestingOp::PopClip),
            count_ops(ops@, NestingOp::PushLayer) == count_ops(ops@, NestingOp::PopLayer),
    {
        proof {
            use_type_invariant(&self);
            lemma_closing_counts(self.open@);
            lemma_count_concat_ops(self.ops@, closing_ops(self.open@), NestingOp::PushClip);
            lemma_count_concat_ops(self.ops@, closing_ops(self.open@), NestingOp::PopClip);
            lemma_count_concat_ops(self.ops@, closing_ops(self.open@), NestingOp::PushLayer);
            lemma_count_concat_ops(self.ops@, closing_ops(self.open@), NestingOp::PopLayer);
        }
        let PaintNesting { open, clip_depth, layer_depth, saved, ops } = self;
        let mut open = open;
        let mut ops = ops;
        let ghost all_open = open@;
        let ghost recorded = ops@;
        while open.len() > 0
            invariant
                recorded + closing_ops(all_open) == ops@ + closing_ops(open@),
            decreases open.len(),
        {
            let ghost before = open@;
            let layer = match open.pop() {
                Some(layer) => layer,
                None => false,
            };
            ops.push(if layer {
                NestingOp::PopLayer
            } else {
                NestingOp::PopClip
            });
            proof {
                assert(before.drop_last() =~= open@);
                assert(recorded + closing_ops(all_open) =~= ops@ + closing_ops(open@));
            }
        }
        assert(closing_ops(open@) =~= Seq::<NestingOp>::empty());
        assert(ops@ + closing_ops(open@) =~= ops@);
        ops
    }
}

} // verus!
