use vstd::prelude::*;

use crate::pollable_queue::PollableQueue;
use crate::stage_model::{
    consume_all, drive, lemma_drive_consumes, lemma_drive_heads_consume_all, spec_close,
    spec_extend, spec_feed, spec_poll, StageState,
};

verus! {

/// A pull-based sequence of items that can report, without consuming
/// anything, whether it is permanently exhausted.
///
/// `next` alone cannot distinguish "momentarily empty" from "finished":
/// both return `None`.  `is_done` makes the distinction, and it is
/// monotonic: once a sequence is done, `next` never yields again and the
/// sequence stays done.
pub trait PollableIterator: Sized {
    type Item;

    /// Whether the sequence is permanently exhausted.
    spec fn spec_done(&self) -> bool;

    /// Pull the next item.  `None` means momentarily empty or done.
    fn next(&mut self) -> (r: Option<Self::Item>)
        ensures
            old(self).spec_done() ==> r is None && final(self).spec_done(),
    ;

    /// Report, without pulling, whether the sequence is permanently
    /// exhausted.
    fn is_done(&self) -> (r: bool)
        ensures
            r == self.spec_done(),
    ;

    /// Wrap this sequence and a stateful mapping into a transform stage.
    fn transform_using<F: StatefulMap<Input = Self::Item>>(self, f: F) -> (t: Transform<Self, F>)
        ensures
            t.spec_source() == self,
            t.spec_mapping() == f,
            !t.spec_done_flag(),
    {
        Transform { it: self, f, done: false }
    }
}

/// A stateful mapping from optional input to optional output, applied
/// repeatedly by a transform stage.
///
/// `apply(Some(x))` processes one input item and may yield one output
/// item; `apply(None)` is one finalize step, used to flush buffered state
/// once no further input will arrive.  A stage keeps issuing finalize
/// steps, one per pull, until the mapping answers `None`.
///
/// Each implementation gives a mathematical model of its private state
/// (`Model`, `model`) and two pure transition functions over that model;
/// `apply` must behave exactly as the transitions say.  Inputs and
/// outputs enter the model through `DeepView`, so a mapping over
/// `String` is modelled over `Seq<char>`.
pub trait StatefulMap: Sized {
    type Input: DeepView;
    type Output: DeepView;

    /// Mathematical abstraction of the mapping's private state.
    type Model;

    /// The model of the current state.
    spec fn model(&self) -> Self::Model;

    /// The state after one application to `x`.
    spec fn model_state(m: Self::Model, x: Option<<Self::Input as DeepView>::V>) -> Self::Model;

    /// The output of one application to `x`.
    spec fn model_output(m: Self::Model, x: Option<<Self::Input as DeepView>::V>) -> Option<
        <Self::Output as DeepView>::V,
    >;

    /// Apply the mapping to one optional input.
    fn apply(&mut self, x: Option<Self::Input>) -> (r: Option<Self::Output>)
        ensures
            final(self).model() == Self::model_state(old(self).model(), x.deep_view()),
            r.deep_view() == Self::model_output(old(self).model(), x.deep_view()),
    ;
}

/// A sequence that is fed from outside (a sink) and polled from outside
/// (a source), with a one-way end-of-input signal.
///
/// Feeding a closed transformer is a caller error: `feed` demands an
/// open transformer, and `try_feed` rejects the item instead.
pub trait PollableTransformer<X>: PollableIterator {
    /// Whether `close` has been called.
    spec fn spec_closed(&self) -> bool;

    /// Hand one input item to the transformer.
    fn feed(&mut self, x: X)
        requires
            !old(self).spec_closed(),
        ensures
            !final(self).spec_closed(),
    ;

    /// Hand one input item to the transformer, rejecting it (and leaving
    /// the transformer unchanged) if the transformer is closed.
    fn try_feed(&mut self, x: X) -> (accepted: bool)
        ensures
            accepted == !old(self).spec_closed(),
            !accepted ==> *final(self) == *old(self),
    ;

    /// Signal that no further input will arrive.  One-way and idempotent.
    fn close(&mut self)
        ensures
            final(self).spec_closed(),
    ;
}

/// A transform stage: an inner pollable sequence driven through a
/// stateful mapping, with a `done` flag that becomes (and stays) true
/// once the inner sequence is exhausted and the mapping's finalize pass
/// has yielded its last output.
///
/// The stage owns its source outright.  Over a [`PollableQueue`] this
/// doubles as a capability restriction: external holders of the stage
/// can feed and close the queue and pull transformed output, but they
/// cannot pop raw items past the mapping — only the stage's own
/// polling loop reaches the queue's pull side.
#[derive(Debug)]
pub struct Transform<I, F> {
    pub(crate) it: I,
    pub(crate) f: F,
    pub(crate) done: bool,
}

impl<I, F> Transform<I, F> {
    /// The inner sequence the stage drives.
    pub closed spec fn spec_source(&self) -> I {
        self.it
    }

    /// The stateful mapping the stage applies.
    pub closed spec fn spec_mapping(&self) -> F {
        self.f
    }

    /// The terminal flag: true once the stage is permanently exhausted.
    pub closed spec fn spec_done_flag(&self) -> bool {
        self.done
    }
}

/// A mapping that passes every input item through unchanged: it
/// buffers nothing and has nothing to flush.
#[derive(Debug)]
pub struct PassThrough<T> {
    marker: core::marker::PhantomData<T>,
}

impl<T> PassThrough<T> {
    /// A fresh pass-through mapping.
    pub fn new() -> (r: Self) {
        PassThrough { marker: core::marker::PhantomData }
    }
}

impl<T: DeepView> StatefulMap for PassThrough<T> {
    type Input = T;

    type Output = T;

    type Model = ();

    open spec fn model(&self) -> () {
        ()
    }

    open spec fn model_state(m: (), x: Option<<T as DeepView>::V>) -> () {
        ()
    }

    open spec fn model_output(m: (), x: Option<<T as DeepView>::V>) -> Option<
        <T as DeepView>::V,
    > {
        x
    }

    fn apply(&mut self, x: Option<T>) -> (r: Option<T>) {
        x
    }
}

impl<T: DeepView, F: StatefulMap<Input = T>> Transform<PollableQueue<T>, F> {
    /// The mathematical state of this queue-backed stage: the buffered
    /// input items (as their models), the end-of-input flag, the model
    /// of the mapping's state, and the terminal flag.
    pub open spec fn model(&self) -> StageState<F> {
        StageState {
            buffer: self.spec_source().buffer().map_values(|t: T| t.deep_view()),
            closed: self.spec_source().spec_closed(),
            map: self.spec_mapping().model(),
            done: self.spec_done_flag(),
        }
    }
}

impl<T: DeepView, F: StatefulMap<Input = T>> PollableIterator for Transform<PollableQueue<T>, F> {
    type Item = F::Output;

    open spec fn spec_done(&self) -> bool {
        self.spec_done_flag()
    }

    fn next(&mut self) -> (r: Option<F::Output>)
        ensures
            final(self).model() == spec_poll::<F>(old(self).model()).0,
            r.deep_view() == spec_poll::<F>(old(self).model()).1,
    {
        if self.done {
            return None;
        }
        let ghost s0: StageState<F> = self.model();
        while !self.it.is_done()
            invariant
                s0 == old(self).model(),
                !old(self).spec_done_flag(),
                !self.done,
                !s0.done,
                self.it.spec_closed() == s0.closed,
                drive::<F>(s0.map, s0.buffer) == drive::<F>(
                    self.f.model(),
                    self.it.buffer().map_values(|t: T| t.deep_view()),
                ),
            decreases self.it.buffer().len(),
        {
            let ghost m_pre = self.f.model();
            let ghost buf_pre = self.it.buffer().map_values(|t: T| t.deep_view());
            match self.it.next() {
                None => {
                    proof {
                        assert(buf_pre =~= Seq::<T::V>::empty());
                        assert(self.model() =~= spec_poll::<F>(s0).0);
                    }
                    return None;
                },
                Some(x) => {
                    proof {
                        assert(self.it.buffer().map_values(|t: T| t.deep_view())
                            =~= buf_pre.drop_first());
                        assert(buf_pre[0] == x.deep_view());
                    }
                    match self.f.apply(Some(x)) {
                        None => (),
                        Some(y) => {
                            proof {
                                assert(self.model() =~= spec_poll::<F>(s0).0);
                            }
                            return Some(y);
                        },
                    }
                },
            }
        }
        proof {
            assert(self.it.buffer().map_values(|t: T| t.deep_view()) =~= Seq::<T::V>::empty());
        }
        let r = self.f.apply(None);
        if r.is_none() {
            self.done = true;
        }
        proof {
            assert(self.model() =~= spec_poll::<F>(s0).0);
        }
        r
    }

    fn is_done(&self) -> (r: bool) {
        self.done
    }
}

impl<T: DeepView, F: StatefulMap<Input = T>> PollableTransformer<T> for Transform<
    PollableQueue<T>,
    F,
> {
    open spec fn spec_closed(&self) -> bool {
        self.spec_source().spec_closed()
    }

    fn feed(&mut self, x: T)
        ensures
            final(self).model() == spec_feed::<F>(old(self).model(), x.deep_view()),
    {
        let ghost xv = x.deep_view();
        self.it.push(x);
        proof {
            assert(self.model() =~= spec_feed::<F>(old(self).model(), xv));
        }
    }

    fn try_feed(&mut self, x: T) -> (accepted: bool)
        ensures
            accepted ==> final(self).model() == spec_feed::<F>(old(self).model(), x.deep_view()),
            !accepted ==> final(self).model() == old(self).model(),
    {
        if self.it.closed() {
            false
        } else {
            self.feed(x);
            true
        }
    }

    fn close(&mut self)
        ensures
            final(self).model() == spec_close::<F>(old(self).model()),
    {
        self.it.close();
        proof {
            assert(self.model() =~= spec_close::<F>(old(self).model()));
        }
    }
}

impl<T: DeepView, F: StatefulMap<Input = T>> Transform<PollableQueue<T>, F> {
    /// Feed a batch of input items in order.
    pub fn extend(&mut self, items: Vec<T>)
        requires
            !old(self).spec_closed(),
        ensures
            final(self).model() == spec_extend::<F>(old(self).model(), items.deep_view()),
    {
        let ghost xs = items.deep_view();
        self.it.extend(items);
        proof {
            assert(self.model() =~= spec_extend::<F>(old(self).model(), xs));
        }
    }

    /// Feed a whole batch, then pull until the stage has nothing more
    /// to give right now.  On an open stage this consumes the batch
    /// and all previously buffered input completely and returns every
    /// output produced along the way, in order.  (An open stage is
    /// never done: the terminal flag can only rise after closing.)
    pub fn transform_iter(&mut self, inputs: Vec<T>) -> (outs: Vec<F::Output>)
        requires
            !old(self).spec_closed(),
            !old(self).spec_done_flag(),
        ensures
            ({
                let full = old(self).model().buffer + inputs.deep_view();
                let (mf, ys) = consume_all::<F>(old(self).model().map, full);
                &&& final(self).model() == (StageState::<F> {
                    buffer: Seq::<<T as DeepView>::V>::empty(),
                    closed: false,
                    map: mf,
                    done: false,
                })
                &&& outs.deep_view() == ys
            }),
    {
        self.extend(inputs);
        let ghost mf_total = consume_all::<F>(self.model().map, self.model().buffer).0;
        let ghost ys_total = consume_all::<F>(self.model().map, self.model().buffer).1;
        let mut outs: Vec<F::Output> = Vec::new();
        loop
            invariant
                !self.spec_done_flag(),
                !self.spec_closed(),
                consume_all::<F>(self.model().map, self.model().buffer).0 == mf_total,
                outs.deep_view() + consume_all::<F>(self.model().map, self.model().buffer).1
                    == ys_total,
            ensures
                self.model().buffer.len() == 0,
                !self.spec_closed(),
                !self.spec_done_flag(),
                self.model().map == mf_total,
                outs.deep_view() == ys_total,
            decreases self.model().buffer.len(),
        {
            let ghost pre = self.model();
            let ghost outs_pre = outs.deep_view();
            match self.next() {
                Some(y) => {
                    proof {
                        lemma_drive_consumes::<F>(pre.map, pre.buffer);
                        lemma_drive_heads_consume_all::<F>(pre.map, pre.buffer);
                    }
                    outs.push(y);
                    proof {
                        assert(outs.deep_view() =~= outs_pre.push(y.deep_view()));
                        assert(outs.deep_view() + consume_all::<F>(
                            self.model().map,
                            self.model().buffer,
                        ).1 =~= ys_total);
                    }
                },
                None => {
                    proof {
                        lemma_drive_consumes::<F>(pre.map, pre.buffer);
                        lemma_drive_heads_consume_all::<F>(pre.map, pre.buffer);
                        assert(outs.deep_view() =~= ys_total);
                    }
                    break ;
                },
            }
        }
        proof {
            assert(self.model() =~= (StageState::<F> {
                buffer: Seq::<<T as DeepView>::V>::empty(),
                closed: false,
                map: mf_total,
                done: false,
            }));
        }
        outs
    }
}

} // verus!
