use vstd::prelude::*;

use crate::pollable_iterator::{PassThrough, StatefulMap};

verus! {

/// The model of a mapping's input items.
pub type InView<F> = <<F as StatefulMap>::Input as DeepView>::V;

/// The model of a mapping's output items.
pub type OutView<F> = <<F as StatefulMap>::Output as DeepView>::V;

/// The mathematical state of a queue-backed transform stage: the fed
/// but not yet consumed items, the end-of-input flag, the model of the
/// mapping's state, and the terminal flag.
#[verifier::ext_equal]
pub struct StageState<F: StatefulMap> {
    /// Items fed and not yet handed to the mapping, oldest first.
    pub buffer: Seq<InView<F>>,
    /// Whether end of input has been signalled.
    pub closed: bool,
    /// The model of the mapping's private state.
    pub map: F::Model,
    /// Whether the stage is permanently exhausted.
    pub done: bool,
}

/// Hand buffered items to the mapping one at a time until it yields an
/// output or the items run out: the mapping state reached, the items
/// left over, and the output produced, if any.
pub open spec fn drive<F: StatefulMap>(m: F::Model, items: Seq<InView<F>>) -> (
    F::Model,
    Seq<InView<F>>,
    Option<OutView<F>>,
)
    decreases items.len(),
{
    if items.len() == 0 {
        (m, items, None::<OutView<F>>)
    } else {
        let m2 = F::model_state(m, Some(items[0]));
        let out = F::model_output(m, Some(items[0]));
        if out is Some {
            (m2, items.drop_first(), out)
        } else {
            drive::<F>(m2, items.drop_first())
        }
    }
}

/// One pull against the stage, as a pure transition: the state
/// afterwards and the item returned.
///
/// A done stage returns nothing and stays put.  Otherwise buffered
/// items are driven through the mapping; an output is returned as soon
/// as one appears.  If the buffer runs out first, an open stage simply
/// reports "momentarily empty", while a closed stage issues one
/// finalize step: its output is returned, and the stage becomes done
/// exactly when that step yields nothing.
pub open spec fn spec_poll<F: StatefulMap>(s: StageState<F>) -> (
    StageState<F>,
    Option<OutView<F>>,
) {
    if s.done {
        (s, None::<OutView<F>>)
    } else {
        let (m2, rest, out) = drive::<F>(s.map, s.buffer);
        if out is Some {
            (StageState { buffer: rest, map: m2, ..s }, out)
        } else if !s.closed {
            (StageState { buffer: rest, map: m2, ..s }, None::<OutView<F>>)
        } else {
            let fin = F::model_output(m2, None);
            let m3 = F::model_state(m2, None);
            (StageState { buffer: rest, map: m3, done: fin is None, ..s }, fin)
        }
    }
}

/// Feeding appends one item to the buffer and changes nothing else.
pub open spec fn spec_feed<F: StatefulMap>(s: StageState<F>, x: InView<F>) -> StageState<F> {
    StageState { buffer: s.buffer.push(x), ..s }
}

/// Feeding a batch appends the items in order and changes nothing else.
pub open spec fn spec_extend<F: StatefulMap>(s: StageState<F>, xs: Seq<InView<F>>) -> StageState<
    F,
> {
    StageState { buffer: s.buffer + xs, ..s }
}

/// Closing raises the end-of-input flag and changes nothing else.
pub open spec fn spec_close<F: StatefulMap>(s: StageState<F>) -> StageState<F> {
    StageState { closed: true, ..s }
}

/// The mapping state reached and every output produced while the
/// mapping consumes all the given items in order.
pub open spec fn consume_all<F: StatefulMap>(m: F::Model, items: Seq<InView<F>>) -> (
    F::Model,
    Seq<OutView<F>>,
)
    decreases items.len(),
{
    if items.len() == 0 {
        (m, Seq::<OutView<F>>::empty())
    } else {
        let m2 = F::model_state(m, Some(items[0]));
        let out = F::model_output(m, Some(items[0]));
        let (mf, outs) = consume_all::<F>(m2, items.drop_first());
        if out is Some {
            (mf, seq![out->0] + outs)
        } else {
            (mf, outs)
        }
    }
}

/// The finalize pass from mapping state `m` yields exactly the outputs
/// `outs`, one per step, and then reports exhaustion.
pub open spec fn flushes_to<F: StatefulMap>(m: F::Model, outs: Seq<OutView<F>>) -> bool
    decreases outs.len(),
{
    if outs.len() == 0 {
        F::model_output(m, None) is None
    } else {
        &&& F::model_output(m, None) == Some(outs[0])
        &&& flushes_to::<F>(F::model_state(m, None), outs.drop_first())
    }
}

/// The state reached after `n` successive pulls against the stage, and
/// what each pull returned, in order.
pub open spec fn poll_results<F: StatefulMap>(s: StageState<F>, n: nat) -> (
    StageState<F>,
    Seq<Option<OutView<F>>>,
)
    decreases n,
{
    if n == 0 {
        (s, Seq::<Option<OutView<F>>>::empty())
    } else {
        let (s2, r) = spec_poll::<F>(s);
        let (s3, rs) = poll_results::<F>(s2, (n - 1) as nat);
        (s3, seq![r] + rs)
    }
}

/// Exhaustion is permanent: a done stage is left exactly as it was by
/// a pull, which returns nothing, and neither feeding nor closing ever
/// lowers the flag.
pub proof fn lemma_done_is_permanent<F: StatefulMap>(s: StageState<F>, x: InView<F>)
    requires
        s.done,
    ensures
        spec_poll::<F>(s).0 == s,
        spec_poll::<F>(s).1 is None,
        spec_feed::<F>(s, x).done,
        spec_close::<F>(s).done,
{
}

/// End of input is permanent: no transition lowers the closed flag.
pub proof fn lemma_closed_is_permanent<F: StatefulMap>(s: StageState<F>, x: InView<F>)
    requires
        s.closed,
    ensures
        spec_poll::<F>(s).0.closed,
        spec_feed::<F>(s, x).closed,
        spec_close::<F>(s).closed,
{
}

/// The terminal flag can only rise after end of input: every state a
/// stage can reach satisfies `done ==> closed`, since polling raises
/// `done` only in a closed stage and no transition lowers `closed`.
/// In particular an open stage is never done.
pub proof fn lemma_done_only_after_close<F: StatefulMap>(s: StageState<F>, x: InView<F>)
    requires
        s.done ==> s.closed,
    ensures
        spec_poll::<F>(s).0.done ==> spec_poll::<F>(s).0.closed,
        spec_feed::<F>(s, x).done ==> spec_feed::<F>(s, x).closed,
        spec_close::<F>(s).done ==> spec_close::<F>(s).closed,
{
}

/// Closing twice has the same effect as closing once.
pub proof fn lemma_close_idempotent<F: StatefulMap>(s: StageState<F>)
    ensures
        spec_close::<F>(spec_close::<F>(s)) == spec_close::<F>(s),
{
    assert(spec_close::<F>(spec_close::<F>(s)) =~= spec_close::<F>(s));
}

/// Driving never grows the buffer; it consumes at least one item when
/// it yields an output and all of them when it yields none.
pub proof fn lemma_drive_consumes<F: StatefulMap>(m: F::Model, items: Seq<InView<F>>)
    ensures
        ({
            let (m2, rest, out) = drive::<F>(m, items);
            &&& rest.len() <= items.len()
            &&& (out is Some ==> rest.len() < items.len())
            &&& (out is None ==> rest.len() == 0 && m2 == consume_all::<F>(m, items).0)
        }),
    decreases items.len(),
{
    if items.len() > 0 {
        let m2 = F::model_state(m, Some(items[0]));
        if F::model_output(m, Some(items[0])) is None {
            lemma_drive_consumes::<F>(m2, items.drop_first());
        }
    }
}

/// Driving takes the first step of consuming everything: the aggregate
/// outputs are the driven output, if any, followed by the aggregate
/// outputs of the leftovers.
pub proof fn lemma_drive_heads_consume_all<F: StatefulMap>(m: F::Model, items: Seq<InView<F>>)
    ensures
        ({
            let (m2, rest, out) = drive::<F>(m, items);
            if out is Some {
                consume_all::<F>(m, items).0 == consume_all::<F>(m2, rest).0
                    && consume_all::<F>(m, items).1 == seq![out->0] + consume_all::<F>(m2, rest).1
            } else {
                consume_all::<F>(m, items).1 == Seq::<OutView<F>>::empty()
            }
        }),
    decreases items.len(),
{
    if items.len() > 0 {
        let m2 = F::model_state(m, Some(items[0]));
        if F::model_output(m, Some(items[0])) is None {
            lemma_drive_heads_consume_all::<F>(m2, items.drop_first());
        }
    }
}

/// The drain theorem.  Once input has ended, the stage still owes
/// exactly the outputs of the remaining buffered items followed by the
/// finalize outputs.  It hands them out one per pull, in order, with no
/// loss and no reordering; the next pull after that returns nothing and
/// leaves the stage done.
pub proof fn lemma_closed_drain<F: StatefulMap>(
    s: StageState<F>,
    mid: Seq<OutView<F>>,
    fin: Seq<OutView<F>>,
)
    requires
        s.closed,
        !s.done,
        consume_all::<F>(s.map, s.buffer).1 == mid,
        flushes_to::<F>(consume_all::<F>(s.map, s.buffer).0, fin),
    ensures
        ({
            let (sf, rs) = poll_results::<F>(s, (mid.len() + fin.len() + 1) as nat);
            &&& rs == (mid + fin).map_values(|y: OutView<F>| Some(y)).push(None::<OutView<F>>)
            &&& sf.done
        }),
    decreases mid.len() + fin.len(),
{
    lemma_drive_consumes::<F>(s.map, s.buffer);
    lemma_drive_heads_consume_all::<F>(s.map, s.buffer);
    let (m2, rest, out) = drive::<F>(s.map, s.buffer);
    let (s2, r) = spec_poll::<F>(s);
    if out is Some {
        let s3 = StageState { buffer: rest, map: m2, ..s };
        assert(s2 == s3);
        assert(mid[0] == out->0);
        assert(consume_all::<F>(s3.map, s3.buffer).1 =~= mid.drop_first());
        lemma_closed_drain::<F>(s3, mid.drop_first(), fin);
        let (sf, rs) = poll_results::<F>(s3, (mid.len() + fin.len()) as nat);
        assert((mid.drop_first() + fin) =~= (mid + fin).drop_first());
        assert(seq![r] + rs =~= (mid + fin).map_values(|y: OutView<F>| Some(y)).push(
            None::<OutView<F>>,
        ));
    } else {
        assert(mid =~= Seq::<OutView<F>>::empty());
        let fin_out = F::model_output(m2, None);
        let m3 = F::model_state(m2, None);
        if fin.len() == 0 {
            assert(fin_out is None);
            assert(r is None);
            assert(s2.done);
            assert(poll_results::<F>(s2, 0nat) == (s2, Seq::<Option<OutView<F>>>::empty()));
            let (sf, rs) = poll_results::<F>(s, 1nat);
            assert(sf == s2);
            assert(rs =~= seq![None::<OutView<F>>]);
            assert(mid + fin =~= Seq::<OutView<F>>::empty());
            assert(rs =~= (mid + fin).map_values(|y: OutView<F>| Some(y)).push(
                None::<OutView<F>>,
            ));
        } else {
            assert(fin_out == Some(fin[0]));
            let s3 = StageState { buffer: rest, map: m3, done: false, ..s };
            assert(s2 == s3);
            assert(consume_all::<F>(s3.map, s3.buffer).1 =~= Seq::<OutView<F>>::empty());
            lemma_closed_drain::<F>(s3, Seq::<OutView<F>>::empty(), fin.drop_first());
            let (sf, rs) = poll_results::<F>(s3, (fin.len()) as nat);
            assert((Seq::<OutView<F>>::empty() + fin.drop_first()) =~= (mid
                + fin).drop_first());
            assert(seq![r] + rs =~= (mid + fin).map_values(|y: OutView<F>| Some(y)).push(
                None::<OutView<F>>,
            ));
        }
    }
}

/// Finalize drains fully.  A stage that is closed and has no buffered
/// input left, and whose mapping still owes exactly `fin` buffered
/// outputs, answers exactly `fin.len()` productive pulls, then one
/// empty pull, and is then done.
pub proof fn lemma_finalize_drains_fully<F: StatefulMap>(s: StageState<F>, fin: Seq<OutView<F>>)
    requires
        s.closed,
        !s.done,
        s.buffer.len() == 0,
        flushes_to::<F>(s.map, fin),
    ensures
        ({
            let (sf, rs) = poll_results::<F>(s, (fin.len() + 1) as nat);
            &&& rs == fin.map_values(|y: OutView<F>| Some(y)).push(None::<OutView<F>>)
            &&& sf.done
        }),
{
    assert(consume_all::<F>(s.map, s.buffer) == (s.map, Seq::<OutView<F>>::empty()));
    lemma_closed_drain::<F>(s, Seq::<OutView<F>>::empty(), fin);
    assert(Seq::<OutView<F>>::empty() + fin =~= fin);
}

/// A pass-through mapping returns every consumed item, in order.
proof fn lemma_pass_through_consume_all<T: DeepView>(xs: Seq<<T as DeepView>::V>)
    ensures
        consume_all::<PassThrough<T>>((), xs).1 == xs,
    decreases xs.len(),
{
    if xs.len() > 0 {
        lemma_pass_through_consume_all::<T>(xs.drop_first());
        assert(consume_all::<PassThrough<T>>((), xs).1 =~= xs);
    } else {
        assert(consume_all::<PassThrough<T>>((), xs).1 =~= xs);
    }
}

/// No loss and no reordering.  A pass-through stage that has been fed
/// its buffered items and closed hands back exactly those items, in
/// feed order, one per pull; the next pull returns nothing and leaves
/// the stage done.
pub proof fn lemma_pass_through_keeps_order<T: DeepView>(s: StageState<PassThrough<T>>)
    requires
        s.closed,
        !s.done,
    ensures
        ({
            let (sf, rs) = poll_results::<PassThrough<T>>(s, (s.buffer.len() + 1) as nat);
            &&& rs == s.buffer.map_values(|y: <T as DeepView>::V| Some(y)).push(
                None::<<T as DeepView>::V>,
            )
            &&& sf.done
        }),
{
    lemma_pass_through_consume_all::<T>(s.buffer);
    lemma_closed_drain::<PassThrough<T>>(s, s.buffer, Seq::<<T as DeepView>::V>::empty());
    assert(s.buffer + Seq::<<T as DeepView>::V>::empty() =~= s.buffer);
}

} // verus!
