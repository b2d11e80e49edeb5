use vstd::prelude::*;
use crate::component::{emit_one, to_output, Emission, PipelineComponent};
use crate::message::{payloads, Message};

verus! {

/// A stateless stage that applies a function to the payload of every
/// message and keeps its timestamps and source tag.
#[verifier::reject_recursive_types(I)]
#[verifier::reject_recursive_types(O)]
pub struct Mapper<I, O, F: Fn(I) -> O> {
    transform: F,
    _types: core::marker::PhantomData<(I, O)>,
}

/// `out` is `m` with its payload replaced by a possible result of `f`.
pub open spec fn mapped<I, O, F: Fn(I) -> O>(f: F, m: Message<I>, out: Message<O>) -> bool {
    &&& call_ensures(f, (m.payload,), out.payload)
    &&& out.event_timestamp == m.event_timestamp
    &&& out.ingestion_timestamp == m.ingestion_timestamp
    &&& out.source_id == m.source_id
}

impl<I, O, F: Fn(I) -> O> Mapper<I, O, F> {
    pub closed spec fn transform(&self) -> F {
        self.transform
    }

    /// `f` can be called on every payload.
    pub open spec fn total(&self) -> bool {
        forall|a: I| call_requires(self.transform(), (a,))
    }

    pub fn new(transform: F) -> (r: Self)
        ensures
            r.transform() == transform,
    {
        Mapper { transform, _types: core::marker::PhantomData }
    }

    /// `msg` with its payload transformed.
    pub fn apply(&self, msg: Message<I>) -> (r: Message<O>)
        requires
            self.total(),
        ensures
            mapped(self.transform(), msg, r),
    {
        let Message { payload, event_timestamp, ingestion_timestamp, source_id } = msg;
        let out = (self.transform)(payload);
        Message { payload: out, event_timestamp, ingestion_timestamp, source_id }
    }

    /// Every message of `msgs` transformed, in order.
    pub fn process_all(&self, msgs: Vec<Message<I>>) -> (r: Vec<Message<O>>)
        requires
            self.total(),
        ensures
            r.len() == msgs.len(),
            forall|i: int| 0 <= i < msgs.len() ==> mapped(self.transform(), msgs[i], #[trigger] r[i]),
    {
        let ghost all = msgs@;
        let mut rest = msgs;
        let mut r: Vec<Message<O>> = Vec::new();
        while rest.len() > 0
            invariant
                self.total(),
                r.len() + rest.len() == all.len(),
                rest@ == all.subrange(r.len() as int, all.len() as int),
                forall|i: int| 0 <= i < r.len() ==> mapped(self.transform(), all[i], #[trigger] r[i]),
            decreases rest.len(),
        {
            let m = rest.remove(0);
            proof {
                assert(m == all[r.len() as int]);
            }
            r.push(self.apply(m));
            proof {
                assert(rest@ =~= all.subrange(r.len() as int, all.len() as int));
            }
        }
        r
    }
}

/// Mapping a stream with a function `g` delivers `g` of each payload, in the
/// order the payloads came in.
pub proof fn lemma_map_in_order<I, O, F: Fn(I) -> O>(
    f: F,
    g: spec_fn(I) -> O,
    inputs: Seq<Message<I>>,
    outputs: Seq<Message<O>>,
)
    requires
        forall|x: I, y: O| call_ensures(f, (x,), y) ==> y == g(x),
        outputs.len() == inputs.len(),
        forall|i: int| 0 <= i < inputs.len() ==> mapped(f, inputs[i], #[trigger] outputs[i]),
    ensures
        payloads(outputs) == payloads(inputs).map_values(g),
{
    assert forall|i: int| 0 <= i < outputs.len() implies #[trigger] payloads(outputs)[i] == payloads(inputs).map_values(g)[i] by {
        assert(mapped(f, inputs[i], outputs[i]));
    }
    assert(payloads(outputs) =~= payloads(inputs).map_values(g));
}

impl<I, O, F> PipelineComponent for Mapper<I, O, F> where
    I: Send + Sync + 'static,
    O: Send + Sync + 'static,
    F: Fn(I) -> O + Send + Sync + 'static,
 {
    type Input = I;
    type Output = O;

    open spec fn inv(&self) -> bool {
        self.total()
    }

    fn accepts(&self, n_inputs: usize, n_outputs: usize) -> (r: bool) {
        true
    }

    fn on_start(&mut self, n_inputs: usize, n_outputs: usize) -> (r: Vec<Emission<O>>) {
        Vec::new()
    }

    /// Emits `msg` transformed.
    fn on_message(&mut self, msg: Message<I>, n_inputs: usize, n_outputs: usize) -> (r: Vec<Emission<O>>)
        ensures
            r.len() == 1,
            r@ == to_output(seq![r[0].message]),
            mapped(old(self).transform(), msg, r[0].message),
            *final(self) == *old(self),
    {
        let out = self.apply(msg);
        let r = emit_one(out);
        proof {
            assert(r@[0].message == out);
        }
        r
    }

    fn on_end(&mut self, n_inputs: usize, n_outputs: usize) -> (r: Vec<Emission<O>>) {
        Vec::new()
    }
}

} // verus!
