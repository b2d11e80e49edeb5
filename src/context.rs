use vstd::prelude::*;
use crate::channel::{Receiver, Sender};

verus! {

/// What a running stage sees of its task: every input receiver and every
/// output sender, one per slot.
#[verifier::reject_recursive_types(Input)]
#[verifier::reject_recursive_types(Output)]
pub struct ComponentContext<Input, Output> {
    pub output_senders: Vec<Sender<Output>>,
    pub input_receivers: Vec<Receiver<Input>>,
}

impl<Input, Output> ComponentContext<Input, Output> {
    pub fn get_output_senders(&self) -> (r: &Vec<Sender<Output>>)
        ensures
            r == &self.output_senders,
    {
        &self.output_senders
    }

    pub fn get_input_receivers(&self) -> (r: &Vec<Receiver<Input>>)
        ensures
            r == &self.input_receivers,
    {
        &self.input_receivers
    }
}

/// A new vector of handles on the same channels as `v`, in the same order.
pub fn clone_senders<T>(v: &Vec<Sender<T>>) -> (r: Vec<Sender<T>>)
    ensures
        r.len() == v.len(),
        forall|i: int| 0 <= i < v.len() ==> {
            &&& #[trigger] r[i].channel_id() == v[i].channel_id()
            &&& r[i].source_tag() == v[i].source_tag()
        },
{
    let mut r: Vec<Sender<T>> = Vec::new();
    let mut i: usize = 0;
    while i < v.len()
        invariant
            i <= v.len(),
            r.len() == i,
            forall|k: int| 0 <= k < i ==> {
                &&& #[trigger] r[k].channel_id() == v[k].channel_id()
                &&& r[k].source_tag() == v[k].source_tag()
            },
        decreases v.len() - i,
    {
        r.push(v[i].clone());
        i = i + 1;
    }
    r
}

/// A new vector of handles on the same channels as `v`, in the same order.
pub fn clone_receivers<T>(v: &Vec<Receiver<T>>) -> (r: Vec<Receiver<T>>)
    ensures
        r.len() == v.len(),
        forall|i: int| 0 <= i < v.len() ==> #[trigger] r[i].channel_id() == v[i].channel_id(),
{
    let mut r: Vec<Receiver<T>> = Vec::new();
    let mut i: usize = 0;
    while i < v.len()
        invariant
            i <= v.len(),
            r.len() == i,
            forall|k: int| 0 <= k < i ==> #[trigger] r[k].channel_id() == v[k].channel_id(),
        decreases v.len() - i,
    {
        r.push(v[i].clone());
        i = i + 1;
    }
    r
}

impl<Input, Output> Clone for ComponentContext<Input, Output> {
    fn clone(&self) -> (r: Self)
        ensures
            r.output_senders.len() == self.output_senders.len(),
            r.input_receivers.len() == self.input_receivers.len(),
            forall|i: int| 0 <= i < self.output_senders.len()
                ==> #[trigger] r.output_senders[i].channel_id() == self.output_senders[i].channel_id(),
            forall|i: int| 0 <= i < self.input_receivers.len()
                ==> #[trigger] r.input_receivers[i].channel_id() == self.input_receivers[i].channel_id(),
    {
        ComponentContext {
            output_senders: clone_senders(&self.output_senders),
            input_receivers: clone_receivers(&self.input_receivers),
        }
    }
}

} // verus!
