use vstd::prelude::*;
use crate::channel::{ChannelClosed, Sender};
use crate::context::ComponentContext;
use crate::message::{tagged, Message};

verus! {

/// Where a stage sends one of its messages.
#[derive(Clone, Copy, Debug, PartialEq, Eq, Structural)]
pub enum Route {
    /// The worker's own output sender.
    Output,
    /// The output sender of the given slot, as the context lists them.
    Slot(usize),
}

/// One message that a stage hands downstream, and where it goes.
pub struct Emission<O> {
    pub route: Route,
    pub message: Message<O>,
}

/// Every emission of `s` that names a slot names one below `n`.
pub open spec fn routes_within<O>(s: Seq<Emission<O>>, n: nat) -> bool {
    forall|i: int| 0 <= i < s.len() ==> match #[trigger] s[i].route {
        Route::Slot(k) => k < n,
        Route::Output => true,
    }
}

/// Emissions that all go to the worker's own output, in the order of `ms`.
pub open spec fn to_output<O>(ms: Seq<Message<O>>) -> Seq<Emission<O>> {
    ms.map_values(|m: Message<O>| Emission { route: Route::Output, message: m })
}

/// A pipeline stage. The runtime starts each worker of a stage with
/// `on_start`, hands it every input message in turn with `on_message`, and
/// closes it with `on_end` once the input has reached end-of-stream; each
/// call returns the messages to send on, in order.
pub trait PipelineComponent: Sized + Send + Sync + 'static {
    type Input: Send + 'static;
    type Output: Send + 'static;

    /// The state in which the stage may take the next event.
    open spec fn inv(&self) -> bool {
        true
    }

    /// The shapes of context the stage runs in: `n_inputs` input receivers
    /// and `n_outputs` output senders.
    open spec fn shape_ok(&self, n_inputs: nat, n_outputs: nat) -> bool {
        true
    }

    /// Whether a worker may run with `n_inputs` input receivers and
    /// `n_outputs` output senders in its context.
    fn accepts(&self, n_inputs: usize, n_outputs: usize) -> (r: bool)
        ensures
            r == self.shape_ok(n_inputs as nat, n_outputs as nat),
    ;

    fn on_start(&mut self, n_inputs: usize, n_outputs: usize) -> (r: Vec<Emission<Self::Output>>)
        requires
            old(self).inv(),
            old(self).shape_ok(n_inputs as nat, n_outputs as nat),
        ensures
            final(self).inv(),
            final(self).shape_ok(n_inputs as nat, n_outputs as nat),
            routes_within(r@, n_outputs as nat),
    ;

    fn on_message(&mut self, msg: Message<Self::Input>, n_inputs: usize, n_outputs: usize) -> (r: Vec<
        Emission<Self::Output>,
    >)
        requires
            old(self).inv(),
            old(self).shape_ok(n_inputs as nat, n_outputs as nat),
        ensures
            final(self).inv(),
            final(self).shape_ok(n_inputs as nat, n_outputs as nat),
            routes_within(r@, n_outputs as nat),
    ;

    fn on_end(&mut self, n_inputs: usize, n_outputs: usize) -> (r: Vec<Emission<Self::Output>>)
        requires
            old(self).inv(),
            old(self).shape_ok(n_inputs as nat, n_outputs as nat),
        ensures
            final(self).inv(),
            final(self).shape_ok(n_inputs as nat, n_outputs as nat),
            routes_within(r@, n_outputs as nat),
    ;
}

/// Emissions that all go to the worker's own output.
pub fn emit_all<O>(ms: Vec<Message<O>>) -> (r: Vec<Emission<O>>)
    ensures
        r@ == to_output(ms@),
{
    let mut r: Vec<Emission<O>> = Vec::new();
    let mut ms = ms;
    let ghost all = ms@;
    while ms.len() > 0
        invariant
            r@ + to_output(ms@) == to_output(all),
        decreases ms.len(),
    {
        let ghost before = ms@;
        let m = ms.remove(0);
        proof {
            assert(before =~= seq![m] + ms@);
            assert(to_output(before) =~= seq![Emission { route: Route::Output, message: m }] + to_output(ms@));
        }
        r.push(Emission { route: Route::Output, message: m });
        proof {
            assert(r@ + to_output(ms@) =~= to_output(all));
        }
    }
    proof {
        assert(r@ =~= to_output(all));
    }
    r
}

/// A single emission to the worker's own output.
pub fn emit_one<O>(m: Message<O>) -> (r: Vec<Emission<O>>)
    ensures
        r@ == to_output(seq![m]),
{
    let mut r: Vec<Emission<O>> = Vec::new();
    r.push(Emission { route: Route::Output, message: m });
    proof {
        assert(r@ =~= to_output(seq![m]));
    }
    r
}

/// An emission that could not be sent: its position among the emissions
/// and the message the channel handed back.
pub struct Undelivered<O> {
    pub index: usize,
    pub message: Message<O>,
}

/// The source tag of the sender that `route` names: the worker's own output,
/// or the context's sender of the slot.
pub open spec fn route_tag<I, O>(route: Route, output: Sender<O>, ctx: ComponentContext<I, O>) -> Option<
    String,
> {
    match route {
        Route::Output => output.source_tag(),
        Route::Slot(k) => ctx.output_senders[k as int].source_tag(),
    }
}

/// Sends each emission in order through `output` or the context's sender of
/// its slot, and stops at the first send that fails, reporting which
/// emission it was and the message that came back.
pub fn deliver<I, O>(out: Vec<Emission<O>>, output: &Sender<O>, ctx: &ComponentContext<I, O>) -> (r: Result<
    (),
    Undelivered<O>,
>)
    requires
        routes_within(out@, ctx.output_senders.len() as nat),
    ensures
        out@.len() == 0 ==> r is Ok,
        r matches Err(u) ==> {
            &&& u.index < out@.len()
            &&& u.message == tagged(out@[u.index as int].message, route_tag(out@[u.index as int].route, *output, *ctx))
        },
{
    let ghost all = out@;
    let mut rest = out;
    let n = rest.len();
    let mut done: usize = 0;
    while rest.len() > 0
        invariant
            routes_within(all, ctx.output_senders.len() as nat),
            all.len() == n,
            done + rest.len() == n,
            all == out@,
            rest@ == all.subrange(done as int, n as int),
        decreases rest.len(),
    {
        let e = rest.remove(0);
        proof {
            assert(e == all[done as int]);
        }
        let sent = match e.route {
            Route::Output => output.send(e.message),
            Route::Slot(k) => ctx.output_senders[k].send(e.message),
        };
        match sent {
            Ok(()) => {},
            Err(ChannelClosed(back)) => {
                return Err(Undelivered { index: done, message: back });
            },
        }
        done = done + 1;
        proof {
            assert(rest@ =~= all.subrange(done as int, n as int));
        }
    }
    Ok(())
}

} // verus!
