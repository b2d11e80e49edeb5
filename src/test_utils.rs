use vstd::prelude::*;
use crate::component::{emit_all, emit_one, routes_within, Emission, PipelineComponent, Route};
use crate::message::Message;

verus! {

/// A source that emits the numbers 0, 1, ..., count - 1.
pub struct NumberSource {
    count: usize,
}

impl NumberSource {
    pub closed spec fn count(&self) -> usize {
        self.count
    }

    /// A source of the numbers 0, 1 and 2.
    pub fn new() -> (r: Self)
        ensures
            r.count() == 3,
    {
        NumberSource { count: 3 }
    }

    /// The messages the source emits, in order.
    pub fn produce(&self) -> (r: Vec<Message<i32>>)
        ensures
            r.len() == self.count(),
            forall|i: int| 0 <= i < r.len() ==> (#[trigger] r[i]).payload == i as i32,
    {
        let mut r: Vec<Message<i32>> = Vec::new();
        let mut i: usize = 0;
        while i < self.count
            invariant
                i <= self.count,
                r.len() == i,
                forall|k: int| 0 <= k < i ==> (#[trigger] r[k]).payload == k as i32,
            decreases self.count - i,
        {
            r.push(Message::new(i as i32));
            i = i + 1;
        }
        r
    }
}

impl PipelineComponent for NumberSource {
    type Input = ();
    type Output = i32;

    fn accepts(&self, n_inputs: usize, n_outputs: usize) -> (r: bool) {
        true
    }

    /// Emits every number at once.
    fn on_start(&mut self, n_inputs: usize, n_outputs: usize) -> (r: Vec<Emission<i32>>)
        ensures
            r.len() == old(self).count(),
            forall|i: int| 0 <= i < r.len() ==> (#[trigger] r[i]).message.payload == i as i32,
    {
        emit_all(self.produce())
    }

    fn on_message(&mut self, msg: Message<()>, n_inputs: usize, n_outputs: usize) -> (r: Vec<Emission<i32>>) {
        Vec::new()
    }

    fn on_end(&mut self, n_inputs: usize, n_outputs: usize) -> (r: Vec<Emission<i32>>) {
        Vec::new()
    }
}

/// A stage that doubles every number, wrapping around on overflow.
pub struct NumberDoubler;

impl NumberDoubler {
    pub fn new() -> (r: Self) {
        NumberDoubler
    }

    /// `msg` with its number doubled.
    pub fn double(&self, msg: Message<i32>) -> (r: Message<i32>)
        ensures
            i32::MIN <= 2 * msg.payload <= i32::MAX ==> r.payload == 2 * msg.payload,
            r.event_timestamp == msg.event_timestamp,
            r.ingestion_timestamp == msg.ingestion_timestamp,
            r.source_id == msg.source_id,
    {
        let num = msg.payload;
        msg.with_new_payload(num.wrapping_add(num))
    }
}

impl PipelineComponent for NumberDoubler {
    type Input = i32;
    type Output = i32;

    fn accepts(&self, n_inputs: usize, n_outputs: usize) -> (r: bool) {
        true
    }

    fn on_start(&mut self, n_inputs: usize, n_outputs: usize) -> (r: Vec<Emission<i32>>) {
        Vec::new()
    }

    /// Emits `msg` doubled.
    fn on_message(&mut self, msg: Message<i32>, n_inputs: usize, n_outputs: usize) -> (r: Vec<Emission<i32>>)
        ensures
            r.len() == 1,
            r[0].route == Route::Output,
            i32::MIN <= 2 * msg.payload <= i32::MAX ==> r[0].message.payload == 2 * msg.payload,
    {
        emit_one(self.double(msg))
    }

    fn on_end(&mut self, n_inputs: usize, n_outputs: usize) -> (r: Vec<Emission<i32>>) {
        Vec::new()
    }
}

/// A sink that keeps every number it receives, in arrival order.
pub struct NumberCollector {
    pub results: Vec<i32>,
}

impl NumberCollector {
    pub fn new() -> (r: Self)
        ensures
            r.results.len() == 0,
    {
        NumberCollector { results: Vec::new() }
    }
}

impl PipelineComponent for NumberCollector {
    type Input = i32;
    type Output = ();

    fn accepts(&self, n_inputs: usize, n_outputs: usize) -> (r: bool) {
        true
    }

    fn on_start(&mut self, n_inputs: usize, n_outputs: usize) -> (r: Vec<Emission<()>>) {
        Vec::new()
    }

    /// Keeps the number of `msg`.
    fn on_message(&mut self, msg: Message<i32>, n_inputs: usize, n_outputs: usize) -> (r: Vec<Emission<()>>)
        ensures
            r.len() == 0,
            final(self).results@ == old(self).results@.push(msg.payload),
    {
        self.results.push(msg.payload);
        Vec::new()
    }

    fn on_end(&mut self, n_inputs: usize, n_outputs: usize) -> (r: Vec<Emission<()>>) {
        Vec::new()
    }
}

/// A source that emits a fixed list of strings.
pub struct StringSource {
    strings: Vec<String>,
}

impl StringSource {
    pub closed spec fn strings(&self) -> Seq<String> {
        self.strings@
    }

    /// A source of "0", "1" and "2".
    pub fn new() -> (r: Self)
        ensures
            r.strings().len() == 3,
            r.strings()[0]@ == "0"@,
            r.strings()[1]@ == "1"@,
            r.strings()[2]@ == "2"@,
    {
        let mut strings: Vec<String> = Vec::new();
        strings.push("0".to_owned());
        strings.push("1".to_owned());
        strings.push("2".to_owned());
        StringSource { strings }
    }

    /// The messages the source emits, in order.
    pub fn produce(&self) -> (r: Vec<Message<String>>)
        ensures
            r.len() == self.strings().len(),
            forall|i: int| 0 <= i < r.len() ==> (#[trigger] r[i]).payload@ == self.strings()[i]@,
    {
        let mut r: Vec<Message<String>> = Vec::new();
        let mut i: usize = 0;
        while i < self.strings.len()
            invariant
                i <= self.strings.len(),
                r.len() == i,
                forall|k: int| 0 <= k < i ==> (#[trigger] r[k]).payload@ == self.strings()[k]@,
            decreases self.strings.len() - i,
        {
            r.push(Message::new(self.strings[i].clone()));
            i = i + 1;
        }
        r
    }
}

impl PipelineComponent for StringSource {
    type Input = ();
    type Output = String;

    fn accepts(&self, n_inputs: usize, n_outputs: usize) -> (r: bool) {
        true
    }

    /// Emits every string at once.
    fn on_start(&mut self, n_inputs: usize, n_outputs: usize) -> (r: Vec<Emission<String>>)
        ensures
            r.len() == old(self).strings().len(),
            forall|i: int| 0 <= i < r.len() ==> (#[trigger] r[i]).message.payload@ == old(self).strings()[i]@,
    {
        emit_all(self.produce())
    }

    fn on_message(&mut self, msg: Message<()>, n_inputs: usize, n_outputs: usize) -> (r: Vec<Emission<String>>) {
        Vec::new()
    }

    fn on_end(&mut self, n_inputs: usize, n_outputs: usize) -> (r: Vec<Emission<String>>) {
        Vec::new()
    }
}

/// A sink that keeps every string it receives, in arrival order.
pub struct StringCollector {
    pub results: Vec<String>,
}

impl StringCollector {
    pub fn new() -> (r: Self)
        ensures
            r.results.len() == 0,
    {
        StringCollector { results: Vec::new() }
    }
}

impl PipelineComponent for StringCollector {
    type Input = String;
    type Output = ();

    fn accepts(&self, n_inputs: usize, n_outputs: usize) -> (r: bool) {
        true
    }

    fn on_start(&mut self, n_inputs: usize, n_outputs: usize) -> (r: Vec<Emission<()>>) {
        Vec::new()
    }

    /// Keeps the string of `msg`.
    fn on_message(&mut self, msg: Message<String>, n_inputs: usize, n_outputs: usize) -> (r: Vec<Emission<()>>)
        ensures
            r.len() == 0,
            final(self).results@ == old(self).results@.push(msg.payload),
    {
        self.results.push(msg.payload);
        Vec::new()
    }

    fn on_end(&mut self, n_inputs: usize, n_outputs: usize) -> (r: Vec<Emission<()>>) {
        Vec::new()
    }
}

/// A source that emits strings, each after its own delay in milliseconds.
pub struct DelayedStringSource {
    items: Vec<(String, u64)>,
}

impl DelayedStringSource {
    pub closed spec fn items(&self) -> Seq<(String, u64)> {
        self.items@
    }

    pub fn new(items: Vec<(String, u64)>) -> (r: Self)
        ensures
            r.items() == items@,
    {
        DelayedStringSource { items }
    }

    /// The strings with their delays, in the order they are sent.
    pub fn schedule(&self) -> (r: &Vec<(String, u64)>)
        ensures
            r@ == self.items(),
    {
        &self.items
    }
}

impl PipelineComponent for DelayedStringSource {
    type Input = ();
    type Output = String;

    fn accepts(&self, n_inputs: usize, n_outputs: usize) -> (r: bool) {
        true
    }

    /// Emits every string, in order; waiting out the delays is the runtime's part.
    fn on_start(&mut self, n_inputs: usize, n_outputs: usize) -> (r: Vec<Emission<String>>)
        ensures
            r.len() == old(self).items().len(),
            forall|i: int| 0 <= i < r.len() ==> (#[trigger] r[i]).message.payload@ == old(self).items()[i].0@,
    {
        let mut r: Vec<Emission<String>> = Vec::new();
        let mut i: usize = 0;
        while i < self.items.len()
            invariant
                i <= self.items.len(),
                r.len() == i,
                forall|k: int| 0 <= k < i ==> (#[trigger] r[k]).message.payload@ == self.items()[k].0@,
                forall|k: int| 0 <= k < i ==> (#[trigger] r[k]).route == Route::Output,
            decreases self.items.len() - i,
        {
            r.push(Emission { route: Route::Output, message: Message::new(self.items[i].0.clone()) });
            i = i + 1;
        }
        proof {
            assert(routes_within(r@, n_outputs as nat));
        }
        r
    }

    fn on_message(&mut self, msg: Message<()>, n_inputs: usize, n_outputs: usize) -> (r: Vec<Emission<String>>) {
        Vec::new()
    }

    fn on_end(&mut self, n_inputs: usize, n_outputs: usize) -> (r: Vec<Emission<String>>) {
        Vec::new()
    }
}

} // verus!
