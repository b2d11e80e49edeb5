use vstd::prelude::*;
use vstd::string::StringExecFns;
use crate::component::{Emission, PipelineComponent};
use crate::message::Message;

verus! {

/// A sink that writes each text it receives on its own line, after a prefix.
/// Writing the line is the runtime's part; the sink says what the line is.
pub struct PrinterSink {
    prefix: String,
}

impl PrinterSink {
    pub closed spec fn prefix(&self) -> String {
        self.prefix
    }

    pub fn new(prefix: String) -> (r: Self)
        ensures
            r.prefix() == prefix,
    {
        PrinterSink { prefix }
    }

    /// The line written for `payload`: the prefix, then the text.
    pub fn line(&self, payload: &String) -> (r: String)
        ensures
            r@ == self.prefix()@ + payload@,
    {
        self.prefix.clone().concat(payload.as_str())
    }
}

impl Default for PrinterSink {
    fn default() -> (r: Self)
        ensures
            r.prefix()@ == "PrinterSink: "@,
    {
        PrinterSink { prefix: "PrinterSink: ".to_owned() }
    }
}

impl PipelineComponent for PrinterSink {
    type Input = String;
    type Output = String;

    fn accepts(&self, n_inputs: usize, n_outputs: usize) -> (r: bool) {
        true
    }

    fn on_start(&mut self, n_inputs: usize, n_outputs: usize) -> (r: Vec<Emission<String>>) {
        Vec::new()
    }

    fn on_message(&mut self, msg: Message<String>, n_inputs: usize, n_outputs: usize) -> (r: Vec<Emission<String>>) {
        Vec::new()
    }

    fn on_end(&mut self, n_inputs: usize, n_outputs: usize) -> (r: Vec<Emission<String>>) {
        Vec::new()
    }
}

} // verus!
