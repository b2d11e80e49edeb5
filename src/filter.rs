use vstd::prelude::*;
use crate::component::{emit_one, to_output, Emission, PipelineComponent};
use crate::message::Message;
use crate::task::ConfigurationError;

verus! {

#[verifier::external_type_specification]
#[verifier::external_body]
pub struct ExRegex(regex::Regex);

#[verifier::external_type_specification]
#[verifier::external_body]
pub struct ExRegexError(regex::Error);

/// Whether `pattern` is a regular expression that the regex engine accepts.
pub uninterp spec fn pattern_compiles(pattern: Seq<char>) -> bool;

/// Whether the regular expression `pattern` matches somewhere in `text`.
pub uninterp spec fn pattern_matches(pattern: Seq<char>, text: Seq<char>) -> bool;

/// Relies on `regex::Regex::new`: compiles `pattern`, or says why it cannot;
/// whether it can depends on the pattern alone.
#[verifier::external_body]
fn compile_regex(pattern: &str) -> (r: Result<regex::Regex, regex::Error>)
    ensures
        r.is_ok() == pattern_compiles(pattern@),
{
    regex::Regex::new(pattern)
}

/// Relies on `regex::Regex::is_match`: whether the expression that `p` was
/// compiled from matches somewhere in `text`.
#[verifier::external_body]
fn regex_is_match(p: &Pattern, text: &str) -> (r: bool)
    ensures
        r == pattern_matches(p.source()@, text@),
{
    p.compiled.is_match(text)
}

/// A compiled regular expression together with the text it was compiled from.
pub struct Pattern {
    source: String,
    compiled: regex::Regex,
}

impl Pattern {
    pub closed spec fn source(&self) -> String {
        self.source
    }

    /// Compiles `pattern`; fails exactly when the regex engine refuses it.
    pub fn new(pattern: &str) -> (r: Result<Pattern, ConfigurationError>)
        ensures
            r.is_ok() == pattern_compiles(pattern@),
            r matches Ok(p) ==> p.source()@ == pattern@,
    {
        match compile_regex(pattern) {
            Ok(compiled) => Ok(Pattern { source: pattern.to_owned(), compiled }),
            Err(e) => Err(ConfigurationError::InvalidPattern(e)),
        }
    }

    /// The text the pattern was compiled from.
    pub fn as_str(&self) -> (r: &str)
        ensures
            r@ == self.source()@,
    {
        self.source.as_str()
    }

    /// Whether the pattern matches somewhere in `text`.
    pub fn is_match(&self, text: &str) -> (r: bool)
        ensures
            r == pattern_matches(self.source()@, text@),
    {
        regex_is_match(self, text)
    }
}

/// What a filter keeps: the texts a pattern matches, or those a predicate accepts.
pub enum FilterCondition<F: Fn(&String) -> bool + Send + Sync + 'static> {
    Regex(Pattern),
    Lambda(F),
}

/// A stage that forwards, unchanged, the messages whose text meets its
/// condition and drops the others.
pub struct Filter<F: Fn(&String) -> bool + Send + Sync + 'static> {
    condition: FilterCondition<F>,
}

/// `f` can be called on every text and gives one answer for each.
pub open spec fn is_predicate<F: Fn(&String) -> bool + Send + Sync + 'static>(f: F) -> bool {
    &&& forall|t: String| call_requires(f, (&t,))
    &&& forall|t: String, a: bool, b: bool|
        call_ensures(f, (&t,), a) && call_ensures(f, (&t,), b) ==> a == b
}

/// The messages of `ms` whose text `keep` accepts, in their order.
pub open spec fn selected(ms: Seq<Message<String>>, keep: spec_fn(String) -> bool) -> Seq<Message<String>> {
    ms.filter(|m: Message<String>| keep(m.payload))
}

impl<F: Fn(&String) -> bool + Send + Sync + 'static> Filter<F> {
    pub closed spec fn condition(&self) -> &FilterCondition<F> {
        &self.condition
    }

    /// Whether the filter keeps a message whose text is `text`.
    pub open spec fn keeps(&self, text: String) -> bool {
        match self.condition() {
            FilterCondition::Regex(p) => pattern_matches(p.source()@, text@),
            FilterCondition::Lambda(f) => call_ensures(*f, (&text,), true),
        }
    }

    /// A filter on the regular expression `pattern`; fails exactly when the
    /// pattern does not compile.
    pub fn with_pattern(pattern: &str) -> (r: Result<Self, ConfigurationError>)
        ensures
            r.is_ok() == pattern_compiles(pattern@),
            r matches Ok(f) ==> f.condition() matches FilterCondition::Regex(p) && p.source()@ == pattern@,
    {
        match Pattern::new(pattern) {
            Ok(p) => Ok(Filter { condition: FilterCondition::Regex(p) }),
            Err(e) => Err(e),
        }
    }

    /// A filter on the predicate `f`.
    pub fn with_lambda(f: F) -> (r: Self)
        ensures
            r.condition() == FilterCondition::Lambda(f),
    {
        Filter { condition: FilterCondition::Lambda(f) }
    }

    /// Whether the filter keeps a message whose text is `text`.
    pub fn matches(&self, text: &String) -> (r: bool)
        requires
            self.inv(),
        ensures
            r == self.keeps(*text),
    {
        match &self.condition {
            FilterCondition::Regex(p) => p.is_match(text.as_str()),
            FilterCondition::Lambda(f) => f(text),
        }
    }

    /// The messages of `msgs` that the filter keeps, unchanged and in order.
    pub fn process_all(&self, msgs: Vec<Message<String>>) -> (r: Vec<Message<String>>)
        requires
            self.inv(),
        ensures
            r@ == selected(msgs@, |t: String| self.keeps(t)),
    {
        let ghost keep = |t: String| self.keeps(t);
        let ghost all = msgs@;
        let mut r: Vec<Message<String>> = Vec::new();
        let mut rest = msgs;
        let mut done: usize = 0;
        let n = rest.len();
        while rest.len() > 0
            invariant
                self.inv(),
                keep == (|t: String| self.keeps(t)),
                all.len() == n,
                done + rest.len() == all.len(),
                rest@ == all.subrange(done as int, all.len() as int),
                r@ == selected(all.subrange(0, done as int), keep),
            decreases rest.len(),
        {
            let m = rest.remove(0);
            proof {
                assert(m == all[done as int]);
                assert(all.subrange(0, done + 1) =~= all.subrange(0, done as int).push(m));
                reveal(Seq::filter);
                assert(all.subrange(0, done + 1).drop_last() =~= all.subrange(0, done as int));
            }
            if self.matches(&m.payload) {
                r.push(m);
            }
            done = done + 1;
            proof {
                assert(rest@ =~= all.subrange(done as int, all.len() as int));
            }
        }
        proof {
            assert(all.subrange(0, done as int) =~= all);
        }
        r
    }
}

impl<F: Fn(&String) -> bool + Send + Sync + 'static> PipelineComponent for Filter<F> {
    type Input = String;
    type Output = String;

    open spec fn inv(&self) -> bool {
        self.condition() matches FilterCondition::Lambda(f) ==> is_predicate(f)
    }

    fn accepts(&self, n_inputs: usize, n_outputs: usize) -> (r: bool) {
        true
    }

    fn on_start(&mut self, n_inputs: usize, n_outputs: usize) -> (r: Vec<Emission<String>>) {
        Vec::new()
    }

    /// Forwards `msg` when its text meets the condition.
    fn on_message(&mut self, msg: Message<String>, n_inputs: usize, n_outputs: usize) -> (r: Vec<Emission<String>>)
        ensures
            *final(self) == *old(self),
            r@ == to_output(selected(seq![msg], |t: String| old(self).keeps(t))),
    {
        let ghost keep = |t: String| self.keeps(t);
        proof {
            reveal_with_fuel(Seq::filter, 2);
            assert(seq![msg].drop_last() =~= Seq::<Message<String>>::empty());
        }
        if self.matches(&msg.payload) {
            emit_one(msg)
        } else {
            let r: Vec<Emission<String>> = Vec::new();
            proof {
                assert(r@ =~= to_output(selected(seq![msg], keep)));
            }
            r
        }
    }

    fn on_end(&mut self, n_inputs: usize, n_outputs: usize) -> (r: Vec<Emission<String>>) {
        Vec::new()
    }
}

} // verus!
