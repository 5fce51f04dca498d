//! Injectable sources of uniform random draws.
//!
//! Every random decision of the engine flows through [`UniformSource`], so a
//! test can script the draws and replay a session deterministically, while a
//! live session uses the thread-local generator.

use rand::Rng;
use vstd::prelude::*;

verus! {

/// A capability that hands out one uniform draw at a time.
pub trait UniformSource {
    /// Draw a value uniformly from `[0, bound)`.
    fn pick(&mut self, bound: u64) -> (r: u64)
        requires
            bound >= 1,
        ensures
            r < bound,
    ;
}

/// A deterministic source that replays a fixed script of draws.
///
/// Each draw takes the next scripted value reduced modulo the bound; once the
/// script is exhausted every draw is zero.
pub struct ScriptedSource {
    values: Vec<u64>,
    index: usize,
}

impl ScriptedSource {
    /// The scripted values this source was built with.
    pub closed spec fn spec_values(&self) -> Seq<u64> {
        self.values@
    }

    /// How many draws were already handed out.
    pub closed spec fn spec_index(&self) -> int {
        self.index as int
    }

    /// A source that will replay the given values in order.
    pub fn new(values: Vec<u64>) -> (r: ScriptedSource)
        ensures
            r.spec_values() == values@,
            r.spec_index() == 0,
    {
        ScriptedSource { values, index: 0 }
    }
}

impl UniformSource for ScriptedSource {
    fn pick(&mut self, bound: u64) -> (r: u64)
        ensures
            final(self).spec_values() == old(self).spec_values(),
            old(self).spec_index() < old(self).spec_values().len() ==> {
                &&& final(self).spec_index() == old(self).spec_index() + 1
                &&& r == old(self).spec_values()[old(self).spec_index()] % bound
            },
            old(self).spec_index() >= old(self).spec_values().len() ==> {
                &&& final(self).spec_index() == old(self).spec_index()
                &&& r == 0
            },
    {
        if self.index < self.values.len() {
            let v = self.values[self.index];
            self.index = self.index + 1;
            v % bound
        } else {
            0
        }
    }
}

/// Draw one value uniformly below `bound` from the thread-local generator.
///
/// Relies on `rand::thread_rng` and `rand::Rng::gen_range`: for a non-empty
/// range `0..bound` the call returns a uniformly sampled value inside it.
#[verifier::external_body]
fn thread_draw_below(bound: u64) -> (r: u64)
    requires
        bound >= 1,
    ensures
        r < bound,
{
    rand::thread_rng().gen_range(0..bound)
}

/// A live source backed by the process-wide thread-local generator.
pub struct ThreadRngSource {
    _private: (),
}

impl ThreadRngSource {
    /// A source that draws from the thread-local generator.
    pub fn new() -> ThreadRngSource {
        ThreadRngSource { _private: () }
    }
}

impl UniformSource for ThreadRngSource {
    fn pick(&mut self, bound: u64) -> (r: u64) {
        thread_draw_below(bound)
    }
}

} // verus!
