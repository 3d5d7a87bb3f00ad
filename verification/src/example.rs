//! A model of the wrapper generated for the example module: one
//! clock-marked boolean input `clk`, one 8-bit unsigned input `a`, one
//! 64-bit unsigned output `b`.
//!
//! The generated wrapper is a thin value type whose every method forwards
//! one call to the native shim; its observable behaviour towards the
//! simulation is exactly that call sequence.  This model records the trace
//! of forwarded calls.  What an output read returns is the compiled
//! simulation model's business and stays outside this crate: no simulation
//! semantics are implemented here.

use vstd::prelude::*;

verus! {

/// One call the wrapper forwards to the shim of the example module.
#[derive(Clone, Copy, Debug, PartialEq, Eq, Structural)]
pub enum ShimOp {
    /// One settle step of the simulation model.
    Eval,
    /// Driving the clock input.
    SetClk(bool),
    /// Driving the 8-bit unsigned input `a`.
    SetA(u8),
    /// Reading the 64-bit unsigned output `b`.
    GetB,
}

/// The wrapper for the example module, modelled by the trace of calls it
/// forwards to the shim after construction.
#[derive(Debug, PartialEq)]
pub struct Example {
    calls: Vec<ShimOp>,
}

impl Example {
    /// The calls forwarded so far, in order, since the instance was made.
    pub closed spec fn trace(&self) -> Seq<ShimOp> {
        self.calls@
    }

    /// Acquires one simulation instance; no call is forwarded yet.
    pub fn new() -> (r: Example)
        ensures
            r.trace() == Seq::<ShimOp>::empty(),
    {
        Example { calls: Vec::new() }
    }

    /// The calls forwarded so far, as values.
    pub fn calls(&self) -> (r: &Vec<ShimOp>)
        ensures
            r@ == self.trace(),
    {
        &self.calls
    }

    /// Forwards one settle step.
    pub fn eval(&mut self)
        ensures
            final(self).trace() == old(self).trace().push(ShimOp::Eval),
    {
        self.calls.push(ShimOp::Eval);
    }

    /// Drives the clock input.
    pub fn set_clk(&mut self, value: bool)
        ensures
            final(self).trace() == old(self).trace().push(ShimOp::SetClk(value)),
    {
        self.calls.push(ShimOp::SetClk(value));
    }

    /// Drives the 8-bit unsigned input `a`.
    pub fn set_a(&mut self, value: u8)
        ensures
            final(self).trace() == old(self).trace().push(ShimOp::SetA(value)),
    {
        self.calls.push(ShimOp::SetA(value));
    }

    /// Reads the 64-bit unsigned output `b`.  The value comes from the
    /// compiled simulation model, which this trace model leaves out, so
    /// nothing is stated of it; reading changes no wrapper state.
    pub fn get_b(&self) -> u64 {
        0
    }

    /// One rising-then-falling clock edge: the clock is driven to the
    /// asserted literal, the model settles, the clock is driven to the
    /// deasserted literal, and the model settles again.
    pub fn tick(&mut self)
        ensures
            final(self).trace() == old(self).trace() + seq![
                ShimOp::SetClk(true),
                ShimOp::Eval,
                ShimOp::SetClk(false),
                ShimOp::Eval,
            ],
    {
        self.set_clk(true);
        self.eval();
        self.set_clk(false);
        self.eval();
        proof {
            assert(self.trace() =~= old(self).trace() + seq![
                ShimOp::SetClk(true),
                ShimOp::Eval,
                ShimOp::SetClk(false),
                ShimOp::Eval,
            ]);
        }
    }
}

/// `tick` is observably equivalent to driving the clock high, settling,
/// driving it low and settling again: from any starting trace, the calls it
/// forwards are exactly those the four-call sequence forwards, in the same
/// order.
pub proof fn lemma_tick_is_edge_pair(t: Seq<ShimOp>)
    ensures
        t + seq![ShimOp::SetClk(true), ShimOp::Eval, ShimOp::SetClk(false), ShimOp::Eval] == t.push(
            ShimOp::SetClk(true),
        ).push(ShimOp::Eval).push(ShimOp::SetClk(false)).push(ShimOp::Eval),
{
    assert(t + seq![ShimOp::SetClk(true), ShimOp::Eval, ShimOp::SetClk(false), ShimOp::Eval]
        =~= t.push(ShimOp::SetClk(true)).push(ShimOp::Eval).push(ShimOp::SetClk(false)).push(
        ShimOp::Eval,
    ));
}

} // verus!
