//! The per-frame protocol: the fixed background color and the steps of
//! one successful frame.

use vstd::prelude::*;

verus! {

/// A color with 8-bit channels. The host program converts each channel
/// to the backend's unit-interval form by dividing by 255.
#[derive(Clone, Copy, PartialEq, Eq, Structural, Debug)]
pub struct Color {
    pub r: u8,
    pub g: u8,
    pub b: u8,
    pub a: u8,
}

/// The fixed background color every frame clears to.
pub open spec fn spec_background_color() -> Color {
    Color { r: 0, g: 95, b: 95, a: 255 }
}

/// Returns the fixed background color; it depends on no state.
pub fn background_color() -> (c: Color)
    ensures
        c == spec_background_color(),
{
    Color { r: 0, g: 95, b: 95, a: 255 }
}

/// One step of the frame protocol, executed by the host program against
/// the graphics backend.
#[derive(Clone, Copy, PartialEq, Eq, Structural, Debug)]
pub enum GpuOp {
    /// Record one render pass that clears the whole target view to the
    /// given color, storing the result.
    ClearPass(Color),
    /// Submit the recorded command batch to the queue.
    Submit,
    /// Present the acquired surface texture.
    Present,
}

/// The steps of one successful frame, in order: clear to the background
/// color, submit once, present once.
pub open spec fn spec_frame_plan() -> Seq<GpuOp> {
    seq![GpuOp::ClearPass(spec_background_color()), GpuOp::Submit, GpuOp::Present]
}

/// How many of the steps submit a command batch to the queue.
pub open spec fn submit_count(ops: Seq<GpuOp>) -> nat
    decreases ops.len(),
{
    if ops.len() == 0 {
        0
    } else {
        submit_count(ops.drop_last()) + if ops.last() is Submit { 1nat } else { 0nat }
    }
}

/// How many of the steps present a texture.
pub open spec fn present_count(ops: Seq<GpuOp>) -> nat
    decreases ops.len(),
{
    if ops.len() == 0 {
        0
    } else {
        present_count(ops.drop_last()) + if ops.last() is Present { 1nat } else { 0nat }
    }
}

/// A successful frame submits exactly one command batch, presents exactly
/// once, and every clear uses the fixed background color.
pub proof fn lemma_frame_plan_effects()
    ensures
        submit_count(spec_frame_plan()) == 1,
        present_count(spec_frame_plan()) == 1,
        forall|i: int|
            0 <= i < spec_frame_plan().len() && (#[trigger] spec_frame_plan()[i]) is ClearPass
                ==> spec_frame_plan()[i]->ClearPass_0 == spec_background_color(),
{
    reveal_with_fuel(submit_count, 4);
    reveal_with_fuel(present_count, 4);
    let plan = spec_frame_plan();
    assert(plan.drop_last() =~= seq![GpuOp::ClearPass(spec_background_color()), GpuOp::Submit]);
    assert(plan.drop_last().drop_last() =~= seq![GpuOp::ClearPass(spec_background_color())]);
    assert(plan.drop_last().drop_last().drop_last() =~= Seq::<GpuOp>::empty());
}

} // verus!
