//! The evaluation-parameter aggregate: the resource structs of one evaluation
//! and the native parameter struct whose pointer fields refer to them.
//!
//! The native struct points into the aggregate that owns it. Here a pointer
//! field names the owned resource struct it refers to; the address is taken
//! from the aggregate's own, final storage when the native call is made, so a
//! pointer can never refer to a stale copy or to another aggregate.
use vstd::prelude::*;
use crate::resource::{spec_image_resource, ResourceVk, VkImageResourceDescription};

verus! {

/// The IEEE-754 bits of `1.0f32`: motion vectors already in pixel space.
pub const UNIT_SCALE_BITS: u32 = 0x3f80_0000;

/// Which owned resource struct of the aggregate a pointer field refers to.
#[derive(Debug, Clone, Copy, PartialEq, Eq, Structural)]
pub enum ResourceSlot {
    InputColor,
    OutputColor,
    Depth,
    MotionVectors,
}

/// A pixel position.
#[derive(Debug, Clone, Copy, PartialEq, Eq, Structural)]
pub struct Coordinates {
    pub x: u32,
    pub y: u32,
}

/// A size in pixels.
#[derive(Debug, Clone, Copy, PartialEq, Eq, Structural)]
pub struct Dimensions {
    pub width: u32,
    pub height: u32,
}

/// The fields of the native evaluation-parameter struct that the crate fills.
/// Floating-point fields are held as their IEEE-754 bits.
#[derive(Debug, Clone, Copy, PartialEq, Eq, Structural)]
pub struct EvalParams {
    pub color: Option<ResourceSlot>,
    pub output: Option<ResourceSlot>,
    pub depth: Option<ResourceSlot>,
    pub motion_vectors: Option<ResourceSlot>,
    pub jitter_offset_x_bits: u32,
    pub jitter_offset_y_bits: u32,
    pub render_subrect_dimensions: Dimensions,
    pub reset: i32,
    pub mv_scale_x_bits: u32,
    pub mv_scale_y_bits: u32,
    pub color_subrect_base: Coordinates,
    pub depth_subrect_base: Coordinates,
    pub translucency_subrect_base: Coordinates,
    pub mv_subrect_base: Coordinates,
}

impl EvalParams {
    /// The all-zero native struct: no pointer set, every number zero.
    pub open spec fn spec_zeroed() -> EvalParams {
        EvalParams {
            color: None,
            output: None,
            depth: None,
            motion_vectors: None,
            jitter_offset_x_bits: 0,
            jitter_offset_y_bits: 0,
            render_subrect_dimensions: Dimensions { width: 0, height: 0 },
            reset: 0,
            mv_scale_x_bits: 0,
            mv_scale_y_bits: 0,
            color_subrect_base: Coordinates { x: 0, y: 0 },
            depth_subrect_base: Coordinates { x: 0, y: 0 },
            translucency_subrect_base: Coordinates { x: 0, y: 0 },
            mv_subrect_base: Coordinates { x: 0, y: 0 },
        }
    }
}

/// The resource structs of one evaluation and the native parameter struct
/// that refers to them.
#[derive(Debug)]
pub struct EvaluationAggregate {
    input_color_resource: ResourceVk,
    output_color_resource: ResourceVk,
    depth_resource: ResourceVk,
    motion_vectors_resource: ResourceVk,
    parameters: EvalParams,
}

impl EvaluationAggregate {
    /// The resource struct that a slot names.
    pub closed spec fn spec_resolve(&self, slot: ResourceSlot) -> ResourceVk {
        match slot {
            ResourceSlot::InputColor => self.input_color_resource,
            ResourceSlot::OutputColor => self.output_color_resource,
            ResourceSlot::Depth => self.depth_resource,
            ResourceSlot::MotionVectors => self.motion_vectors_resource,
        }
    }

    /// The native parameter struct.
    pub closed spec fn spec_params(&self) -> EvalParams {
        self.parameters
    }

    /// Every pointer field is unset or refers to its own resource struct of
    /// this aggregate.
    pub open spec fn wf(&self) -> bool {
        &&& (self.spec_params().color is Some ==> self.spec_params().color == Some(ResourceSlot::InputColor))
        &&& (self.spec_params().output is Some ==> self.spec_params().output == Some(ResourceSlot::OutputColor))
        &&& (self.spec_params().depth is Some ==> self.spec_params().depth == Some(ResourceSlot::Depth))
        &&& (self.spec_params().motion_vectors is Some ==> self.spec_params().motion_vectors == Some(
            ResourceSlot::MotionVectors,
        ))
    }

    /// Whether two aggregates hold the same resource structs.
    pub open spec fn same_resources(&self, other: &EvaluationAggregate) -> bool {
        forall|s: ResourceSlot| #[trigger] self.spec_resolve(s) == other.spec_resolve(s)
    }

    /// A zeroed aggregate: no pointer set.
    pub fn new() -> (r: EvaluationAggregate)
        ensures
            r.wf(),
            r.spec_params() == EvalParams::spec_zeroed(),
            forall|s: ResourceSlot| #[trigger] r.spec_resolve(s) == ResourceVk::spec_zeroed(),
    {
        EvaluationAggregate {
            input_color_resource: ResourceVk::zeroed(),
            output_color_resource: ResourceVk::zeroed(),
            depth_resource: ResourceVk::zeroed(),
            motion_vectors_resource: ResourceVk::zeroed(),
            parameters: EvalParams {
                color: None,
                output: None,
                depth: None,
                motion_vectors: None,
                jitter_offset_x_bits: 0,
                jitter_offset_y_bits: 0,
                render_subrect_dimensions: Dimensions { width: 0, height: 0 },
                reset: 0,
                mv_scale_x_bits: 0,
                mv_scale_y_bits: 0,
                color_subrect_base: Coordinates { x: 0, y: 0 },
                depth_subrect_base: Coordinates { x: 0, y: 0 },
                translucency_subrect_base: Coordinates { x: 0, y: 0 },
                mv_subrect_base: Coordinates { x: 0, y: 0 },
            },
        }
    }

    /// The resource struct that a slot names.
    pub fn resolve(&self, slot: ResourceSlot) -> (r: &ResourceVk)
        ensures
            *r == self.spec_resolve(slot),
    {
        match slot {
            ResourceSlot::InputColor => &self.input_color_resource,
            ResourceSlot::OutputColor => &self.output_color_resource,
            ResourceSlot::Depth => &self.depth_resource,
            ResourceSlot::MotionVectors => &self.motion_vectors_resource,
        }
    }

    /// The native parameter struct.
    pub fn params(&self) -> (r: &EvalParams)
        ensures
            *r == self.spec_params(),
    {
        &self.parameters
    }

    /// Sets the color input (the image to process): the input-color pointer
    /// now refers to the struct made from `description`.
    pub fn set_color_input(&mut self, description: VkImageResourceDescription)
        requires
            old(self).wf(),
        ensures
            color_input_set(*old(self), *final(self), description),
    {
        self.input_color_resource = ResourceVk::from(description);
        self.parameters.color = Some(ResourceSlot::InputColor);
    }

    /// Sets the color output (the processed image): the output pointer now
    /// refers to the struct made from `description`.
    pub fn set_color_output(&mut self, description: VkImageResourceDescription)
        requires
            old(self).wf(),
        ensures
            color_output_set(*old(self), *final(self), description),
    {
        self.output_color_resource = ResourceVk::from(description);
        self.parameters.output = Some(ResourceSlot::OutputColor);
    }

    /// Sets the motion vectors and their per-axis scale, given as IEEE-754
    /// bits; without a scale the vectors are taken as already in pixel space.
    pub fn set_motions_vectors(&mut self, description: VkImageResourceDescription, scale_bits: Option<[u32; 2]>)
        requires
            old(self).wf(),
        ensures
            motion_vectors_set(*old(self), *final(self), description, scale_bits),
    {
        self.motion_vectors_resource = ResourceVk::from(description);
        let scales: [u32; 2] = match scale_bits {
            Some(s) => s,
            None => [UNIT_SCALE_BITS, UNIT_SCALE_BITS],
        };
        self.parameters.motion_vectors = Some(ResourceSlot::MotionVectors);
        self.parameters.mv_scale_x_bits = scales[0];
        self.parameters.mv_scale_y_bits = scales[1];
    }

    /// Sets the depth buffer: the depth pointer now refers to the struct made
    /// from `description`.
    pub fn set_depth_buffer(&mut self, description: VkImageResourceDescription)
        requires
            old(self).wf(),
        ensures
            depth_buffer_set(*old(self), *final(self), description),
    {
        self.depth_resource = ResourceVk::from(description);
        self.parameters.depth = Some(ResourceSlot::Depth);
    }

    /// Sets the jitter offsets (like TAA), given as IEEE-754 bits.
    pub fn set_jitter_offsets(&mut self, x_bits: u32, y_bits: u32)
        requires
            old(self).wf(),
        ensures
            jitter_offsets_set(*old(self), *final(self), x_bits, y_bits),
    {
        self.parameters.jitter_offset_x_bits = x_bits;
        self.parameters.jitter_offset_y_bits = y_bits;
    }

    /// Sets or unsets the reset flag, which makes the feature drop its
    /// temporal history.
    pub fn set_reset(&mut self, should_reset: bool)
        requires
            old(self).wf(),
        ensures
            reset_set(*old(self), *final(self), should_reset),
    {
        self.parameters.reset = if should_reset {
            1
        } else {
            0
        };
    }

    /// Sets the rendering sub-rectangle: the same offset for the color,
    /// depth, translucency and motion-vector inputs, and its size.
    pub fn set_rendering_dimensions(&mut self, rendering_offset: [u32; 2], rendering_size: [u32; 2])
        requires
            old(self).wf(),
        ensures
            rendering_dimensions_set(*old(self), *final(self), rendering_offset, rendering_size),
    {
        let base = Coordinates { x: rendering_offset[0], y: rendering_offset[1] };
        self.parameters.color_subrect_base = base;
        self.parameters.depth_subrect_base = base;
        self.parameters.translucency_subrect_base = base;
        self.parameters.mv_subrect_base = base;
        self.parameters.render_subrect_dimensions = Dimensions {
            width: rendering_size[0],
            height: rendering_size[1],
        };
    }
}

/// The resource structs of `after` are those of `before`, but for `slot`.
pub open spec fn others_kept(before: EvaluationAggregate, after: EvaluationAggregate, slot: ResourceSlot) -> bool {
    forall|s: ResourceSlot| s != slot ==> #[trigger] after.spec_resolve(s) == before.spec_resolve(s)
}

/// `after` is `before` with the color input set from `d`.
pub open spec fn color_input_set(before: EvaluationAggregate, after: EvaluationAggregate, d: VkImageResourceDescription) -> bool {
    &&& after.wf()
    &&& after.spec_params() == (EvalParams { color: Some(ResourceSlot::InputColor), ..before.spec_params() })
    &&& after.spec_resolve(ResourceSlot::InputColor) == spec_image_resource(d)
    &&& others_kept(before, after, ResourceSlot::InputColor)
}

/// `after` is `before` with the color output set from `d`.
pub open spec fn color_output_set(before: EvaluationAggregate, after: EvaluationAggregate, d: VkImageResourceDescription) -> bool {
    &&& after.wf()
    &&& after.spec_params() == (EvalParams { output: Some(ResourceSlot::OutputColor), ..before.spec_params() })
    &&& after.spec_resolve(ResourceSlot::OutputColor) == spec_image_resource(d)
    &&& others_kept(before, after, ResourceSlot::OutputColor)
}

/// The scale bits that a motion-vector setter stores for one axis.
pub open spec fn scale_or_unit(scale_bits: Option<[u32; 2]>, axis: int) -> u32 {
    match scale_bits {
        Some(s) => s[axis],
        None => UNIT_SCALE_BITS,
    }
}

/// `after` is `before` with the motion vectors set from `d` and the scale.
pub open spec fn motion_vectors_set(
    before: EvaluationAggregate,
    after: EvaluationAggregate,
    d: VkImageResourceDescription,
    scale_bits: Option<[u32; 2]>,
) -> bool {
    &&& after.wf()
    &&& after.spec_params() == (EvalParams {
        motion_vectors: Some(ResourceSlot::MotionVectors),
        mv_scale_x_bits: scale_or_unit(scale_bits, 0),
        mv_scale_y_bits: scale_or_unit(scale_bits, 1),
        ..before.spec_params()
    })
    &&& after.spec_resolve(ResourceSlot::MotionVectors) == spec_image_resource(d)
    &&& others_kept(before, after, ResourceSlot::MotionVectors)
}

/// `after` is `before` with the depth buffer set from `d`.
pub open spec fn depth_buffer_set(before: EvaluationAggregate, after: EvaluationAggregate, d: VkImageResourceDescription) -> bool {
    &&& after.wf()
    &&& after.spec_params() == (EvalParams { depth: Some(ResourceSlot::Depth), ..before.spec_params() })
    &&& after.spec_resolve(ResourceSlot::Depth) == spec_image_resource(d)
    &&& others_kept(before, after, ResourceSlot::Depth)
}

/// `after` is `before` with the jitter offsets set.
pub open spec fn jitter_offsets_set(before: EvaluationAggregate, after: EvaluationAggregate, x_bits: u32, y_bits: u32) -> bool {
    &&& after.wf()
    &&& after.spec_params() == (EvalParams {
        jitter_offset_x_bits: x_bits,
        jitter_offset_y_bits: y_bits,
        ..before.spec_params()
    })
    &&& after.same_resources(&before)
}

/// `after` is `before` with the reset flag set to `should_reset`.
pub open spec fn reset_set(before: EvaluationAggregate, after: EvaluationAggregate, should_reset: bool) -> bool {
    &&& after.wf()
    &&& after.spec_params() == (EvalParams { reset: if should_reset { 1i32 } else { 0i32 }, ..before.spec_params() })
    &&& after.same_resources(&before)
}

/// `after` is `before` with the rendering sub-rectangle set.
pub open spec fn rendering_dimensions_set(
    before: EvaluationAggregate,
    after: EvaluationAggregate,
    offset: [u32; 2],
    size: [u32; 2],
) -> bool {
    let base = Coordinates { x: offset[0], y: offset[1] };
    &&& after.wf()
    &&& after.spec_params() == (EvalParams {
        color_subrect_base: base,
        depth_subrect_base: base,
        translucency_subrect_base: base,
        mv_subrect_base: base,
        render_subrect_dimensions: Dimensions { width: size[0], height: size[1] },
        ..before.spec_params()
    })
    &&& after.same_resources(&before)
}

/// In a well-formed aggregate every pointer field that is set resolves, within
/// the same aggregate, to the resource struct that belongs to it.
pub proof fn lemma_pointers_resolve_to_own_fields(a: EvaluationAggregate, slot: ResourceSlot)
    requires
        a.wf(),
    ensures
        a.spec_params().color == Some(slot) ==> a.spec_resolve(slot) == a.spec_resolve(ResourceSlot::InputColor),
        a.spec_params().output == Some(slot) ==> a.spec_resolve(slot) == a.spec_resolve(ResourceSlot::OutputColor),
        a.spec_params().depth == Some(slot) ==> a.spec_resolve(slot) == a.spec_resolve(ResourceSlot::Depth),
        a.spec_params().motion_vectors == Some(slot) ==> a.spec_resolve(slot) == a.spec_resolve(
            ResourceSlot::MotionVectors,
        ),
{
}

/// One call of a setter of the aggregate, with its arguments.
#[derive(Debug, Clone, Copy)]
pub enum SetterCall {
    ColorInput(VkImageResourceDescription),
    ColorOutput(VkImageResourceDescription),
    MotionVectors(VkImageResourceDescription, Option<[u32; 2]>),
    DepthBuffer(VkImageResourceDescription),
    JitterOffsets(u32, u32),
    Reset(bool),
    RenderingDimensions([u32; 2], [u32; 2]),
}

/// `after` is what the setter `call` makes of `before`.
pub open spec fn setter_step(before: EvaluationAggregate, after: EvaluationAggregate, call: SetterCall) -> bool {
    match call {
        SetterCall::ColorInput(d) => color_input_set(before, after, d),
        SetterCall::ColorOutput(d) => color_output_set(before, after, d),
        SetterCall::MotionVectors(d, scale) => motion_vectors_set(before, after, d, scale),
        SetterCall::DepthBuffer(d) => depth_buffer_set(before, after, d),
        SetterCall::JitterOffsets(x, y) => jitter_offsets_set(before, after, x, y),
        SetterCall::Reset(flag) => reset_set(before, after, flag),
        SetterCall::RenderingDimensions(offset, size) => rendering_dimensions_set(before, after, offset, size),
    }
}

/// The pointer field of the native struct that refers to `slot`'s resource.
pub open spec fn pointer_field(p: EvalParams, slot: ResourceSlot) -> Option<ResourceSlot> {
    match slot {
        ResourceSlot::InputColor => p.color,
        ResourceSlot::OutputColor => p.output,
        ResourceSlot::Depth => p.depth,
        ResourceSlot::MotionVectors => p.motion_vectors,
    }
}

/// The description that `call` stores in `slot`, if it stores one there.
pub open spec fn described_by(call: SetterCall, slot: ResourceSlot) -> Option<VkImageResourceDescription> {
    match call {
        SetterCall::ColorInput(d) => if slot == ResourceSlot::InputColor { Some(d) } else { None },
        SetterCall::ColorOutput(d) => if slot == ResourceSlot::OutputColor { Some(d) } else { None },
        SetterCall::MotionVectors(d, _) => if slot == ResourceSlot::MotionVectors { Some(d) } else { None },
        SetterCall::DepthBuffer(d) => if slot == ResourceSlot::Depth { Some(d) } else { None },
        _ => None,
    }
}

/// The description that the last of `calls` to store one in `slot` stored.
pub open spec fn last_description(calls: Seq<SetterCall>, slot: ResourceSlot) -> Option<VkImageResourceDescription>
    decreases calls.len(),
{
    if calls.len() == 0 {
        None
    } else {
        match described_by(calls.last(), slot) {
            Some(d) => Some(d),
            None => last_description(calls.drop_last(), slot),
        }
    }
}

/// Whatever setters are called on a fresh aggregate, and in whatever order,
/// the aggregate stays well formed; a pointer field is set exactly when its
/// setter was called; and then it refers to its own resource struct of the
/// same aggregate, which holds the description of the last such call.
pub proof fn lemma_setter_sequence(states: Seq<EvaluationAggregate>, calls: Seq<SetterCall>, slot: ResourceSlot)
    requires
        states.len() == calls.len() + 1,
        states[0].spec_params() == EvalParams::spec_zeroed(),
        forall|i: int| 0 <= i < calls.len() ==> setter_step(states[i], states[i + 1], #[trigger] calls[i]),
    ensures
        states.last().wf(),
        pointer_field(states.last().spec_params(), slot) is Some <==> last_description(calls, slot) is Some,
        last_description(calls, slot) is Some ==> pointer_field(states.last().spec_params(), slot) == Some(slot)
            && states.last().spec_resolve(slot) == spec_image_resource(last_description(calls, slot)->Some_0),
    decreases calls.len(),
{
    if calls.len() > 0 {
        let n = calls.len() - 1;
        let prefix_states = states.drop_last();
        let prefix_calls = calls.drop_last();
        assert forall|i: int| 0 <= i < prefix_calls.len() implies setter_step(
            prefix_states[i],
            prefix_states[i + 1],
            #[trigger] prefix_calls[i],
        ) by {
            assert(calls[i] == prefix_calls[i]);
        }
        lemma_setter_sequence(prefix_states, prefix_calls, slot);
        assert(setter_step(states[n as int], states[n + 1], calls[n as int]));
        assert(prefix_states.last() == states[n as int]);
        assert(states.last() == states[n + 1]);
        assert(calls.last() == calls[n as int]);
        assert(prefix_calls == calls.drop_last());
    }
}

} // verus!
