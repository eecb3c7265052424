//! The time resource: frame counter and clock values in one uniform buffer.

use vstd::prelude::*;
use crate::binding::{
    BindEntry,
    BindingKind,
    BoundResource,
    LayoutEntry,
    spec_vertex_fragment,
    vertex_fragment,
};
use crate::events::InputEvent;
use crate::resources::CubensisResource;

verus! {

/// Frame counter and clock of the running program.
#[derive(Debug)]
pub struct TimeResource {
    binding_group: u32,
    binding_offset: u32,
    frame_count: u32,
    elapsed_nanos: u128,
    frame_time_nanos: u128,
}

/// `a + b`, held at the largest value of the type.
pub open spec fn spec_saturating_sum(a: u128, b: u128) -> u128 {
    if a + b > u128::MAX {
        u128::MAX
    } else {
        (a + b) as u128
    }
}

/// The frame count after `count`: one more, starting over from zero after
/// the largest value of the type.
pub open spec fn spec_next_frame(count: u32) -> u32 {
    if count == u32::MAX {
        0
    } else {
        (count + 1) as u32
    }
}

impl TimeResource {
    /// The number of frames counted so far.
    pub closed spec fn frames(&self) -> u32 {
        self.frame_count
    }

    /// The sum of the frame times so far, in nanoseconds.
    pub closed spec fn elapsed(&self) -> u128 {
        self.elapsed_nanos
    }

    /// The time that the last frame took, in nanoseconds.
    pub closed spec fn frame_time(&self) -> u128 {
        self.frame_time_nanos
    }

    /// A time resource that has seen no frame.
    pub fn new(binding_group: u32, binding_offset: u32) -> (resource: Self)
        ensures
            resource.group() == binding_group,
            resource.offset() == binding_offset,
            resource.frames() == 0,
            resource.elapsed() == 0,
            resource.frame_time() == 0,
    {
        TimeResource {
            binding_group,
            binding_offset,
            frame_count: 0,
            elapsed_nanos: 0,
            frame_time_nanos: 0,
        }
    }

    pub fn get_elapsed_time(&self) -> (nanos: u128)
        ensures
            nanos == self.elapsed(),
    {
        self.elapsed_nanos
    }

    pub fn get_frame_count(&self) -> (count: u32)
        ensures
            count == self.frames(),
    {
        self.frame_count
    }

    /// The time that the last frame took, in nanoseconds: the reciprocal of
    /// the frame rate.
    pub fn get_frame_time(&self) -> (nanos: u128)
        ensures
            nanos == self.frame_time(),
    {
        self.frame_time_nanos
    }
}

impl CubensisResource for TimeResource {
    closed spec fn group(&self) -> u32 {
        self.binding_group
    }

    closed spec fn offset(&self) -> u32 {
        self.binding_offset
    }

    open spec fn size() -> u32 {
        1
    }

    open spec fn layout(&self) -> Seq<LayoutEntry> {
        seq![
            LayoutEntry {
                binding: self.offset(),
                visibility: spec_vertex_fragment(),
                kind: BindingKind::UniformBuffer,
            },
        ]
    }

    open spec fn bindings(&self) -> Seq<BindEntry> {
        seq![BindEntry { binding: self.offset(), resource: BoundResource::TimeBuffer }]
    }

    proof fn lemma_shape(&self) {
    }

    fn binding_group(&self) -> (group: u32) {
        self.binding_group
    }

    fn binding_offset(&self) -> (offset: u32) {
        self.binding_offset
    }

    fn binding_size() -> (size: u32) {
        1
    }

    fn next_binding_offset_in_group(&self) -> (next: u32) {
        self.binding_offset + 1
    }

    /// Counts the frame and adds its time to the clock. The time resource
    /// never changes what it binds.
    fn update(&mut self, time_delta_nanos: u128) -> (changed: bool)
        ensures
            !changed,
            final(self).frames() == spec_next_frame(old(self).frames()),
            final(self).elapsed() == spec_saturating_sum(old(self).elapsed(), time_delta_nanos),
            final(self).frame_time() == time_delta_nanos,
    {
        self.frame_count = self.frame_count.wrapping_add(1);
        self.elapsed_nanos = self.elapsed_nanos.saturating_add(time_delta_nanos);
        self.frame_time_nanos = time_delta_nanos;
        false
    }

    fn resize(&mut self, width: u32, height: u32)
        ensures
            *final(self) == *old(self),
    {
    }

    fn get_bind_group_layout_entries(&self) -> (entries: Vec<LayoutEntry>) {
        let entries = vec![
            LayoutEntry {
                binding: self.binding_offset,
                visibility: vertex_fragment(),
                kind: BindingKind::UniformBuffer,
            },
        ];
        assert(entries@ =~= self.layout());
        entries
    }

    fn get_bind_group_entries(&self) -> (entries: Vec<BindEntry>) {
        let entries = vec![
            BindEntry { binding: self.binding_offset, resource: BoundResource::TimeBuffer },
        ];
        assert(entries@ =~= self.bindings());
        entries
    }

    fn handle_or_capture_event(&mut self, event: &InputEvent) -> (captured: bool)
        ensures
            !captured,
            *final(self) == *old(self),
    {
        false
    }
}

} // verus!
