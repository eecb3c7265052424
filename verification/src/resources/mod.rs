//! Shader resources and the collection that binds them as one group.

use vstd::prelude::*;
use crate::binding::{BindEntry, LayoutEntry, bindings_are_consecutive, layout_is_consecutive};
use crate::events::InputEvent;

pub mod audio;
pub mod camera;
pub mod collection;
pub mod textures;
pub mod time;
pub mod upload;

verus! {

/// A bindable data source. It occupies `size()` consecutive binding indices
/// of bind group `group()`, starting at `offset()`.
pub trait CubensisResource: Sized {
    /// The bind group that the resource belongs to.
    spec fn group(&self) -> u32;

    /// The first binding index of the resource.
    spec fn offset(&self) -> u32;

    /// The number of binding indices of the resource.
    spec fn size() -> u32;

    /// The layout entries that the resource contributes, in order.
    spec fn layout(&self) -> Seq<LayoutEntry>;

    /// What the resource binds at its indices, in order.
    spec fn bindings(&self) -> Seq<BindEntry>;

    /// Every resource emits exactly `size()` entries of each kind, at the
    /// indices `offset()`, `offset() + 1`, and so on.
    proof fn lemma_shape(&self)
        requires
            self.offset() + Self::size() <= u32::MAX,
        ensures
            self.layout().len() == Self::size(),
            self.bindings().len() == Self::size(),
            layout_is_consecutive(self.layout(), self.offset() as int),
            bindings_are_consecutive(self.bindings(), self.offset() as int),
    ;

    fn binding_group(&self) -> (group: u32)
        ensures
            group == self.group(),
    ;

    fn binding_offset(&self) -> (offset: u32)
        ensures
            offset == self.offset(),
    ;

    fn binding_size() -> (size: u32)
        ensures
            size == Self::size(),
    ;

    /// The first binding index that is free after this resource.
    fn next_binding_offset_in_group(&self) -> (next: u32)
        requires
            self.offset() + Self::size() <= u32::MAX,
        ensures
            next == self.offset() + Self::size(),
    ;

    /// Advances the resource by one frame of `time_delta_nanos`
    /// nanoseconds. The result says whether what the resource binds has
    /// changed, so that the group that holds it must be rebuilt.
    fn update(&mut self, time_delta_nanos: u128) -> (changed: bool)
        ensures
            final(self).group() == old(self).group(),
            final(self).offset() == old(self).offset(),
            final(self).layout() == old(self).layout(),
            !changed ==> final(self).bindings() == old(self).bindings(),
    ;

    /// Takes note of a new surface size. What the resource binds stays.
    fn resize(&mut self, width: u32, height: u32)
        ensures
            final(self).group() == old(self).group(),
            final(self).offset() == old(self).offset(),
            final(self).layout() == old(self).layout(),
            final(self).bindings() == old(self).bindings(),
    ;

    fn get_bind_group_layout_entries(&self) -> (entries: Vec<LayoutEntry>)
        requires
            self.offset() + Self::size() <= u32::MAX,
        ensures
            entries@ == self.layout(),
    ;

    fn get_bind_group_entries(&self) -> (entries: Vec<BindEntry>)
        requires
            self.offset() + Self::size() <= u32::MAX,
        ensures
            entries@ == self.bindings(),
    ;

    /// Lets the resource act on an event. The result says whether the
    /// resource consumed it, so that it must not be handed on.
    fn handle_or_capture_event(&mut self, event: &InputEvent) -> (captured: bool)
        ensures
            final(self).group() == old(self).group(),
            final(self).offset() == old(self).offset(),
            final(self).layout() == old(self).layout(),
            final(self).bindings() == old(self).bindings(),
    ;
}

} // verus!
