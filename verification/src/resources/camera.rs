//! The camera resource: which pointer input moves the camera, and when the
//! camera's matrices are due for upload.

use vstd::prelude::*;
use crate::binding::{
    BindEntry,
    BindingKind,
    BoundResource,
    LayoutEntry,
    spec_vertex_fragment,
    vertex_fragment,
};
use crate::events::{CursorPosition, InputEvent, MouseButton, WindowInput};
use crate::resources::CubensisResource;

verus! {

/// A motion of the camera that pointer input has asked for.
#[derive(Clone, Copy, Debug, PartialEq, Eq, Structural)]
pub enum CameraMotion {
    /// Rotate from the orientation under `previous` to the one under
    /// `current`.
    Rotate { previous: CursorPosition, current: CursorPosition },
    /// Move the focus point by the way from `previous` to `current`.
    Pan { previous: CursorPosition, current: CursorPosition },
    /// Move along the view axis; `amount_bits` is the bit pattern of the
    /// single-precision amount.
    Zoom { amount_bits: u32 },
}

/// The pointer state of the camera and its pending work.
#[derive(Debug)]
pub struct CameraResource {
    binding_group: u32,
    binding_offset: u32,
    previous_mouse_position: Option<CursorPosition>,
    left_pressed: bool,
    right_pressed: bool,
    requires_update: bool,
    screen_width: u32,
    screen_height: u32,
    motions: Vec<CameraMotion>,
}

/// The pointer state of a camera, as a plain value.
pub struct CameraState {
    pub previous: Option<CursorPosition>,
    pub left_pressed: bool,
    pub right_pressed: bool,
    pub dirty: bool,
    pub motions: Seq<CameraMotion>,
}

/// The motion that a cursor move to `position` asks for in state `state`,
/// if any: none until a first position is known, then a rotation while the
/// left button is down, else a pan while the right button is down.
pub open spec fn spec_cursor_motion(state: CameraState, position: CursorPosition) -> Option<
    CameraMotion,
> {
    match state.previous {
        None => None,
        Some(previous) => if state.left_pressed {
            Some(CameraMotion::Rotate { previous, current: position })
        } else if state.right_pressed {
            Some(CameraMotion::Pan { previous, current: position })
        } else {
            None
        },
    }
}

/// The state after a motion was asked for: the motion is queued and the
/// matrices are due for upload.
pub open spec fn spec_with_motion(state: CameraState, motion: CameraMotion) -> CameraState {
    CameraState { dirty: true, motions: state.motions.push(motion), ..state }
}

/// The state of a camera after an event of its window.
pub open spec fn spec_after_window_input(state: CameraState, input: WindowInput) -> CameraState {
    match input {
        WindowInput::CursorMoved { position } => match state.previous {
            None => CameraState { previous: Some(position), ..state },
            Some(_) => match spec_cursor_motion(state, position) {
                Some(motion) => spec_with_motion(state, motion),
                None => state,
            },
        },
        WindowInput::MouseWheel { amount_bits } => spec_with_motion(
            state,
            CameraMotion::Zoom { amount_bits },
        ),
        WindowInput::MouseInput { button, pressed } => match button {
            MouseButton::Left => CameraState { left_pressed: pressed, ..state },
            MouseButton::Right => CameraState { right_pressed: pressed, ..state },
            MouseButton::Other => state,
        },
        _ => state,
    }
}

/// Whether a camera in state `state` consumes an event of its window: it
/// consumes what moves it, a cursor move that asks for a rotation or a pan
/// and every turn of the wheel, and lets everything else pass.
pub open spec fn spec_consumes_window_input(state: CameraState, input: WindowInput) -> bool {
    match input {
        WindowInput::CursorMoved { position } => spec_cursor_motion(state, position) is Some,
        WindowInput::MouseWheel { amount_bits } => true,
        _ => false,
    }
}

/// Whether a camera in state `state` consumes an event: only events of a
/// window can be consumed.
pub open spec fn spec_consumes(state: CameraState, event: InputEvent) -> bool {
    match event {
        InputEvent::Window { window_id, event } => spec_consumes_window_input(state, event),
        _ => false,
    }
}

/// The camera consumes exactly the events that queue a motion.
pub proof fn lemma_consumed_events_move_the_camera(state: CameraState, event: InputEvent)
    ensures
        spec_consumes(state, event) <==> spec_after_event(state, event).motions.len()
            == state.motions.len() + 1,
        !spec_consumes(state, event) ==> spec_after_event(state, event).motions == state.motions
            && spec_after_event(state, event).dirty == state.dirty,
        spec_consumes(state, event) ==> spec_after_event(state, event).dirty,
{
}

/// The state of a camera after an event: only events of a window count.
pub open spec fn spec_after_event(state: CameraState, event: InputEvent) -> CameraState {
    match event {
        InputEvent::Window { window_id, event } => spec_after_window_input(state, event),
        _ => state,
    }
}

impl CameraResource {
    /// The pointer state and pending work of the camera.
    pub closed spec fn state(&self) -> CameraState {
        CameraState {
            previous: self.previous_mouse_position,
            left_pressed: self.left_pressed,
            right_pressed: self.right_pressed,
            dirty: self.requires_update,
            motions: self.motions@,
        }
    }

    /// The surface size that the camera projects onto.
    pub closed spec fn screen(&self) -> (u32, u32) {
        (self.screen_width, self.screen_height)
    }

    /// A camera at rest for a surface of the given size.
    pub fn new(binding_group: u32, binding_offset: u32, width: u32, height: u32) -> (resource: Self)
        ensures
            resource.group() == binding_group,
            resource.offset() == binding_offset,
            resource.screen() == (width, height),
            resource.state() == (CameraState {
                previous: None,
                left_pressed: false,
                right_pressed: false,
                dirty: false,
                motions: Seq::empty(),
            }),
    {
        CameraResource {
            binding_group,
            binding_offset,
            previous_mouse_position: None,
            left_pressed: false,
            right_pressed: false,
            requires_update: false,
            screen_width: width,
            screen_height: height,
            motions: Vec::new(),
        }
    }

    /// Whether the camera has moved since its matrices were last uploaded.
    pub fn requires_update(&self) -> (dirty: bool)
        ensures
            dirty == self.state().dirty,
    {
        self.requires_update
    }

    /// The surface size that the camera projects onto.
    pub fn screen_size(&self) -> (size: (u32, u32))
        ensures
            size == self.screen(),
    {
        (self.screen_width, self.screen_height)
    }

    /// Hands out the motions asked for since the last call, oldest first.
    pub fn take_motions(&mut self) -> (motions: Vec<CameraMotion>)
        ensures
            motions@ == old(self).state().motions,
            final(self).state() == (CameraState { motions: Seq::empty(), ..old(self).state() }),
            final(self).group() == old(self).group(),
            final(self).offset() == old(self).offset(),
            final(self).screen() == old(self).screen(),
    {
        let mut motions: Vec<CameraMotion> = Vec::new();
        std::mem::swap(&mut motions, &mut self.motions);
        motions
    }

    fn record(&mut self, motion: CameraMotion)
        ensures
            final(self).state() == spec_with_motion(old(self).state(), motion),
            final(self).group() == old(self).group(),
            final(self).offset() == old(self).offset(),
            final(self).screen() == old(self).screen(),
    {
        self.motions.push(motion);
        self.requires_update = true;
    }

    fn handle_window_input(&mut self, input: &WindowInput) -> (captured: bool)
        ensures
            captured == spec_consumes_window_input(old(self).state(), *input),
            final(self).state() == spec_after_window_input(old(self).state(), *input),
            final(self).group() == old(self).group(),
            final(self).offset() == old(self).offset(),
            final(self).screen() == old(self).screen(),
    {
        match input {
            WindowInput::CursorMoved { position } => {
                match self.previous_mouse_position {
                    None => {
                        self.previous_mouse_position = Some(*position);
                        false
                    },
                    Some(previous) => {
                        if self.left_pressed {
                            self.record(CameraMotion::Rotate { previous, current: *position });
                            true
                        } else if self.right_pressed {
                            self.record(CameraMotion::Pan { previous, current: *position });
                            true
                        } else {
                            false
                        }
                    },
                }
            },
            WindowInput::MouseWheel { amount_bits } => {
                self.record(CameraMotion::Zoom { amount_bits: *amount_bits });
                true
            },
            WindowInput::MouseInput { button, pressed } => {
                match button {
                    MouseButton::Left => {
                        self.left_pressed = *pressed;
                    },
                    MouseButton::Right => {
                        self.right_pressed = *pressed;
                    },
                    MouseButton::Other => {},
                }
                false
            },
            _ => false,
        }
    }
}

impl CubensisResource for CameraResource {
    closed spec fn group(&self) -> u32 {
        self.binding_group
    }

    closed spec fn offset(&self) -> u32 {
        self.binding_offset
    }

    open spec fn size() -> u32 {
        1
    }

    open spec fn layout(&self) -> Seq<LayoutEntry> {
        seq![
            LayoutEntry {
                binding: self.offset(),
                visibility: spec_vertex_fragment(),
                kind: BindingKind::UniformBuffer,
            },
        ]
    }

    open spec fn bindings(&self) -> Seq<BindEntry> {
        seq![BindEntry { binding: self.offset(), resource: BoundResource::CameraBuffer }]
    }

    proof fn lemma_shape(&self) {
    }

    fn binding_group(&self) -> (group: u32) {
        self.binding_group
    }

    fn binding_offset(&self) -> (offset: u32) {
        self.binding_offset
    }

    fn binding_size() -> (size: u32) {
        1
    }

    fn next_binding_offset_in_group(&self) -> (next: u32) {
        self.binding_offset + 1
    }

    /// Marks the matrices as uploaded. The camera never changes what it
    /// binds.
    fn update(&mut self, time_delta_nanos: u128) -> (changed: bool)
        ensures
            !changed,
            final(self).state() == (CameraState { dirty: false, ..old(self).state() }),
            final(self).screen() == old(self).screen(),
    {
        self.requires_update = false;
        false
    }

    fn resize(&mut self, width: u32, height: u32)
        ensures
            final(self).screen() == (width, height),
            final(self).state() == old(self).state(),
    {
        self.screen_width = width;
        self.screen_height = height;
    }

    fn get_bind_group_layout_entries(&self) -> (entries: Vec<LayoutEntry>) {
        let entries = vec![
            LayoutEntry {
                binding: self.binding_offset,
                visibility: vertex_fragment(),
                kind: BindingKind::UniformBuffer,
            },
        ];
        assert(entries@ =~= self.layout());
        entries
    }

    fn get_bind_group_entries(&self) -> (entries: Vec<BindEntry>) {
        let entries = vec![
            BindEntry { binding: self.binding_offset, resource: BoundResource::CameraBuffer },
        ];
        assert(entries@ =~= self.bindings());
        entries
    }

    /// Follows the pointer. The camera consumes the events that move it: a
    /// cursor move while a button is held and a first position is known,
    /// and every turn of the wheel. Every other event passes on.
    fn handle_or_capture_event(&mut self, event: &InputEvent) -> (captured: bool)
        ensures
            captured == spec_consumes(old(self).state(), *event),
            final(self).state() == spec_after_event(old(self).state(), *event),
            final(self).screen() == old(self).screen(),
    {
        match event {
            InputEvent::Window { window_id, event } => self.handle_window_input(event),
            _ => false,
        }
    }
}

} // verus!
