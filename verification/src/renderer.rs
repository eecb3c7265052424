//! The renderer: what each event of the loop comes to, and what a frame
//! consists of.

use vstd::prelude::*;
use crate::device::GraphicsDevice;
use crate::events::{CubensisEvent, InputEvent, Key, WindowInput};
use crate::gui::{GuiApp, spec_gui_after};
use crate::mesh::draw::{DrawCommand, spec_draw_commands};
use crate::mesh::{Mesh, MeshError, compiled_view, outcome_view, spec_rebuild};
use crate::presentation::{PresentationPass, rotate_once};
use crate::resources::camera::{spec_after_event, spec_consumes};
use crate::resources::collection::{FrameUploads, ResourceCollection};
use crate::scene::Scene;
use crate::spawner::{ReloadTarget, apply_hot_reload, spec_reload_target, try_hot_reload};
use crate::text::{numbered, spec_decimal};
use crate::validation::ShaderError;

verus! {

/// Why a frame could not be presented.
#[derive(Clone, Copy, Debug, PartialEq, Eq, Structural)]
pub enum SurfaceError {
    Timeout,
    Outdated,
    Lost,
    OutOfMemory,
}

/// What follows the attempt to present a frame.
#[derive(Clone, Copy, Debug, PartialEq, Eq, Structural)]
pub enum RedrawAction {
    /// The frame is on screen.
    Presented,
    /// The surface was lost: resize to the size of the window and go on.
    Resize,
    /// The device is out of memory: leave the loop.
    Exit,
    /// The frame is dropped; the loop goes on.
    Skip,
}

/// What follows the attempt to present a frame, by its outcome.
pub open spec fn spec_after_render(rendered: Result<(), SurfaceError>) -> RedrawAction {
    match rendered {
        Ok(_) => RedrawAction::Presented,
        Err(SurfaceError::Lost) => RedrawAction::Resize,
        Err(SurfaceError::OutOfMemory) => RedrawAction::Exit,
        Err(_) => RedrawAction::Skip,
    }
}

/// What follows the attempt to present a frame: a lost surface is made
/// anew, want of memory ends the loop, every other error drops the frame.
pub fn handle_redraw(rendered: Result<(), SurfaceError>) -> (action: RedrawAction)
    ensures
        action == spec_after_render(rendered),
{
    match rendered {
        Ok(_) => RedrawAction::Presented,
        Err(SurfaceError::Lost) => RedrawAction::Resize,
        Err(SurfaceError::OutOfMemory) => RedrawAction::Exit,
        Err(_) => RedrawAction::Skip,
    }
}

/// What an event of a window asks of the renderer.
#[derive(Clone, Copy, Debug, PartialEq, Eq, Structural)]
pub enum WindowAction {
    Ignore,
    Resize { width: u32, height: u32 },
    Exit,
}

/// What an event of window `window_id` asks of the renderer of window
/// `own`: events of other windows nothing; a new size or scale factor a
/// resize; a close request or the press of Escape the end of the loop.
pub open spec fn spec_window_action(own: u64, window_id: u64, event: WindowInput) -> WindowAction {
    if window_id != own {
        WindowAction::Ignore
    } else {
        match event {
            WindowInput::Resized { width, height } => WindowAction::Resize { width, height },
            WindowInput::ScaleFactorChanged { width, height } => WindowAction::Resize {
                width,
                height,
            },
            WindowInput::CloseRequested => WindowAction::Exit,
            WindowInput::KeyboardInput { key, pressed } => if pressed && key == Key::Escape {
                WindowAction::Exit
            } else {
                WindowAction::Ignore
            },
            _ => WindowAction::Ignore,
        }
    }
}

pub fn handle_window_event(own: u64, window_id: u64, event: &WindowInput) -> (action: WindowAction)
    ensures
        action == spec_window_action(own, window_id, *event),
{
    if window_id != own {
        return WindowAction::Ignore;
    }
    match event {
        WindowInput::Resized { width, height } => WindowAction::Resize {
            width: *width,
            height: *height,
        },
        WindowInput::ScaleFactorChanged { width, height } => WindowAction::Resize {
            width: *width,
            height: *height,
        },
        WindowInput::CloseRequested => WindowAction::Exit,
        WindowInput::KeyboardInput { key, pressed } => if *pressed && *key == Key::Escape {
            WindowAction::Exit
        } else {
            WindowAction::Ignore
        },
        _ => WindowAction::Ignore,
    }
}

/// What the loop has to do after the renderer has seen an event.
#[derive(Clone, Copy, Debug, PartialEq, Eq, Structural)]
pub enum EventStep {
    /// The user interface took the event; nothing else saw it.
    Captured,
    /// A resource consumed the event; the renderer did not act on it.
    Consumed,
    Nothing,
    /// Leave the loop.
    Exit,
    /// The window has a new size, which the renderer has taken: configure
    /// the surface and make the textures and pipelines of that size.
    Resized { width: u32, height: u32 },
    /// A shader file has changed: compile the pass anew and hand the
    /// outcome to the renderer.
    Reload(ReloadTarget),
    /// Ask the window for a redraw.
    RequestRedraw,
    /// Draw a frame.
    Redraw,
}

/// The plan of one render pass of a frame.
#[derive(Debug)]
pub struct RenderPassPlan {
    pub label: String,
    /// The index of the mesh that the pass draws.
    pub mesh: usize,
    pub commands: Vec<DrawCommand>,
}

/// Every mesh of the list has one pipeline for each of its passes.
pub open spec fn meshes_wf<P>(meshes: Seq<Mesh<P>>) -> bool {
    forall|i: int| 0 <= i < meshes.len() ==> (#[trigger] meshes[i]).wf()
}

/// The renderer. `P` is what the caller keeps for a compiled pipeline, `T`
/// what it keeps for a history texture.
#[derive(Debug)]
pub struct Renderer<P, T, const HISTORY_DEPTH: usize> {
    window_id: u64,
    graphics: GraphicsDevice,
    resource_collection: ResourceCollection,
    presentation_pass: PresentationPass<T, HISTORY_DEPTH>,
    meshes: Vec<Mesh<P>>,
    gui: GuiApp,
    scene: Scene,
    targets_stale: bool,
}

impl<P, T, const HISTORY_DEPTH: usize> Renderer<P, T, HISTORY_DEPTH> {
    /// Whether the window has taken a size that the history textures do
    /// not have yet.
    pub closed spec fn stale(&self) -> bool {
        self.targets_stale
    }

    pub closed spec fn window(&self) -> u64 {
        self.window_id
    }

    pub closed spec fn graphics(&self) -> GraphicsDevice {
        self.graphics
    }

    pub closed spec fn resources(&self) -> ResourceCollection {
        self.resource_collection
    }

    pub closed spec fn presentation(&self) -> PresentationPass<T, HISTORY_DEPTH> {
        self.presentation_pass
    }

    pub closed spec fn meshes(&self) -> Seq<Mesh<P>> {
        self.meshes@
    }

    pub closed spec fn gui(&self) -> GuiApp {
        self.gui
    }

    pub closed spec fn scene(&self) -> Scene {
        self.scene
    }

    /// Every part of the renderer is consistent.
    pub open spec fn wf(&self) -> bool {
        &&& self.resources().wf()
        &&& self.presentation().wf()
        &&& meshes_wf(self.meshes())
    }

    /// What the loop has to do after an event that the user interface did
    /// not take.
    pub open spec fn spec_step(
        &self,
        event: InputEvent,
        canonical_paths: Seq<Vec<Option<String>>>,
    ) -> EventStep {
        match event {
            InputEvent::Window { window_id, event } => match spec_window_action(
                self.window(),
                window_id,
                event,
            ) {
                WindowAction::Ignore => EventStep::Nothing,
                WindowAction::Exit => EventStep::Exit,
                WindowAction::Resize { width, height } => if width > 0 && height > 0 {
                    EventStep::Resized { width, height }
                } else {
                    EventStep::Nothing
                },
            },
            InputEvent::User(CubensisEvent::FileEdit(path)) => match spec_reload_target(
                self.meshes(),
                canonical_paths,
                path@,
                self.meshes().len(),
            ) {
                Some(target) => EventStep::Reload(
                    ReloadTarget { mesh: target.0 as usize, shader: target.1 as usize },
                ),
                None => EventStep::Nothing,
            },
            InputEvent::User(_) => EventStep::Nothing,
            InputEvent::MainEventsCleared => EventStep::RequestRedraw,
            InputEvent::RedrawRequested => EventStep::Redraw,
            InputEvent::Other => EventStep::Nothing,
        }
    }

    /// A renderer of the given parts, with a hidden user interface.
    pub fn new(
        window_id: u64,
        graphics: GraphicsDevice,
        resource_collection: ResourceCollection,
        presentation_pass: PresentationPass<T, HISTORY_DEPTH>,
        meshes: Vec<Mesh<P>>,
        scene: Scene,
    ) -> (renderer: Self)
        requires
            resource_collection.wf(),
            presentation_pass.wf(),
            meshes_wf(meshes@),
        ensures
            renderer.wf(),
            renderer.window() == window_id,
            renderer.graphics() == graphics,
            renderer.resources() == resource_collection,
            renderer.presentation() == presentation_pass,
            renderer.meshes() == meshes@,
            renderer.scene() == scene,
            !renderer.gui().is_enabled,
            !renderer.gui().library_panel.is_enabled,
            !renderer.stale(),
    {
        Renderer {
            window_id,
            graphics,
            resource_collection,
            presentation_pass,
            meshes,
            gui: GuiApp::new(),
            scene,
            targets_stale: false,
        }
    }

    pub fn get_graphics(&self) -> (graphics: &GraphicsDevice)
        ensures
            *graphics == self.graphics(),
    {
        &self.graphics
    }

    pub fn get_resource_collection(&self) -> (collection: &ResourceCollection)
        ensures
            *collection == self.resources(),
    {
        &self.resource_collection
    }

    pub fn get_presentation_pass(&self) -> (pass: &PresentationPass<T, HISTORY_DEPTH>)
        ensures
            *pass == self.presentation(),
    {
        &self.presentation_pass
    }

    pub fn get_meshes(&self) -> (meshes: &Vec<Mesh<P>>)
        ensures
            meshes@ == self.meshes(),
    {
        &self.meshes
    }

    pub fn get_gui(&self) -> (gui: &GuiApp)
        ensures
            *gui == self.gui(),
    {
        &self.gui
    }

    /// Whether history textures of a new size are to be handed in before
    /// the next frame.
    pub fn needs_new_targets(&self) -> (stale: bool)
        ensures
            stale == self.stale(),
    {
        self.targets_stale
    }

    pub fn get_scene(&self) -> (scene: &Scene)
        ensures
            *scene == self.scene(),
    {
        &self.scene
    }

    /// Takes note of the lengths of the newest sample buffers.
    pub fn observe_audio(&mut self, wave_len: u32, spectrum_len: u32)
        requires
            old(self).wf(),
        ensures
            final(self).wf(),
            final(self).resources().audio().latest_wave_len() == wave_len,
            final(self).resources().audio().latest_spectrum_len() == spectrum_len,
            final(self).resources().layout() == old(self).resources().layout(),
            final(self).resources().bindings() == old(self).resources().bindings(),
            final(self).resources().camera() == old(self).resources().camera(),
            final(self).resources().time() == old(self).resources().time(),
            final(self).window() == old(self).window(),
            final(self).graphics() == old(self).graphics(),
            final(self).presentation() == old(self).presentation(),
            final(self).meshes() == old(self).meshes(),
            final(self).gui() == old(self).gui(),
            final(self).scene() == old(self).scene(),
            final(self).stale() == old(self).stale(),
    {
        self.resource_collection.observe_audio(wave_len, spectrum_len);
    }

    /// Hands out the camera motions asked for since the last call.
    pub fn take_camera_motions(&mut self) -> (motions: Vec<crate::resources::camera::CameraMotion>)
        requires
            old(self).wf(),
        ensures
            final(self).wf(),
            motions@ == old(self).resources().camera().state().motions,
            final(self).resources().camera().state().motions.len() == 0,
            final(self).resources().layout() == old(self).resources().layout(),
            final(self).resources().bindings() == old(self).resources().bindings(),
            final(self).window() == old(self).window(),
            final(self).graphics() == old(self).graphics(),
            final(self).presentation() == old(self).presentation(),
            final(self).meshes() == old(self).meshes(),
            final(self).gui() == old(self).gui(),
            final(self).scene() == old(self).scene(),
            final(self).stale() == old(self).stale(),
    {
        self.resource_collection.take_camera_motions()
    }

    /// Shows the audio panel where it is hidden, and hides it where it is
    /// shown.
    pub fn toggle_audio_widget(&mut self)
        requires
            old(self).wf(),
        ensures
            final(self).wf(),
            final(self).gui() == (GuiApp {
                menu: crate::gui::MainMenuAndWidgets {
                    audio_widget_enabled: !old(self).gui().menu.audio_widget_enabled,
                    ..old(self).gui().menu
                },
                ..old(self).gui()
            }),
            final(self).resources() == old(self).resources(),
            final(self).window() == old(self).window(),
            final(self).graphics() == old(self).graphics(),
            final(self).presentation() == old(self).presentation(),
            final(self).meshes() == old(self).meshes(),
            final(self).scene() == old(self).scene(),
            final(self).stale() == old(self).stale(),
    {
        self.gui.menu.toggle_audio_widget();
    }

    /// Shows the camera panel where it is hidden, and hides it where it is
    /// shown.
    pub fn toggle_camera_widget(&mut self)
        requires
            old(self).wf(),
        ensures
            final(self).wf(),
            final(self).gui() == (GuiApp {
                menu: crate::gui::MainMenuAndWidgets {
                    camera_widget_enabled: !old(self).gui().menu.camera_widget_enabled,
                    ..old(self).gui().menu
                },
                ..old(self).gui()
            }),
            final(self).resources() == old(self).resources(),
            final(self).window() == old(self).window(),
            final(self).graphics() == old(self).graphics(),
            final(self).presentation() == old(self).presentation(),
            final(self).meshes() == old(self).meshes(),
            final(self).scene() == old(self).scene(),
            final(self).stale() == old(self).stale(),
    {
        self.gui.menu.toggle_camera_widget();
    }

    /// Lets the renderer see an event of the loop. An event that the user
    /// interface has taken goes no further. Every other event goes to the
    /// user interface's own state and to the resources; where a resource
    /// consumes it, it goes no further either. What is left comes to the
    /// step that the result names. A new window size with area is taken at
    /// once; a changed file is only looked up, and the pass that is found
    /// is a pass of the renderer's meshes.
    pub fn handle_event(
        &mut self,
        gui_captured: bool,
        event: &InputEvent,
        canonical_paths: &Vec<Vec<Option<String>>>,
    ) -> (step: EventStep)
        requires
            old(self).wf(),
        ensures
            final(self).wf(),
            final(self).window() == old(self).window(),
            final(self).presentation() == old(self).presentation(),
            final(self).meshes() == old(self).meshes(),
            final(self).scene() == old(self).scene(),
            final(self).stale() == (old(self).stale() || step is Resized),
            final(self).resources().layout() == old(self).resources().layout(),
            final(self).resources().bindings() == old(self).resources().bindings(),
            gui_captured ==> {
                &&& step == EventStep::Captured
                &&& final(self).gui() == old(self).gui()
                &&& final(self).resources() == old(self).resources()
                &&& final(self).graphics() == old(self).graphics()
            },
            !gui_captured ==> {
                &&& step == if spec_consumes(old(self).resources().camera().state(), *event) {
                    EventStep::Consumed
                } else {
                    old(self).spec_step(*event, canonical_paths@)
                }
                &&& final(self).gui() == spec_gui_after(old(self).gui(), *event)
                &&& final(self).resources().camera().state() == spec_after_event(
                    old(self).resources().camera().state(),
                    *event,
                )
            },
            step is Reload ==> step->Reload_0.valid_for(final(self).meshes()),
            match step {
                EventStep::Resized { width, height } => {
                    &&& final(self).graphics().width == width
                    &&& final(self).graphics().height == height
                    &&& final(self).graphics().surface_configuration.width == width
                    &&& final(self).graphics().surface_configuration.height == height
                    &&& final(self).resources().camera().screen() == (width, height)
                },
                _ => {
                    &&& final(self).graphics() == old(self).graphics()
                    &&& final(self).resources().camera().screen() == old(
                        self,
                    ).resources().camera().screen()
                },
            },
    {
        if gui_captured {
            return EventStep::Captured;
        }
        self.gui.handle_event(event);
        if self.resource_collection.handle_event(event) {
            return EventStep::Consumed;
        }
        match event {
            InputEvent::Window { window_id, event } => match handle_window_event(
                self.window_id,
                *window_id,
                event,
            ) {
                WindowAction::Ignore => EventStep::Nothing,
                WindowAction::Exit => EventStep::Exit,
                WindowAction::Resize { width, height } => if self.resize(width, height) {
                    EventStep::Resized { width, height }
                } else {
                    EventStep::Nothing
                },
            },
            InputEvent::User(CubensisEvent::FileEdit(path)) => match try_hot_reload(
                &self.meshes,
                canonical_paths,
                path.as_str(),
            ) {
                Some(target) => EventStep::Reload(target),
                None => EventStep::Nothing,
            },
            InputEvent::User(_) => EventStep::Nothing,
            InputEvent::MainEventsCleared => EventStep::RequestRedraw,
            InputEvent::RedrawRequested => EventStep::Redraw,
            InputEvent::Other => EventStep::Nothing,
        }
    }

    /// Takes a new window size. A size without area changes nothing and
    /// gives `false`. Else device and resources follow; the history
    /// textures, the depth buffer and the pipelines are then to be made
    /// anew before the next frame.
    pub fn resize(&mut self, width: u32, height: u32) -> (resized: bool)
        requires
            old(self).wf(),
        ensures
            final(self).wf(),
            resized == (width > 0 && height > 0),
            !resized ==> *final(self) == *old(self),
            resized ==> {
                &&& final(self).graphics().width == width
                &&& final(self).graphics().height == height
                &&& final(self).graphics().surface_configuration.width == width
                &&& final(self).graphics().surface_configuration.height == height
                &&& final(self).resources().camera().screen() == (width, height)
            },
            final(self).resources().camera().state() == old(self).resources().camera().state(),
            final(self).resources().layout() == old(self).resources().layout(),
            final(self).resources().bindings() == old(self).resources().bindings(),
            final(self).resources().time() == old(self).resources().time(),
            final(self).resources().audio() == old(self).resources().audio(),
            final(self).window() == old(self).window(),
            final(self).presentation() == old(self).presentation(),
            final(self).meshes() == old(self).meshes(),
            final(self).gui() == old(self).gui(),
            final(self).scene() == old(self).scene(),
            final(self).stale() == (old(self).stale() || resized),
    {
        if self.graphics.resize(width, height) {
            self.resource_collection.resize(width, height);
            self.targets_stale = true;
            true
        } else {
            false
        }
    }

    /// Takes the history textures made for the size of the surface. Where
    /// their number is not the depth of the history and one, the renderer
    /// stays as it is and the result is `false`.
    pub fn resize_presentation(&mut self, render_history: Vec<T>) -> (done: bool)
        requires
            old(self).wf(),
        ensures
            final(self).wf(),
            done <==> render_history.len() == HISTORY_DEPTH + 1,
            done ==> final(self).presentation().history() == render_history@,
            !done ==> final(self).presentation().history() == old(self).presentation().history(),
            !done ==> final(self).presentation().extent() == old(self).presentation().extent(),
            final(self).resources() == old(self).resources(),
            final(self).window() == old(self).window(),
            final(self).graphics() == old(self).graphics(),
            final(self).meshes() == old(self).meshes(),
            final(self).gui() == old(self).gui(),
            final(self).scene() == old(self).scene(),
            final(self).stale() == (old(self).stale() && !done),
    {
        let width = self.graphics.surface_configuration.width;
        let height = self.graphics.surface_configuration.height;
        let done = self.presentation_pass.resize(render_history, width, height);
        if done {
            self.targets_stale = false;
        }
        done
    }

    /// Advances resources and user interface by one frame.
    pub fn update(&mut self, time_delta_nanos: u128) -> (uploads: FrameUploads)
        requires
            old(self).wf(),
        ensures
            final(self).wf(),
            uploads.time_buffer,
            uploads.camera_buffer == old(self).resources().camera().state().dirty,
            uploads.bind_group == old(self).resources().audio().out_of_date(),
            uploads.wave_texture == (old(self).resources().audio().latest_wave_len() != old(
                self,
            ).resources().audio().wave_width()),
            uploads.spectrum_texture == (old(self).resources().audio().latest_spectrum_len()
                != old(self).resources().audio().spectrum_width()),
            !final(self).resources().audio().out_of_date(),
            !final(self).resources().camera().state().dirty,
            final(self).resources().layout() == old(self).resources().layout(),
            !uploads.bind_group ==> final(self).resources().bindings() == old(
                self,
            ).resources().bindings(),
            final(self).gui() == (GuiApp {
                status_bar: crate::gui::StatusBar { last_frame_time: time_delta_nanos },
                ..old(self).gui()
            }),
            final(self).window() == old(self).window(),
            final(self).graphics() == old(self).graphics(),
            final(self).presentation() == old(self).presentation(),
            final(self).meshes() == old(self).meshes(),
            final(self).scene() == old(self).scene(),
            final(self).stale() == old(self).stale(),
    {
        let uploads = self.resource_collection.update(time_delta_nanos);
        self.gui.update(time_delta_nanos);
        uploads
    }

    /// Begins a frame and plans it: the history ring turns by one slot,
    /// then every mesh is drawn in a pass of its own, in order, into the
    /// new target, reading the frame before. After a resize the history
    /// textures of the new size must have been handed in first, and the
    /// history must be deep enough to hold a frame to read.
    pub fn render(&mut self) -> (passes: Vec<RenderPassPlan>)
        requires
            old(self).wf(),
            !old(self).stale(),
            HISTORY_DEPTH >= 1,
        ensures
            final(self).wf(),
            final(self).presentation().history() == rotate_once(old(self).presentation().history()),
            final(self).presentation().extent() == old(self).presentation().extent(),
            final(self).resources() == old(self).resources(),
            final(self).window() == old(self).window(),
            final(self).graphics() == old(self).graphics(),
            final(self).meshes() == old(self).meshes(),
            final(self).gui() == old(self).gui(),
            final(self).scene() == old(self).scene(),
            final(self).stale() == old(self).stale(),
            passes.len() == old(self).meshes().len(),
            forall|i: int|
                0 <= i < passes.len() ==> {
                    &&& (#[trigger] passes[i]).label@ == "Render Pass "@ + spec_decimal(i as nat)
                    &&& passes[i].mesh == i
                    &&& passes[i].commands@ == spec_draw_commands(
                        old(self).meshes()[i].pipelines().len(),
                        1,
                        DrawCommand::DrawIndexed { index_count: old(self).meshes()[i].index_count() },
                    )
                },
    {
        self.presentation_pass.start_frame();
        let bind_group_count = self.resource_collection.bind_group_count();
        let mut passes: Vec<RenderPassPlan> = Vec::new();
        let mut i: usize = 0;
        while i < self.meshes.len()
            invariant
                i <= self.meshes.len(),
                bind_group_count == 1,
                passes.len() == i,
                forall|k: int|
                    0 <= k < i ==> {
                        &&& (#[trigger] passes[k]).label@ == "Render Pass "@ + spec_decimal(
                            k as nat,
                        )
                        &&& passes[k].mesh == k
                        &&& passes[k].commands@ == spec_draw_commands(
                            self.meshes[k].pipelines().len(),
                            1,
                            DrawCommand::DrawIndexed { index_count: self.meshes[k].index_count() },
                        )
                    },
            decreases self.meshes.len() - i,
        {
            let label = numbered("Render Pass ", i as u64);
            let commands = self.meshes[i].draw_mesh_indexed(bind_group_count);
            passes.push(RenderPassPlan { label, mesh: i, commands });
            i += 1;
        }
        passes
    }

    /// Hands the outcome of compiling the pass of `target` anew to its
    /// mesh. A failure leaves every mesh as it was.
    pub fn apply_hot_reload(&mut self, target: ReloadTarget, compiled: Result<P, ShaderError>) -> (outcome:
        Result<(), MeshError>)
        requires
            old(self).wf(),
            target.valid_for(old(self).meshes()),
        ensures
            final(self).wf(),
            final(self).meshes().len() == old(self).meshes().len(),
            forall|m: int|
                0 <= m < old(self).meshes().len() && m != target.mesh ==> final(self).meshes()[m]
                    == old(self).meshes()[m],
            (final(self).meshes()[target.mesh as int].view(), outcome_view(outcome))
                == spec_rebuild(
                old(self).meshes()[target.mesh as int].view(),
                old(self).meshes()[target.mesh as int].descriptor().render_shaders[target.shader as int],
                compiled_view(compiled),
            ),
            final(self).resources() == old(self).resources(),
            final(self).window() == old(self).window(),
            final(self).graphics() == old(self).graphics(),
            final(self).presentation() == old(self).presentation(),
            final(self).gui() == old(self).gui(),
            final(self).scene() == old(self).scene(),
            final(self).stale() == old(self).stale(),
    {
        apply_hot_reload(&mut self.meshes, target, compiled)
    }

    /// Shows another scene, with the meshes built for it.
    pub fn recreate_scene(&mut self, scene: Scene, meshes: Vec<Mesh<P>>)
        requires
            old(self).wf(),
            meshes_wf(meshes@),
        ensures
            final(self).wf(),
            final(self).meshes() == meshes@,
            final(self).scene() == scene,
            final(self).resources() == old(self).resources(),
            final(self).window() == old(self).window(),
            final(self).graphics() == old(self).graphics(),
            final(self).presentation() == old(self).presentation(),
            final(self).gui() == old(self).gui(),
            final(self).stale() == old(self).stale(),
    {
        self.meshes = meshes;
        self.scene = scene;
    }
}

} // verus!
