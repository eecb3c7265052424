//! The resource collection: time, camera and audio, bound as one group.

use vstd::prelude::*;
use crate::binding::{
    BindEntry, LayoutEntry, layout_is_consecutive, layout_is_disjoint,
    lemma_consecutive_concat, lemma_consecutive_is_disjoint,
};
use crate::events::InputEvent;
use crate::resources::CubensisResource;
use crate::resources::audio::AudioResource;
use crate::resources::camera::CameraResource;
use crate::resources::time::TimeResource;
use crate::stream::AudioStreamInfo;

verus! {

/// What one update of the collection asks of the graphics device.
#[derive(Clone, Copy, Debug, PartialEq, Eq, Structural)]
pub struct FrameUploads {
    /// Write the time values to the time buffer.
    pub time_buffer: bool,
    /// Write the camera's matrices to the camera buffer.
    pub camera_buffer: bool,
    /// Make the waveform texture anew, at the width of the resource.
    pub wave_texture: bool,
    /// Make the spectrum texture anew, at the width of the resource.
    pub spectrum_texture: bool,
    /// Make the combined layout and bind group anew, from the collection's
    /// entries.
    pub bind_group: bool,
}

/// Time, camera and audio, in this order, with the layout and the bind
/// group entries of all three in one list each.
#[derive(Debug)]
pub struct ResourceCollection {
    bind_group_layout: Vec<LayoutEntry>,
    bind_group: Vec<BindEntry>,
    time: TimeResource,
    audio: AudioResource,
    camera: CameraResource,
}

impl ResourceCollection {
    /// The time resource, the first member.
    pub closed spec fn time(&self) -> TimeResource {
        self.time
    }

    /// The camera resource, the second member.
    pub closed spec fn camera(&self) -> CameraResource {
        self.camera
    }

    /// The audio resource, the third member.
    pub closed spec fn audio(&self) -> AudioResource {
        self.audio
    }

    pub fn get_time(&self) -> (time: &TimeResource)
        ensures
            *time == self.time(),
    {
        &self.time
    }

    pub fn get_camera(&self) -> (camera: &CameraResource)
        ensures
            *camera == self.camera(),
    {
        &self.camera
    }

    pub fn get_audio(&self) -> (audio: &AudioResource)
        ensures
            *audio == self.audio(),
    {
        &self.audio
    }

    /// Takes note of the lengths of the newest sample buffers. The audio
    /// textures and the bind group follow at the next update.
    pub fn observe_audio(&mut self, wave_len: u32, spectrum_len: u32)
        requires
            old(self).wf(),
        ensures
            final(self).wf(),
            final(self).layout() == old(self).layout(),
            final(self).bindings() == old(self).bindings(),
            final(self).time() == old(self).time(),
            final(self).camera() == old(self).camera(),
            final(self).audio().latest_wave_len() == wave_len,
            final(self).audio().latest_spectrum_len() == spectrum_len,
            final(self).audio().wave_width() == old(self).audio().wave_width(),
            final(self).audio().spectrum_width() == old(self).audio().spectrum_width(),
            final(self).audio().device_name() == old(self).audio().device_name(),
    {
        self.audio.observe(wave_len, spectrum_len);
    }

    /// Hands out the camera motions asked for since the last call, oldest
    /// first.
    pub fn take_camera_motions(&mut self) -> (motions: Vec<crate::resources::camera::CameraMotion>)
        requires
            old(self).wf(),
        ensures
            final(self).wf(),
            motions@ == old(self).camera().state().motions,
            final(self).camera().state() == (crate::resources::camera::CameraState {
                motions: Seq::empty(),
                ..old(self).camera().state()
            }),
            final(self).camera().screen() == old(self).camera().screen(),
            final(self).layout() == old(self).layout(),
            final(self).bindings() == old(self).bindings(),
            final(self).time() == old(self).time(),
            final(self).audio() == old(self).audio(),
    {
        self.camera.take_motions()
    }

    /// The combined layout that the collection holds.
    pub closed spec fn layout(&self) -> Seq<LayoutEntry> {
        self.bind_group_layout@
    }

    /// The combined bind group entries that the collection holds.
    pub closed spec fn bindings(&self) -> Seq<BindEntry> {
        self.bind_group@
    }

    /// The layout entries of the members as they are now, in list order.
    pub open spec fn members_layout(&self) -> Seq<LayoutEntry> {
        self.time().layout() + self.camera().layout() + self.audio().layout()
    }

    /// What the members bind now, in list order.
    pub open spec fn members_bindings(&self) -> Seq<BindEntry> {
        self.time().bindings() + self.camera().bindings() + self.audio().bindings()
    }

    /// The members sit in bind group 0, each at the offset that the one
    /// before it leaves free.
    pub open spec fn offsets_assigned(&self) -> bool {
        &&& self.time().group() == 0
        &&& self.camera().group() == 0
        &&& self.audio().group() == 0
        &&& self.time().offset() == 0
        &&& self.camera().offset() == self.time().offset() + TimeResource::size()
        &&& self.audio().offset() == self.camera().offset() + CameraResource::size()
    }

    /// The collection is consistent: offsets are assigned in list order and
    /// the combined lists are those of the members as they are now.
    pub open spec fn wf(&self) -> bool {
        &&& self.offsets_assigned()
        &&& self.layout() == self.members_layout()
        &&& self.bindings() == self.members_bindings()
    }

    /// A collection for a surface of `width` by `height` pixels and for
    /// sample buffers of the given lengths.
    pub fn new(
        width: u32,
        height: u32,
        wave_len: u32,
        spectrum_len: u32,
        audio_stream_info: AudioStreamInfo,
    ) -> (collection: Self)
        ensures
            collection.wf(),
            collection.time().frames() == 0,
            collection.time().elapsed() == 0,
            collection.camera().screen() == (width, height),
            !collection.camera().state().dirty,
            collection.camera().state().previous is None,
            collection.camera().state().motions.len() == 0,
            collection.audio().wave_width() == wave_len,
            collection.audio().spectrum_width() == spectrum_len,
            !collection.audio().out_of_date(),
            collection.audio().device_name() == audio_stream_info.device_name@,
    {
        let time = TimeResource::new(0, 0);
        let camera = CameraResource::new(0, time.next_binding_offset_in_group(), width, height);
        let audio = AudioResource::new(
            0,
            camera.next_binding_offset_in_group(),
            wave_len,
            spectrum_len,
            audio_stream_info,
        );
        let mut bind_group_layout = time.get_bind_group_layout_entries();
        let mut camera_layout = camera.get_bind_group_layout_entries();
        let mut audio_layout = audio.get_bind_group_layout_entries();
        bind_group_layout.append(&mut camera_layout);
        bind_group_layout.append(&mut audio_layout);
        let mut bind_group = time.get_bind_group_entries();
        let mut camera_entries = camera.get_bind_group_entries();
        let mut audio_entries = audio.get_bind_group_entries();
        bind_group.append(&mut camera_entries);
        bind_group.append(&mut audio_entries);
        ResourceCollection { bind_group_layout, bind_group, time, audio, camera }
    }

    /// Advances every member by one frame. Where the audio resource reports
    /// a change, the combined layout and bind group entries are rebuilt from
    /// the members before the call returns.
    pub fn update(&mut self, time_delta_nanos: u128) -> (uploads: FrameUploads)
        requires
            old(self).wf(),
        ensures
            final(self).wf(),
            uploads.time_buffer,
            uploads.camera_buffer == old(self).camera().state().dirty,
            uploads.wave_texture == (old(self).audio().latest_wave_len() != old(
                self,
            ).audio().wave_width()),
            uploads.spectrum_texture == (old(self).audio().latest_spectrum_len() != old(
                self,
            ).audio().spectrum_width()),
            uploads.bind_group == old(self).audio().out_of_date(),
            !uploads.bind_group ==> final(self).bindings() == old(self).bindings(),
            final(self).layout() == old(self).layout(),
            final(self).layout().len() == TimeResource::size() + CameraResource::size()
                + AudioResource::size(),
            layout_is_disjoint(final(self).layout()),
            final(self).time().frames() == crate::resources::time::spec_next_frame(
                old(self).time().frames(),
            ),
            final(self).time().elapsed() == crate::resources::time::spec_saturating_sum(
                old(self).time().elapsed(),
                time_delta_nanos,
            ),
            final(self).time().frame_time() == time_delta_nanos,
            !final(self).camera().state().dirty,
            final(self).camera().state().motions == old(self).camera().state().motions,
            final(self).camera().screen() == old(self).camera().screen(),
            final(self).audio().wave_width() == old(self).audio().latest_wave_len(),
            final(self).audio().spectrum_width() == old(self).audio().latest_spectrum_len(),
            !final(self).audio().out_of_date(),
    {
        let camera_buffer = self.camera.requires_update();
        let wave_texture = self.audio.wave_out_of_date();
        let spectrum_texture = self.audio.spectrum_out_of_date();
        self.time.update(time_delta_nanos);
        self.camera.update(time_delta_nanos);
        let bind_group = self.audio.update(time_delta_nanos);
        if bind_group {
            self.rebuild();
        }
        proof {
            self.lemma_layout_shape();
        }
        FrameUploads { time_buffer: true, camera_buffer, wave_texture, spectrum_texture, bind_group }
    }

    /// Collects the layout and the bind group entries of the members anew.
    fn rebuild(&mut self)
        requires
            old(self).offsets_assigned(),
        ensures
            final(self).wf(),
            final(self).time() == old(self).time(),
            final(self).camera() == old(self).camera(),
            final(self).audio() == old(self).audio(),
    {
        let mut bind_group_layout = self.time.get_bind_group_layout_entries();
        let mut camera_layout = self.camera.get_bind_group_layout_entries();
        let mut audio_layout = self.audio.get_bind_group_layout_entries();
        bind_group_layout.append(&mut camera_layout);
        bind_group_layout.append(&mut audio_layout);
        self.bind_group_layout = bind_group_layout;
        let mut bind_group = self.time.get_bind_group_entries();
        let mut camera_entries = self.camera.get_bind_group_entries();
        let mut audio_entries = self.audio.get_bind_group_entries();
        bind_group.append(&mut camera_entries);
        bind_group.append(&mut audio_entries);
        self.bind_group = bind_group;
    }

    /// Hands the new surface size to the members that depend on it.
    pub fn resize(&mut self, width: u32, height: u32)
        requires
            old(self).wf(),
        ensures
            final(self).wf(),
            final(self).layout() == old(self).layout(),
            final(self).bindings() == old(self).bindings(),
            final(self).camera().screen() == (width, height),
            final(self).camera().state() == old(self).camera().state(),
            final(self).time() == old(self).time(),
            final(self).audio() == old(self).audio(),
    {
        self.time.resize(width, height);
        self.camera.resize(width, height);
    }

    /// The layouts of the collection's bind groups: one, the combined
    /// layout.
    pub fn get_bind_group_layouts(&self) -> (layouts: Vec<Vec<LayoutEntry>>)
        ensures
            layouts.len() == 1,
            layouts[0]@ == self.layout(),
    {
        let mut combined: Vec<LayoutEntry> = Vec::new();
        let mut i: usize = 0;
        while i < self.bind_group_layout.len()
            invariant
                i <= self.bind_group_layout.len(),
                combined@ == self.bind_group_layout@.subrange(0, i as int),
            decreases self.bind_group_layout.len() - i,
        {
            combined.push(self.bind_group_layout[i]);
            assert(combined@ =~= self.bind_group_layout@.subrange(0, i + 1));
            i += 1;
        }
        assert(combined@ =~= self.bind_group_layout@);
        vec![combined]
    }

    /// The number of bind groups of the collection: one.
    pub fn bind_group_count(&self) -> (count: u32)
        ensures
            count == 1,
    {
        1
    }

    /// The collection's bind groups: one, with the combined entries.
    pub fn get_bind_groups(&self) -> (groups: Vec<Vec<BindEntry>>)
        ensures
            groups.len() == 1,
            groups[0]@ == self.bindings(),
    {
        let mut combined: Vec<BindEntry> = Vec::new();
        let mut i: usize = 0;
        while i < self.bind_group.len()
            invariant
                i <= self.bind_group.len(),
                combined@ == self.bind_group@.subrange(0, i as int),
            decreases self.bind_group.len() - i,
        {
            combined.push(self.bind_group[i]);
            assert(combined@ =~= self.bind_group@.subrange(0, i + 1));
            i += 1;
        }
        assert(combined@ =~= self.bind_group@);
        vec![combined]
    }

    /// Offers the event to the members in turn, audio, time, camera, until
    /// one consumes it. The result says whether one did; only the camera
    /// ever does.
    pub fn handle_event(&mut self, event: &InputEvent) -> (consumed: bool)
        requires
            old(self).wf(),
        ensures
            final(self).wf(),
            consumed == crate::resources::camera::spec_consumes(
                old(self).camera().state(),
                *event,
            ),
            final(self).layout() == old(self).layout(),
            final(self).bindings() == old(self).bindings(),
            final(self).camera().state() == crate::resources::camera::spec_after_event(
                old(self).camera().state(),
                *event,
            ),
            final(self).camera().screen() == old(self).camera().screen(),
            final(self).time() == old(self).time(),
            final(self).audio() == old(self).audio(),
    {
        self.audio.handle_or_capture_event(event) || self.time.handle_or_capture_event(event)
            || self.camera.handle_or_capture_event(event)
    }

    /// In a consistent collection the combined layout has one entry for
    /// each binding of each member, at the indices 0, 1, 2 and so on, and
    /// no index occurs twice.
    pub proof fn lemma_layout_shape(&self)
        requires
            self.wf(),
        ensures
            self.layout().len() == TimeResource::size() + CameraResource::size()
                + AudioResource::size(),
            self.bindings().len() == self.layout().len(),
            layout_is_consecutive(self.layout(), 0),
            layout_is_disjoint(self.layout()),
    {
        self.time().lemma_shape();
        self.camera().lemma_shape();
        self.audio().lemma_shape();
        lemma_consecutive_concat(self.time().layout(), self.camera().layout(), 0);
        lemma_consecutive_concat(
            self.time().layout() + self.camera().layout(),
            self.audio().layout(),
            0,
        );
        lemma_consecutive_is_disjoint(self.layout(), 0);
    }
}

} // verus!
