//! Audio streams: which device feeds the renderer, and when a lost stream
//! is opened again.

use vstd::prelude::*;

verus! {

/// Where the audio comes from: a capture device, or the loopback of an
/// output device. Each holds the name of the device.
#[derive(Debug)]
pub enum AudioStreamSource {
    InputStream(String),
    WasapiLoopback(String),
}

impl AudioStreamSource {
    /// The name of the device, as a sequence of characters.
    pub open spec fn spec_name(&self) -> Seq<char> {
        match *self {
            AudioStreamSource::InputStream(name) => name@,
            AudioStreamSource::WasapiLoopback(name) => name@,
        }
    }

    /// Whether the source is the loopback of an output device.
    pub open spec fn spec_is_wasapi(&self) -> bool {
        *self is WasapiLoopback
    }

    pub fn name(&self) -> (name: String)
        ensures
            name@ == self.spec_name(),
    {
        match self {
            AudioStreamSource::InputStream(name) => name.clone(),
            AudioStreamSource::WasapiLoopback(name) => name.clone(),
        }
    }

    pub fn is_wasapi(&self) -> (loopback: bool)
        ensures
            loopback == self.spec_is_wasapi(),
    {
        match self {
            AudioStreamSource::InputStream(_) => false,
            AudioStreamSource::WasapiLoopback(_) => true,
        }
    }
}

impl Clone for AudioStreamSource {
    fn clone(&self) -> (copy: Self)
        ensures
            copy.spec_name() == self.spec_name(),
            copy.spec_is_wasapi() == self.spec_is_wasapi(),
    {
        match self {
            AudioStreamSource::InputStream(name) => AudioStreamSource::InputStream(name.clone()),
            AudioStreamSource::WasapiLoopback(name) => AudioStreamSource::WasapiLoopback(
                name.clone(),
            ),
        }
    }
}

/// What the user interface shows of the audio stream.
#[derive(Debug)]
pub struct AudioStreamInfo {
    pub device_name: String,
}

impl AudioStreamInfo {
    pub fn new(device_name: String) -> (info: Self)
        ensures
            info.device_name == device_name,
    {
        AudioStreamInfo { device_name }
    }
}

impl Clone for AudioStreamInfo {
    fn clone(&self) -> (copy: Self)
        ensures
            copy.device_name@ == self.device_name@,
    {
        AudioStreamInfo { device_name: self.device_name.clone() }
    }
}

/// The sample formats of an audio stream.
#[derive(Clone, Copy, Debug, PartialEq, Eq, Structural)]
pub enum SampleFormat {
    I16,
    U16,
    F32,
}

/// The first position that `wanted` marks, or the first position of all
/// where it marks none; nothing for an empty list.
pub open spec fn spec_find_or_first(wanted: Seq<bool>) -> Option<int>
    decreases wanted.len(),
{
    if wanted.len() == 0 {
        None
    } else {
        match spec_find_or_first(wanted.drop_last()) {
            None => Some(0),
            Some(found) => if !wanted[found] && wanted.last() {
                Some(wanted.len() - 1)
            } else {
                Some(found)
            },
        }
    }
}

/// [`spec_find_or_first`] picks a marked position before which none is
/// marked, or position 0 where none is marked at all.
pub proof fn lemma_find_or_first(wanted: Seq<bool>)
    ensures
        match spec_find_or_first(wanted) {
            None => wanted.len() == 0,
            Some(found) => {
                &&& 0 <= found < wanted.len()
                &&& forall|j: int| 0 <= j < found ==> !wanted[j]
                &&& wanted[found] || (found == 0 && forall|j: int|
                    0 <= j < wanted.len() ==> !wanted[j])
            },
        },
    decreases wanted.len(),
{
    if wanted.len() > 0 {
        lemma_find_or_first(wanted.drop_last());
        assert(forall|j: int| 0 <= j < wanted.len() - 1 ==> wanted.drop_last()[j] == wanted[j]);
    }
}

/// The code of a character with the capital letters A to Z folded onto
/// the small ones.
pub open spec fn spec_fold_case(c: char) -> u32 {
    if 65 <= c as u32 <= 90 {
        (c as u32 + 32) as u32
    } else {
        c as u32
    }
}

/// Whether two texts are the same but for the case of the letters A to Z.
pub open spec fn spec_eq_ignore_ascii_case(a: Seq<char>, b: Seq<char>) -> bool {
    &&& a.len() == b.len()
    &&& forall|i: int| 0 <= i < a.len() ==> spec_fold_case(a[i]) == spec_fold_case(b[i])
}

fn fold_case(c: char) -> (code: u32)
    ensures
        code == spec_fold_case(c),
{
    let code = c as u32;
    if 65 <= code && code <= 90 {
        code + 32
    } else {
        code
    }
}

/// Whether two texts are the same but for the case of the letters A to Z.
pub fn eq_ignore_ascii_case(a: &str, b: &str) -> (same: bool)
    ensures
        same == spec_eq_ignore_ascii_case(a@, b@),
{
    let left = crate::text::characters(a);
    let right = crate::text::characters(b);
    if left.len() != right.len() {
        return false;
    }
    let mut i: usize = 0;
    while i < left.len()
        invariant
            i <= left.len(),
            left.len() == right.len(),
            left@ == a@,
            right@ == b@,
            forall|j: int| 0 <= j < i ==> spec_fold_case(left[j]) == spec_fold_case(right[j]),
        decreases left.len() - i,
    {
        if fold_case(left[i]) != fold_case(right[i]) {
            return false;
        }
        i += 1;
    }
    true
}

/// For each device name, whether it is `wanted` but for the case of its
/// letters.
pub open spec fn spec_name_matches(names: Seq<String>, wanted: Seq<char>) -> Seq<bool> {
    Seq::new(names.len(), |i: int| spec_eq_ignore_ascii_case(names[i]@, wanted))
}

/// For each format, whether it is that of single-precision samples.
pub open spec fn spec_format_matches(formats: Seq<SampleFormat>) -> Seq<bool> {
    Seq::new(formats.len(), |i: int| formats[i] == SampleFormat::F32)
}

impl AudioStreamSource {
    /// The stream that is read where nothing else is asked for: the
    /// loopback of the device named where loopback is to be had, else the
    /// capture device named.
    pub fn default_stream(loopback: bool, device_name: String) -> (source: Self)
        ensures
            source.spec_name() == device_name@,
            source.spec_is_wasapi() == loopback,
    {
        if loopback {
            AudioStreamSource::WasapiLoopback(device_name)
        } else {
            AudioStreamSource::InputStream(device_name)
        }
    }

    /// All streams that can be read: every capture device, in order, and
    /// after them the loopback of the output device where there is one.
    pub fn all_streams(input_devices: Vec<String>, loopback_device: Option<String>) -> (streams: Vec<
        Self,
    >)
        ensures
            streams.len() == input_devices.len() + if loopback_device is Some {
                1nat
            } else {
                0nat
            },
            forall|i: int|
                0 <= i < input_devices.len() ==> (#[trigger] streams[i]).spec_name()
                    == input_devices[i]@ && !streams[i].spec_is_wasapi(),
            loopback_device is Some ==> streams[input_devices.len() as int].spec_is_wasapi()
                && streams[input_devices.len() as int].spec_name() == loopback_device->0@,
    {
        let mut streams: Vec<Self> = Vec::new();
        let mut i: usize = 0;
        while i < input_devices.len()
            invariant
                i <= input_devices.len(),
                streams.len() == i,
                forall|k: int|
                    0 <= k < i ==> (#[trigger] streams[k]).spec_name() == input_devices[k]@
                        && !streams[k].spec_is_wasapi(),
            decreases input_devices.len() - i,
        {
            streams.push(AudioStreamSource::InputStream(input_devices[i].clone()));
            i += 1;
        }
        match loopback_device {
            Some(name) => {
                streams.push(AudioStreamSource::WasapiLoopback(name));
            },
            None => {},
        }
        streams
    }

    /// The capture device to open for this source, by its position among
    /// the names of all capture devices: the first of the source's name,
    /// whatever the case of its letters, or the first of all where none
    /// has that name. There is none without a device.
    pub fn select_device(&self, device_names: &Vec<String>) -> (device: Option<usize>)
        ensures
            match device {
                Some(found) => spec_find_or_first(
                    spec_name_matches(device_names@, self.spec_name()),
                ) == Some(found as int),
                None => spec_find_or_first(spec_name_matches(device_names@, self.spec_name()))
                    is None,
            },
    {
        let wanted = self.name();
        let ghost marks = spec_name_matches(device_names@, self.spec_name());
        let mut device: Option<usize> = None;
        let mut settled = false;
        let mut i: usize = 0;
        while i < device_names.len()
            invariant
                i <= device_names.len(),
                wanted@ == self.spec_name(),
                marks == spec_name_matches(device_names@, self.spec_name()),
                match device {
                    Some(found) => spec_find_or_first(marks.subrange(0, i as int)) == Some(
                        found as int,
                    ) && found < i && settled == marks[found as int],
                    None => spec_find_or_first(marks.subrange(0, i as int)) is None && i == 0
                        && !settled,
                },
            decreases device_names.len() - i,
        {
            proof {
                assert(marks.subrange(0, i + 1).drop_last() =~= marks.subrange(0, i as int));
                assert(marks.subrange(0, i + 1).last() == marks[i as int]);
                if device is Some {
                    assert(marks.subrange(0, i + 1)[device->0 as int] == marks[device->0 as int]);
                }
            }
            if !settled {
                let matches = eq_ignore_ascii_case(device_names[i].as_str(), wanted.as_str());
                if matches || device.is_none() {
                    device = Some(i);
                    settled = matches;
                }
            }
            i += 1;
        }
        assert(marks.subrange(0, i as int) =~= marks);
        device
    }
}

/// The stream configuration to use, by its position among the formats of
/// all configurations that the device supports: the first of
/// single-precision samples, or the first of all where there is none such.
pub fn select_config(formats: &Vec<SampleFormat>) -> (config: Option<usize>)
    ensures
        match config {
            Some(found) => spec_find_or_first(spec_format_matches(formats@)) == Some(found as int),
            None => spec_find_or_first(spec_format_matches(formats@)) is None,
        },
{
    let ghost marks = spec_format_matches(formats@);
    let mut config: Option<usize> = None;
    let mut settled = false;
    let mut i: usize = 0;
    while i < formats.len()
        invariant
            i <= formats.len(),
            marks == spec_format_matches(formats@),
            match config {
                Some(found) => spec_find_or_first(marks.subrange(0, i as int)) == Some(found as int)
                    && found < i && settled == marks[found as int],
                None => spec_find_or_first(marks.subrange(0, i as int)) is None && i == 0
                    && !settled,
            },
        decreases formats.len() - i,
    {
        proof {
            assert(marks.subrange(0, i + 1).drop_last() =~= marks.subrange(0, i as int));
            assert(marks.subrange(0, i + 1).last() == marks[i as int]);
            if config is Some {
                assert(marks.subrange(0, i + 1)[config->0 as int] == marks[config->0 as int]);
            }
        }
        if !settled {
            let matches = formats[i] == SampleFormat::F32;
            if matches || config.is_none() {
                config = Some(i);
                settled = matches;
            }
        }
        i += 1;
    }
    assert(marks.subrange(0, i as int) =~= marks);
    config
}

/// The time for which a lost stream is left alone before it is opened
/// again, in nanoseconds: five seconds.
pub const RETRY_INTERVAL_NANOS: u128 = 5000000000;

/// The state of the stream that feeds the audio resource: whether it
/// plays, and when it was last opened.
#[derive(Clone, Copy, Debug, PartialEq, Eq, Structural)]
pub struct WaveStream {
    pub playing: bool,
    /// The time of the last attempt to open the stream, in nanoseconds of
    /// a clock that never runs backwards.
    pub opened_at: u128,
    pub buffer_size: usize,
}

impl WaveStream {
    /// Whether a stream in this state is to be opened again at time `now`:
    /// it does not play, and the last attempt is more than the retry
    /// interval ago.
    pub open spec fn spec_retry_due(&self, now: u128) -> bool {
        !self.playing && now - self.opened_at > RETRY_INTERVAL_NANOS
    }

    /// The state after the stream was opened at time `now`, with or
    /// without success.
    pub fn new(playing: bool, now: u128, buffer_size: usize) -> (stream: Self)
        ensures
            stream == (WaveStream { playing, opened_at: now, buffer_size }),
    {
        WaveStream { playing, opened_at: now, buffer_size }
    }

    /// Asked for data at time `now`: says whether the stream is to be
    /// opened again first, and if so takes `now` as the time of that
    /// attempt. A stream that plays is never opened again; one that does
    /// not is opened again at most once in every retry interval.
    pub fn get_wave_and_spectrum_data(&mut self, now: u128) -> (retry: bool)
        ensures
            retry == old(self).spec_retry_due(now),
            retry ==> *final(self) == (WaveStream { opened_at: now, ..*old(self) }),
            !retry ==> *final(self) == *old(self),
    {
        if !self.playing && now > self.opened_at && now - self.opened_at > RETRY_INTERVAL_NANOS {
            self.opened_at = now;
            true
        } else {
            false
        }
    }

    /// Takes note of how an attempt to open the stream again has ended.
    pub fn try_recreate_stream(&mut self, playing: bool)
        ensures
            *final(self) == (WaveStream { playing, ..*old(self) }),
    {
        self.playing = playing;
    }
}

/// After an attempt at time `now`, no further attempt is due before the
/// retry interval has passed.
pub proof fn lemma_retry_cooldown(stream: WaveStream, now: u128, later: u128)
    requires
        stream.spec_retry_due(now),
        later - now <= RETRY_INTERVAL_NANOS,
    ensures
        !(WaveStream { opened_at: now, ..stream }).spec_retry_due(later),
{
}

} // verus!
