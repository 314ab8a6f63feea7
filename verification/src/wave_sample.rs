use crate::engine::{EngineCall, EngineCallView, WaveReply};
use vstd::prelude::*;

verus! {

/// The number of samples read from the buffer of a wave that announces
/// `num_samples` of them: that many, whatever the number of channels, and
/// none where the count is negative.
pub open spec fn sample_len(num_samples: i32) -> nat {
    if num_samples > 0 {
        num_samples as nat
    } else {
        0
    }
}

/// A handle on one wave that the engine has synthesized.
///
/// Its custody follows the rules of a voice handle: created live, inert once
/// the wave was handed out or its destruction asked for.
#[derive(Debug)]
pub struct FliteWaveSample {
    ptr: usize,
    live: bool,
    kind: String,
    sample_rate: i32,
    num_samples: i32,
    num_channels: i32,
    samples: Vec<i16>,
}

/// A [`FliteWaveSample`] as a mathematical value.
pub struct FliteWaveSampleView {
    /// The address of the wave inside the engine.
    pub ptr: usize,
    /// Whether the handle still answers for the wave.
    pub live: bool,
    /// The wave's kind tag.
    pub kind: Seq<char>,
    /// Samples per second.
    pub sample_rate: i32,
    /// The number of samples that the wave announces.
    pub num_samples: i32,
    /// The number of channels.
    pub num_channels: i32,
    /// The samples.
    pub samples: Seq<i16>,
}

impl FliteWaveSampleView {
    /// What holds of every handle: the address is not null, and the wave
    /// carries as many samples as it announces.
    pub open spec fn wf(self) -> bool {
        self.ptr != 0 && self.samples.len() == sample_len(self.num_samples)
    }

    /// The handle once it no longer answers for the wave.
    pub open spec fn inert(self) -> FliteWaveSampleView {
        FliteWaveSampleView { live: false, ..self }
    }

    /// The address that the handle hands out when asked for its wave.
    pub open spec fn handed_out(self) -> Option<usize> {
        if self.live {
            Some(self.ptr)
        } else {
            None
        }
    }

    /// The call that the end of the handle's scope asks for.
    pub open spec fn release_call(self) -> Option<EngineCallView> {
        if self.live {
            Some(EngineCallView::DeleteWave { wave: self.ptr })
        } else {
            None
        }
    }
}

impl WaveReply {
    /// Whether the reply describes a wave in full: its address is not null
    /// and it carries as many samples as the wave announces.
    pub open spec fn describes_wave(self) -> bool {
        self.ptr != 0 && self.samples@.len() == sample_len(self.num_samples)
    }

    /// Tells whether the reply describes a wave in full.
    pub fn is_complete(&self) -> (complete: bool)
        ensures
            complete == self.describes_wave(),
    {
        self.ptr != 0 && self.samples.len() == FliteWaveSample::sample_count(self.num_samples)
    }
}

impl View for FliteWaveSample {
    type V = FliteWaveSampleView;

    closed spec fn view(&self) -> FliteWaveSampleView {
        FliteWaveSampleView {
            ptr: self.ptr,
            live: self.live,
            kind: self.kind@,
            sample_rate: self.sample_rate,
            num_samples: self.num_samples,
            num_channels: self.num_channels,
            samples: self.samples@,
        }
    }
}

impl FliteWaveSample {
    #[verifier::type_invariant]
    spec fn consistent(self) -> bool {
        self@.wf()
    }

    /// The number of samples to read from the buffer of a wave that announces
    /// `num_samples` of them.
    pub fn sample_count(num_samples: i32) -> (len: usize)
        ensures
            len == sample_len(num_samples),
    {
        if num_samples > 0 {
            num_samples as usize
        } else {
            0
        }
    }

    /// Takes charge of the wave that `reply` describes.
    pub fn new(reply: WaveReply) -> (wave: FliteWaveSample)
        requires
            reply.describes_wave(),
        ensures
            wave@ == (FliteWaveSampleView {
                ptr: reply.ptr,
                live: true,
                kind: reply.kind@,
                sample_rate: reply.sample_rate,
                num_samples: reply.num_samples,
                num_channels: reply.num_channels,
                samples: reply.samples@,
            }),
    {
        FliteWaveSample {
            ptr: reply.ptr,
            live: true,
            kind: reply.kind,
            sample_rate: reply.sample_rate,
            num_samples: reply.num_samples,
            num_channels: reply.num_channels,
            samples: reply.samples,
        }
    }

    /// The address of the wave, which is never null.
    pub fn address(&self) -> (ptr: usize)
        ensures
            ptr == self@.ptr,
            ptr != 0,
    {
        proof {
            use_type_invariant(self);
        }
        self.ptr
    }

    /// Whether the handle still answers for the wave.
    pub fn is_live(&self) -> (live: bool)
        ensures
            live == self@.live,
    {
        self.live
    }

    /// Hands the wave out: the caller answers for its destruction from now
    /// on, and the handle is inert. An inert handle has nothing to hand out.
    pub fn into_inner(&mut self) -> (ptr: Option<usize>)
        ensures
            ptr == old(self)@.handed_out(),
            ptr matches Some(p) ==> p != 0,
            final(self)@ == old(self)@.inert(),
    {
        proof {
            use_type_invariant(&*self);
        }
        if self.live {
            self.live = false;
            Some(self.ptr)
        } else {
            None
        }
    }

    /// Ends the handle's scope: a live handle asks for the destruction of its
    /// wave and becomes inert, an inert one asks for nothing.
    pub fn release(&mut self) -> (call: Option<EngineCall>)
        ensures
            match call {
                Some(c) => Some(c@) == old(self)@.release_call() && c@.deliverable(),
                None => old(self)@.release_call() is None,
            },
            final(self)@ == old(self)@.inert(),
    {
        proof {
            use_type_invariant(&*self);
        }
        if self.live {
            self.live = false;
            Some(EngineCall::DeleteWave { wave: self.ptr })
        } else {
            None
        }
    }

    /// The wave's kind tag.
    pub fn kind(&self) -> (kind: &str)
        ensures
            kind@ == self@.kind,
    {
        self.kind.as_str()
    }

    /// Samples per second.
    pub fn sample_rate(&self) -> (rate: i32)
        ensures
            rate == self@.sample_rate,
    {
        self.sample_rate
    }

    /// The number of samples that the wave announces.
    pub fn num_samples(&self) -> (count: i32)
        ensures
            count == self@.num_samples,
    {
        self.num_samples
    }

    /// The number of channels.
    pub fn num_channels(&self) -> (count: i32)
        ensures
            count == self@.num_channels,
    {
        self.num_channels
    }

    /// The samples: as many as [`sample_len`] gives for the announced count.
    pub fn samples(&self) -> (samples: &[i16])
        ensures
            samples@ == self@.samples,
            samples@.len() == sample_len(self@.num_samples),
            self@.wf(),
    {
        proof {
            use_type_invariant(self);
        }
        self.samples.as_slice()
    }
}

/// No destruction after a transfer, and none twice: `into_inner` and
/// `release` both leave the handle inert, and an inert handle asks for no
/// destruction, has nothing to hand out, and stays inert.
pub proof fn lemma_inert_is_final(wave: FliteWaveSampleView)
    ensures
        wave.inert().release_call() is None,
        wave.inert().handed_out() is None,
        wave.inert().inert() == wave.inert(),
{
}

/// The number of samples that a wave carries is a function of what the
/// wave announces: two waves that announce the same sample count and the
/// same channel count carry equally many samples, as many as [`sample_len`]
/// gives for the sample count.
pub proof fn lemma_sample_count_determined(a: FliteWaveSampleView, b: FliteWaveSampleView)
    requires
        a.wf(),
        b.wf(),
        a.num_samples == b.num_samples,
        a.num_channels == b.num_channels,
    ensures
        a.samples.len() == b.samples.len(),
        a.samples.len() == sample_len(a.num_samples),
{
}

} // verus!
