//! Description of a sound to play.
//!
//! Volume, playback rate and panning are `f64` values. The engine core only
//! forwards them, so it holds each as the bit pattern of the value
//! (`f64::to_bits`), which loses nothing.

use vstd::prelude::*;

verus! {

/// Bit pattern of `1.0_f64`.
pub const ONE_BITS: u64 = 0x3FF0_0000_0000_0000;

/// Bit pattern of `0.5_f64`.
pub const HALF_BITS: u64 = 0x3FE0_0000_0000_0000;

pub struct AudioSource {
    volume_bits: u64,
    playback_rate_bits: u64,
    panning_bits: u64,
    path: String,
}

/// Mathematical value of an [`AudioSource`].
pub struct AudioSourceModel {
    pub volume_bits: u64,
    pub playback_rate_bits: u64,
    pub panning_bits: u64,
    pub path: Seq<char>,
}

impl View for AudioSource {
    type V = AudioSourceModel;

    closed spec fn view(&self) -> AudioSourceModel {
        AudioSourceModel {
            volume_bits: self.volume_bits,
            playback_rate_bits: self.playback_rate_bits,
            panning_bits: self.panning_bits,
            path: self.path@,
        }
    }
}

impl AudioSource {
    pub fn volume_bits(&self) -> (bits: u64)
        ensures
            bits == self@.volume_bits,
    {
        self.volume_bits
    }

    pub fn playback_rate_bits(&self) -> (bits: u64)
        ensures
            bits == self@.playback_rate_bits,
    {
        self.playback_rate_bits
    }

    pub fn panning_bits(&self) -> (bits: u64)
        ensures
            bits == self@.panning_bits,
    {
        self.panning_bits
    }

    pub fn path(&self) -> (path: &str)
        ensures
            path@ == self@.path,
    {
        self.path.as_str()
    }
}

impl Clone for AudioSource {
    fn clone(&self) -> (copy: AudioSource)
        ensures
            copy@ == self@,
    {
        AudioSource {
            volume_bits: self.volume_bits,
            playback_rate_bits: self.playback_rate_bits,
            panning_bits: self.panning_bits,
            path: self.path.clone(),
        }
    }
}

pub struct AudioSourceBuilder {
    volume_bits: u64,
    playback_rate_bits: u64,
    panning_bits: u64,
    path: String,
}

impl View for AudioSourceBuilder {
    type V = AudioSourceModel;

    closed spec fn view(&self) -> AudioSourceModel {
        AudioSourceModel {
            volume_bits: self.volume_bits,
            playback_rate_bits: self.playback_rate_bits,
            panning_bits: self.panning_bits,
            path: self.path@,
        }
    }
}

impl AudioSourceBuilder {
    /// Full volume, normal rate, centred, no file.
    pub fn new() -> (builder: AudioSourceBuilder)
        ensures
            builder@ == (AudioSourceModel {
                volume_bits: ONE_BITS,
                playback_rate_bits: ONE_BITS,
                panning_bits: HALF_BITS,
                path: Seq::<char>::empty(),
            }),
    {
        AudioSourceBuilder {
            volume_bits: ONE_BITS,
            playback_rate_bits: ONE_BITS,
            panning_bits: HALF_BITS,
            path: String::new(),
        }
    }

    pub fn volume(self, volume_bits: u64) -> (builder: AudioSourceBuilder)
        ensures
            builder@ == (AudioSourceModel { volume_bits, ..self@ }),
    {
        let mut builder = self;
        builder.volume_bits = volume_bits;
        builder
    }

    pub fn rate(self, rate_bits: u64) -> (builder: AudioSourceBuilder)
        ensures
            builder@ == (AudioSourceModel { playback_rate_bits: rate_bits, ..self@ }),
    {
        let mut builder = self;
        builder.playback_rate_bits = rate_bits;
        builder
    }

    pub fn pan(self, panning_bits: u64) -> (builder: AudioSourceBuilder)
        ensures
            builder@ == (AudioSourceModel { panning_bits, ..self@ }),
    {
        let mut builder = self;
        builder.panning_bits = panning_bits;
        builder
    }

    pub fn path(self, path: &str) -> (builder: AudioSourceBuilder)
        ensures
            builder@ == (AudioSourceModel { path: path@, ..self@ }),
    {
        let mut builder = self;
        builder.path = path.to_owned();
        builder
    }

    pub fn build(self) -> (source: AudioSource)
        ensures
            source@ == self@,
    {
        AudioSource {
            volume_bits: self.volume_bits,
            playback_rate_bits: self.playback_rate_bits,
            panning_bits: self.panning_bits,
            path: self.path,
        }
    }
}

} // verus!
