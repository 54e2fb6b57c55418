//! What a persisted recording looks like from outside: the header fields of
//! the PCM container, the sample layouts that can be processed, and the
//! region of a sample buffer that a trim keeps.

use vstd::prelude::*;
use vstd::slice::slice_subrange;

verus! {

/// How one sample is encoded.
#[derive(Clone, Copy, Debug, PartialEq, Eq)]
pub enum SampleFormat {
    /// IEEE floating point, normally within -1.0 and 1.0.
    Float,
    /// Signed integer.
    Int,
}

/// The header fields of a persisted recording.
#[derive(Clone, Copy, Debug, PartialEq, Eq)]
pub struct WavSpec {
    /// Interleaved channels per frame.
    pub channels: u16,
    /// Frames per second.
    pub sample_rate: u32,
    /// Bits that one sample takes.
    pub bits_per_sample: u16,
    /// Integer or floating point.
    pub sample_format: SampleFormat,
}

/// The sample layouts that can be read back and processed.
#[derive(Clone, Copy, Debug, PartialEq, Eq)]
pub enum SampleLayout {
    /// 16-bit signed integers.
    Int16,
    /// 24-bit signed integers.
    Int24,
    /// 32-bit signed integers.
    Int32,
    /// 32-bit IEEE floats.
    Float32,
}

/// The layout that a sample format and a bit depth select, if it is one of
/// the four supported ones.
pub open spec fn layout_of(format: SampleFormat, bits: u16) -> Option<SampleLayout> {
    match format {
        SampleFormat::Int => if bits == 16 {
            Some(SampleLayout::Int16)
        } else if bits == 24 {
            Some(SampleLayout::Int24)
        } else if bits == 32 {
            Some(SampleLayout::Int32)
        } else {
            None
        },
        SampleFormat::Float => if bits == 32 {
            Some(SampleLayout::Float32)
        } else {
            None
        },
    }
}

/// The part of `samples` from `start` up to `end`, or nothing where that is
/// no range within `samples`.
pub open spec fn trimmed<T>(samples: Seq<T>, start: int, end: int) -> Seq<T> {
    if 0 <= start <= end <= samples.len() {
        samples.subrange(start, end)
    } else {
        Seq::empty()
    }
}

impl WavSpec {
    /// The layout of the samples that this header announces, or `None`
    /// where it is not one that can be processed.
    pub fn layout(&self) -> (layout: Option<SampleLayout>)
        ensures
            layout == layout_of(self.sample_format, self.bits_per_sample),
    {
        match self.sample_format {
            SampleFormat::Int => {
                if self.bits_per_sample == 16 {
                    Some(SampleLayout::Int16)
                } else if self.bits_per_sample == 24 {
                    Some(SampleLayout::Int24)
                } else if self.bits_per_sample == 32 {
                    Some(SampleLayout::Int32)
                } else {
                    None
                }
            },
            SampleFormat::Float => {
                if self.bits_per_sample == 32 {
                    Some(SampleLayout::Float32)
                } else {
                    None
                }
            },
        }
    }

    /// The same header at another sample rate: the samples stay as they
    /// are and are only read back faster or slower.
    pub fn with_sample_rate(&self, sample_rate: u32) -> (spec: WavSpec)
        ensures
            spec == (WavSpec { sample_rate, ..*self }),
    {
        WavSpec {
            channels: self.channels,
            sample_rate,
            bits_per_sample: self.bits_per_sample,
            sample_format: self.sample_format,
        }
    }

    /// The index of the first sample of frame `frame`, or `None` where it
    /// is beyond what 32 bits can count.
    pub fn sample_index(&self, frame: u32) -> (index: Option<u32>)
        ensures
            index == (if frame * self.channels <= u32::MAX {
                Some((frame * self.channels) as u32)
            } else {
                None
            }),
    {
        frame.checked_mul(self.channels as u32)
    }
}

/// The samples from index `start` up to index `end`; none at all where
/// `start` lies behind `end` or `end` behind the last sample.
pub fn trim_samples<T>(samples: &[T], start: usize, end: usize) -> (kept: &[T])
    ensures
        kept@ == trimmed(samples@, start as int, end as int),
{
    if start <= end && end <= samples.len() {
        slice_subrange(samples, start, end)
    } else {
        slice_subrange(samples, 0, 0)
    }
}

} // verus!
