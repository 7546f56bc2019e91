//! Layouts of mixed audio: two channels, or one channel or two.
//!
//! The sample type is a parameter; the arithmetic on samples (gains, pans,
//! averages) belongs to the caller.

use vstd::prelude::*;

verus! {

/// Stereo audio output.
#[derive(Debug, Clone)]
pub struct StereoOutput<T> {
    /// Left channel samples.
    pub left: Vec<T>,
    /// Right channel samples.
    pub right: Vec<T>,
}

/// Output from the mixer (mono or stereo).
#[derive(Debug, Clone)]
pub enum MixerOutput<T> {
    /// Mono output.
    Mono(Vec<T>),
    /// Stereo output.
    Stereo(StereoOutput<T>),
}

/// The samples of `a` and `b` taken in turn, as many pairs as the shorter
/// channel holds.
pub open spec fn interleaved<T>(a: Seq<T>, b: Seq<T>) -> Seq<T> {
    let n = if a.len() <= b.len() {
        a.len()
    } else {
        b.len()
    };
    Seq::new(2 * n, |k: int| if k % 2 == 0 { a[k / 2] } else { b[k / 2] })
}

/// Interleaving takes as many pairs as the shorter channel holds, the left
/// sample of each pair first.
pub proof fn interleaved_alternates_channels<T>(a: Seq<T>, b: Seq<T>)
    ensures
        interleaved(a, b).len() == 2 * (if a.len() <= b.len() {
            a.len()
        } else {
            b.len()
        }),
        forall|i: int|
            0 <= i < a.len() && i < b.len() ==> #[trigger] interleaved(a, b)[2 * i] == a[i]
                && interleaved(a, b)[2 * i + 1] == b[i],
{
    assert forall|i: int| 0 <= i < a.len() && i < b.len() implies #[trigger] interleaved(a, b)[2
        * i] == a[i] && interleaved(a, b)[2 * i + 1] == b[i] by {
        assert((2 * i) % 2 == 0 && (2 * i) / 2 == i);
        assert((2 * i + 1) % 2 == 1 && (2 * i + 1) / 2 == i);
    }
}

/// A copy of a channel, sample by sample.
fn copy_channel<T: Copy>(samples: &Vec<T>) -> (out: Vec<T>)
    ensures
        out@ == samples@,
{
    let mut out: Vec<T> = Vec::new();
    let mut i: usize = 0;
    while i < samples.len()
        invariant
            i <= samples.len(),
            out@ == samples@.take(i as int),
        decreases samples.len() - i,
    {
        out.push(samples[i]);
        assert(samples@.take(i as int + 1) == samples@.take(i as int).push(samples@[i as int]));
        i = i + 1;
    }
    assert(samples@.take(samples.len() as int) == samples@);
    out
}

impl<T: Copy> StereoOutput<T> {
    /// Creates a stereo output of `num_samples` samples per channel, all
    /// `silence`.
    pub fn new(num_samples: usize, silence: T) -> (out: Self)
        ensures
            out.left@ == Seq::new(num_samples as nat, |i: int| silence),
            out.right@ == Seq::new(num_samples as nat, |i: int| silence),
    {
        let mut left: Vec<T> = Vec::new();
        let mut right: Vec<T> = Vec::new();
        let mut i: usize = 0;
        while i < num_samples
            invariant
                i <= num_samples,
                left@ == Seq::new(i as nat, |k: int| silence),
                right@ == Seq::new(i as nat, |k: int| silence),
            decreases num_samples - i,
        {
            left.push(silence);
            right.push(silence);
            i = i + 1;
            assert(left@ =~= Seq::new(i as nat, |k: int| silence));
            assert(right@ =~= Seq::new(i as nat, |k: int| silence));
        }
        StereoOutput { left, right }
    }

    /// Creates a stereo output with the mono samples in both channels.
    pub fn from_mono(mono: Vec<T>) -> (out: Self)
        ensures
            out.left@ == mono@,
            out.right@ == mono@,
    {
        let left = copy_channel(&mono);
        StereoOutput { left, right: mono }
    }

    /// Creates interleaved stereo samples: left, right, left, right, ...
    pub fn interleave(&self) -> (out: Vec<T>)
        requires
            self.left@.len() * 2 <= usize::MAX,
        ensures
            out@ == interleaved(self.left@, self.right@),
    {
        let n = if self.left.len() <= self.right.len() {
            self.left.len()
        } else {
            self.right.len()
        };
        let mut out: Vec<T> = Vec::new();
        let mut i: usize = 0;
        while i < n
            invariant
                i <= n,
                n <= self.left@.len(),
                n <= self.right@.len(),
                n == self.left@.len() || n == self.right@.len(),
                n * 2 <= usize::MAX,
                out@.len() == 2 * i,
                forall|k: int|
                    0 <= k < 2 * i ==> out@[k] == if k % 2 == 0 {
                        self.left@[k / 2]
                    } else {
                        self.right@[k / 2]
                    },
            decreases n - i,
        {
            out.push(self.left[i]);
            out.push(self.right[i]);
            i = i + 1;
        }
        assert(out@ =~= interleaved(self.left@, self.right@));
        out
    }

    /// Number of samples per channel (the left channel's length).
    pub fn len(&self) -> (n: usize)
        ensures
            n == self.left@.len(),
    {
        self.left.len()
    }

    /// Whether the output holds no samples.
    pub fn is_empty(&self) -> (empty: bool)
        ensures
            empty == (self.left@.len() == 0),
    {
        self.left.len() == 0
    }
}

impl<T: Copy> MixerOutput<T> {
    /// Whether this is stereo output.
    pub fn is_stereo(&self) -> (stereo: bool)
        ensures
            stereo == (self is Stereo),
    {
        match self {
            MixerOutput::Mono(_) => false,
            MixerOutput::Stereo(_) => true,
        }
    }

    /// Converts to stereo, duplicating mono samples into both channels.
    pub fn to_stereo(&self) -> (out: StereoOutput<T>)
        ensures
            match self {
                MixerOutput::Mono(samples) => out.left@ == samples@ && out.right@ == samples@,
                MixerOutput::Stereo(stereo) => out.left@ == stereo.left@ && out.right@
                    == stereo.right@,
            },
    {
        match self {
            MixerOutput::Mono(samples) => StereoOutput::from_mono(copy_channel(samples)),
            MixerOutput::Stereo(stereo) => StereoOutput {
                left: copy_channel(&stereo.left),
                right: copy_channel(&stereo.right),
            },
        }
    }

    /// Number of samples per channel.
    pub fn len(&self) -> (n: usize)
        ensures
            n == match self {
                MixerOutput::Mono(samples) => samples@.len(),
                MixerOutput::Stereo(stereo) => stereo.left@.len(),
            },
    {
        match self {
            MixerOutput::Mono(samples) => samples.len(),
            MixerOutput::Stereo(stereo) => stereo.left.len(),
        }
    }

    /// Whether the output holds no samples.
    pub fn is_empty(&self) -> (empty: bool)
        ensures
            empty == (match self {
                MixerOutput::Mono(samples) => samples@.len(),
                MixerOutput::Stereo(stereo) => stereo.left@.len(),
            } == 0),
    {
        self.len() == 0
    }
}

} // verus!
