//! The speech side of a command: what the audio loader and the
//! speech-to-text engine hand over, and the command text made of it.

use vstd::prelude::*;
use vstd::string::*;

verus! {

/// How the speech engine picks tokens while decoding.
#[derive(Debug, Clone, Copy, PartialEq, Eq, Structural)]
pub enum SamplingStrategy {
    /// Always take the most likely token.
    Greedy,
    /// Keep several candidate transcriptions and pick the best.
    BeamSearch,
}

/// What the header of a WAV file says of its samples.
#[derive(Debug, Clone, Copy, PartialEq, Eq, Structural)]
pub struct WavFormat {
    pub channel_count: u16,
    pub sampling_rate: u32,
}

impl WavFormat {
    /// Whether the engine takes such samples: one channel, at 16 kHz.
    pub open spec fn is_supported(self) -> bool {
        self.channel_count == 1 && self.sampling_rate == 16_000
    }

    /// Whether the engine takes such samples: one channel, at 16 kHz.
    pub fn supported(&self) -> (r: bool)
        ensures
            r == self.is_supported(),
    {
        self.channel_count == 1 && self.sampling_rate == 16_000
    }
}

/// The text of a transcription: its segments in order, each with one space
/// before it.
pub open spec fn transcript(segments: Seq<Seq<char>>) -> Seq<char>
    decreases segments.len(),
{
    if segments.len() == 0 {
        Seq::empty()
    } else {
        transcript(segments.drop_last()) + seq![' '] + segments.last()
    }
}

/// The command that a recording holds, given the format of the recording and
/// the segments that the engine heard in it: the transcript of the segments,
/// or `None` where the engine does not take the format.
pub fn parse_sample(format: &WavFormat, segments: &Vec<String>) -> (r: Option<String>)
    ensures
        match r {
            Some(text) => format.is_supported() && text@ == transcript(
                segments@.map_values(|s: String| s@),
            ),
            None => !format.is_supported(),
        },
{
    if !format.supported() {
        return None;
    }
    let ghost texts = segments@.map_values(|s: String| s@);
    let mut text = String::new();
    let mut i: usize = 0;
    while i < segments.len()
        invariant
            i <= segments@.len(),
            texts == segments@.map_values(|s: String| s@),
            text@ == transcript(texts.take(i as int)),
        decreases segments@.len() - i,
    {
        proof {
            reveal_strlit(" ");
            assert(" "@ =~= seq![' ']);
            assert(texts.take(i + 1).drop_last() =~= texts.take(i as int));
            assert(texts.take(i + 1).last() == segments@[i as int]@);
        }
        text.append(" ");
        text.append(segments[i].as_str());
        i += 1;
    }
    proof {
        assert(texts.take(i as int) =~= texts);
    }
    Some(text)
}

} // verus!
