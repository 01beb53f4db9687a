//! Stand-in audio for runs without a capture device.

use vstd::prelude::*;

verus! {

/// Stereo frames in one block of stand-in audio.
pub const DUMMY_FRAMES: usize = 512;

/// Samples in one block of stand-in audio: two channels of `DUMMY_FRAMES`.
pub const DUMMY_SAMPLES: usize = 1024;

/// One block of stand-in audio: `DUMMY_SAMPLES` interleaved 16-bit samples
/// of silence, every odd frame with its sign turned.
pub fn generate_random_audio_data() -> (pcm_data: Vec<i16>)
    ensures
        pcm_data@ == Seq::new(DUMMY_SAMPLES as nat, |i: int| 0i16),
{
    let mut pcm_data: Vec<i16> = vec![0; DUMMY_SAMPLES];
    let mut i: usize = 0;
    while i < DUMMY_FRAMES
        invariant
            i <= DUMMY_FRAMES,
            pcm_data@.len() == DUMMY_SAMPLES,
            forall|k: int| 0 <= k < pcm_data@.len() ==> pcm_data@[k] == 0,
        decreases DUMMY_FRAMES - i,
    {
        if i % 2 == 1 {
            let left: i16 = pcm_data[i * 2];
            let right: i16 = pcm_data[i * 2 + 1];
            pcm_data[i * 2] = (-(left as i32)) as i16;
            pcm_data[i * 2 + 1] = (-(right as i32)) as i16;
        }
        i += 1;
    }
    pcm_data
}

} // verus!
