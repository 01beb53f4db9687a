//! The sample relay: captured samples reach the rendering engine in blocks
//! no larger than the engine takes in one call.

use crate::error::CaptureError;
use vstd::prelude::*;
use vstd::slice::{slice_subrange, slice_to_vec};

verus! {

/// Whether a drain pass has anything to do: the session captures and the
/// stream reports samples waiting.
pub open spec fn should_drain(capturing: bool, available: Option<usize>) -> bool {
    capturing && (available matches Some(n) && n > 0)
}

/// How many of the samples a read delivered are forwarded: all of them, and
/// never more than the buffer that was offered can hold.
pub open spec fn forward_len(read: usize, capacity: usize) -> usize {
    if read <= capacity {
        read
    } else {
        capacity
    }
}

/// The relay's answer to the outcome of one read.
#[derive(Clone, Debug, PartialEq, Eq)]
pub enum RelayStep {
    /// That many samples, from the start of the buffer that was read into,
    /// go to the engine as one block; then another read is due.
    Forward { samples: usize },
    /// Nothing goes to the engine and the pass is over.
    Done,
    /// The read failed; the pass is over, and the frame goes on without
    /// these samples.
    Failed(CaptureError),
}

/// The relay's answer to the outcome of one read of a pass. A relay that is
/// not draining is done; a read that delivers nothing ends the pass; a read
/// that delivers samples has them forwarded; a failed read is reported.
pub open spec fn read_step(draining: bool, capacity: usize, read: Result<usize, String>)
    -> RelayStep {
    if !draining {
        RelayStep::Done
    } else {
        match read {
            Ok(n) => if forward_len(n, capacity) > 0 {
                RelayStep::Forward { samples: forward_len(n, capacity) }
            } else {
                RelayStep::Done
            },
            Err(reason) => RelayStep::Failed(CaptureError::StreamReadFailed(reason)),
        }
    }
}

/// Number of blocks in which `available` samples are forwarded when a block
/// holds at most `max_samples`.
pub open spec fn block_count(available: nat, max_samples: nat) -> nat {
    if max_samples == 0 {
        0
    } else {
        ((available + max_samples - 1) / (max_samples as int)) as nat
    }
}

/// Where block `index` ends among `available` samples.
pub open spec fn block_end(available: nat, max_samples: nat, index: int) -> int {
    if (index + 1) * max_samples <= available {
        (index + 1) * max_samples
    } else {
        available as int
    }
}

/// Number of samples in block `index`: every block but the last is full, and
/// the last holds what is left.
pub open spec fn block_len(available: nat, max_samples: nat, index: int) -> int {
    block_end(available, max_samples, index) - index * max_samples
}

/// No block is larger than the engine's limit, however many samples wait.
pub proof fn lemma_block_len_bounded(available: nat, max_samples: nat, index: int)
    requires
        0 <= index < block_count(available, max_samples),
    ensures
        0 < block_len(available, max_samples, index) <= max_samples,
{
    let m = max_samples as int;
    assert(m > 0);
    assert((index + 1) * m == index * m + m) by (nonlinear_arith);
    assert(index * m < available) by (nonlinear_arith)
        requires
            0 <= index < (available + m - 1) / m,
            m > 0,
    ;
}

/// The blocks cover the waiting samples without gap or overlap: each begins
/// where the one before ended, and the last ends with the last sample.
pub proof fn lemma_blocks_cover(available: nat, max_samples: nat)
    requires
        max_samples > 0,
    ensures
        available == 0 <==> block_count(available, max_samples) == 0,
        available > 0 ==> block_end(
            available,
            max_samples,
            block_count(available, max_samples) - 1,
        ) == available,
        forall|i: int|
            0 <= i < block_count(available, max_samples) - 1 ==> #[trigger] block_end(
                available,
                max_samples,
                i,
            ) == (i + 1) * max_samples,
{
    let m = max_samples as int;
    let a = available as int;
    let k = (a + m - 1) / m;
    assert(k * m >= a && (k - 1) * m < a && k >= 0) by (nonlinear_arith)
        requires
            k == (a + m - 1) / m,
            m > 0,
            a >= 0,
    ;
    assert(a == 0 <==> k == 0) by (nonlinear_arith)
        requires
            k * m >= a,
            (k - 1) * m < a,
            k >= 0,
            m > 0,
            a >= 0,
    ;
    assert forall|i: int| 0 <= i < k - 1 implies #[trigger] block_end(available, max_samples, i)
        == (i + 1) * max_samples by {
        assert((i + 1) * m <= a) by (nonlinear_arith)
            requires
                0 <= i < k - 1,
                (k - 1) * m < a,
                m > 0,
        ;
    }
    if a > 0 {
        assert((k - 1 + 1) * m == k * m);
    }
}

/// One drain pass of the relay over a capture stream. The caller reads from
/// the stream into a buffer of `capacity` samples and reports each read; the
/// relay says how many samples of the buffer go on to the engine.
#[derive(Clone, Copy, Debug, PartialEq, Eq, Structural)]
pub struct SampleRelay {
    capacity: usize,
    draining: bool,
}

impl SampleRelay {
    /// Size, in samples, of the buffer to read into: the engine's limit.
    pub closed spec fn capacity(&self) -> usize {
        self.capacity
    }

    /// Whether the pass still reads.
    pub closed spec fn draining(&self) -> bool {
        self.draining
    }

    /// Starts a pass. `available` is what the stream reports as waiting
    /// (`None` where it could not say), `max_samples` the limit the engine
    /// reports for one call.
    pub fn begin(capturing: bool, available: Option<usize>, max_samples: u32) -> (relay: SampleRelay)
        ensures
            relay.capacity() == max_samples,
            relay.draining() == should_drain(capturing, available),
    {
        let draining: bool = capturing && match available {
            Some(n) => n > 0,
            None => false,
        };
        SampleRelay { capacity: max_samples as usize, draining }
    }

    /// Size, in samples, of the buffer to read into.
    pub fn buffer_len(&self) -> (len: usize)
        ensures
            len == self.capacity(),
    {
        self.capacity
    }

    /// Whether another read is due.
    pub fn is_draining(&self) -> (draining: bool)
        ensures
            draining == self.draining(),
    {
        self.draining
    }

    /// Takes the outcome of one read into the buffer and says what goes on
    /// to the engine. The pass ends with the first read that delivers
    /// nothing or fails. No block is larger than the buffer, whatever the
    /// read claims to have delivered.
    pub fn on_read(&mut self, read: Result<usize, String>) -> (step: RelayStep)
        ensures
            step == read_step(old(self).draining(), old(self).capacity(), read),
            step matches RelayStep::Forward { samples } ==> 0 < samples <= old(self).capacity(),
            final(self).capacity() == old(self).capacity(),
            final(self).draining() == (step is Forward),
    {
        if !self.draining {
            return RelayStep::Done;
        }
        match read {
            Ok(n) => {
                let samples: usize = if n <= self.capacity {
                    n
                } else {
                    self.capacity
                };
                if samples > 0 {
                    RelayStep::Forward { samples }
                } else {
                    self.draining = false;
                    RelayStep::Done
                }
            },
            Err(reason) => {
                self.draining = false;
                RelayStep::Failed(CaptureError::StreamReadFailed(reason))
            },
        }
    }
}

/// Relays a buffer of captured samples: cuts it, in order and unchanged,
/// into the blocks that go to the engine, each of at most `max_samples`
/// samples. An engine that takes no samples gets no block.
pub fn relay_buffer<T: Copy>(samples: &[T], max_samples: u32) -> (blocks: Vec<Vec<T>>)
    ensures
        blocks@.len() == block_count(samples@.len(), max_samples as nat),
        forall|i: int|
            0 <= i < blocks@.len() ==> (#[trigger] blocks@[i])@ == samples@.subrange(
                i * max_samples,
                block_end(samples@.len(), max_samples as nat, i),
            ),
        forall|i: int| 0 <= i < blocks@.len() ==> 0 < (#[trigger] blocks@[i])@.len() <= max_samples,
{
    let total: usize = samples.len();
    let mut relay = SampleRelay::begin(true, Some(total), max_samples);
    let mut blocks: Vec<Vec<T>> = Vec::new();
    let mut pos: usize = 0;
    let ghost m = max_samples as int;
    assert(0 * m == 0);
    while relay.is_draining()
        invariant
            total == samples@.len(),
            m == max_samples,
            relay.capacity() == max_samples,
            pos <= total,
            pos == blocks@.len() * m || pos == total,
            !relay.draining() ==> pos == total || m == 0,
            blocks@.len() > 0 ==> m > 0 && (blocks@.len() - 1) * m < pos <= blocks@.len() * m,
            blocks@.len() == 0 ==> pos == 0,
            forall|i: int|
                0 <= i < blocks@.len() ==> (#[trigger] blocks@[i])@ == samples@.subrange(
                    i * m,
                    block_end(total as nat, m as nat, i),
                ),
            forall|i: int| 0 <= i < blocks@.len() ==> 0 < (#[trigger] blocks@[i])@.len() <= m,
        decreases total - pos, relay.draining() as int,
    {
        let remaining: usize = total - pos;
        let capacity: usize = relay.buffer_len();
        let read: usize = if remaining < capacity {
            remaining
        } else {
            capacity
        };
        match relay.on_read(Ok(read)) {
            RelayStep::Forward { samples: n } => {
                let ghost k = blocks@.len() as int;
                proof {
                    assert((k + 1) * m == k * m + m) by (nonlinear_arith);
                }
                let block = slice_to_vec(slice_subrange(samples, pos, pos + n));
                blocks.push(block);
                pos = pos + n;
            },
            RelayStep::Done => {},
            RelayStep::Failed(_) => {},
        }
    }
    proof {
        let k = blocks@.len() as int;
        let a = total as int;
        if m > 0 {
            assert(k == (a + m - 1) / m) by (nonlinear_arith)
                requires
                    m > 0,
                    a >= 0,
                    k >= 0,
                    k == 0 ==> a == 0,
                    k > 0 ==> (k - 1) * m < a <= k * m,
            ;
        }
    }
    blocks
}

} // verus!
