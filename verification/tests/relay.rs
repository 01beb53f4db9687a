use projectm_sdl::error::CaptureError;
use projectm_sdl::relay::{relay_buffer, RelayStep, SampleRelay};

/// Runs a drain pass against a stream that holds `available` samples and
/// gets no more, and gives the sizes of the blocks that were forwarded.
fn drain(available: usize, max_samples: u32) -> Vec<usize> {
    let mut relay = SampleRelay::begin(true, Some(available), max_samples);
    let mut remaining = available;
    let mut forwarded = Vec::new();
    let mut reads = 0;
    while relay.is_draining() {
        let read = remaining.min(relay.buffer_len());
        remaining -= read;
        reads += 1;
        assert!(reads <= available + 1);
        match relay.on_read(Ok(read)) {
            RelayStep::Done => {}
            RelayStep::Forward { samples } => forwarded.push(samples),
            RelayStep::Failed(e) => panic!("unexpected fault {:?}", e),
        }
    }
    assert_eq!(remaining, 0);
    forwarded
}

#[test]
fn backlog_of_2500_goes_out_in_three_blocks() {
    assert_eq!(drain(2500, 1024), vec![1024, 1024, 452]);
}

#[test]
fn buffer_of_2500_is_cut_into_three_blocks() {
    let samples: Vec<f32> = (0..2500).map(|i| i as f32 * 0.5).collect();
    let blocks = relay_buffer(&samples, 1024);
    let sizes: Vec<usize> = blocks.iter().map(|b| b.len()).collect();
    assert_eq!(sizes, vec![1024, 1024, 452]);
    assert_eq!(blocks[0][..], samples[..1024]);
    assert_eq!(blocks[1][..], samples[1024..2048]);
    assert_eq!(blocks[2][..], samples[2048..]);
}

#[test]
fn no_block_exceeds_the_limit() {
    let max_samples: u32 = 16;
    for available in 0..=(10 * max_samples as usize) {
        let sizes = drain(available, max_samples);
        assert!(sizes.iter().all(|&n| n >= 1 && n <= max_samples as usize));
        assert_eq!(sizes.iter().sum::<usize>(), available);
        assert_eq!(sizes.len(), (available + 15) / 16);

        let samples: Vec<u16> = (0..available as u16).collect();
        let blocks = relay_buffer(&samples, max_samples);
        assert_eq!(blocks.iter().map(|b| b.len()).collect::<Vec<usize>>(), sizes);
        assert_eq!(blocks.concat(), samples);
    }
}

#[test]
fn exact_multiple_has_no_short_block() {
    assert_eq!(drain(2048, 1024), vec![1024, 1024]);
    assert_eq!(drain(1024, 1024), vec![1024]);
    assert_eq!(drain(1, 1024), vec![1]);
}

#[test]
fn nothing_waiting_forwards_nothing() {
    assert_eq!(drain(0, 1024), Vec::<usize>::new());
    let blocks = relay_buffer::<f32>(&[], 1024);
    assert!(blocks.is_empty());
}

#[test]
fn engine_that_takes_nothing_gets_nothing() {
    let mut relay = SampleRelay::begin(true, Some(100), 0);
    assert_eq!(relay.buffer_len(), 0);
    assert!(relay.is_draining());
    assert_eq!(relay.on_read(Ok(0)), RelayStep::Done);
    assert!(!relay.is_draining());
    let blocks = relay_buffer(&[1u8, 2, 3], 0);
    assert!(blocks.is_empty());
}

#[test]
fn relay_rests_when_not_capturing_or_nothing_waits() {
    assert!(!SampleRelay::begin(false, Some(100), 1024).is_draining());
    assert!(!SampleRelay::begin(true, Some(0), 1024).is_draining());
    assert!(!SampleRelay::begin(true, None, 1024).is_draining());
    assert!(!SampleRelay::begin(false, None, 1024).is_draining());
    assert!(SampleRelay::begin(true, Some(1), 1024).is_draining());
}

#[test]
fn resting_relay_forwards_nothing() {
    let mut relay = SampleRelay::begin(false, Some(100), 1024);
    assert_eq!(relay.on_read(Ok(100)), RelayStep::Done);
    assert_eq!(relay.on_read(Err("ignored".to_string())), RelayStep::Done);
    assert!(!relay.is_draining());
    assert_eq!(relay.buffer_len(), 1024);
}

#[test]
fn read_failure_ends_the_pass() {
    let mut relay = SampleRelay::begin(true, Some(4096), 1024);
    assert_eq!(relay.on_read(Ok(1024)), RelayStep::Forward { samples: 1024 });
    assert!(relay.is_draining());
    assert_eq!(
        relay.on_read(Err("stream lost".to_string())),
        RelayStep::Failed(CaptureError::StreamReadFailed("stream lost".to_string()))
    );
    assert!(!relay.is_draining());
    assert_eq!(relay.on_read(Ok(1024)), RelayStep::Done);
}

#[test]
fn empty_read_ends_the_pass() {
    let mut relay = SampleRelay::begin(true, Some(4096), 1024);
    assert_eq!(relay.on_read(Ok(700)), RelayStep::Forward { samples: 700 });
    assert!(relay.is_draining());
    assert_eq!(relay.on_read(Ok(0)), RelayStep::Done);
    assert!(!relay.is_draining());
}

#[test]
fn relay_keeps_reading_while_samples_arrive() {
    let mut relay = SampleRelay::begin(true, Some(10), 1024);
    for _ in 0..5 {
        assert_eq!(relay.on_read(Ok(1024)), RelayStep::Forward { samples: 1024 });
        assert!(relay.is_draining());
    }
}

#[test]
fn oversized_read_is_cut_to_the_buffer() {
    let mut relay = SampleRelay::begin(true, Some(5000), 1024);
    assert_eq!(relay.on_read(Ok(5000)), RelayStep::Forward { samples: 1024 });
    assert_eq!(relay.on_read(Ok(usize::MAX)), RelayStep::Forward { samples: 1024 });
    assert_eq!(relay.on_read(Ok(1025)), RelayStep::Forward { samples: 1024 });
}

#[test]
fn largest_limit() {
    let relay = SampleRelay::begin(true, Some(1), u32::MAX);
    assert_eq!(relay.buffer_len(), u32::MAX as usize);
    let blocks = relay_buffer(&[7i16, 8, 9], u32::MAX);
    assert_eq!(blocks, vec![vec![7i16, 8, 9]]);
}

#[test]
fn blocks_keep_order_and_content() {
    let blocks = relay_buffer(&[1.5f32, -2.0, 3.25, 4.0, 5.5], 2);
    assert_eq!(blocks, vec![vec![1.5f32, -2.0], vec![3.25, 4.0], vec![5.5]]);
    let blocks = relay_buffer(&[1u8, 2, 3, 4], 1);
    assert_eq!(blocks, vec![vec![1u8], vec![2], vec![3], vec![4]]);
}
