use epd_stream::container::{Error, FormatError, SizeError, FRAME_SIZE, HEADER_SIZE};
use epd_stream::panel::{EPD7in3f, PanelState, PollConfig, Step};
use epd_stream::stream::{
    range_header_value, write_number, FetchPipeline, FetchWindow, Phase, CHUNK_SIZE,
};

fn full_container() -> Vec<u8> {
    let mut c = Vec::new();
    c.extend_from_slice(b"EPD7");
    c.push(1);
    c.extend_from_slice(&800u32.to_le_bytes());
    c.extend_from_slice(&480u32.to_le_bytes());
    for i in 0..FRAME_SIZE {
        c.push((i % 251) as u8);
    }
    c
}

fn pipeline() -> FetchPipeline {
    let mut p = EPD7in3f::new(PollConfig::unbounded());
    p.reset();
    p.init();
    FetchPipeline::new(p)
}

fn count_refreshes(steps: &[Step]) -> usize {
    steps
        .iter()
        .filter(|s| matches!(s, Step::SendCommand(0x12)))
        .count()
}

#[test]
fn write_number_renders_decimal_digits() {
    let mut buf = vec![0u8; 32];
    let n = write_number(&mut buf, 0, 0);
    assert_eq!(n, 1);
    assert_eq!(&buf[0..1], b"0");

    let mut buf = vec![0xFFu8; 32];
    let n = write_number(&mut buf, 32780, 3);
    assert_eq!(n, 5);
    assert_eq!(&buf[3..8], b"32780");
    assert_eq!(buf[0], 0xFF);
    assert_eq!(buf[8], 0xFF);

    let mut buf = vec![0u8; 26];
    let n = write_number(&mut buf, usize::MAX, 2);
    assert_eq!(&buf[2..2 + n], usize::MAX.to_string().as_bytes());
}

#[test]
fn range_header_value_formats_inclusive_bounds() {
    assert_eq!(range_header_value(0, 12), b"bytes=0-12".to_vec());
    assert_eq!(range_header_value(13, 32780), b"bytes=13-32780".to_vec());
    assert_eq!(
        range_header_value(163853, 192012),
        b"bytes=163853-192012".to_vec()
    );
}

#[test]
fn fetch_window_end_and_range_text() {
    let w = FetchWindow {
        start: 13,
        len: 32768,
    };
    assert_eq!(w.end(), 32780);
    assert_eq!(w.range_value(), b"bytes=13-32780".to_vec());
}

#[test]
fn header_window_covers_the_first_13_bytes() {
    let p = pipeline();
    let w = p.next_window().unwrap();
    assert_eq!(
        w,
        FetchWindow {
            start: 0,
            len: HEADER_SIZE,
        }
    );
    assert_eq!(w.range_value(), b"bytes=0-12".to_vec());
}

#[test]
fn chunk_windows_are_exhaustive_and_non_overlapping() {
    let container = full_container();
    let mut p = pipeline();
    let w = p.next_window().unwrap();
    let header = container[w.start..w.start + w.len].to_vec();
    p.on_header(&header).unwrap();

    let mut windows = Vec::new();
    while let Some(w) = p.next_window() {
        let body = container[w.start..w.start + w.len].to_vec();
        p.on_chunk(&body).unwrap();
        windows.push(w);
    }

    assert_eq!(windows.len(), 6);
    let expected: Vec<(usize, usize)> = vec![
        (13, 32780),
        (32781, 65548),
        (65549, 98316),
        (98317, 131084),
        (131085, 163852),
        (163853, 192012),
    ];
    for (w, (start, end)) in windows.iter().zip(expected.iter()) {
        assert_eq!(w.start, *start);
        assert_eq!(w.start + w.len - 1, *end);
    }
    let last = windows[5];
    assert_eq!(last.len, FRAME_SIZE - 5 * CHUNK_SIZE);
    let total: usize = windows.iter().map(|w| w.len).sum();
    assert_eq!(total, FRAME_SIZE);
    for pair in windows.windows(2) {
        assert_eq!(pair[1].start, pair[0].start + pair[0].len);
    }
}

#[test]
fn full_transfer_delivers_frame_and_refreshes_exactly_once() {
    let container = full_container();
    assert_eq!(container.len(), 192013);

    let mut p = pipeline();
    let mut performed: Vec<Step> = Vec::new();
    let mut requests = 0usize;

    let w = p.next_window().unwrap();
    let header = container[w.start..w.start + w.len].to_vec();
    requests += 1;
    performed.extend(p.on_header(&header).unwrap());

    let mut delivered = 0usize;
    while let Some(w) = p.next_window() {
        let body = container[w.start..w.start + w.len].to_vec();
        requests += 1;
        delivered += body.len();
        performed.extend(p.on_chunk(&body).unwrap());
    }

    assert_eq!(delivered, FRAME_SIZE);
    assert_eq!(p.bytes_delivered(), FRAME_SIZE);
    assert_eq!(requests, 7);
    assert_eq!(p.phase(), Phase::Refreshing);
    assert_eq!(count_refreshes(&performed), 1);

    let sent: usize = performed
        .iter()
        .filter_map(|s| match s {
            Step::SendData(d) => Some(d.len()),
            _ => None,
        })
        .sum();
    assert_eq!(sent, FRAME_SIZE + 2);

    p.refresh_complete();
    assert_eq!(p.phase(), Phase::Done);
    assert_eq!(p.panel_state(), PanelState::Initialized);
}

#[test]
fn short_reads_are_accepted_and_shrink_the_next_window() {
    let container = full_container();
    let mut p = pipeline();
    let header = container[0..13].to_vec();
    p.on_header(&header).unwrap();

    let w = p.next_window().unwrap();
    assert_eq!(w.start, 13);
    let body = container[w.start..w.start + 100].to_vec();
    p.on_chunk(&body).unwrap();
    assert_eq!(p.bytes_delivered(), 100);

    let w = p.next_window().unwrap();
    assert_eq!(w.start, 113);
    assert_eq!(w.len, CHUNK_SIZE);

    let empty: Vec<u8> = Vec::new();
    p.on_chunk(&empty).unwrap();
    assert_eq!(p.bytes_delivered(), 100);
    assert_eq!(p.next_window().unwrap().start, 113);
}

#[test]
fn overlong_response_is_a_transport_error() {
    let container = full_container();
    let mut p = pipeline();
    let header = container[0..13].to_vec();
    p.on_header(&header).unwrap();

    let w = p.next_window().unwrap();
    let body = vec![0u8; w.len + 1];
    let r = p.on_chunk(&body);
    assert_eq!(r, Err(Error::Transport));
    assert_eq!(p.phase(), Phase::Failed);
    assert_eq!(p.panel_state(), PanelState::TransmittingData { sent: 0 });
    assert!(p.next_window().is_none());
}

#[test]
fn header_failures_abort_before_any_panel_step() {
    let mut p = pipeline();
    let r = p.on_header(&b"EPD7".to_vec());
    assert_eq!(r, Err(Error::Size(SizeError::BufferTooSmall)));
    assert_eq!(p.phase(), Phase::Failed);
    assert_eq!(p.panel_state(), PanelState::Initialized);

    let mut bad = b"EPD8".to_vec();
    bad.push(1);
    bad.extend_from_slice(&800u32.to_le_bytes());
    bad.extend_from_slice(&480u32.to_le_bytes());
    let mut p = pipeline();
    let r = p.on_header(&bad);
    assert_eq!(r, Err(Error::Format(FormatError::InvalidMagic)));

    let mut bad = b"EPD7".to_vec();
    bad.push(7);
    bad.extend_from_slice(&800u32.to_le_bytes());
    bad.extend_from_slice(&480u32.to_le_bytes());
    let mut p = pipeline();
    let r = p.on_header(&bad);
    assert_eq!(r, Err(Error::Format(FormatError::InvalidVersion)));

    let mut bad = b"EPD7".to_vec();
    bad.push(1);
    bad.extend_from_slice(&800u32.to_le_bytes());
    bad.extend_from_slice(&479u32.to_le_bytes());
    let mut p = pipeline();
    let r = p.on_header(&bad);
    assert_eq!(r, Err(Error::Format(FormatError::InvalidDimensions)));
}

#[test]
fn transport_failure_mid_stream_leaves_panel_transmitting() {
    let container = full_container();
    let mut p = pipeline();
    p.on_header(&container[0..13].to_vec()).unwrap();
    let w = p.next_window().unwrap();
    p.on_chunk(&container[w.start..w.start + w.len].to_vec())
        .unwrap();

    let e = p.on_transport_error();
    assert_eq!(e, Error::Transport);
    assert_eq!(p.phase(), Phase::Failed);
    assert_eq!(
        p.panel_state(),
        PanelState::TransmittingData { sent: CHUNK_SIZE }
    );
}

#[test]
fn hardware_failure_faults_the_panel() {
    let container = full_container();
    let mut p = pipeline();
    p.on_header(&container[0..13].to_vec()).unwrap();
    let e = p.on_hardware_error();
    assert_eq!(e, Error::Hardware);
    assert_eq!(p.phase(), Phase::Failed);
    assert_eq!(p.panel_state(), PanelState::Faulted);

    let mut panel = p.into_panel();
    panel.reset();
    assert_eq!(panel.state(), PanelState::Reset);
}
