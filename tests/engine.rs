use tracer::engine::{
    classify, probe_packet, Action, ProbeConfig, ProbeEvent, ProbeRoundResult, Report, TraceState,
};

fn ip_header() -> Vec<u8> {
    vec![0x45, 0, 0, 28, 0, 0, 0, 0, 64, 1, 0, 0, 10, 0, 0, 1, 10, 0, 0, 2]
}

fn time_exceeded(probe: &[u8]) -> Vec<u8> {
    let mut b = ip_header();
    b.extend_from_slice(&[11, 0, 0, 0, 0, 0, 0, 0]);
    b.extend_from_slice(&ip_header());
    b.extend_from_slice(&probe[0..8]);
    b
}

fn echo_reply(probe: &[u8]) -> Vec<u8> {
    let mut b = ip_header();
    b.extend_from_slice(probe);
    b[20] = 0;
    b
}

fn config(max_ttl: u8) -> ProbeConfig {
    ProbeConfig { max_ttl, probes_per_hop: 3, identifier: 42 }
}

/// Runs a whole trace; `answer` gets the TTL, the probe's index within its hop
/// and the packet, and gives the event. Returns every report and every TTL sent.
fn run(max_ttl: u8, answer: &dyn Fn(u8, usize, &[u8]) -> ProbeEvent) -> (Vec<Report>, Vec<u8>) {
    let (mut state, mut step) = TraceState::start(config(max_ttl));
    let mut reports: Vec<Report> = vec![];
    let mut ttls: Vec<u8> = vec![];
    let mut index = 0usize;
    let mut last_ttl = 0u8;
    loop {
        reports.extend_from_slice(&step.reports);
        match step.action {
            Action::Finish => break,
            Action::Send { ttl, packet } => {
                if ttl != last_ttl {
                    index = 0;
                    last_ttl = ttl;
                }
                ttls.push(ttl);
                let event = answer(ttl, index, &packet);
                index += 1;
                step = state.on_event(event);
            }
        }
    }
    assert!(state.finished);
    (reports, ttls)
}

#[test]
fn stops_at_the_hop_where_the_destination_replies() {
    let (reports, ttls) = run(5, &|ttl, index, packet| {
        let responder = 0x0A00_0000 + ttl as u32;
        if ttl < 4 {
            ProbeEvent::Received { datagram: time_exceeded(packet), responder, rtt_nanos: 1000 }
        } else if index == 0 {
            ProbeEvent::Received { datagram: echo_reply(packet), responder, rtt_nanos: 2000 }
        } else {
            ProbeEvent::Lost
        }
    });
    assert!(!ttls.contains(&5));
    assert_eq!(ttls, vec![1, 1, 1, 2, 2, 2, 3, 3, 3, 4, 4, 4]);
    let groups = reports.iter().filter(|r| matches!(r, Report::HopStart(_))).count();
    assert_eq!(groups, 4);
    let mut expected: Vec<Report> = vec![];
    for ttl in 1..4u8 {
        expected.push(Report::HopStart(ttl));
        expected.push(Report::Responder(0x0A00_0000 + ttl as u32));
        expected.extend_from_slice(&[Report::Rtt(1000), Report::Rtt(1000), Report::Rtt(1000)]);
        expected.push(Report::HopEnd);
    }
    expected.extend_from_slice(&[
        Report::HopStart(4),
        Report::Responder(0x0A00_0004),
        Report::Rtt(2000),
        Report::Timeout,
        Report::Timeout,
    ]);
    assert_eq!(reports, expected);
}

#[test]
fn all_timeouts_give_max_ttl_minus_one_hop_groups() {
    let (reports, ttls) = run(5, &|_, _, _| ProbeEvent::Lost);
    assert_eq!(ttls.len(), 12);
    let mut expected: Vec<Report> = vec![];
    for ttl in 1..5u8 {
        expected.push(Report::HopStart(ttl));
        expected.extend_from_slice(&[Report::Timeout, Report::Timeout, Report::Timeout]);
        expected.push(Report::HopEnd);
    }
    assert_eq!(reports, expected);
}

#[test]
fn max_ttl_of_one_sends_nothing() {
    let (reports, ttls) = run(1, &|_, _, _| ProbeEvent::Lost);
    assert!(reports.is_empty());
    assert!(ttls.is_empty());
}

#[test]
fn noise_prints_nothing_and_changed_responder_is_shown() {
    let (reports, _) = run(2, &|_, index, packet| match index {
        0 => ProbeEvent::Received { datagram: vec![0x45, 1, 2], responder: 1, rtt_nanos: 5 },
        1 => ProbeEvent::Received { datagram: time_exceeded(packet), responder: 7, rtt_nanos: 6 },
        _ => ProbeEvent::Received { datagram: time_exceeded(packet), responder: 9, rtt_nanos: 8 },
    });
    assert_eq!(
        reports,
        vec![
            Report::HopStart(1),
            Report::Responder(7),
            Report::Rtt(6),
            Report::Responder(9),
            Report::Rtt(8),
            Report::HopEnd,
        ]
    );
}

#[test]
fn sequence_numbers_advance_per_probe() {
    let (mut state, step) = TraceState::start(config(3));
    assert_eq!(step.action, Action::Send { ttl: 1, packet: probe_packet(42, 1) });
    let step = state.on_event(ProbeEvent::Lost);
    assert_eq!(step.action, Action::Send { ttl: 1, packet: probe_packet(42, 2) });
    assert_eq!(state.sequence, 2);
}

#[test]
fn probe_packet_carries_a_valid_checksum() {
    assert_eq!(probe_packet(42, 1), vec![8, 0, 0xF7, 0xD4, 0, 42, 0, 1]);
}

#[test]
fn classify_sorts_replies_hops_and_noise() {
    let probe = probe_packet(42, 1);
    assert_eq!(
        classify(&echo_reply(&probe), 3, 4),
        Some(ProbeRoundResult::Reply { responder: 3, rtt_nanos: 4 })
    );
    assert_eq!(
        classify(&time_exceeded(&probe), 3, 4),
        Some(ProbeRoundResult::IntermediateHop { responder: 3, rtt_nanos: 4 })
    );
    let mut unreachable = ip_header();
    unreachable.extend_from_slice(&[3, 3, 0, 0, 0, 0, 0, 0]);
    assert_eq!(classify(&unreachable, 3, 4), None);
}
