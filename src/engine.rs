//! The hop-discovery engine. It decides what to send at each TTL and what to
//! report for each answer; the caller owns the socket, sends each probe, waits
//! for one datagram within the timeout and hands the outcome back.
use crate::checksum::{calc_checksum, checksum_of};
use crate::codec::{
    decodable, echo_bytes, type_of, Icmpv4Packet, ECHO_REPLY, ECHO_REQUEST,
};
use vstd::prelude::*;

verus! {

/// Probes sent at each TTL when nothing else is configured.
pub const DEFAULT_PROBES_PER_HOP: u8 = 3;

/// Identifier carried by every probe of a trace when nothing else is configured.
pub const DEFAULT_IDENTIFIER: u16 = 42;

/// What a trace is allowed to do.
#[derive(Debug, Clone, Copy, PartialEq, Eq, Structural)]
pub struct ProbeConfig {
    /// TTLs are tried from 1 up to, not including, this bound.
    pub max_ttl: u8,
    /// Probes sent at each TTL.
    pub probes_per_hop: u8,
    /// Identifier of every echo request of the trace.
    pub identifier: u16,
}

/// What one probe found out.
#[derive(Debug, Clone, Copy, PartialEq, Eq, Structural)]
pub enum ProbeRoundResult {
    /// The destination answered with an echo reply.
    Reply { responder: u32, rtt_nanos: u64 },
    /// A router on the way answered with a time-exceeded notification.
    IntermediateHop { responder: u32, rtt_nanos: u64 },
    /// Nothing arrived within the timeout, or receiving failed.
    Timeout,
}

/// What came back after a probe was sent.
#[derive(Debug, Clone, PartialEq, Eq)]
pub enum ProbeEvent {
    /// One datagram, starting with its IPv4 header, from the IPv4 address
    /// `responder`, `rtt_nanos` after the probe left.
    Received { datagram: Vec<u8>, responder: u32, rtt_nanos: u64 },
    /// Nothing usable arrived: a timeout, or a failure to send or receive.
    Lost,
}

/// One item of the trace's console output.
#[derive(Debug, Clone, Copy, PartialEq, Eq, Structural)]
pub enum Report {
    /// A new hop group begins, with this TTL.
    HopStart(u8),
    /// A responder other than the previous one of this hop: its address,
    /// followed by its name where one resolves.
    Responder(u32),
    /// Round-trip time of an answered probe.
    Rtt(u64),
    /// A probe went unanswered.
    Timeout,
    /// The hop group is complete.
    HopEnd,
}

/// What the caller does next.
#[derive(Debug, Clone, PartialEq, Eq)]
pub enum Action {
    /// Send `packet` with the outbound TTL set to `ttl`, then wait for one datagram.
    Send { ttl: u8, packet: Vec<u8> },
    /// The trace is over.
    Finish,
}

/// Reports to print, then the next action.
#[derive(Debug, Clone, PartialEq, Eq)]
pub struct Step {
    pub reports: Vec<Report>,
    pub action: Action,
}

/// State of one trace.
#[derive(Debug, Clone, PartialEq, Eq)]
pub struct TraceState {
    pub config: ProbeConfig,
    /// TTL of the hop being probed.
    pub ttl: u8,
    /// Probes of this hop whose outcome has come back.
    pub probe: u8,
    /// Sequence number of the last probe sent.
    pub sequence: u16,
    /// Whether an echo reply has come back at this hop.
    pub reached: bool,
    /// Address of the last answer at this hop.
    pub last_responder: Option<u32>,
    /// Whether the trace is over.
    pub finished: bool,
}

/// Sequence number after `s`, wrapping around.
pub open spec fn next_seq(s: u16) -> u16 {
    if s == 0xFFFF {
        0
    } else {
        (s + 1) as u16
    }
}

/// The echo request with no payload, identifier `id` and sequence number
/// `seq_num`, its checksum filled in.
pub open spec fn probe_bytes(id: u16, seq_num: u16) -> Seq<u8> {
    let unsigned = echo_bytes(ECHO_REQUEST, 0, 0, id, seq_num, Seq::empty());
    echo_bytes(ECHO_REQUEST, 0, checksum_of(unsigned) as u16, id, seq_num, Seq::empty())
}

/// How the datagram `d` from `responder` answers a probe: a reply, a hop on
/// the way, or nothing at all when it is no echo reply or time-exceeded message.
pub open spec fn classify_spec(d: Seq<u8>, responder: u32, rtt_nanos: u64) -> Option<
    ProbeRoundResult,
> {
    if !decodable(d) {
        None
    } else if type_of(d) == ECHO_REPLY {
        Some(ProbeRoundResult::Reply { responder, rtt_nanos })
    } else {
        Some(ProbeRoundResult::IntermediateHop { responder, rtt_nanos })
    }
}

/// The outcome of a probe after event `e`; `None` when the datagram is noise.
pub open spec fn outcome_of(e: ProbeEvent) -> Option<ProbeRoundResult> {
    match e {
        ProbeEvent::Received { datagram, responder, rtt_nanos } => classify_spec(
            datagram@,
            responder,
            rtt_nanos,
        ),
        ProbeEvent::Lost => Some(ProbeRoundResult::Timeout),
    }
}

/// Address of the responder of an answered probe.
pub open spec fn responder_of(o: Option<ProbeRoundResult>) -> Option<u32> {
    match o {
        Some(ProbeRoundResult::Reply { responder, .. }) => Some(responder),
        Some(ProbeRoundResult::IntermediateHop { responder, .. }) => Some(responder),
        _ => None,
    }
}

/// What is printed for outcome `o` when `last` answered the previous probe of
/// the hop: the responder when it changed, then the round-trip time; a marker
/// for a timeout; nothing for noise.
pub open spec fn probe_reports(last: Option<u32>, o: Option<ProbeRoundResult>) -> Seq<Report> {
    match o {
        Some(ProbeRoundResult::Reply { responder, rtt_nanos })
        | Some(ProbeRoundResult::IntermediateHop { responder, rtt_nanos }) => if last == Some(
            responder,
        ) {
            seq![Report::Rtt(rtt_nanos)]
        } else {
            seq![Report::Responder(responder), Report::Rtt(rtt_nanos)]
        },
        Some(ProbeRoundResult::Timeout) => seq![Report::Timeout],
        None => Seq::empty(),
    }
}


/// Whether outcome `o` is an echo reply.
pub open spec fn is_reply(o: Option<ProbeRoundResult>) -> bool {
    o matches Some(ProbeRoundResult::Reply { .. })
}

/// The state after outcome `o` of the probe last sent in state `s`.
pub open spec fn after_outcome(s: TraceState, o: Option<ProbeRoundResult>) -> TraceState {
    let reached = s.reached || is_reply(o);
    let last = if responder_of(o) is Some {
        responder_of(o)
    } else {
        s.last_responder
    };
    if s.probe + 1 < s.config.probes_per_hop {
        TraceState {
            probe: (s.probe + 1) as u8,
            sequence: next_seq(s.sequence),
            reached,
            last_responder: last,
            ..s
        }
    } else if reached || s.ttl + 1 >= s.config.max_ttl {
        TraceState { reached, last_responder: last, finished: true, ..s }
    } else {
        TraceState {
            ttl: (s.ttl + 1) as u8,
            probe: 0,
            sequence: next_seq(s.sequence),
            reached: false,
            last_responder: None,
            ..s
        }
    }
}

/// What is printed after outcome `o` in state `s`: the outcome's own reports,
/// then, when the hop is complete and the destination has not answered, the
/// end of its group and the start of the next one, if any.
pub open spec fn reports_after(s: TraceState, o: Option<ProbeRoundResult>) -> Seq<Report> {
    let out = probe_reports(s.last_responder, o);
    if s.probe + 1 < s.config.probes_per_hop || s.reached || is_reply(o) {
        out
    } else if s.ttl + 1 >= s.config.max_ttl {
        out.push(Report::HopEnd)
    } else {
        out.push(Report::HopEnd).push(Report::HopStart((s.ttl + 1) as u8))
    }
}

/// The state in which a trace with `config` begins: at TTL 1 with probe 1 sent,
/// or over at once when no TTL lies below `max_ttl`.
pub open spec fn initial_state(config: ProbeConfig) -> TraceState {
    TraceState {
        config,
        ttl: 1,
        probe: 0,
        sequence: if config.max_ttl <= 1 {
            0
        } else {
            1
        },
        reached: false,
        last_responder: None,
        finished: config.max_ttl <= 1,
    }
}

/// What is printed as a trace with `config` begins.
pub open spec fn start_reports(config: ProbeConfig) -> Seq<Report> {
    if config.max_ttl <= 1 {
        Seq::empty()
    } else {
        seq![Report::HopStart(1)]
    }
}

/// `n` timeout markers.
pub open spec fn timeouts(n: nat) -> Seq<Report>
    decreases n,
{
    if n == 0 {
        Seq::empty()
    } else {
        seq![Report::Timeout] + timeouts((n - 1) as nat)
    }
}

/// Hop groups for the TTLs from `from` up to, not including, `to`, each with
/// `p` timeout markers.
pub open spec fn timeout_groups(from: int, to: int, p: nat) -> Seq<Report>
    decreases to - from,
{
    if from >= to {
        Seq::empty()
    } else {
        seq![Report::HopStart(from as u8)] + timeouts(p) + seq![Report::HopEnd] + timeout_groups(
            from + 1,
            to,
            p,
        )
    }
}

/// What is printed while up to `n` further probes from state `s` are all lost.
pub open spec fn lost_run(s: TraceState, n: nat) -> Seq<Report>
    decreases n,
{
    if n == 0 || s.finished {
        Seq::empty()
    } else {
        reports_after(s, Some(ProbeRoundResult::Timeout)) + lost_run(
            after_outcome(s, Some(ProbeRoundResult::Timeout)),
            (n - 1) as nat,
        )
    }
}

/// The state after up to `n` further probes from state `s` are all lost.
pub open spec fn lost_final(s: TraceState, n: nat) -> TraceState
    decreases n,
{
    if n == 0 || s.finished {
        s
    } else {
        lost_final(after_outcome(s, Some(ProbeRoundResult::Timeout)), (n - 1) as nat)
    }
}

/// Probes that a trace with `config` sends when every one is lost.
pub open spec fn all_lost_probes(config: ProbeConfig) -> nat {
    if config.max_ttl <= 1 {
        0
    } else {
        ((config.max_ttl - 1) * config.probes_per_hop) as nat
    }
}

proof fn lemma_lost_hop(s: TraceState, m: nat) -> (s2: TraceState)
    requires
        s.wf(),
        !s.finished,
        !s.reached,
        m >= s.config.probes_per_hop - s.probe,
    ensures
        s2.config == s.config,
        lost_final(s, m) == lost_final(s2, (m - (s.config.probes_per_hop - s.probe)) as nat),
        s.ttl + 1 >= s.config.max_ttl ==> {
            &&& s2.finished
            &&& lost_run(s, m) == timeouts((s.config.probes_per_hop - s.probe) as nat) + seq![
                Report::HopEnd,
            ]
        },
        s.ttl + 1 < s.config.max_ttl ==> {
            &&& s2.wf()
            &&& !s2.finished
            &&& !s2.reached
            &&& s2.probe == 0
            &&& s2.ttl == s.ttl + 1
            &&& lost_run(s, m) == timeouts((s.config.probes_per_hop - s.probe) as nat) + seq![
                Report::HopEnd,
                Report::HopStart((s.ttl + 1) as u8),
            ] + lost_run(s2, (m - (s.config.probes_per_hop - s.probe)) as nat)
        },
    decreases s.config.probes_per_hop - s.probe,
{
    let o = Some(ProbeRoundResult::Timeout);
    let n = after_outcome(s, o);
    let k = (s.config.probes_per_hop - s.probe) as nat;
    assert(lost_run(s, m) == reports_after(s, o) + lost_run(n, (m - 1) as nat));
    assert(lost_final(s, m) == lost_final(n, (m - 1) as nat));
    if s.probe + 1 < s.config.probes_per_hop {
        let s2 = lemma_lost_hop(n, (m - 1) as nat);
        assert(timeouts(k) == seq![Report::Timeout] + timeouts((k - 1) as nat));
        if s.ttl + 1 >= s.config.max_ttl {
            assert(lost_run(s, m) =~= timeouts(k) + seq![Report::HopEnd]);
        } else {
            assert(lost_run(s, m) =~= timeouts(k) + seq![
                Report::HopEnd,
                Report::HopStart((s.ttl + 1) as u8),
            ] + lost_run(s2, (m - k) as nat));
        }
        s2
    } else {
        assert(timeouts(0) == Seq::<Report>::empty());
        assert(timeouts(1) =~= seq![Report::Timeout]);
        if s.ttl + 1 >= s.config.max_ttl {
            assert(lost_run(n, (m - 1) as nat) == Seq::<Report>::empty());
            assert(lost_run(s, m) =~= timeouts(k) + seq![Report::HopEnd]);
        } else {
            assert(lost_run(s, m) =~= timeouts(k) + seq![
                Report::HopEnd,
                Report::HopStart((s.ttl + 1) as u8),
            ] + lost_run(n, (m - k) as nat));
        }
        n
    }
}

proof fn lemma_lost_groups(s: TraceState, m: nat)
    requires
        s.wf(),
        !s.finished,
        !s.reached,
        s.probe == 0,
        m >= (s.config.max_ttl - s.ttl) * s.config.probes_per_hop,
    ensures
        seq![Report::HopStart(s.ttl)] + lost_run(s, m) == timeout_groups(
            s.ttl as int,
            s.config.max_ttl as int,
            s.config.probes_per_hop as nat,
        ),
        lost_final(s, m).finished,
    decreases s.config.max_ttl - s.ttl,
{
    let p = s.config.probes_per_hop as int;
    let t = s.ttl as int;
    let max = s.config.max_ttl as int;
    assert((max - t) * p == (max - t - 1) * p + p) by (nonlinear_arith);
    assert((max - t - 1) * p >= 0) by (nonlinear_arith)
        requires
            max - t - 1 >= 0,
            p >= 0,
    ;
    let s2 = lemma_lost_hop(s, m);
    let g = timeout_groups(t, max, p as nat);
    assert(g == seq![Report::HopStart(s.ttl)] + timeouts(p as nat) + seq![Report::HopEnd]
        + timeout_groups(t + 1, max, p as nat));
    if t + 1 >= max {
        assert(timeout_groups(t + 1, max, p as nat) == Seq::<Report>::empty());
        assert(seq![Report::HopStart(s.ttl)] + lost_run(s, m) =~= g);
    } else {
        lemma_lost_groups(s2, (m - p) as nat);
        assert(seq![Report::HopStart(s.ttl)] + lost_run(s, m) =~= g);
    }
}

/// When every probe is lost, a trace prints one hop group for each TTL below
/// `max_ttl`, each holding one timeout marker per probe, and then ends
/// normally.
pub proof fn lemma_all_probes_lost(config: ProbeConfig)
    requires
        config.probes_per_hop >= 1,
    ensures
        start_reports(config) + lost_run(initial_state(config), all_lost_probes(config))
            == timeout_groups(1, config.max_ttl as int, config.probes_per_hop as nat),
        lost_final(initial_state(config), all_lost_probes(config)).finished,
{
    let s = initial_state(config);
    let n = all_lost_probes(config);
    if config.max_ttl <= 1 {
        assert(lost_run(s, n) == Seq::<Report>::empty());
        assert(start_reports(config) + lost_run(s, n) =~= Seq::<Report>::empty());
    } else {
        lemma_lost_groups(s, n);
    }
}

impl TraceState {
    /// Whether the state belongs to a running or finished trace.
    pub open spec fn wf(&self) -> bool {
        &&& self.config.probes_per_hop >= 1
        &&& !self.finished ==> {
            &&& 1 <= self.ttl < self.config.max_ttl
            &&& self.probe < self.config.probes_per_hop
        }
    }
}

/// The probe with identifier `identifier` and sequence number `sequence`, as
/// sent: an empty echo request whose checksum covers the whole message.
pub fn probe_packet(identifier: u16, sequence: u16) -> (r: Vec<u8>)
    ensures
        r@ == probe_bytes(identifier, sequence),
{
    let mut ping = Icmpv4Packet::echo_request(identifier, sequence, Vec::new());
    let unsigned = ping.encode().unwrap();
    ping.checksum = calc_checksum(unsigned.as_slice());
    ping.encode().unwrap()
}

/// How a datagram from `responder` answers a probe; `None` for anything that is
/// not a decodable echo reply or time-exceeded notification.
pub fn classify(datagram: &[u8], responder: u32, rtt_nanos: u64) -> (r: Option<ProbeRoundResult>)
    ensures
        r == classify_spec(datagram@, responder, rtt_nanos),
{
    match Icmpv4Packet::decode(datagram) {
        Ok(p) => if p.icmp_type == ECHO_REPLY {
            Some(ProbeRoundResult::Reply { responder, rtt_nanos })
        } else {
            Some(ProbeRoundResult::IntermediateHop { responder, rtt_nanos })
        },
        Err(_) => None,
    }
}

impl TraceState {
    /// Begins a trace. With `max_ttl` at most 1 there is nothing to probe and
    /// the trace is over at once; otherwise the first hop group opens and the
    /// first probe, sequence number 1, goes out with TTL 1.
    pub fn start(config: ProbeConfig) -> (r: (TraceState, Step))
        requires
            config.probes_per_hop >= 1,
        ensures
            r.0 == initial_state(config),
            r.0.wf(),
            r.1.reports@ == start_reports(config),
            r.0.finished <==> r.1.action is Finish,
            !r.0.finished ==> (r.1.action matches Action::Send { ttl, packet } && ttl == 1
                && packet@ == probe_bytes(config.identifier, 1)),
    {
        let mut reports: Vec<Report> = Vec::new();
        if config.max_ttl <= 1 {
            let state = TraceState {
                config,
                ttl: 1,
                probe: 0,
                sequence: 0,
                reached: false,
                last_responder: None,
                finished: true,
            };
            return (state, Step { reports, action: Action::Finish });
        }
        let state = TraceState {
            config,
            ttl: 1,
            probe: 0,
            sequence: 1,
            reached: false,
            last_responder: None,
            finished: false,
        };
        reports.push(Report::HopStart(1));
        let packet = probe_packet(config.identifier, 1);
        (state, Step { reports, action: Action::Send { ttl: 1, packet } })
    }

    /// Takes the outcome of the probe last sent. The outcome's reports are
    /// printed; then the next probe of the hop goes out, or, once the hop has
    /// had all its probes, the trace stops if the destination answered, and
    /// otherwise the hop group closes and the next TTL is probed while it
    /// stays below `max_ttl`.
    pub fn on_event(&mut self, event: ProbeEvent) -> (r: Step)
        requires
            old(self).wf(),
            !old(self).finished,
        ensures
            *final(self) == after_outcome(*old(self), outcome_of(event)),
            final(self).wf(),
            r.reports@ == reports_after(*old(self), outcome_of(event)),
            final(self).finished <==> r.action is Finish,
            !final(self).finished ==> (r.action matches Action::Send { ttl, packet } && ttl
                == final(self).ttl && packet@ == probe_bytes(
                final(self).config.identifier,
                final(self).sequence,
            )),
    {
        let outcome = match &event {
            ProbeEvent::Received { datagram, responder, rtt_nanos } => classify(
                datagram.as_slice(),
                *responder,
                *rtt_nanos,
            ),
            ProbeEvent::Lost => Some(ProbeRoundResult::Timeout),
        };
        let mut reports: Vec<Report> = Vec::new();
        match outcome {
            Some(ProbeRoundResult::Reply { responder, rtt_nanos })
            | Some(ProbeRoundResult::IntermediateHop { responder, rtt_nanos }) => {
                if self.last_responder != Some(responder) {
                    reports.push(Report::Responder(responder));
                }
                reports.push(Report::Rtt(rtt_nanos));
                self.last_responder = Some(responder);
            },
            Some(ProbeRoundResult::Timeout) => {
                reports.push(Report::Timeout);
            },
            None => {},
        }
        if let Some(ProbeRoundResult::Reply { .. }) = outcome {
            self.reached = true;
        }
        let next = if self.sequence == 0xFFFF {
            0
        } else {
            self.sequence + 1
        };
        if self.probe + 1 < self.config.probes_per_hop {
            self.probe = self.probe + 1;
            self.sequence = next;
            let packet = probe_packet(self.config.identifier, next);
            return Step { reports, action: Action::Send { ttl: self.ttl, packet } };
        }
        if self.reached {
            self.finished = true;
            return Step { reports, action: Action::Finish };
        }
        reports.push(Report::HopEnd);
        if self.ttl + 1 >= self.config.max_ttl {
            self.finished = true;
            return Step { reports, action: Action::Finish };
        }
        self.ttl = self.ttl + 1;
        self.probe = 0;
        self.sequence = next;
        self.reached = false;
        self.last_responder = None;
        reports.push(Report::HopStart(self.ttl));
        let packet = probe_packet(self.config.identifier, next);
        Step { reports, action: Action::Send { ttl: self.ttl, packet } }
    }
}

} // verus!
