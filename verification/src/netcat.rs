use crate::queue::ChunkQueue;
use crate::throughput::ThroughputSample;
use vstd::prelude::*;

verus! {

/// How a relay run can fail, by the stage that failed.
#[derive(Clone, Copy, Debug, PartialEq, Eq, Structural)]
pub enum RelayError {
    /// The listener could not bind its port; fatal to the server role.
    BindError,
    /// The dial to the remote endpoint failed; fatal to the client role.
    ConnectError,
    /// A read or write failed mid-stream; terminates the affected pipeline.
    IOError,
    /// Internal signal that a producer has gone; never shown to the user.
    QueueClosedError,
}

/// How one pipeline ended: both of its tasks ran their loops to the end,
/// or one of them hit an error first.
#[derive(Clone, Copy, Debug, PartialEq, Eq, Structural)]
pub enum PipelineOutcome {
    Success,
    Failure(RelayError),
}

/// The first error of the two, reader before writer; success only if both
/// succeeded.
pub open spec fn spec_combine(first: PipelineOutcome, second: PipelineOutcome) -> PipelineOutcome {
    if first matches PipelineOutcome::Failure(_) {
        first
    } else {
        second
    }
}

impl PipelineOutcome {
    /// A pipeline's overall result is the first error encountered by its
    /// two tasks — the reader's outcome is consulted first — or success if
    /// both completed their loops normally.
    pub fn combine(self, other: PipelineOutcome) -> (r: PipelineOutcome)
        ensures
            r == spec_combine(self, other),
    {
        match self {
            PipelineOutcome::Failure(e) => PipelineOutcome::Failure(e),
            PipelineOutcome::Success => other,
        }
    }
}

/// The command-line choice of the relay tool: listen on a port, or dial a
/// server. Exactly one of the two must have been selected.
pub struct NetcatArgs {
    listen_port: Option<u16>,
    server: Option<String>,
    port: Option<u16>,
}

/// The role a valid argument set selects.
#[derive(Clone, Copy, Debug, PartialEq, Eq, Structural)]
pub enum NetcatRole {
    /// Listen on this local port and accept connections.
    Server(u16),
    /// Dial the configured server on this port.
    Client(u16),
}

impl NetcatArgs {
    pub closed spec fn listen_port_opt(self) -> Option<u16> {
        self.listen_port
    }

    pub closed spec fn server_opt(self) -> Option<String> {
        self.server
    }

    pub closed spec fn port_opt(self) -> Option<u16> {
        self.port
    }

    pub fn new(listen_port: Option<u16>, server: Option<String>, port: Option<u16>) -> (a:
        NetcatArgs)
        ensures
            a.listen_port_opt() == listen_port,
            a.server_opt() == server,
            a.port_opt() == port,
    {
        NetcatArgs { listen_port, server, port }
    }

    /// Which role the arguments select: a listen port makes the server
    /// role; otherwise a server name together with a port makes the client
    /// role; anything else is a usage error and no relay runs.
    pub fn role(&self) -> (r: Option<NetcatRole>)
        ensures
            self.listen_port_opt() matches Some(p) ==> r == Some(NetcatRole::Server(p)),
            self.listen_port_opt() is None && self.server_opt() is Some ==> (self.port_opt()
                matches Some(p) ==> r == Some(NetcatRole::Client(p))),
            self.listen_port_opt() is None && (self.server_opt() is None || self.port_opt()
                is None) ==> r is None,
    {
        match self.listen_port {
            Some(p) => Some(NetcatRole::Server(p)),
            None => match (&self.server, self.port) {
                (Some(_), Some(p)) => Some(NetcatRole::Client(p)),
                _ => None,
            },
        }
    }

    /// The server name to dial, for the client role.
    pub fn server_host(&self) -> (r: Option<&String>)
        ensures
            r is Some <==> self.server_opt() is Some,
            r matches Some(s) ==> self.server_opt() matches Some(t) && s@ == t@,
    {
        match &self.server {
            Some(s) => Some(s),
            None => None,
        }
    }
}

/// What one reader-task step did with the chunk a read produced.
pub enum DataOutcome {
    /// The chunk entered the queue; if a report fell due at this step, the
    /// byte count it carries is here.
    Enqueued(Option<u64>),
    /// The queue is full: the chunk is handed back untouched and the
    /// producer must suspend. Nothing was counted and nothing was lost.
    Blocked(Vec<u8>),
}

/// One step of the inbound pipeline's reader task, after a read returned
/// the non-empty chunk `data`: count the bytes, emit a throughput report if
/// a full interval has passed since the last one, and enqueue the chunk.
/// On a full queue the step does nothing and returns the chunk, which is
/// the producer's suspension point.
pub fn inbound_reader_step(
    q: &mut ChunkQueue,
    sample: &mut ThroughputSample,
    data: Vec<u8>,
    now_micros: u64,
) -> (r: DataOutcome)
    requires
        old(q).wf(),
        !old(q).closed_spec(),
        old(sample).pending_bytes() + data@.len() <= u64::MAX,
        old(sample).last_report_micros() <= now_micros,
    ensures
        final(q).wf(),
        !final(q).closed_spec(),
        final(q).capacity_spec() == old(q).capacity_spec(),
        old(q).buffered().len() >= old(q).capacity_spec() ==> {
            &&& r matches DataOutcome::Blocked(d) && d@ == data@
            &&& *final(q) == *old(q)
            &&& *final(sample) == *old(sample)
        },
        old(q).buffered().len() < old(q).capacity_spec() ==> {
            &&& final(q).inflow() == old(q).inflow().push(data@)
            &&& final(q).buffered() == old(q).buffered().push(data@)
            &&& final(q).outflow() == old(q).outflow()
            &&& final(sample).recorded_bytes() == old(sample).recorded_bytes() + data@.len()
            &&& (now_micros - old(sample).last_report_micros()
                >= crate::throughput::REPORT_INTERVAL_MICROS) ==> {
                &&& r matches DataOutcome::Enqueued(rep) && rep matches Some(b) && b == old(
                    sample,
                ).pending_bytes() + data@.len()
                &&& final(sample).pending_bytes() == 0
                &&& final(sample).last_report_micros() == now_micros
            }
            &&& (now_micros - old(sample).last_report_micros()
                < crate::throughput::REPORT_INTERVAL_MICROS) ==> {
                &&& r matches DataOutcome::Enqueued(rep) && rep is None
                &&& final(sample).pending_bytes() == old(sample).pending_bytes() + data@.len()
                &&& final(sample).last_report_micros() == old(sample).last_report_micros()
            }
        },
{
    if q.len() >= q.capacity() {
        return DataOutcome::Blocked(data);
    }
    sample.record(data.len());
    let report = if sample.report_due(now_micros) {
        Some(sample.take_report(now_micros))
    } else {
        None
    };
    let accepted = q.try_push(data);
    assert(accepted);
    DataOutcome::Enqueued(report)
}

/// One step of the outbound pipeline's reader task, after a read from the
/// local input returned the non-empty chunk `data`: enqueue it, or hand it
/// back if the queue is full. This direction samples no throughput.
pub fn outbound_reader_step(q: &mut ChunkQueue, data: Vec<u8>) -> (r: DataOutcome)
    requires
        old(q).wf(),
        !old(q).closed_spec(),
    ensures
        final(q).wf(),
        !final(q).closed_spec(),
        final(q).capacity_spec() == old(q).capacity_spec(),
        old(q).buffered().len() >= old(q).capacity_spec() ==> {
            &&& r matches DataOutcome::Blocked(d) && d@ == data@
            &&& *final(q) == *old(q)
        },
        old(q).buffered().len() < old(q).capacity_spec() ==> {
            &&& r matches DataOutcome::Enqueued(rep) && rep is None
            &&& final(q).inflow() == old(q).inflow().push(data@)
            &&& final(q).buffered() == old(q).buffered().push(data@)
            &&& final(q).outflow() == old(q).outflow()
        },
{
    if q.len() >= q.capacity() {
        return DataOutcome::Blocked(data);
    }
    let accepted = q.try_push(data);
    assert(accepted);
    DataOutcome::Enqueued(None)
}

/// Where one pipeline of a relay stands, as its coordinator sees it.
#[derive(Clone, Copy, Debug, PartialEq, Eq, Structural)]
pub enum PipelineStatus {
    Running,
    Settled(PipelineOutcome),
}

/// Owns one connection's two pipelines and nothing else. Each pipeline
/// settles independently — a relay is only complete when both have — and
/// settling one never touches the other: a peer that closed its sending
/// side may still be receiving.
pub struct RelayCoordinator {
    inbound: PipelineStatus,
    outbound: PipelineStatus,
}

impl RelayCoordinator {
    pub closed spec fn inbound_status(self) -> PipelineStatus {
        self.inbound
    }

    pub closed spec fn outbound_status(self) -> PipelineStatus {
        self.outbound
    }

    pub fn new() -> (c: RelayCoordinator)
        ensures
            c.inbound_status() == PipelineStatus::Running,
            c.outbound_status() == PipelineStatus::Running,
    {
        RelayCoordinator { inbound: PipelineStatus::Running, outbound: PipelineStatus::Running }
    }

    /// The inbound pipeline (socket to local output) has finished or
    /// failed. The outbound pipeline is left exactly as it was: it is not
    /// cancelled and keeps running until its own end.
    pub fn settle_inbound(&mut self, outcome: PipelineOutcome)
        requires
            old(self).inbound_status() == PipelineStatus::Running,
        ensures
            final(self).inbound_status() == PipelineStatus::Settled(outcome),
            final(self).outbound_status() == old(self).outbound_status(),
    {
        self.inbound = PipelineStatus::Settled(outcome);
    }

    /// The outbound pipeline (local input to socket) has finished or
    /// failed — for instance on end of the local input stream. The inbound
    /// pipeline is left exactly as it was and keeps relaying.
    pub fn settle_outbound(&mut self, outcome: PipelineOutcome)
        requires
            old(self).outbound_status() == PipelineStatus::Running,
        ensures
            final(self).outbound_status() == PipelineStatus::Settled(outcome),
            final(self).inbound_status() == old(self).inbound_status(),
    {
        self.outbound = PipelineStatus::Settled(outcome);
    }

    /// The coordinator's own task completes only when both pipelines have
    /// settled, whichever way they settled.
    pub fn is_complete(&self) -> (r: bool)
        ensures
            r == (self.inbound_status() matches PipelineStatus::Settled(_)
                && self.outbound_status() matches PipelineStatus::Settled(_)),
    {
        match (self.inbound, self.outbound) {
            (PipelineStatus::Settled(_), PipelineStatus::Settled(_)) => true,
            _ => false,
        }
    }

    /// The combined outcome surfaced to the caller once both pipelines have
    /// settled: the inbound pipeline's error if it had one, else the
    /// outbound pipeline's outcome. Neither outcome is suppressed before
    /// both are in.
    pub fn outcome(&self) -> (r: PipelineOutcome)
        requires
            self.inbound_status() matches PipelineStatus::Settled(_),
            self.outbound_status() matches PipelineStatus::Settled(_),
        ensures
            self.inbound_status() matches PipelineStatus::Settled(i)
                && self.outbound_status() matches PipelineStatus::Settled(o) ==> r
                == spec_combine(i, o),
    {
        match (self.inbound, self.outbound) {
            (PipelineStatus::Settled(i), PipelineStatus::Settled(o)) => i.combine(o),
            _ => PipelineOutcome::Success,
        }
    }
}

} // verus!

