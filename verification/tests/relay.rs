use ttcp_rs::netcat::{
    inbound_reader_step, outbound_reader_step, DataOutcome, NetcatArgs, NetcatRole,
    PipelineOutcome, RelayCoordinator, RelayError,
};
use ttcp_rs::queue::{ChunkQueue, PopOutcome};
use ttcp_rs::throughput::ThroughputSample;

fn pop_chunk(q: &mut ChunkQueue) -> Vec<u8> {
    match q.pop() {
        PopOutcome::Chunk(c) => c,
        _ => panic!("expected a chunk"),
    }
}

#[test]
fn queue_delivers_in_fifo_order() {
    let mut q = ChunkQueue::new(1024);
    assert!(q.try_push(vec![1, 2]));
    assert!(q.try_push(vec![3]));
    assert!(q.try_push(vec![4, 5, 6]));
    assert_eq!(pop_chunk(&mut q), vec![1, 2]);
    assert_eq!(pop_chunk(&mut q), vec![3]);
    assert_eq!(pop_chunk(&mut q), vec![4, 5, 6]);
    assert!(matches!(q.pop(), PopOutcome::Empty));
    q.close();
    assert!(matches!(q.pop(), PopOutcome::Finished));
}

#[test]
fn queue_backpressure_rejects_and_preserves_order() {
    let mut q = ChunkQueue::new(2);
    assert!(q.try_push(vec![1]));
    assert!(q.try_push(vec![2]));
    // The queue is full: the producer is turned down and nothing changes.
    assert!(!q.try_push(vec![3]));
    assert_eq!(q.len(), 2);
    // Draining one slot lets the stalled chunk in; order stays as produced.
    assert_eq!(pop_chunk(&mut q), vec![1]);
    assert!(q.try_push(vec![3]));
    assert_eq!(pop_chunk(&mut q), vec![2]);
    assert_eq!(pop_chunk(&mut q), vec![3]);
}

#[test]
fn closed_empty_queue_finishes_consumer() {
    let mut q = ChunkQueue::new(4);
    assert!(q.try_push(vec![9]));
    q.close();
    assert!(q.is_closed());
    // Chunks pushed before the close still drain first.
    assert_eq!(pop_chunk(&mut q), vec![9]);
    assert!(matches!(q.pop(), PopOutcome::Finished));
}

#[test]
fn relayed_bytes_arrive_exactly_once_in_order() {
    // Arbitrary binary chunks, as one direction of the relay sees them.
    let chunks: Vec<Vec<u8>> = vec![vec![0, 255, 7], vec![b'h', b'i'], vec![], vec![128]];
    let sent: Vec<u8> = chunks.iter().flatten().copied().collect();
    let mut q = ChunkQueue::new(1024);
    let mut sample = ThroughputSample::new(0);
    let mut received: Vec<u8> = Vec::new();
    for c in chunks {
        match inbound_reader_step(&mut q, &mut sample, c, 0) {
            DataOutcome::Enqueued(_) => {}
            DataOutcome::Blocked(_) => panic!("queue cannot be full here"),
        }
    }
    q.close();
    loop {
        match q.pop() {
            PopOutcome::Chunk(c) => received.extend_from_slice(&c),
            PopOutcome::Finished => break,
            PopOutcome::Empty => panic!("producer already closed"),
        }
    }
    assert_eq!(received, sent);
}

#[test]
fn inbound_step_blocks_on_full_queue_without_counting() {
    let mut q = ChunkQueue::new(1);
    let mut sample = ThroughputSample::new(0);
    match inbound_reader_step(&mut q, &mut sample, vec![1, 2, 3], 10) {
        DataOutcome::Enqueued(rep) => assert!(rep.is_none()),
        DataOutcome::Blocked(_) => panic!("first chunk fits"),
    }
    // A full queue hands the chunk back untouched and counts nothing.
    match inbound_reader_step(&mut q, &mut sample, vec![4, 5], 20) {
        DataOutcome::Blocked(d) => assert_eq!(d, vec![4, 5]),
        DataOutcome::Enqueued(_) => panic!("queue was full"),
    }
    assert_eq!(q.len(), 1);
}

#[test]
fn inbound_step_reports_once_per_interval() {
    let mut q = ChunkQueue::new(1024);
    let mut sample = ThroughputSample::new(0);
    assert!(matches!(
        inbound_reader_step(&mut q, &mut sample, vec![0; 100], 400_000),
        DataOutcome::Enqueued(None)
    ));
    // A full second has passed: the report carries every byte seen so far.
    match inbound_reader_step(&mut q, &mut sample, vec![0; 50], 1_000_000) {
        DataOutcome::Enqueued(Some(bytes)) => assert_eq!(bytes, 150),
        _ => panic!("a report was due"),
    }
    // The counter restarted with the report.
    assert!(matches!(
        inbound_reader_step(&mut q, &mut sample, vec![0; 7], 1_600_000),
        DataOutcome::Enqueued(None)
    ));
}

#[test]
fn steady_stream_reports_account_for_every_byte() {
    // A steady inbound stream: one megabyte every half second for five
    // seconds. At least four reports fall due, and the reported byte
    // counts plus the still-pending remainder are exactly the total.
    let mut sample = ThroughputSample::new(0);
    let chunk: usize = 1_000_000;
    let mut reports: Vec<u64> = Vec::new();
    for i in 0..10u64 {
        let now = i * 500_000;
        sample.record(chunk);
        if sample.report_due(now) {
            reports.push(sample.take_report(now));
        }
    }
    assert!(reports.len() >= 4);
    // Each report is near the true rate of two megabytes per second; the
    // first may carry one extra chunk from the interval-boundary check.
    for r in &reports {
        assert!(*r == 2_000_000 || *r == 3_000_000);
    }
    let reported: u64 = reports.iter().sum();
    let pending = sample.take_report(5_000_000);
    assert_eq!(reported + pending, 10_000_000);
}

#[test]
fn outbound_step_enqueues_without_reporting() {
    let mut q = ChunkQueue::new(2);
    match outbound_reader_step(&mut q, vec![b'h', b'i']) {
        DataOutcome::Enqueued(rep) => assert!(rep.is_none()),
        DataOutcome::Blocked(_) => panic!("queue was empty"),
    }
    assert_eq!(pop_chunk(&mut q), vec![b'h', b'i']);
}

#[test]
fn local_eof_stops_only_the_outbound_direction() {
    // One connection, two directions. The local input reaches end-of-file:
    // its pipeline closes its own queue, and the inbound direction keeps
    // relaying until the peer closes too.
    let mut outbound = ChunkQueue::new(1024);
    let mut inbound = ChunkQueue::new(1024);
    let mut sample = ThroughputSample::new(0);
    assert!(matches!(outbound_reader_step(&mut outbound, vec![1]), DataOutcome::Enqueued(_)));
    outbound.close();
    assert!(matches!(
        inbound_reader_step(&mut inbound, &mut sample, vec![2, 3], 0),
        DataOutcome::Enqueued(_)
    ));
    assert!(!inbound.is_closed());
    assert_eq!(pop_chunk(&mut inbound), vec![2, 3]);
    // The outbound direction drains what it had and then finishes.
    assert_eq!(pop_chunk(&mut outbound), vec![1]);
    assert!(matches!(outbound.pop(), PopOutcome::Finished));
}

#[test]
fn concurrent_connections_stay_isolated() {
    // Two clients against one server: each connection has its own queues
    // and coordinator, and nothing of one appears in, or happens to, the
    // other.
    let mut conn_a = ChunkQueue::new(1024);
    let mut conn_b = ChunkQueue::new(1024);
    let mut sample_a = ThroughputSample::new(0);
    let mut sample_b = ThroughputSample::new(0);
    assert!(matches!(
        inbound_reader_step(&mut conn_a, &mut sample_a, b"from a".to_vec(), 0),
        DataOutcome::Enqueued(_)
    ));
    assert!(matches!(
        inbound_reader_step(&mut conn_b, &mut sample_b, b"from b".to_vec(), 0),
        DataOutcome::Enqueued(_)
    ));
    // Connection A fails and its coordinator settles; B is untouched.
    let mut coord_a = RelayCoordinator::new();
    let mut coord_b = RelayCoordinator::new();
    coord_a.settle_inbound(PipelineOutcome::Failure(RelayError::IOError));
    coord_a.settle_outbound(PipelineOutcome::Success);
    assert!(coord_a.is_complete());
    assert_eq!(coord_a.outcome(), PipelineOutcome::Failure(RelayError::IOError));
    assert!(!coord_b.is_complete());
    assert_eq!(pop_chunk(&mut conn_b), b"from b".to_vec());
    assert_eq!(pop_chunk(&mut conn_a), b"from a".to_vec());
}

#[test]
fn coordinator_waits_for_both_pipelines() {
    let mut c = RelayCoordinator::new();
    assert!(!c.is_complete());
    c.settle_outbound(PipelineOutcome::Success);
    assert!(!c.is_complete());
    c.settle_inbound(PipelineOutcome::Success);
    assert!(c.is_complete());
    assert_eq!(c.outcome(), PipelineOutcome::Success);
}

#[test]
fn coordinator_surfaces_first_error() {
    assert_eq!(
        PipelineOutcome::Failure(RelayError::IOError).combine(PipelineOutcome::Success),
        PipelineOutcome::Failure(RelayError::IOError)
    );
    assert_eq!(
        PipelineOutcome::Success.combine(PipelineOutcome::Failure(RelayError::QueueClosedError)),
        PipelineOutcome::Failure(RelayError::QueueClosedError)
    );
    assert_eq!(
        PipelineOutcome::Failure(RelayError::IOError)
            .combine(PipelineOutcome::Failure(RelayError::QueueClosedError)),
        PipelineOutcome::Failure(RelayError::IOError)
    );
}

#[test]
fn netcat_role_selection() {
    let listen = NetcatArgs::new(Some(9000), None, None);
    assert_eq!(listen.role(), Some(NetcatRole::Server(9000)));
    let dial = NetcatArgs::new(None, Some("example.net".to_string()), Some(9000));
    assert_eq!(dial.role(), Some(NetcatRole::Client(9000)));
    assert_eq!(dial.server_host().unwrap(), "example.net");
    let neither = NetcatArgs::new(None, None, None);
    assert_eq!(neither.role(), None);
    let missing_port = NetcatArgs::new(None, Some("example.net".to_string()), None);
    assert_eq!(missing_port.role(), None);
    // A listen port wins over a partial client specification.
    let both = NetcatArgs::new(Some(7), Some("example.net".to_string()), Some(9));
    assert_eq!(both.role(), Some(NetcatRole::Server(7)));
}

#[test]
fn hello_reaches_the_other_side_exactly() {
    // The wire scenario in miniature: a client types "hello", the chunk
    // crosses its outbound queue, and the server's output sees exactly
    // b"hello"; the client's end-of-input then closes only that direction,
    // and the server can still send its own input back.
    let mut client_to_server = ChunkQueue::new(1024);
    assert!(matches!(
        outbound_reader_step(&mut client_to_server, b"hello".to_vec()),
        DataOutcome::Enqueued(_)
    ));
    assert_eq!(pop_chunk(&mut client_to_server), b"hello".to_vec());
    client_to_server.close();
    assert!(matches!(client_to_server.pop(), PopOutcome::Finished));
    let mut server_to_client = ChunkQueue::new(1024);
    assert!(matches!(
        outbound_reader_step(&mut server_to_client, b"still here".to_vec()),
        DataOutcome::Enqueued(_)
    ));
    assert_eq!(pop_chunk(&mut server_to_client), b"still here".to_vec());
}
