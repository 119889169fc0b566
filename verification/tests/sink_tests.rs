use awstream::errors::Error;
use awstream::socket::{AsyncSink, Socket, BACKPRESSURE_BOUNDARY};
use awstream::AsDatum;

#[test]
fn full_buffer_rejects_sends_until_drained_below_threshold() {
    let mut sink = Socket::new();

    // One datum large enough to push the buffer past the threshold.
    let big = AsDatum::bw_probe(40_000);
    match sink.start_send(big).unwrap() {
        AsyncSink::Ready => {},
        AsyncSink::NotReady(_) => panic!("an empty sink must accept a send"),
    }
    assert!(sink.buffered() >= BACKPRESSURE_BOUNDARY);

    // While the buffer is at or above the threshold, sends come back.
    let probe = AsDatum::bw_probe(10);
    match sink.start_send(probe).unwrap() {
        AsyncSink::Ready => panic!("a full sink must reject the send"),
        AsyncSink::NotReady(returned) => assert_eq!(returned.datum_type(), awstream::AsDatumType::Dummy),
    }

    // Draining below the threshold lets sends through again.
    let buffered = sink.buffered();
    sink.on_write(buffered - 1000).unwrap();
    assert!(sink.buffered() < BACKPRESSURE_BOUNDARY);
    let probe = AsDatum::bw_probe(10);
    match sink.start_send(probe).unwrap() {
        AsyncSink::Ready => {},
        AsyncSink::NotReady(_) => panic!("a drained sink must accept a send"),
    }
}

#[test]
fn write_zero_with_data_buffered_is_a_transport_error() {
    let mut sink = Socket::new();
    let d = AsDatum::latency_probe();
    match sink.start_send(d).unwrap() {
        AsyncSink::Ready => {},
        AsyncSink::NotReady(_) => panic!("an empty sink must accept a send"),
    }
    assert!(sink.buffered() > 0);
    assert_eq!(sink.on_write(0).unwrap_err(), Error::Io);
    // An empty buffer tolerates a zero write.
    let buffered = sink.buffered();
    sink.on_write(buffered).unwrap();
    assert_eq!(sink.buffered(), 0);
    sink.on_write(0).unwrap();
}

#[test]
fn writes_drain_the_front_of_the_buffer() {
    let mut sink = Socket::new();
    let d = AsDatum::new(0, 1, vec![9u8; 100]);
    let frame_len = d.net_len();
    match sink.start_send(d).unwrap() {
        AsyncSink::Ready => {},
        AsyncSink::NotReady(_) => panic!("an empty sink must accept a send"),
    }
    assert_eq!(sink.buffered(), frame_len);
    sink.on_write(60).unwrap();
    assert_eq!(sink.buffered(), frame_len - 60);
    let rest = sink.buffered();
    sink.on_write(rest).unwrap();
    assert_eq!(sink.buffered(), 0);
}
