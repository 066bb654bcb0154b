use netsem::{
    Address, Family, Ipv4Address, Ipv6Address, NetSemError, Probe, ProbeStep, SocketCall,
    SocketEndpoint, Transport,
};
use std::io::{Error, ErrorKind};
use std::time::Duration;

fn local(port: u16) -> SocketEndpoint {
    SocketEndpoint::new(Address::V4(Ipv4Address::new(127, 0, 0, 1)), port)
}

fn local6(port: u16) -> SocketEndpoint {
    SocketEndpoint::new(Address::V6(Ipv6Address::new(0, 0, 0, 0, 0, 0, 0, 1)), port)
}

fn next(step: ProbeStep) -> Probe {
    match step {
        ProbeStep::Next(probe) => probe,
        ProbeStep::Done(report) => panic!("the probe ended early: {:?}", report),
    }
}

#[test]
fn bind_probe_opens_sets_reuse_binds_and_succeeds() {
    let endpoint = local(0);
    let probe = Probe::bind(endpoint, Transport::Stream, String::from("127.0.0.1:0"));
    assert_eq!(
        probe.awaited(),
        SocketCall::Open { family: Family::V4, transport: Transport::Stream }
    );
    let probe = next(probe.advance(Ok(())));
    assert_eq!(probe.awaited(), SocketCall::SetReuseAddress);
    let probe = next(probe.advance(Ok(())));
    assert_eq!(probe.awaited(), SocketCall::Bind { endpoint });
    assert!(matches!(probe.advance(Ok(())), ProbeStep::Done(Ok(()))));
}

#[test]
fn bind_probe_for_datagram_over_ipv6() {
    let endpoint = local6(5353);
    let probe = Probe::bind(endpoint, Transport::Datagram, String::from("[::1]:5353"));
    assert_eq!(
        probe.awaited(),
        SocketCall::Open { family: Family::V6, transport: Transport::Datagram }
    );
    let probe = next(probe.advance(Ok(())));
    assert_eq!(probe.awaited(), SocketCall::SetReuseAddress);
    let probe = next(probe.advance(Ok(())));
    assert_eq!(probe.awaited(), SocketCall::Bind { endpoint });
    assert!(matches!(probe.advance(Ok(())), ProbeStep::Done(Ok(()))));
}

#[test]
fn bind_probe_fails_at_each_call_with_bind_failed() {
    for failing in 0..3 {
        let mut probe = Probe::bind(local(80), Transport::Stream, String::from("127.0.0.1:80"));
        for _ in 0..failing {
            probe = next(probe.advance(Ok(())));
        }
        let cause = Error::new(ErrorKind::AddrInUse, format!("call {}", failing));
        match probe.advance(Err(cause)) {
            ProbeStep::Done(Err(NetSemError::BindFailed { addr, source })) => {
                assert_eq!(addr, "127.0.0.1:80");
                assert_eq!(source.kind(), ErrorKind::AddrInUse);
                assert_eq!(source.to_string(), format!("call {}", failing));
            }
            other => panic!("not a bind failure: {:?}", other),
        }
    }
}

#[test]
fn connect_probe_for_stream_keeps_the_timeout() {
    let endpoint = local(53);
    let timeout = Some(Duration::from_secs(2));
    let probe = Probe::connect(endpoint, Transport::Stream, timeout, String::from("127.0.0.1:53"));
    assert_eq!(
        probe.awaited(),
        SocketCall::Open { family: Family::V4, transport: Transport::Stream }
    );
    let probe = next(probe.advance(Ok(())));
    assert_eq!(probe.awaited(), SocketCall::Connect { endpoint, timeout });
    assert!(matches!(probe.advance(Ok(())), ProbeStep::Done(Ok(()))));
}

#[test]
fn connect_probe_for_stream_without_timeout() {
    let endpoint = local6(443);
    let probe = Probe::connect(endpoint, Transport::Stream, None, String::from("[::1]:443"));
    assert_eq!(
        probe.awaited(),
        SocketCall::Open { family: Family::V6, transport: Transport::Stream }
    );
    let probe = next(probe.advance(Ok(())));
    assert_eq!(probe.awaited(), SocketCall::Connect { endpoint, timeout: None });
    assert!(matches!(probe.advance(Ok(())), ProbeStep::Done(Ok(()))));
}

#[test]
fn connect_probe_for_datagram_drops_the_timeout() {
    let endpoint = local(53);
    let probe = Probe::connect(
        endpoint,
        Transport::Datagram,
        Some(Duration::from_millis(10)),
        String::from("127.0.0.1:53"),
    );
    assert_eq!(
        probe.awaited(),
        SocketCall::Open { family: Family::V4, transport: Transport::Datagram }
    );
    let probe = next(probe.advance(Ok(())));
    assert_eq!(probe.awaited(), SocketCall::Connect { endpoint, timeout: None });
    assert!(matches!(probe.advance(Ok(())), ProbeStep::Done(Ok(()))));
}

#[test]
fn connect_probe_fails_at_each_call_with_connect_failed() {
    for failing in 0..2 {
        let mut probe = Probe::connect(
            local(9),
            Transport::Stream,
            Some(Duration::from_secs(1)),
            String::from("127.0.0.1:9"),
        );
        for _ in 0..failing {
            probe = next(probe.advance(Ok(())));
        }
        let cause = Error::new(ErrorKind::ConnectionRefused, "refused");
        match probe.advance(Err(cause)) {
            ProbeStep::Done(Err(NetSemError::ConnectFailed { addr, source })) => {
                assert_eq!(addr, "127.0.0.1:9");
                assert_eq!(source.kind(), ErrorKind::ConnectionRefused);
                assert_eq!(source.to_string(), "refused");
            }
            other => panic!("not a connect failure: {:?}", other),
        }
    }
}

#[test]
fn awaited_call_does_not_change_until_its_outcome_is_in() {
    let probe = Probe::bind(local(8080), Transport::Stream, String::from("127.0.0.1:8080"));
    let first = probe.awaited();
    assert_eq!(probe.awaited(), first);
    let probe = next(probe.advance(Ok(())));
    assert_ne!(probe.awaited(), first);
    assert_eq!(probe.awaited(), probe.awaited());
}

#[test]
fn endpoint_holds_address_and_port() {
    let address = Address::V4(Ipv4Address::new(192, 168, 0, 1));
    let endpoint = SocketEndpoint::new(address, 8080);
    assert_eq!(endpoint.ip(), address);
    assert_eq!(endpoint.port(), 8080);
    assert_eq!(endpoint, SocketEndpoint { address, port: 8080 });
    assert_ne!(endpoint, SocketEndpoint::new(address, 8081));
    assert_ne!(
        endpoint,
        SocketEndpoint::new(Address::V4(Ipv4Address::new(192, 168, 0, 2)), 8080)
    );
}
