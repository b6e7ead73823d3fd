use editor_support::uds::{after_accept, after_readiness, Accepted, IncomingPoll, Readiness, ReadinessStep};

#[test]
fn readiness_decides_whether_to_accept() {
    assert!(matches!(after_readiness::<&str>(Readiness::Readable), ReadinessStep::Accept));
    assert!(matches!(after_readiness(Readiness::Failed("boom")), ReadinessStep::Yield("boom")));
    assert!(matches!(after_readiness::<&str>(Readiness::NotYet), ReadinessStep::Pending));
}

#[test]
fn accept_outcomes() {
    assert!(matches!(after_accept::<u8, &str>(Accepted::Connected(Ok(3))), IncomingPoll::Ready(Ok(3))));
    assert!(matches!(after_accept::<u8, &str>(Accepted::Connected(Err("reg"))), IncomingPoll::Ready(Err("reg"))));
    assert!(matches!(after_accept::<u8, &str>(Accepted::WouldBlock), IncomingPoll::WakeAndPending));
    assert!(matches!(after_accept::<u8, &str>(Accepted::Failed("io")), IncomingPoll::Ready(Err("io"))));
}
