use netlink_packet_route::tc::TcFilterFlowerOption;
use rtnetlink::traffic_control::add_chain::TrafficChainNewRequest;
use rtnetlink::traffic_control::del_chain::TrafficChainDelRequest;
use rtnetlink::traffic_control::message::{
    ChainResponse, ChainStep, Error, TcAttribute, TcHandle, TcOption,
};

#[test]
fn new_chain_request_defaults() {
    let (message, flags) = TrafficChainNewRequest::new(3).into_request();
    assert_eq!(flags, 0x0605);
    assert_eq!(message.header.index, 3);
    assert_eq!(message.header.parent, TcHandle { major: 0, minor: 0 });
    assert_eq!(message.header.handle, TcHandle { major: 0, minor: 0 });
    assert_eq!(message.header.info, 0);
    assert!(message.attributes.is_empty());
}

#[test]
fn block_sets_marker_and_parent() {
    let (message, _) = TrafficChainNewRequest::new(3).block(0x0001_0002).into_request();
    assert_eq!(message.header.index, -1);
    assert_eq!(message.header.parent, TcHandle { major: 1, minor: 2 });
}

#[test]
fn index_after_block_wins() {
    let (message, _) = TrafficChainNewRequest::new(3).block(0xABCD_0001).index(8).into_request();
    assert_eq!(message.header.index, 8);
    assert_eq!(message.header.parent, TcHandle { major: 0xABCD, minor: 1 });
}

#[test]
fn ingress_and_parent() {
    let (message, _) = TrafficChainNewRequest::new(1).ingress().into_request();
    assert_eq!(message.header.parent, TcHandle { major: 0xffff, minor: 0xfff2 });
    let (message, _) = TrafficChainNewRequest::new(1)
        .ingress()
        .parent(TcHandle { major: 5, minor: 6 })
        .into_request();
    assert_eq!(message.header.parent, TcHandle { major: 5, minor: 6 });
}

#[test]
fn chain_appends_attribute() {
    let (message, _) = TrafficChainNewRequest::new(1).chain(7).chain(9).into_request();
    assert_eq!(message.attributes.len(), 2);
    assert!(matches!(message.attributes[0], TcAttribute::Chain(7)));
    assert!(matches!(message.attributes[1], TcAttribute::Chain(9)));
}

#[test]
fn flower_adds_kind_and_options() {
    let options = [TcFilterFlowerOption::ClassId(1), TcFilterFlowerOption::KeyHash(2)];
    let request = TrafficChainNewRequest::new(1).chain(4).flower(&options).unwrap();
    let (message, _) = request.into_request();
    assert_eq!(message.attributes.len(), 3);
    assert!(matches!(message.attributes[0], TcAttribute::Chain(4)));
    match &message.attributes[1] {
        TcAttribute::Kind(kind) => assert_eq!(kind, "flower"),
        other => panic!("unexpected {:?}", other),
    }
    match &message.attributes[2] {
        TcAttribute::Options(opts) => {
            assert_eq!(opts.len(), 2);
            assert!(matches!(opts[0], TcOption::Flower(TcFilterFlowerOption::ClassId(1))));
            assert!(matches!(opts[1], TcOption::Flower(TcFilterFlowerOption::KeyHash(2))));
        }
        other => panic!("unexpected {:?}", other),
    }
}

#[test]
fn flower_twice_is_refused() {
    let request = TrafficChainNewRequest::new(1).flower(&[]).unwrap();
    match request.flower(&[TcFilterFlowerOption::ClassId(1)]) {
        Err(Error::InvalidNla(message)) => {
            assert_eq!(message, "message kind has already been set.")
        }
        Ok(_) => panic!("second flower accepted"),
    }
}

#[test]
fn new_chain_next_step() {
    assert_eq!(
        TrafficChainNewRequest::next_step(ChainResponse::Message { is_error: false }),
        ChainStep::AwaitNext
    );
    assert_eq!(
        TrafficChainNewRequest::next_step(ChainResponse::Message { is_error: true }),
        ChainStep::Fail
    );
    assert_eq!(TrafficChainNewRequest::next_step(ChainResponse::End), ChainStep::Succeed);
}

#[test]
fn del_chain_request() {
    let (message, flags) = TrafficChainDelRequest::new(2)
        .chain(3)
        .block(5)
        .parent(TcHandle { major: 1, minor: 1 })
        .into_request();
    assert_eq!(flags, 0x0005);
    assert_eq!(message.header.index, -1);
    assert_eq!(message.header.parent, TcHandle { major: 1, minor: 1 });
    assert!(matches!(message.attributes[0], TcAttribute::Chain(3)));
    let (message, _) = TrafficChainDelRequest::new(2).index(6).into_request();
    assert_eq!(message.header.index, 6);
}

#[test]
fn del_chain_next_step() {
    assert_eq!(
        TrafficChainDelRequest::next_step(ChainResponse::Message { is_error: false }),
        ChainStep::Succeed
    );
    assert_eq!(
        TrafficChainDelRequest::next_step(ChainResponse::Message { is_error: true }),
        ChainStep::Fail
    );
    assert_eq!(TrafficChainDelRequest::next_step(ChainResponse::End), ChainStep::Succeed);
}
