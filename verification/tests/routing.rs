use canshunt::routing::{
    ControlReply, RoutingControl, RoutingMode, SetupPacket, GET_REQUEST_TYPE, PROTOCOL_VERSION,
    ROUTING_MAGIC, ROUTING_REQUEST, SET_REQUEST_TYPE,
};

fn set_packet(mode: u16) -> SetupPacket {
    SetupPacket {
        request_type: SET_REQUEST_TYPE,
        request: ROUTING_REQUEST,
        value: mode,
        index: ROUTING_MAGIC,
        length: 1,
    }
}

fn get_packet() -> SetupPacket {
    SetupPacket {
        request_type: GET_REQUEST_TYPE,
        request: ROUTING_REQUEST,
        value: 0,
        index: ROUTING_MAGIC,
        length: 2,
    }
}

#[test]
fn power_on_is_bridge() {
    let ctl = RoutingControl::new();
    assert_eq!(ctl.mode(), RoutingMode::Bridge);
    assert!(ctl.mode().physical_bus_enabled());
}

#[test]
fn set_local_only_then_get() {
    let mut ctl = RoutingControl::new();
    assert_eq!(ctl.handle_control(&set_packet(1), &[PROTOCOL_VERSION]), ControlReply::Ack);
    assert_eq!(ctl.mode(), RoutingMode::LocalOnly);
    assert!(!ctl.mode().physical_bus_enabled());
    let reply = ctl.handle_control(&get_packet(), &[]);
    assert_eq!(reply, ControlReply::Data { version: 1, mode: 1 });
    assert_eq!(reply.data_bytes(), vec![0x01, 0x01]);
}

#[test]
fn set_bridge_again() {
    let mut ctl = RoutingControl::new();
    ctl.handle_control(&set_packet(1), &[1]);
    assert_eq!(ctl.handle_control(&set_packet(0), &[1]), ControlReply::Ack);
    assert_eq!(ctl.handle_control(&get_packet(), &[]), ControlReply::Data { version: 1, mode: 0 });
}

#[test]
fn stall_on_bad_version() {
    let mut ctl = RoutingControl::new();
    assert_eq!(ctl.handle_control(&set_packet(1), &[2]), ControlReply::Stall);
    assert_eq!(ctl.mode(), RoutingMode::Bridge);
}

#[test]
fn stall_on_bad_mode() {
    let mut ctl = RoutingControl::new();
    assert_eq!(ctl.handle_control(&set_packet(2), &[1]), ControlReply::Stall);
    assert_eq!(ctl.mode(), RoutingMode::Bridge);
}

#[test]
fn stall_on_bad_magic() {
    let mut ctl = RoutingControl::new();
    let mut p = set_packet(1);
    p.index = 0x4354;
    assert_eq!(ctl.handle_control(&p, &[1]), ControlReply::Stall);
    let mut g = get_packet();
    g.index = 0;
    assert_eq!(ctl.handle_control(&g, &[]), ControlReply::Stall);
    assert_eq!(ctl.mode(), RoutingMode::Bridge);
}

#[test]
fn stall_on_bad_request_type() {
    let mut ctl = RoutingControl::new();
    let mut p = set_packet(1);
    p.request_type = 0x41;
    assert_eq!(ctl.handle_control(&p, &[1]), ControlReply::Stall);
    assert_eq!(ctl.mode(), RoutingMode::Bridge);
}

#[test]
fn stall_on_bad_length() {
    let mut ctl = RoutingControl::new();
    let mut p = set_packet(1);
    p.length = 2;
    assert_eq!(ctl.handle_control(&p, &[1, 0]), ControlReply::Stall);
    assert_eq!(ctl.handle_control(&set_packet(1), &[]), ControlReply::Stall);
    let mut g = get_packet();
    g.length = 1;
    assert_eq!(ctl.handle_control(&g, &[]), ControlReply::Stall);
    assert_eq!(ctl.mode(), RoutingMode::Bridge);
}

#[test]
fn other_requests_not_handled() {
    let mut ctl = RoutingControl::new();
    let mut p = set_packet(1);
    p.request = 0x01;
    assert_eq!(ctl.handle_control(&p, &[1]), ControlReply::NotHandled);
    assert_eq!(ctl.mode(), RoutingMode::Bridge);
    assert_eq!(ControlReply::NotHandled.data_bytes(), Vec::<u8>::new());
}

#[test]
fn get_ignores_wvalue() {
    let mut ctl = RoutingControl::new();
    let mut g = get_packet();
    g.value = 0x1234;
    assert_eq!(ctl.handle_control(&g, &[]), ControlReply::Data { version: 1, mode: 0 });
}

#[test]
fn setup_packet_little_endian() {
    let bytes = [0x40, 0xC0, 0x01, 0x00, 0x53, 0x43, 0x01, 0x00];
    let p = SetupPacket::parse(&bytes).unwrap();
    assert_eq!(p, set_packet(1));
    assert_eq!(p.to_bytes(), bytes.to_vec());
    let g = SetupPacket::parse(&[0xC0, 0xC0, 0x34, 0x12, 0x53, 0x43, 0x02, 0x00]).unwrap();
    assert_eq!(g.value, 0x1234);
    assert_eq!(g.length, 2);
    assert_eq!(SetupPacket::parse(&bytes[..7]), None);
    assert_eq!(SetupPacket::parse(&[0u8; 9]), None);
}

#[test]
fn mode_codes() {
    assert_eq!(RoutingMode::from_code(0), Some(RoutingMode::Bridge));
    assert_eq!(RoutingMode::from_code(1), Some(RoutingMode::LocalOnly));
    assert_eq!(RoutingMode::from_code(2), None);
    assert_eq!(RoutingMode::LocalOnly.code(), 1);
    assert_eq!(RoutingMode::Bridge.code(), 0);
}
