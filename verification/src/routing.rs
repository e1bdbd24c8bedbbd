//! The product-specific control protocol carried on USB endpoint zero: it
//! reads and sets whether the USB-CAN interface is bridged to the physical
//! CAN bus or talks to the device alone.
use vstd::prelude::*;

verus! {

/// USB vendor ID of the device.
pub const USB_VENDOR_ID: u16 = 0x1209;

/// USB product ID of the device.
pub const USB_PRODUCT_ID: u16 = 0x5F4D;

/// `bRequest` of both routing control requests.
pub const ROUTING_REQUEST: u8 = 0xC0;

/// `wIndex` that every routing control request carries.
pub const ROUTING_MAGIC: u16 = 0x4353;

/// Version of the routing protocol, sent in every data stage.
pub const PROTOCOL_VERSION: u8 = 0x01;

/// `bmRequestType` of "set routing mode": vendor, device recipient, OUT.
pub const SET_REQUEST_TYPE: u8 = 0x40;

/// `bmRequestType` of "get routing mode": vendor, device recipient, IN.
pub const GET_REQUEST_TYPE: u8 = 0xC0;

/// Length of a USB setup packet in bytes.
pub const SETUP_PACKET_LEN: usize = 8;

/// Where frames of the USB-CAN interface go.
#[derive(Clone, Copy, Debug, PartialEq, Eq, Structural)]
pub enum RoutingMode {
    /// USB-CAN and the physical CAN bus are bridged.
    Bridge,
    /// The physical CAN bus is disabled; USB-CAN talks to the device only.
    LocalOnly,
}

impl RoutingMode {
    /// The wire code of a mode: 0 for bridge, 1 for local-only.
    pub open spec fn spec_code(self) -> u8 {
        match self {
            RoutingMode::Bridge => 0,
            RoutingMode::LocalOnly => 1,
        }
    }

    /// The mode that a `wValue` names, if any.
    pub open spec fn spec_from_code(value: u16) -> Option<RoutingMode> {
        if value == 0 {
            Some(RoutingMode::Bridge)
        } else if value == 1 {
            Some(RoutingMode::LocalOnly)
        } else {
            None
        }
    }

    pub fn code(self) -> (r: u8)
        ensures
            r == self.spec_code(),
    {
        match self {
            RoutingMode::Bridge => 0,
            RoutingMode::LocalOnly => 1,
        }
    }

    pub fn from_code(value: u16) -> (r: Option<RoutingMode>)
        ensures
            r == Self::spec_from_code(value),
    {
        if value == 0 {
            Some(RoutingMode::Bridge)
        } else if value == 1 {
            Some(RoutingMode::LocalOnly)
        } else {
            None
        }
    }

    /// Whether the physical CAN bus takes part in this mode.
    pub fn physical_bus_enabled(self) -> (r: bool)
        ensures
            r == (self == RoutingMode::Bridge),
    {
        match self {
            RoutingMode::Bridge => true,
            RoutingMode::LocalOnly => false,
        }
    }
}

/// The eight bytes of a USB setup packet, with the multibyte fields decoded.
#[derive(Clone, Copy, Debug, PartialEq, Eq, Structural)]
pub struct SetupPacket {
    pub request_type: u8,
    pub request: u8,
    pub value: u16,
    pub index: u16,
    pub length: u16,
}

/// The little-endian value of two bytes.
pub open spec fn le_u16(lo: u8, hi: u8) -> u16 {
    (lo + 256 * hi) as u16
}

/// The setup packet that eight bytes encode.
pub open spec fn spec_decode_setup(b: Seq<u8>) -> SetupPacket {
    SetupPacket {
        request_type: b[0],
        request: b[1],
        value: le_u16(b[2], b[3]),
        index: le_u16(b[4], b[5]),
        length: le_u16(b[6], b[7]),
    }
}

/// The eight bytes that encode a setup packet.
pub open spec fn spec_encode_setup(p: SetupPacket) -> Seq<u8> {
    seq![
        p.request_type,
        p.request,
        (p.value % 256) as u8,
        (p.value / 256) as u8,
        (p.index % 256) as u8,
        (p.index / 256) as u8,
        (p.length % 256) as u8,
        (p.length / 256) as u8,
    ]
}

fn le_pair(lo: u8, hi: u8) -> (r: u16)
    ensures
        r == le_u16(lo, hi),
        r as int == lo + 256 * hi,
{
    lo as u16 + (hi as u16) * 256
}

impl SetupPacket {
    /// Decodes a setup packet; `None` unless exactly eight bytes are given.
    pub fn parse(bytes: &[u8]) -> (r: Option<SetupPacket>)
        ensures
            r.is_some() <==> bytes@.len() == SETUP_PACKET_LEN,
            r matches Some(p) ==> p == spec_decode_setup(bytes@),
    {
        if bytes.len() != SETUP_PACKET_LEN {
            return None;
        }
        Some(
            SetupPacket {
                request_type: bytes[0],
                request: bytes[1],
                value: le_pair(bytes[2], bytes[3]),
                index: le_pair(bytes[4], bytes[5]),
                length: le_pair(bytes[6], bytes[7]),
            },
        )
    }

    /// Encodes the packet as the eight bytes sent on the wire.
    pub fn to_bytes(&self) -> (r: Vec<u8>)
        ensures
            r@ == spec_encode_setup(*self),
    {
        let mut v: Vec<u8> = Vec::new();
        v.push(self.request_type);
        v.push(self.request);
        v.push((self.value % 256) as u8);
        v.push((self.value / 256) as u8);
        v.push((self.index % 256) as u8);
        v.push((self.index / 256) as u8);
        v.push((self.length % 256) as u8);
        v.push((self.length / 256) as u8);
        assert(v@ =~= spec_encode_setup(*self));
        v
    }
}

/// What the device answers to a control request.
#[derive(Clone, Copy, Debug, PartialEq, Eq, Structural)]
pub enum ControlReply {
    /// The request is not a routing request; another handler owns it.
    NotHandled,
    /// The request is refused: the endpoint stalls.
    Stall,
    /// The status stage completes: the request was applied.
    Ack,
    /// The two response bytes of "get routing mode".
    Data { version: u8, mode: u8 },
}

impl ControlReply {
    /// The bytes of the data stage (empty but for `Data`).
    pub fn data_bytes(&self) -> (r: Vec<u8>)
        ensures
            (*self) matches ControlReply::Data { version, mode } ==> r@ == seq![version, mode],
            !((*self) is Data) ==> r@.len() == 0,
    {
        let mut v: Vec<u8> = Vec::new();
        match *self {
            ControlReply::Data { version, mode } => {
                v.push(version);
                v.push(mode);
                assert(v@ =~= seq![version, mode]);
            },
            _ => {},
        }
        v
    }
}

/// A well-formed "set routing mode": every field as the protocol fixes it,
/// a known mode in `wValue`, and a one-byte data stage holding the version.
pub open spec fn valid_set_request(setup: SetupPacket, data: Seq<u8>) -> bool {
    &&& setup.request_type == SET_REQUEST_TYPE
    &&& setup.request == ROUTING_REQUEST
    &&& setup.index == ROUTING_MAGIC
    &&& setup.length == 1
    &&& data.len() == 1
    &&& data[0] == PROTOCOL_VERSION
    &&& RoutingMode::spec_from_code(setup.value).is_some()
}

/// A well-formed "get routing mode" (`wValue` is ignored).
pub open spec fn valid_get_request(setup: SetupPacket) -> bool {
    &&& setup.request_type == GET_REQUEST_TYPE
    &&& setup.request == ROUTING_REQUEST
    &&& setup.index == ROUTING_MAGIC
    &&& setup.length == 2
}

/// The mode after a control request, and the reply to it.
pub open spec fn spec_handle(mode: RoutingMode, setup: SetupPacket, data: Seq<u8>) -> (
    RoutingMode,
    ControlReply,
) {
    if setup.request != ROUTING_REQUEST {
        (mode, ControlReply::NotHandled)
    } else if valid_set_request(setup, data) {
        (RoutingMode::spec_from_code(setup.value).unwrap(), ControlReply::Ack)
    } else if valid_get_request(setup) {
        (mode, ControlReply::Data { version: PROTOCOL_VERSION, mode: mode.spec_code() })
    } else {
        (mode, ControlReply::Stall)
    }
}

/// The routing state of the device and the handler of its control requests.
pub struct RoutingControl {
    mode: RoutingMode,
}

impl View for RoutingControl {
    type V = RoutingMode;

    closed spec fn view(&self) -> RoutingMode {
        self.mode
    }
}

impl RoutingControl {
    /// The state at power-on: bridge mode.
    pub fn new() -> (r: RoutingControl)
        ensures
            r@ == RoutingMode::Bridge,
    {
        RoutingControl { mode: RoutingMode::Bridge }
    }

    pub fn mode(&self) -> (r: RoutingMode)
        ensures
            r == self@,
    {
        self.mode
    }

    /// Handles one control request with its OUT data stage (empty for IN
    /// requests).
    pub fn handle_control(&mut self, setup: &SetupPacket, data: &[u8]) -> (r: ControlReply)
        ensures
            (final(self)@, r) == spec_handle(old(self)@, *setup, data@),
    {
        if setup.request != ROUTING_REQUEST {
            return ControlReply::NotHandled;
        }
        if setup.request_type == SET_REQUEST_TYPE && setup.index == ROUTING_MAGIC
            && setup.length == 1 && data.len() == 1 && data[0] == PROTOCOL_VERSION {
            match RoutingMode::from_code(setup.value) {
                Some(mode) => {
                    self.mode = mode;
                    return ControlReply::Ack;
                },
                None => {},
            }
        }
        if setup.request_type == GET_REQUEST_TYPE && setup.index == ROUTING_MAGIC
            && setup.length == 2 {
            return ControlReply::Data { version: PROTOCOL_VERSION, mode: self.mode.code() };
        }
        ControlReply::Stall
    }
}

/// The wire codes of the modes: bridge is 0 and local-only is 1, in both
/// directions, and every other `wValue` names no mode.
pub proof fn lemma_mode_codes(mode: RoutingMode, value: u16)
    ensures
        RoutingMode::spec_from_code(0) == Some(RoutingMode::Bridge),
        RoutingMode::spec_from_code(1) == Some(RoutingMode::LocalOnly),
        value > 1 ==> RoutingMode::spec_from_code(value) is None,
        RoutingMode::Bridge.spec_code() == 0,
        RoutingMode::LocalOnly.spec_code() == 1,
        RoutingMode::spec_from_code(mode.spec_code() as u16) == Some(mode),
{
}

/// A request whose `bRequest` is not the routing request belongs to another
/// handler (the gs_usb interface): it is answered `NotHandled` and leaves the
/// mode unchanged, whatever its other fields and data.
pub proof fn lemma_other_requests_not_handled(mode: RoutingMode, setup: SetupPacket, data: Seq<u8>)
    requires
        setup.request != 0xC0,
    ensures
        spec_handle(mode, setup, data) == (mode, ControlReply::NotHandled),
{
}

/// Every routing request (`bRequest` 0xC0) is answered by the routing
/// handler: never `NotHandled`.
pub proof fn lemma_routing_requests_handled(mode: RoutingMode, setup: SetupPacket, data: Seq<u8>)
    requires
        setup.request == 0xC0,
    ensures
        spec_handle(mode, setup, data).1 != ControlReply::NotHandled,
{
}

/// What an acknowledged request was, and what it did: only a vendor OUT
/// request to the device with `wIndex` 0x4353, `wLength` 1 and the one data
/// byte 0x01 is acknowledged, and it sets the mode that `wValue` (0 or 1)
/// codes. Conversely every such request with `wValue` 0 or 1 is acknowledged.
pub proof fn lemma_ack_exactly(mode: RoutingMode, setup: SetupPacket, data: Seq<u8>)
    ensures
        spec_handle(mode, setup, data).1 == ControlReply::Ack ==> {
            &&& setup.request_type == 0x40
            &&& setup.request == 0xC0
            &&& setup.index == 0x4353
            &&& setup.length == 1
            &&& data =~= seq![1u8]
            &&& setup.value <= 1
            &&& spec_handle(mode, setup, data).0.spec_code() == setup.value
        },
        (setup.request_type == 0x40 && setup.request == 0xC0 && setup.index == 0x4353
            && setup.length == 1 && data =~= seq![1u8] && setup.value <= 1) ==> spec_handle(
            mode,
            setup,
            data,
        ).1 == ControlReply::Ack,
{
}

/// What a data reply was, and what it says: only a vendor IN request to the
/// device with `wIndex` 0x4353 and `wLength` 2 gets one, whatever its
/// `wValue`; it carries version 1 and the current mode's code, and leaves
/// the mode unchanged.
pub proof fn lemma_data_exactly(mode: RoutingMode, setup: SetupPacket, data: Seq<u8>)
    ensures
        (spec_handle(mode, setup, data).1 is Data) <==> (setup.request_type == 0xC0
            && setup.request == 0xC0 && setup.index == 0x4353 && setup.length == 2),
        (spec_handle(mode, setup, data).1 is Data) ==> spec_handle(mode, setup, data) == (
            mode,
            ControlReply::Data { version: 1, mode: mode.spec_code() },
        ),
{
}

/// A routing request that is neither a well-formed set nor a well-formed get
/// is stalled, and a stall changes nothing.
pub proof fn lemma_stall_exactly(mode: RoutingMode, setup: SetupPacket, data: Seq<u8>)
    ensures
        (spec_handle(mode, setup, data).1 == ControlReply::Stall) <==> (setup.request == 0xC0
            && !(setup.request_type == 0x40 && setup.index == 0x4353 && setup.length == 1
            && data =~= seq![1u8] && setup.value <= 1) && !(setup.request_type == 0xC0
            && setup.index == 0x4353 && setup.length == 2)),
        spec_handle(mode, setup, data).1 == ControlReply::Stall ==> spec_handle(
            mode,
            setup,
            data,
        ).0 == mode,
{
    if data.len() == 1 && data[0] == 1 {
        assert(data =~= seq![1u8]);
    }
}

/// Decoding reads the fields in wire order, multibyte fields little-endian.
pub proof fn lemma_decode_fields(b: Seq<u8>)
    requires
        b.len() == SETUP_PACKET_LEN,
    ensures
        spec_decode_setup(b).request_type == b[0],
        spec_decode_setup(b).request == b[1],
        spec_decode_setup(b).value as int == b[2] + 256 * b[3],
        spec_decode_setup(b).index as int == b[4] + 256 * b[5],
        spec_decode_setup(b).length as int == b[6] + 256 * b[7],
{
}

/// Decoding the encoding of a setup packet gives the packet back.
pub proof fn lemma_setup_decode_encode(p: SetupPacket)
    ensures
        spec_encode_setup(p).len() == SETUP_PACKET_LEN,
        spec_decode_setup(spec_encode_setup(p)) == p,
{
}

/// Encoding the packet that eight bytes decode to gives the bytes back.
pub proof fn lemma_setup_encode_decode(b: Seq<u8>)
    requires
        b.len() == SETUP_PACKET_LEN,
    ensures
        spec_encode_setup(spec_decode_setup(b)) == b,
{
    assert(spec_encode_setup(spec_decode_setup(b)) =~= b);
}

/// A successful "set routing mode" is read back by "get routing mode": the
/// response carries the protocol version and the mode that was set.
pub proof fn lemma_get_reads_set(
    mode: RoutingMode,
    set: SetupPacket,
    data: Seq<u8>,
    get: SetupPacket,
    get_data: Seq<u8>,
)
    requires
        spec_handle(mode, set, data).1 == ControlReply::Ack,
        valid_get_request(get),
    ensures
        spec_handle(spec_handle(mode, set, data).0, get, get_data) == (
            RoutingMode::spec_from_code(set.value).unwrap(),
            ControlReply::Data { version: PROTOCOL_VERSION, mode: (set.value as u8) },
        ),
{
}

/// A request that is stalled or not handled leaves the routing mode as it
/// was; so does every "get routing mode".
pub proof fn lemma_refused_keeps_mode(mode: RoutingMode, setup: SetupPacket, data: Seq<u8>)
    ensures
        spec_handle(mode, setup, data).1 != ControlReply::Ack ==> spec_handle(
            mode,
            setup,
            data,
        ).0 == mode,
        valid_get_request(setup) ==> spec_handle(mode, setup, data).0 == mode,
{
}

/// A request is acknowledged exactly when it is a well-formed "set routing
/// mode", and then the mode is the one that `wValue` names.
pub proof fn lemma_ack_iff_valid_set(mode: RoutingMode, setup: SetupPacket, data: Seq<u8>)
    ensures
        (spec_handle(mode, setup, data).1 == ControlReply::Ack) <==> valid_set_request(
            setup,
            data,
        ),
        valid_set_request(setup, data) ==> spec_handle(mode, setup, data).0.spec_code()
            == setup.value,
{
}

/// Setting a mode twice is the same as setting it once.
pub proof fn lemma_set_idempotent(mode: RoutingMode, setup: SetupPacket, data: Seq<u8>)
    requires
        valid_set_request(setup, data),
    ensures
        spec_handle(spec_handle(mode, setup, data).0, setup, data) == spec_handle(
            mode,
            setup,
            data,
        ),
{
}

} // verus!
