//! What the device tells a host about its WebUSB interface.

use vstd::prelude::*;

use crate::transport::reader::READ_BYTES;
use crate::transport::writer::CHUNK_BYTES;

verus! {

/// Vendor-specific interface class.
pub const INTERFACE_CLASS: u8 = 0xff;

/// Vendor-specific interface subclass.
pub const INTERFACE_SUBCLASS: u8 = 0xff;

/// Vendor-specific interface protocol.
pub const INTERFACE_PROTOCOL: u8 = 0xff;

/// Number of the interface.
pub const INTERFACE_NUMBER: u8 = 0;

/// Vendor code of the WebUSB control request.
pub const VENDOR_CODE: u8 = 0x1f;

/// Descriptor type of a device capability.
pub const DEVICE_CAPABILITY: u8 = 16;

/// Capability type of a platform capability.
pub const PLATFORM_CAPABILITY: u8 = 5;

/// UUID of the WebUSB platform capability.
pub const WEBUSB_UUID: u128 = 0x3408b638_09a9_47a0_8bfd_a0768815b665;

/// UUID of the Microsoft OS 2.0 platform capability.
pub const MS_OS_20_UUID: u128 = 0xd8dd60df_4589_4cc7_9cd2_659d9e648a9f;

/// Transfer type of an endpoint.
#[derive(Clone, Copy, Debug, PartialEq, Eq, Structural)]
pub enum EndpointKind {
    Interrupt,
}

/// Direction of an endpoint, as the host sees it.
#[derive(Clone, Copy, Debug, PartialEq, Eq, Structural)]
pub enum EndpointDirection {
    In,
    Out,
}

/// Properties of one endpoint.
#[derive(Clone, Copy, Debug, PartialEq, Eq, Structural)]
pub struct EndpointConfig {
    pub kind: EndpointKind,
    pub direction: EndpointDirection,
    pub max_packet_len: u16,
    /// Service interval in milliseconds.
    pub interval: u8,
    pub use_dma: bool,
}

/// A platform capability descriptor.
pub struct Capability {
    pub descriptor_type: u8,
    pub capability_type: u8,
    pub uuid: u128,
    pub data: Vec<u8>,
}

/// Everything that is registered for the interface.
pub struct InterfaceConfig {
    pub number: u8,
    pub class: u8,
    pub subclass: u8,
    pub protocol: u8,
    pub endpoints: Vec<EndpointConfig>,
    pub capabilities: Vec<Capability>,
    /// Answers the control requests that reach the interface.
    pub setup_responder: Option<SetupResponder>,
}

/// A 64-byte interrupt endpoint, serviced every millisecond without DMA.
pub open spec fn interrupt_endpoint(direction: EndpointDirection) -> EndpointConfig {
    EndpointConfig {
        kind: EndpointKind::Interrupt,
        direction,
        max_packet_len: 64,
        interval: 1,
        use_dma: false,
    }
}

/// The endpoints, IN before OUT.
pub open spec fn endpoints() -> Seq<EndpointConfig> {
    seq![interrupt_endpoint(EndpointDirection::In), interrupt_endpoint(EndpointDirection::Out)]
}

/// Payload of the WebUSB capability: version 1.00, the vendor code, and no
/// landing page.
pub open spec fn webusb_data() -> Seq<u8> {
    seq![0x00u8, 0x01u8, VENDOR_CODE, 0x00u8]
}

/// Payload of the Microsoft OS 2.0 capability.
pub open spec fn ms_os_20_data() -> Seq<u8> {
    seq![0x00u8, 0x00u8, 0x03u8, 0x06u8, 0xb2u8, 0x00u8, 0x77u8, 0x00u8]
}

/// Whether `capability` is the platform capability `uuid` with payload `data`.
pub open spec fn is_platform_capability(
    capability: Capability,
    uuid: u128,
    data: Seq<u8>,
) -> bool {
    &&& capability.descriptor_type == DEVICE_CAPABILITY
    &&& capability.capability_type == PLATFORM_CAPABILITY
    &&& capability.uuid == uuid
    &&& capability.data@ == data
}

/// The interface that the transport registers.
pub fn webusb_interface() -> (config: InterfaceConfig)
    ensures
        config.number == INTERFACE_NUMBER,
        config.class == INTERFACE_CLASS,
        config.subclass == INTERFACE_SUBCLASS,
        config.protocol == INTERFACE_PROTOCOL,
        config.endpoints@ == endpoints(),
        config.capabilities@.len() == 2,
        is_platform_capability(config.capabilities@[0], WEBUSB_UUID, webusb_data()),
        is_platform_capability(config.capabilities@[1], MS_OS_20_UUID, ms_os_20_data()),
        config.setup_responder is Some,
{
    let ep_in: EndpointConfig = EndpointConfig {
        kind: EndpointKind::Interrupt,
        direction: EndpointDirection::In,
        max_packet_len: 64,
        interval: 1,
        use_dma: false,
    };
    let ep_out: EndpointConfig = EndpointConfig { direction: EndpointDirection::Out, ..ep_in };
    let endpoints: Vec<EndpointConfig> = vec![ep_in, ep_out];
    let webusb: Capability = Capability {
        descriptor_type: DEVICE_CAPABILITY,
        capability_type: PLATFORM_CAPABILITY,
        uuid: WEBUSB_UUID,
        data: vec![0x00, 0x01, VENDOR_CODE, 0x00],
    };
    let ms_os_20: Capability = Capability {
        descriptor_type: DEVICE_CAPABILITY,
        capability_type: PLATFORM_CAPABILITY,
        uuid: MS_OS_20_UUID,
        data: vec![0x00, 0x00, 0x03, 0x06, 0xb2, 0x00, 0x77, 0x00],
    };
    assert(endpoints@ =~= self::endpoints());
    assert(webusb.data@ =~= webusb_data());
    assert(ms_os_20.data@ =~= ms_os_20_data());
    InterfaceConfig {
        number: INTERFACE_NUMBER,
        class: INTERFACE_CLASS,
        subclass: INTERFACE_SUBCLASS,
        protocol: INTERFACE_PROTOCOL,
        endpoints,
        capabilities: vec![webusb, ms_os_20],
        setup_responder: Some(SetupResponder),
    }
}

/// The parts of a control request that decide about the answer.
#[derive(Clone, Copy, Debug, PartialEq, Eq, Structural)]
pub struct SetupPacket {
    /// `bmRequestType`.
    pub request_type: u8,
    /// `bRequest`.
    pub request: u8,
    /// `wIndex`.
    pub index: u16,
}

/// Whether a control request asks for the WebUSB URL descriptor: a vendor
/// request to the device, inward, under the vendor code and descriptor index 2.
pub open spec fn asks_for_url(packet: SetupPacket) -> bool {
    packet.request_type == 0xc0 && packet.request == VENDOR_CODE && packet.index == 2
}

/// An empty URL descriptor: its length, its type, no scheme prefix, no URL.
pub open spec fn empty_url_descriptor() -> Seq<u8> {
    seq![3u8, 3u8, 0xffu8]
}

/// Answers the control requests of the interface.
pub struct SetupResponder;

impl SetupResponder {
    /// The answer to `packet`, if it is one that this interface answers.
    pub fn handle(&mut self, packet: SetupPacket) -> (answer: Option<Vec<u8>>)
        ensures
            match answer {
                Some(descriptor) => asks_for_url(packet) && descriptor@ == empty_url_descriptor(),
                None => !asks_for_url(packet),
            },
    {
        if packet.request_type == 0xc0 && packet.request == VENDOR_CODE && packet.index == 2 {
            let descriptor: Vec<u8> = vec![3, 3, 0xff];
            assert(descriptor@ =~= empty_url_descriptor());
            return Some(descriptor);
        }
        None
    }
}

/// A host that asks for the URL under the vendor code it read from the WebUSB
/// capability gets an answer, whose first byte is its length.
pub proof fn law_advertised_vendor_code_is_answered(packet: SetupPacket)
    requires
        packet.request_type == 0xc0,
        packet.request == webusb_data()[2],
        packet.index == 2,
    ensures
        asks_for_url(packet),
        empty_url_descriptor()[0] == empty_url_descriptor().len(),
{
}

/// What is read or sent in one go is exactly what an endpoint carries at once.
pub proof fn law_transfers_match_endpoints(i: int)
    requires
        0 <= i < endpoints().len(),
    ensures
        endpoints()[i].max_packet_len == READ_BYTES,
        endpoints()[i].max_packet_len == CHUNK_BYTES,
{
}

/// The URL is asked for by one request alone: vendor, to the device, inward, under
/// the advertised vendor code and descriptor index 2. The answer is three bytes
/// that state their own length, the type of a URL descriptor, and no scheme.
pub proof fn law_no_other_request_is_answered(packet: SetupPacket)
    ensures
        asks_for_url(packet) <==> packet == (SetupPacket {
            request_type: 0xc0,
            request: 0x1f,
            index: 2,
        }),
        webusb_data()[2] == 0x1f,
        empty_url_descriptor().len() == 3,
        empty_url_descriptor()[0] == 3,
        empty_url_descriptor()[1] == 3,
        empty_url_descriptor()[2] == 0xff,
{
}

/// There is one endpoint for each direction, each a 64-byte interrupt endpoint
/// that is serviced every millisecond without DMA.
pub proof fn law_one_endpoint_for_each_direction(direction: EndpointDirection)
    ensures
        endpoints().len() == 2,
        endpoints()[if direction is In {
            0
        } else {
            1
        }] == (EndpointConfig {
            kind: EndpointKind::Interrupt,
            direction,
            max_packet_len: 64,
            interval: 1,
            use_dma: false,
        }),
{
}

/// The capabilities are those of WebUSB 1.00 without a landing page and of
/// Microsoft OS 2.0, under their assigned UUIDs.
pub proof fn law_capabilities_as_assigned()
    ensures
        INTERFACE_NUMBER == 0,
        INTERFACE_CLASS == 0xff && INTERFACE_SUBCLASS == 0xff && INTERFACE_PROTOCOL == 0xff,
        DEVICE_CAPABILITY == 16 && PLATFORM_CAPABILITY == 5,
        WEBUSB_UUID == 0x3408b638_09a9_47a0_8bfd_a0768815b665,
        MS_OS_20_UUID == 0xd8dd60df_4589_4cc7_9cd2_659d9e648a9f,
        webusb_data() == seq![0x00u8, 0x01u8, 0x1fu8, 0x00u8],
        ms_os_20_data() == seq![0x00u8, 0x00u8, 0x03u8, 0x06u8, 0xb2u8, 0x00u8, 0x77u8, 0x00u8],
{
}

} // verus!
