use vaults_bridge::transport::descriptor::{
    webusb_interface, EndpointConfig, EndpointDirection, EndpointKind, SetupPacket, SetupResponder,
};
use vaults_bridge::transport::dispatch::{dispatch, payload_id, refuse, Dispatch, ErrorCode};
use vaults_bridge::transport::dispatcher::{Dispatcher, ServeAction, ServeEvent, WriteOutcome};
use vaults_bridge::transport::startup::{
    registered, start, write_buffer_mapped, Endpoints, StartupAction,
};
use vaults_bridge::transport::status::Status;

fn serve(actions: Vec<ServeAction>) -> Vec<String> {
    actions
        .into_iter()
        .map(|a| match a {
            ServeAction::Show(status) => status.text(),
            ServeAction::WaitForConnection => "wait".to_string(),
            ServeAction::Sleep(ms) => format!("sleep {}", ms),
            ServeAction::Receive => "receive".to_string(),
            ServeAction::Handle(payload) => {
                format!("handle {}", String::from_utf8(payload).unwrap())
            }
            ServeAction::Write(chunk) => {
                format!("write {} {}", chunk.index, String::from_utf8(chunk.bytes).unwrap())
            }
            ServeAction::Finish => "finish".to_string(),
        })
        .collect()
}

fn payload(bytes: &[u8]) -> ServeEvent {
    ServeEvent::Payload(bytes.to_vec())
}

fn response(bytes: &[u8]) -> ServeEvent {
    ServeEvent::Serialised(Ok(bytes.to_vec()))
}

fn written(n: usize) -> ServeEvent {
    ServeEvent::Tried(WriteOutcome::Written(n))
}

fn startup(actions: Vec<StartupAction>) -> Vec<String> {
    actions
        .into_iter()
        .map(|a| match a {
            StartupAction::Show(status) => status.text(),
            StartupAction::RegisterInterface => "register".to_string(),
            StartupAction::ResetController => "reset".to_string(),
            StartupAction::StartReader => "start reader".to_string(),
            StartupAction::MapWriteBuffer => "map".to_string(),
            StartupAction::Serve => "serve".to_string(),
            StartupAction::Park => "park".to_string(),
            StartupAction::Finish => "finish".to_string(),
            StartupAction::Fail(text) => format!("fail {}", text),
        })
        .collect()
}

fn refused(payload: &[u8]) -> String {
    match dispatch::<u32>(payload, None) {
        Dispatch::Handle(_) => panic!("handled"),
        Dispatch::Refuse(refusal) => {
            assert_eq!(refusal.error.code, ErrorCode::InvalidRequest);
            assert_eq!(refusal.error.message, "invalid request");
            refusal.id
        }
    }
}

#[test]
fn a_parsed_request_is_handled() {
    match dispatch(b"{\"id\":\"7\"}", Some(41u32)) {
        Dispatch::Handle(request) => assert_eq!(request, 41),
        Dispatch::Refuse(_) => panic!("refused"),
    }
}

#[test]
fn a_refusal_names_the_id_of_the_payload() {
    assert_eq!(refused(b"{\"id\":\"abc\",\"method\":5}"), "abc");
    assert_eq!(refused(b"  {\"x\":[1,2],\"id\":\"\\u0041\\n\"} "), "A\n");
    assert_eq!(refused(b"{\"id\":\"1\",\"id\":\"2\"}"), "2");
    assert_eq!(refused(b"{\"id\":\"\"}"), "");
}

#[test]
fn a_refusal_falls_back_to_zero() {
    assert_eq!(refused(b""), "0");
    assert_eq!(refused(b"not json"), "0");
    assert_eq!(refused(b"{\"id\":\"abc\""), "0");
    assert_eq!(refused(b"{\"id\":\"abc\"} x"), "0");
    assert_eq!(refused(b"{\"id\":7}"), "0");
    assert_eq!(refused(b"{\"id\":null}"), "0");
    assert_eq!(refused(b"{\"ID\":\"abc\"}"), "0");
    assert_eq!(refused(b"[\"id\",\"abc\"]"), "0");
    assert_eq!(refused(b"\"id\""), "0");
    assert_eq!(refused(b"{\"id\":\"\xff\"}"), "0");
}

#[test]
fn ids_and_refusals_one_by_one() {
    assert_eq!(payload_id(b"{\"id\":\"q\"}"), Some("q".to_string()));
    assert_eq!(payload_id(b"{}"), None);
    assert_eq!(refuse(Some("q".to_string())).id, "q");
    assert_eq!(refuse(None).id, "0");
}

#[test]
fn one_request_from_beginning_to_end() {
    let mut dispatcher = Dispatcher::new();
    assert_eq!(serve(dispatcher.start()), vec!["receive"]);
    assert_eq!(serve(dispatcher.on_event(payload(b"{\"id\":\"1\"}"))), vec![
        "dispatch 1 (10B)",
        "handle {\"id\":\"1\"}",
    ]);
    let r = "r".repeat(64);
    assert_eq!(serve(dispatcher.on_event(response("r".repeat(100).as_bytes()))), vec![
        "tx 101B (#1)".to_string(),
        format!("write 1 {}", r),
    ]);
    assert_eq!(serve(dispatcher.on_event(written(64))), vec![
        "tx chunk 1 64B ok (64)".to_string(),
        format!("write 2 {}\n", "r".repeat(36)),
    ]);
    assert_eq!(dispatcher.handled(), 0);
    assert_eq!(serve(dispatcher.on_event(written(37))), vec![
        "tx chunk 2 37B ok (37)",
        "done #1",
        "receive",
    ]);
    assert_eq!(dispatcher.handled(), 1);
    assert_eq!(serve(dispatcher.on_event(payload(b"x")))[0], "dispatch 2 (1B)");
}

#[test]
fn a_response_that_cannot_be_serialised_is_skipped() {
    let mut dispatcher = Dispatcher::new();
    dispatcher.on_event(payload(b"x"));
    let failed = ServeEvent::Serialised(Err("key must be a string".to_string()));
    assert_eq!(serve(dispatcher.on_event(failed)), vec![
        "serialise err: key must be a string",
        "receive",
    ]);
    assert_eq!(dispatcher.handled(), 0);
    assert_eq!(serve(dispatcher.on_event(payload(b"y")))[0], "dispatch 1 (1B)");
}

#[test]
fn a_failed_transfer_is_not_repeated_and_the_rest_follows() {
    let text: String = (0..150u32).map(|i| (b'a' + (i % 26) as u8) as char).collect();
    let framed = format!("{}\n", text);
    let parts = [&framed[..64], &framed[64..128], &framed[128..]];
    let mut dispatcher = Dispatcher::new();
    dispatcher.on_event(payload(b"x"));
    assert_eq!(
        serve(dispatcher.on_event(response(text.as_bytes()))),
        vec!["tx 151B (#1)".to_string(), format!("write 1 {}", parts[0])]
    );
    let gone = ServeEvent::Tried(WriteOutcome::HostDisconnected);
    assert_eq!(serve(dispatcher.on_event(gone)), vec![
        "tx: host disc".to_string(),
        "wait".to_string(),
        "sleep 500".to_string(),
        format!("write 2 {}", parts[1]),
    ]);
    let failed = ServeEvent::Tried(WriteOutcome::Failed("Stall".to_string()));
    assert_eq!(serve(dispatcher.on_event(failed)), vec![
        "write err: Stall".to_string(),
        format!("write 3 {}", parts[2]),
    ]);
    let failed = ServeEvent::Tried(WriteOutcome::Failed("Stall".to_string()));
    assert_eq!(serve(dispatcher.on_event(failed)), vec!["write err: Stall", "done #1", "receive"]);
    assert_eq!(dispatcher.handled(), 1);
}

#[test]
fn one_request_is_in_flight_at_a_time() {
    let mut dispatcher = Dispatcher::new();
    assert!(dispatcher.awaits(&payload(b"x")));
    assert!(!dispatcher.awaits(&response(b"x")) && !dispatcher.awaits(&written(1)));
    dispatcher.on_event(payload(b"x"));
    assert!(dispatcher.awaits(&response(b"x")));
    assert!(dispatcher.awaits(&ServeEvent::Serialised(Err(String::new()))));
    assert!(!dispatcher.awaits(&payload(b"y")) && !dispatcher.awaits(&written(1)));
    dispatcher.on_event(response("r".repeat(64).as_bytes()));
    for _ in 0..2 {
        assert!(dispatcher.awaits(&written(1)));
        assert!(!dispatcher.awaits(&payload(b"y")) && !dispatcher.awaits(&response(b"x")));
        dispatcher.on_event(written(1));
    }
    assert!(dispatcher.awaits(&payload(b"y")));
}

#[test]
fn serving_ends_when_the_reader_is_gone() {
    let mut dispatcher = Dispatcher::new();
    assert!(dispatcher.awaits(&ServeEvent::ReaderGone));
    dispatcher.on_event(payload(b"x"));
    assert!(!dispatcher.awaits(&ServeEvent::ReaderGone));
    dispatcher.on_event(response(b"r"));
    assert!(!dispatcher.awaits(&ServeEvent::ReaderGone));
    dispatcher.on_event(written(2));
    assert_eq!(serve(dispatcher.on_event(ServeEvent::ReaderGone)), vec!["finish"]);
    assert_eq!(dispatcher.handled(), 1);
    for event in [payload(b"x"), ServeEvent::ReaderGone, response(b"r"), written(1)] {
        assert!(!dispatcher.awaits(&event));
    }
}

#[test]
fn serving_ends_in_an_error_only_without_a_write_buffer() {
    assert_eq!(startup(write_buffer_mapped(None)), vec!["serve"]);
    assert_eq!(
        startup(write_buffer_mapped(Some("OutOfMemory".to_string()))),
        vec!["fail webusb map write buf: OutOfMemory"]
    );
}

#[test]
fn coming_up() {
    assert_eq!(startup(start()), vec![
        "WebUSB: init",
        "WebUSB: registering interface",
        "register",
    ]);
    assert_eq!(startup(registered(Ok(Endpoints { ep_out: 12, ep_in: 255 }))), vec![
        "WebUSB: resetting USB",
        "reset",
        "WebUSB ready (EP out=12, in=255)",
        "start reader",
        "map",
    ]);
    assert_eq!(startup(registered(Err("NoFreeEndpoint".to_string()))), vec![
        "WebUSB: register interface failed: NoFreeEndpoint",
        "park",
        "finish",
    ]);
}

#[test]
fn numbers_are_rendered_in_decimal() {
    let status = Status::Received {
        bytes: 0,
        total_bytes: 18446744073709551615,
        total_lines: 1234567890,
    };
    assert_eq!(status.text(), "rx 0B / 18446744073709551615 total / 1234567890 lines");
    for n in [0u64, 9, 10, 99, 100, 101, 4096, u64::MAX] {
        assert_eq!(vaults_bridge::text::decimal(n), n.to_string());
    }
}

#[test]
fn the_interface_as_it_is_registered() {
    let config = webusb_interface();
    assert_eq!(
        (config.number, config.class, config.subclass, config.protocol),
        (0, 0xff, 0xff, 0xff)
    );
    let endpoint = |direction: EndpointDirection| EndpointConfig {
        kind: EndpointKind::Interrupt,
        direction,
        max_packet_len: 64,
        interval: 1,
        use_dma: false,
    };
    assert_eq!(
        config.endpoints,
        vec![endpoint(EndpointDirection::In), endpoint(EndpointDirection::Out)]
    );
    assert!(config.setup_responder.is_some());
    assert_eq!(config.capabilities.len(), 2);
    let webusb = &config.capabilities[0];
    assert_eq!((webusb.descriptor_type, webusb.capability_type), (16, 5));
    assert_eq!(
        uuid::Uuid::from_u128(webusb.uuid),
        uuid::Uuid::parse_str("3408b638-09a9-47a0-8bfd-a0768815b665").unwrap()
    );
    assert_eq!(webusb.data, vec![0x00, 0x01, 0x1f, 0x00]);
    let ms = &config.capabilities[1];
    assert_eq!((ms.descriptor_type, ms.capability_type), (16, 5));
    assert_eq!(
        uuid::Uuid::from_u128(ms.uuid),
        uuid::Uuid::parse_str("d8dd60df-4589-4cc7-9cd2-659d9e648a9f").unwrap()
    );
    assert_eq!(ms.data, vec![0x00, 0x00, 0x03, 0x06, 0xb2, 0x00, 0x77, 0x00]);
}

#[test]
fn only_the_url_request_is_answered() {
    let mut responder = SetupResponder;
    let url = SetupPacket { request_type: 0xc0, request: 0x1f, index: 2 };
    assert_eq!(responder.handle(url), Some(vec![3, 3, 0xff]));
    assert_eq!(responder.handle(SetupPacket { request_type: 0x40, ..url }), None);
    assert_eq!(responder.handle(SetupPacket { request: 0x1e, ..url }), None);
    assert_eq!(responder.handle(SetupPacket { index: 7, ..url }), None);
}

#[test]
fn the_advertised_vendor_code_is_answered() {
    let config = webusb_interface();
    let packet = SetupPacket {
        request_type: 0xc0,
        request: config.capabilities[0].data[2],
        index: 2,
    };
    let answer = SetupResponder.handle(packet).unwrap();
    assert_eq!(answer[0] as usize, answer.len());
}
