use media_server::protobuf::features::mixer::{request, server_event, Config, Mode, Request, ServerEvent};
use media_server::protobuf::shared::receiver::Source;

#[test]
fn mode_names() {
    assert_eq!(Mode::Auto.as_str_name(), "AUTO");
    assert_eq!(Mode::Manual.as_str_name(), "MANUAL");
}

#[test]
fn mode_from_names() {
    assert_eq!(Mode::from_str_name("AUTO"), Some(Mode::Auto));
    assert_eq!(Mode::from_str_name("MANUAL"), Some(Mode::Manual));
    assert_eq!(Mode::from_str_name("auto"), None);
    assert_eq!(Mode::from_str_name("AUTOMATIC"), None);
    assert_eq!(Mode::from_str_name("MANUA"), None);
    assert_eq!(Mode::from_str_name(""), None);
}

#[test]
fn mode_name_round_trip() {
    for mode in [Mode::Auto, Mode::Manual] {
        assert_eq!(Mode::from_str_name(mode.as_str_name()), Some(mode));
    }
}

#[test]
fn default_messages() {
    assert_eq!(Mode::default(), Mode::Auto);
    let config = Config::default();
    assert_eq!(config.mode, 0);
    assert!(config.outputs.is_empty() && config.sources.is_empty());
    assert_eq!(Request::default().request, None);
    assert_eq!(ServerEvent::default().event, None);
}

#[test]
fn messages_hold_their_values() {
    let source = Source { peer: "peer1".to_string(), track: "audio_main".to_string() };
    let req = Request { request: Some(request::Request::Attach(request::Attach { sources: vec![source.clone()] })) };
    assert_eq!(req.clone(), req);
    let event = ServerEvent {
        event: Some(server_event::Event::SlotSet(server_event::SlotSet { slot: 2, source: Some(source) })),
    };
    assert_ne!(
        event,
        ServerEvent { event: Some(server_event::Event::SlotUnset(server_event::SlotUnset { slot: 2 })) }
    );
}
