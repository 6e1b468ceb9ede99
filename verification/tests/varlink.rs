use kdeconnect::service_varlink::{
    cached_sms_reply, command_event, list_devices, plugin_enabled, subscribe_step, to_varlink_device,
    AppEvent, BatteryState, CommandCall, DbusDevice, PacketBody, PacketType, Received,
    SubscribeStep, VarlinkEvent,
};
use kdeconnect::varlink_server;
use kdeconnect::varlink_server::{
    command_event as bridge_event, plugin_enabled_reply, AppEvent as BridgeEvent,
    CommandCall as BridgeCall,
};

fn phone() -> DbusDevice {
    DbusDevice {
        id: "abc".to_string(),
        name: "Phone".to_string(),
        device_type: "phone".to_string(),
        is_paired: true,
        is_reachable: false,
    }
}

#[test]
fn devices_are_described() {
    let d = to_varlink_device(&phone());
    assert_eq!(d.id, "abc");
    assert_eq!(d.name, "Phone");
    assert_eq!(d.device_type, "phone");
    assert!(d.is_paired);
    assert!(!d.is_reachable);
    let all = list_devices(&vec![phone(), phone()]);
    assert_eq!(all.len(), 2);
    let b = varlink_server::to_varlink_device(&phone());
    assert_eq!(b.name, "Phone");
}

#[test]
fn calls_become_core_requests() {
    match command_event(CommandCall::PairDevice { device_id: "d".to_string() }) {
        AppEvent::Pair(id) => assert_eq!(id.0, "d"),
        other => panic!("unexpected {:?}", other),
    }
    match command_event(CommandCall::SendClipboard { device_id: "d".to_string(), content: "hi".to_string() }) {
        AppEvent::SendPacket(id, p) => {
            assert_eq!(id.0, "d");
            assert_eq!(p.packet_type, PacketType::Clipboard);
            assert!(matches!(p.body, PacketBody::Content(ref c) if c == "hi"));
        }
        other => panic!("unexpected {:?}", other),
    }
    match command_event(CommandCall::RequestRunCommands { device_id: "d".to_string() }) {
        AppEvent::SendPacket(_, p) => {
            assert_eq!(p.packet_type, PacketType::RunCommandRequest);
            assert!(matches!(p.body, PacketBody::RequestCommandList));
        }
        other => panic!("unexpected {:?}", other),
    }
    match command_event(CommandCall::SendSms {
        device_id: "d".to_string(),
        phone_number: "+123".to_string(),
        message: "yo".to_string(),
    }) {
        AppEvent::SendPacket(_, p) => {
            assert_eq!(p.packet_type, PacketType::SmsRequest);
            assert!(matches!(p.body, PacketBody::SendSms { ref phone_number, ref message } if phone_number == "+123" && message == "yo"));
        }
        other => panic!("unexpected {:?}", other),
    }
    match command_event(CommandCall::RequestConversation { device_id: "d".to_string(), thread_id: 42 }) {
        AppEvent::SendPacket(_, p) => assert!(matches!(p.body, PacketBody::ThreadId(42))),
        other => panic!("unexpected {:?}", other),
    }
    assert!(matches!(command_event(CommandCall::BroadcastIdentity), AppEvent::Broadcasting));
    match command_event(CommandCall::SetPluginEnabled { device_id: "d".to_string(), plugin: "ping".to_string(), enabled: false }) {
        AppEvent::SetPluginEnabled { device_id, plugin_id, enabled } => {
            assert_eq!(device_id.0, "d");
            assert_eq!(plugin_id, "ping");
            assert!(!enabled);
        }
        other => panic!("unexpected {:?}", other),
    }
}

#[test]
fn bridge_calls_become_requests() {
    match bridge_event(BridgeCall::SendClipboard { device_id: "d".to_string(), content: "c".to_string() }) {
        BridgeEvent::SendClipboard(id, c) => {
            assert_eq!(id.0, "d");
            assert_eq!(c, "c");
        }
        other => panic!("unexpected {:?}", other),
    }
    assert!(matches!(
        bridge_event(BridgeCall::GetPluginEnabled { device_id: "d".to_string(), plugin: "p".to_string() }),
        BridgeEvent::GetPluginEnabled(_, _)
    ));
    assert!(plugin_enabled_reply());
}

#[test]
fn plugin_enabled_unless_disabled() {
    let disabled = vec!["ping".to_string(), "sms".to_string()];
    assert!(!plugin_enabled(&disabled, &"sms".to_string()));
    assert!(plugin_enabled(&disabled, &"battery".to_string()));
    assert!(plugin_enabled(&vec![], &"sms".to_string()));
}

#[test]
fn cached_sms_prefers_memory() {
    let mem = "[1]".to_string();
    assert_eq!(cached_sms_reply(Some(&mem), Some("[2]".to_string())), "[1]");
    assert_eq!(cached_sms_reply(None, Some("[2]".to_string())), "[2]");
    assert_eq!(cached_sms_reply(None, None), "");
}

#[test]
fn subscription_steps() {
    let ev = VarlinkEvent {
        event_type: "battery".to_string(),
        device_id: "d".to_string(),
        battery: Some((80, true)),
        device: Some(phone()),
        message: Some("m".to_string()),
        ..Default::default()
    };
    match subscribe_step(Received::Event(ev)) {
        SubscribeStep::Reply(r) => {
            assert_eq!(r.event_type, "battery");
            assert_eq!(r.battery, Some(BatteryState { level: 80, is_charging: true }));
            assert_eq!(r.device.unwrap().id, "abc");
            assert_eq!(r.message.as_deref(), Some("m"));
        }
        other => panic!("unexpected {:?}", other),
    }
    assert!(matches!(subscribe_step(Received::Lagged(3)), SubscribeStep::Continue));
    assert!(matches!(subscribe_step(Received::Closed), SubscribeStep::Stop));
}

#[test]
fn bridge_subscription_reply_has_no_message() {
    let ev = varlink_server::VarlinkEvent {
        event_type: "e".to_string(),
        device_id: "d".to_string(),
        device: None,
        battery: None,
        connectivity_strength: Some(3),
        clipboard_content: None,
        commands_json: None,
    };
    let r = varlink_server::subscribe_reply(ev);
    assert!(r.message.is_none());
    assert_eq!(r.connectivity_strength, Some(3));
}
