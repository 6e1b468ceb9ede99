//! The standalone varlink bridge's interface: a smaller variant of the
//! daemon's interface with its own request and event shapes.

use vstd::prelude::*;
use crate::service_varlink::{
    same_device, DbusDevice, Device, DeviceId, PacketBody, PacketType, ProtocolPacket,
};

verus! {

/// A battery report in a subscription reply.
#[derive(Clone, Copy, Debug, PartialEq, Eq, Structural)]
pub struct BatteryState {
    pub level: i32,
    pub is_charging: bool,
}

/// An event the bridge broadcasts to varlink subscribers.
#[derive(Clone, Debug)]
pub struct VarlinkEvent {
    pub event_type: String,
    pub device_id: String,
    pub device: Option<DbusDevice>,
    pub battery: Option<(i32, bool)>,
    pub connectivity_strength: Option<i32>,
    pub clipboard_content: Option<String>,
    pub commands_json: Option<String>,
}

/// Requests the bridge hands to the application.
#[derive(Debug)]
pub enum AppEvent {
    Pair(DeviceId),
    Unpair(DeviceId),
    Ping((DeviceId, String)),
    SendFiles(DeviceId, Vec<String>),
    SendClipboard(DeviceId, String),
    SendPacket(DeviceId, ProtocolPacket),
    SetPluginEnabled(DeviceId, String, bool),
    GetPluginEnabled(DeviceId, String),
    AcceptPair(DeviceId),
    RejectPair(DeviceId),
}

/// The calls that hand a request to the application.
#[derive(Clone, Debug)]
pub enum CommandCall {
    PairDevice { device_id: String },
    UnpairDevice { device_id: String },
    SendPing { device_id: String, message: String },
    SendFiles { device_id: String, files: Vec<String> },
    SendClipboard { device_id: String, content: String },
    RunCommand { device_id: String, key: String },
    SetPluginEnabled { device_id: String, plugin: String, enabled: bool },
    GetPluginEnabled { device_id: String, plugin: String },
    AcceptPairing { device_id: String },
    RejectPairing { device_id: String },
}

/// The request each call hands to the application.
pub open spec fn spec_command_event(call: CommandCall) -> AppEvent {
    match call {
        CommandCall::PairDevice { device_id } => AppEvent::Pair(DeviceId(device_id)),
        CommandCall::UnpairDevice { device_id } => AppEvent::Unpair(DeviceId(device_id)),
        CommandCall::SendPing { device_id, message } => AppEvent::Ping((DeviceId(device_id), message)),
        CommandCall::SendFiles { device_id, files } => AppEvent::SendFiles(DeviceId(device_id), files),
        CommandCall::SendClipboard { device_id, content } => AppEvent::SendClipboard(
            DeviceId(device_id),
            content,
        ),
        CommandCall::RunCommand { device_id, key } => AppEvent::SendPacket(
            DeviceId(device_id),
            ProtocolPacket { packet_type: PacketType::RunCommandRequest, body: PacketBody::Key(key) },
        ),
        CommandCall::SetPluginEnabled { device_id, plugin, enabled } => AppEvent::SetPluginEnabled(
            DeviceId(device_id),
            plugin,
            enabled,
        ),
        CommandCall::GetPluginEnabled { device_id, plugin } => AppEvent::GetPluginEnabled(
            DeviceId(device_id),
            plugin,
        ),
        CommandCall::AcceptPairing { device_id } => AppEvent::AcceptPair(DeviceId(device_id)),
        CommandCall::RejectPairing { device_id } => AppEvent::RejectPair(DeviceId(device_id)),
    }
}

/// The request a call hands to the application before it replies.
pub fn command_event(call: CommandCall) -> (r: AppEvent)
    ensures
        r == spec_command_event(call),
{
    match call {
        CommandCall::PairDevice { device_id } => AppEvent::Pair(DeviceId(device_id)),
        CommandCall::UnpairDevice { device_id } => AppEvent::Unpair(DeviceId(device_id)),
        CommandCall::SendPing { device_id, message } => AppEvent::Ping((DeviceId(device_id), message)),
        CommandCall::SendFiles { device_id, files } => AppEvent::SendFiles(DeviceId(device_id), files),
        CommandCall::SendClipboard { device_id, content } => AppEvent::SendClipboard(
            DeviceId(device_id),
            content,
        ),
        CommandCall::RunCommand { device_id, key } => AppEvent::SendPacket(
            DeviceId(device_id),
            ProtocolPacket { packet_type: PacketType::RunCommandRequest, body: PacketBody::Key(key) },
        ),
        CommandCall::SetPluginEnabled { device_id, plugin, enabled } => AppEvent::SetPluginEnabled(
            DeviceId(device_id),
            plugin,
            enabled,
        ),
        CommandCall::GetPluginEnabled { device_id, plugin } => AppEvent::GetPluginEnabled(
            DeviceId(device_id),
            plugin,
        ),
        CommandCall::AcceptPairing { device_id } => AppEvent::AcceptPair(DeviceId(device_id)),
        CommandCall::RejectPairing { device_id } => AppEvent::RejectPair(DeviceId(device_id)),
    }
}


/// Each bridge call hands on the request of the same name, for the call's
/// own device and with the call's own arguments; and each kind of request
/// comes from one kind of call only.
pub proof fn lemma_command_event_follows_call(call: CommandCall)
    ensures
        match call {
            CommandCall::PairDevice { device_id } => {
                &&& spec_command_event(call) matches AppEvent::Pair(id)
                &&& id.0 == device_id
            },
            CommandCall::UnpairDevice { device_id } => {
                &&& spec_command_event(call) matches AppEvent::Unpair(id)
                &&& id.0 == device_id
            },
            CommandCall::SendPing { device_id, message } => {
                &&& spec_command_event(call) matches AppEvent::Ping(p)
                &&& p.0.0 == device_id
                &&& p.1 == message
            },
            CommandCall::SendFiles { device_id, files } => {
                &&& spec_command_event(call) matches AppEvent::SendFiles(id, f)
                &&& id.0 == device_id
                &&& f == files
            },
            CommandCall::SendClipboard { device_id, content } => {
                &&& spec_command_event(call) matches AppEvent::SendClipboard(id, c)
                &&& id.0 == device_id
                &&& c == content
            },
            CommandCall::RunCommand { device_id, key } => {
                &&& spec_command_event(call) matches AppEvent::SendPacket(id, packet)
                &&& id.0 == device_id
                &&& packet.packet_type == PacketType::RunCommandRequest
                &&& packet.body matches PacketBody::Key(k)
                &&& k == key
            },
            CommandCall::SetPluginEnabled { device_id, plugin, enabled } => {
                &&& spec_command_event(call) matches AppEvent::SetPluginEnabled(id, p, e)
                &&& id.0 == device_id
                &&& p == plugin
                &&& e == enabled
            },
            CommandCall::GetPluginEnabled { device_id, plugin } => {
                &&& spec_command_event(call) matches AppEvent::GetPluginEnabled(id, p)
                &&& id.0 == device_id
                &&& p == plugin
            },
            CommandCall::AcceptPairing { device_id } => {
                &&& spec_command_event(call) matches AppEvent::AcceptPair(id)
                &&& id.0 == device_id
            },
            CommandCall::RejectPairing { device_id } => {
                &&& spec_command_event(call) matches AppEvent::RejectPair(id)
                &&& id.0 == device_id
            },
        },
        spec_command_event(call) is Pair ==> call is PairDevice,
        spec_command_event(call) is Unpair ==> call is UnpairDevice,
        spec_command_event(call) is Ping ==> call is SendPing,
        spec_command_event(call) is SendFiles ==> call is SendFiles,
        spec_command_event(call) is SendClipboard ==> call is SendClipboard,
        spec_command_event(call) is SendPacket ==> call is RunCommand,
        spec_command_event(call) is SetPluginEnabled ==> call is SetPluginEnabled,
        spec_command_event(call) is GetPluginEnabled ==> call is GetPluginEnabled,
        spec_command_event(call) is AcceptPair ==> call is AcceptPairing,
        spec_command_event(call) is RejectPair ==> call is RejectPairing,
{
}

/// The bridge answers `GetPluginEnabled` with `true` after handing the
/// question on: it has no channel to wait for the application's answer.
pub fn plugin_enabled_reply() -> (r: bool)
    ensures
        r,
{
    true
}

/// The varlink description of a device.
pub fn to_varlink_device(d: &DbusDevice) -> (r: Device)
    ensures
        same_device(*d, r),
{
    Device {
        id: d.id.clone(),
        name: d.name.clone(),
        device_type: d.device_type.clone(),
        is_paired: d.is_paired,
        is_reachable: d.is_reachable,
    }
}

/// One reply of a subscription.
#[derive(Clone, Debug)]
pub struct SubscribeReply {
    pub event_type: String,
    pub device_id: String,
    pub device: Option<Device>,
    pub battery: Option<BatteryState>,
    pub connectivity_strength: Option<i32>,
    pub clipboard_content: Option<String>,
    pub commands_json: Option<String>,
    pub message: Option<String>,
}

/// The subscription reply that carries an event; the bridge's events carry
/// no message.
pub fn subscribe_reply(ev: VarlinkEvent) -> (r: SubscribeReply)
    ensures
        r.event_type == ev.event_type,
        r.device_id == ev.device_id,
        r.device is Some <==> ev.device is Some,
        ev.device is Some ==> same_device(ev.device->0, r.device->0),
        r.battery == (match ev.battery {
            Some((level, is_charging)) => Some(BatteryState { level, is_charging }),
            None => None,
        }),
        r.connectivity_strength == ev.connectivity_strength,
        r.clipboard_content == ev.clipboard_content,
        r.commands_json == ev.commands_json,
        r.message is None,
{
    let device = match &ev.device {
        Some(d) => Some(to_varlink_device(d)),
        None => None,
    };
    let battery = match ev.battery {
        Some((level, is_charging)) => Some(BatteryState { level, is_charging }),
        None => None,
    };
    SubscribeReply {
        event_type: ev.event_type,
        device_id: ev.device_id,
        device,
        battery,
        connectivity_strength: ev.connectivity_strength,
        clipboard_content: ev.clipboard_content,
        commands_json: ev.commands_json,
        message: None,
    }
}

} // verus!
