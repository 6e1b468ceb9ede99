//! The daemon's varlink interface (the one the applet and the settings page
//! talk to over a Unix socket): what each call asks the daemon to do and
//! what it answers.

use vstd::prelude::*;

verus! {

/// A device as the D-Bus side of the daemon tracks it.
#[derive(Clone, Debug)]
pub struct DbusDevice {
    pub id: String,
    pub name: String,
    pub device_type: String,
    pub is_paired: bool,
    pub is_reachable: bool,
}

/// A device as the varlink interface describes it.
#[derive(Clone, Debug)]
pub struct Device {
    pub id: String,
    pub name: String,
    pub device_type: String,
    pub is_paired: bool,
    pub is_reachable: bool,
}

/// A battery report in a subscription reply.
#[derive(Clone, Copy, Debug, PartialEq, Eq, Structural)]
pub struct BatteryState {
    pub level: i64,
    pub is_charging: bool,
}

/// An event the daemon broadcasts to varlink subscribers.
#[derive(Clone, Debug, Default)]
pub struct VarlinkEvent {
    pub event_type: String,
    pub device_id: String,
    pub device: Option<DbusDevice>,
    pub battery: Option<(i64, bool)>,
    pub connectivity_strength: Option<i64>,
    pub clipboard_content: Option<String>,
    pub commands_json: Option<String>,
    pub message: Option<String>,
}

/// A device identifier.
#[derive(Clone, Debug)]
pub struct DeviceId(pub String);

/// Packet types the interface sends on a caller's behalf.
#[derive(Clone, Copy, Debug, PartialEq, Eq, Structural)]
pub enum PacketType {
    Clipboard,
    RunCommandRequest,
    FindMyPhoneRequest,
    SmsRequestConversations,
    SmsRequestConversation,
    SmsRequest,
    ContactsRequestAllUidsTimestamps,
}

/// The JSON body of such a packet.
#[derive(Clone, Debug)]
pub enum PacketBody {
    /// `{}`
    Empty,
    /// `{ "content": .. }`
    Content(String),
    /// `{ "key": .. }`
    Key(String),
    /// `{ "requestCommandList": true }`
    RequestCommandList,
    /// `{ "threadID": .. }`
    ThreadId(i64),
    /// `{ "sendSms": true, "addresses": [{ "address": .. }], "messageBody": .., "version": 2 }`
    SendSms { phone_number: String, message: String },
}

/// A packet for a device.
#[derive(Clone, Debug)]
pub struct ProtocolPacket {
    pub packet_type: PacketType,
    pub body: PacketBody,
}

/// Requests the interface hands to the daemon's core.
#[derive(Debug)]
pub enum AppEvent {
    Pair(DeviceId),
    Unpair(DeviceId),
    Ping((DeviceId, String)),
    SendFiles((DeviceId, Vec<String>)),
    SendPacket(DeviceId, ProtocolPacket),
    Broadcasting,
    SetPluginEnabled { device_id: DeviceId, plugin_id: String, enabled: bool },
    AcceptPairing(DeviceId),
    RejectPairing(DeviceId),
}

/// The calls of the interface that only hand a request to the core and
/// answer with an empty reply.
#[derive(Clone, Debug)]
pub enum CommandCall {
    PairDevice { device_id: String },
    UnpairDevice { device_id: String },
    SendPing { device_id: String, message: String },
    SendFiles { device_id: String, files: Vec<String> },
    SendClipboard { device_id: String, content: String },
    RunCommand { device_id: String, key: String },
    RingDevice { device_id: String },
    BroadcastIdentity,
    RequestRunCommands { device_id: String },
    SetPluginEnabled { device_id: String, plugin: String, enabled: bool },
    AcceptPairing { device_id: String },
    RejectPairing { device_id: String },
    RequestConversations { device_id: String },
    RequestConversation { device_id: String, thread_id: i64 },
    SendSms { device_id: String, phone_number: String, message: String },
    RequestContacts { device_id: String },
}

pub open spec fn packet_to(device_id: String, packet_type: PacketType, body: PacketBody) -> AppEvent {
    AppEvent::SendPacket(DeviceId(device_id), ProtocolPacket { packet_type, body })
}

/// The request each call hands to the core.
pub open spec fn spec_command_event(call: CommandCall) -> AppEvent {
    match call {
        CommandCall::PairDevice { device_id } => AppEvent::Pair(DeviceId(device_id)),
        CommandCall::UnpairDevice { device_id } => AppEvent::Unpair(DeviceId(device_id)),
        CommandCall::SendPing { device_id, message } => AppEvent::Ping((DeviceId(device_id), message)),
        CommandCall::SendFiles { device_id, files } => AppEvent::SendFiles((DeviceId(device_id), files)),
        CommandCall::SendClipboard { device_id, content } => packet_to(
            device_id,
            PacketType::Clipboard,
            PacketBody::Content(content),
        ),
        CommandCall::RunCommand { device_id, key } => packet_to(
            device_id,
            PacketType::RunCommandRequest,
            PacketBody::Key(key),
        ),
        CommandCall::RingDevice { device_id } => packet_to(
            device_id,
            PacketType::FindMyPhoneRequest,
            PacketBody::Empty,
        ),
        CommandCall::BroadcastIdentity => AppEvent::Broadcasting,
        CommandCall::RequestRunCommands { device_id } => packet_to(
            device_id,
            PacketType::RunCommandRequest,
            PacketBody::RequestCommandList,
        ),
        CommandCall::SetPluginEnabled { device_id, plugin, enabled } => AppEvent::SetPluginEnabled {
            device_id: DeviceId(device_id),
            plugin_id: plugin,
            enabled,
        },
        CommandCall::AcceptPairing { device_id } => AppEvent::AcceptPairing(DeviceId(device_id)),
        CommandCall::RejectPairing { device_id } => AppEvent::RejectPairing(DeviceId(device_id)),
        CommandCall::RequestConversations { device_id } => packet_to(
            device_id,
            PacketType::SmsRequestConversations,
            PacketBody::Empty,
        ),
        CommandCall::RequestConversation { device_id, thread_id } => packet_to(
            device_id,
            PacketType::SmsRequestConversation,
            PacketBody::ThreadId(thread_id),
        ),
        CommandCall::SendSms { device_id, phone_number, message } => packet_to(
            device_id,
            PacketType::SmsRequest,
            PacketBody::SendSms { phone_number, message },
        ),
        CommandCall::RequestContacts { device_id } => packet_to(
            device_id,
            PacketType::ContactsRequestAllUidsTimestamps,
            PacketBody::Empty,
        ),
    }
}

fn send_packet(device_id: String, packet_type: PacketType, body: PacketBody) -> (r: AppEvent)
    ensures
        r == packet_to(device_id, packet_type, body),
{
    AppEvent::SendPacket(DeviceId(device_id), ProtocolPacket { packet_type, body })
}

/// The request a call hands to the core before it replies.
pub fn command_event(call: CommandCall) -> (r: AppEvent)
    ensures
        r == spec_command_event(call),
{
    match call {
        CommandCall::PairDevice { device_id } => AppEvent::Pair(DeviceId(device_id)),
        CommandCall::UnpairDevice { device_id } => AppEvent::Unpair(DeviceId(device_id)),
        CommandCall::SendPing { device_id, message } => AppEvent::Ping((DeviceId(device_id), message)),
        CommandCall::SendFiles { device_id, files } => AppEvent::SendFiles((DeviceId(device_id), files)),
        CommandCall::SendClipboard { device_id, content } => send_packet(
            device_id,
            PacketType::Clipboard,
            PacketBody::Content(content),
        ),
        CommandCall::RunCommand { device_id, key } => send_packet(
            device_id,
            PacketType::RunCommandRequest,
            PacketBody::Key(key),
        ),
        CommandCall::RingDevice { device_id } => send_packet(
            device_id,
            PacketType::FindMyPhoneRequest,
            PacketBody::Empty,
        ),
        CommandCall::BroadcastIdentity => AppEvent::Broadcasting,
        CommandCall::RequestRunCommands { device_id } => send_packet(
            device_id,
            PacketType::RunCommandRequest,
            PacketBody::RequestCommandList,
        ),
        CommandCall::SetPluginEnabled { device_id, plugin, enabled } => AppEvent::SetPluginEnabled {
            device_id: DeviceId(device_id),
            plugin_id: plugin,
            enabled,
        },
        CommandCall::AcceptPairing { device_id } => AppEvent::AcceptPairing(DeviceId(device_id)),
        CommandCall::RejectPairing { device_id } => AppEvent::RejectPairing(DeviceId(device_id)),
        CommandCall::RequestConversations { device_id } => send_packet(
            device_id,
            PacketType::SmsRequestConversations,
            PacketBody::Empty,
        ),
        CommandCall::RequestConversation { device_id, thread_id } => send_packet(
            device_id,
            PacketType::SmsRequestConversation,
            PacketBody::ThreadId(thread_id),
        ),
        CommandCall::SendSms { device_id, phone_number, message } => send_packet(
            device_id,
            PacketType::SmsRequest,
            PacketBody::SendSms { phone_number, message },
        ),
        CommandCall::RequestContacts { device_id } => send_packet(
            device_id,
            PacketType::ContactsRequestAllUidsTimestamps,
            PacketBody::Empty,
        ),
    }
}


/// Each call hands on the request of the same name, for the call's own
/// device and with the call's own arguments; and each kind of request comes
/// from one kind of call only.
pub proof fn lemma_command_event_follows_call(call: CommandCall)
    ensures
        match call {
            CommandCall::PairDevice { device_id } => {
                &&& spec_command_event(call) matches AppEvent::Pair(id)
                &&& id.0 == device_id
            },
            CommandCall::UnpairDevice { device_id } => {
                &&& spec_command_event(call) matches AppEvent::Unpair(id)
                &&& id.0 == device_id
            },
            CommandCall::SendPing { device_id, message } => {
                &&& spec_command_event(call) matches AppEvent::Ping(p)
                &&& p.0.0 == device_id
                &&& p.1 == message
            },
            CommandCall::SendFiles { device_id, files } => {
                &&& spec_command_event(call) matches AppEvent::SendFiles(p)
                &&& p.0.0 == device_id
                &&& p.1 == files
            },
            CommandCall::SendClipboard { device_id, content } => {
                &&& spec_command_event(call) matches AppEvent::SendPacket(id, packet)
                &&& id.0 == device_id
                &&& packet.packet_type == PacketType::Clipboard
                &&& packet.body matches PacketBody::Content(c)
                &&& c == content
            },
            CommandCall::RunCommand { device_id, key } => {
                &&& spec_command_event(call) matches AppEvent::SendPacket(id, packet)
                &&& id.0 == device_id
                &&& packet.packet_type == PacketType::RunCommandRequest
                &&& packet.body matches PacketBody::Key(k)
                &&& k == key
            },
            CommandCall::RingDevice { device_id } => {
                &&& spec_command_event(call) matches AppEvent::SendPacket(id, packet)
                &&& id.0 == device_id
                &&& packet.packet_type == PacketType::FindMyPhoneRequest
                &&& packet.body is Empty
            },
            CommandCall::BroadcastIdentity => spec_command_event(call) is Broadcasting,
            CommandCall::RequestRunCommands { device_id } => {
                &&& spec_command_event(call) matches AppEvent::SendPacket(id, packet)
                &&& id.0 == device_id
                &&& packet.packet_type == PacketType::RunCommandRequest
                &&& packet.body is RequestCommandList
            },
            CommandCall::SetPluginEnabled { device_id, plugin, enabled } => {
                &&& spec_command_event(call) matches AppEvent::SetPluginEnabled {
                    device_id: id,
                    plugin_id,
                    enabled: e,
                }
                &&& id.0 == device_id
                &&& plugin_id == plugin
                &&& e == enabled
            },
            CommandCall::AcceptPairing { device_id } => {
                &&& spec_command_event(call) matches AppEvent::AcceptPairing(id)
                &&& id.0 == device_id
            },
            CommandCall::RejectPairing { device_id } => {
                &&& spec_command_event(call) matches AppEvent::RejectPairing(id)
                &&& id.0 == device_id
            },
            CommandCall::RequestConversations { device_id } => {
                &&& spec_command_event(call) matches AppEvent::SendPacket(id, packet)
                &&& id.0 == device_id
                &&& packet.packet_type == PacketType::SmsRequestConversations
                &&& packet.body is Empty
            },
            CommandCall::RequestConversation { device_id, thread_id } => {
                &&& spec_command_event(call) matches AppEvent::SendPacket(id, packet)
                &&& id.0 == device_id
                &&& packet.packet_type == PacketType::SmsRequestConversation
                &&& packet.body matches PacketBody::ThreadId(t)
                &&& t == thread_id
            },
            CommandCall::SendSms { device_id, phone_number, message } => {
                &&& spec_command_event(call) matches AppEvent::SendPacket(id, packet)
                &&& id.0 == device_id
                &&& packet.packet_type == PacketType::SmsRequest
                &&& packet.body matches PacketBody::SendSms { phone_number: p, message: m }
                &&& p == phone_number
                &&& m == message
            },
            CommandCall::RequestContacts { device_id } => {
                &&& spec_command_event(call) matches AppEvent::SendPacket(id, packet)
                &&& id.0 == device_id
                &&& packet.packet_type == PacketType::ContactsRequestAllUidsTimestamps
                &&& packet.body is Empty
            },
        },
        spec_command_event(call) is Pair ==> call is PairDevice,
        spec_command_event(call) is Unpair ==> call is UnpairDevice,
        spec_command_event(call) is Ping ==> call is SendPing,
        spec_command_event(call) is SendFiles ==> call is SendFiles,
        spec_command_event(call) is Broadcasting ==> call is BroadcastIdentity,
        spec_command_event(call) is SetPluginEnabled ==> call is SetPluginEnabled,
        spec_command_event(call) is AcceptPairing ==> call is AcceptPairing,
        spec_command_event(call) is RejectPairing ==> call is RejectPairing,
{
}

pub open spec fn same_device(d: DbusDevice, v: Device) -> bool {
    &&& v.id@ == d.id@
    &&& v.name@ == d.name@
    &&& v.device_type@ == d.device_type@
    &&& v.is_paired == d.is_paired
    &&& v.is_reachable == d.is_reachable
}

/// The varlink description of a device.
pub fn to_varlink_device(d: &DbusDevice) -> (r: Device)
    ensures
        same_device(*d, r),
{
    Device {
        id: d.id.clone(),
        name: d.name.clone(),
        device_type: d.device_type.clone(),
        is_paired: d.is_paired,
        is_reachable: d.is_reachable,
    }
}

/// The reply to `ListDevices`: every known device, in the order given.
pub fn list_devices(devices: &Vec<DbusDevice>) -> (r: Vec<Device>)
    ensures
        r@.len() == devices@.len(),
        forall|i: int| 0 <= i < r@.len() ==> same_device(devices@[i], #[trigger] r@[i]),
{
    let mut out: Vec<Device> = Vec::new();
    let n = devices.len();
    let mut i: usize = 0;
    while i < n
        invariant
            n == devices@.len(),
            i <= n,
            out@.len() == i,
            forall|j: int| 0 <= j < i ==> same_device(devices@[j], #[trigger] out@[j]),
        decreases n - i,
    {
        out.push(to_varlink_device(&devices[i]));
        i = i + 1;
    }
    out
}

/// The reply to `GetPluginEnabled`: a plugin is enabled unless the device's
/// configuration lists it as disabled.
pub fn plugin_enabled(disabled: &Vec<String>, plugin: &String) -> (r: bool)
    ensures
        r == !(exists|i: int| 0 <= i < disabled@.len() && (#[trigger] disabled@[i])@ == plugin@),
{
    let n = disabled.len();
    let mut i: usize = 0;
    while i < n
        invariant
            n == disabled@.len(),
            i <= n,
            forall|j: int| 0 <= j < i ==> (#[trigger] disabled@[j])@ != plugin@,
        decreases n - i,
    {
        if disabled[i] == *plugin {
            return false;
        }
        i = i + 1;
    }
    true
}

/// The reply to `GetCachedSms`: the in-memory cache when there is one,
/// else what was loaded from disk, else an empty string.
pub fn cached_sms_reply(cache: Option<&String>, loaded: Option<String>) -> (r: String)
    ensures
        r@ == (match cache {
            Some(c) => c@,
            None => match loaded {
                Some(l) => l@,
                None => Seq::<char>::empty(),
            },
        }),
{
    match cache {
        Some(c) => c.clone(),
        None => match loaded {
            Some(l) => l,
            None => String::new(),
        },
    }
}

/// `r` is the subscription reply for `ev`: every field carried over, the
/// device described for varlink, the battery pair as a battery state.
pub open spec fn reply_carries(ev: VarlinkEvent, r: SubscribeReply) -> bool {
    &&& r.event_type == ev.event_type
    &&& r.device_id == ev.device_id
    &&& (r.device is Some <==> ev.device is Some)
    &&& (ev.device is Some ==> same_device(ev.device->0, r.device->0))
    &&& r.battery == (match ev.battery {
        Some((level, is_charging)) => Some(BatteryState { level, is_charging }),
        None => None,
    })
    &&& r.connectivity_strength == ev.connectivity_strength
    &&& r.clipboard_content == ev.clipboard_content
    &&& r.commands_json == ev.commands_json
    &&& r.message == ev.message
}

/// One reply of a subscription.
#[derive(Clone, Debug)]
pub struct SubscribeReply {
    pub event_type: String,
    pub device_id: String,
    pub device: Option<Device>,
    pub battery: Option<BatteryState>,
    pub connectivity_strength: Option<i64>,
    pub clipboard_content: Option<String>,
    pub commands_json: Option<String>,
    pub message: Option<String>,
}

/// The subscription reply that carries an event.
pub fn subscribe_reply(ev: VarlinkEvent) -> (r: SubscribeReply)
    ensures
        reply_carries(ev, r),
{
    let device = match &ev.device {
        Some(d) => Some(to_varlink_device(d)),
        None => None,
    };
    let battery = match ev.battery {
        Some((level, is_charging)) => Some(BatteryState { level, is_charging }),
        None => None,
    };
    SubscribeReply {
        event_type: ev.event_type,
        device_id: ev.device_id,
        device,
        battery,
        connectivity_strength: ev.connectivity_strength,
        clipboard_content: ev.clipboard_content,
        commands_json: ev.commands_json,
        message: ev.message,
    }
}

/// What a subscriber's broadcast receiver handed over.
#[derive(Clone, Debug)]
pub enum Received {
    Event(VarlinkEvent),
    /// The sender is gone.
    Closed,
    /// The receiver fell behind and this many events were dropped.
    Lagged(u64),
}

/// What a subscription does with it.
#[derive(Clone, Debug)]
pub enum SubscribeStep {
    Reply(SubscribeReply),
    /// Skip to the next event.
    Continue,
    /// End the subscription.
    Stop,
}

/// A subscription replies with every event, keeps going past dropped
/// events, and ends when the sender is gone.
pub fn subscribe_step(received: Received) -> (r: SubscribeStep)
    ensures
        received is Event <==> r is Reply,
        received is Lagged <==> r is Continue,
        received is Closed <==> r is Stop,
        received matches Received::Event(ev) ==> reply_carries(ev, r->Reply_0),
{
    match received {
        Received::Event(ev) => SubscribeStep::Reply(subscribe_reply(ev)),
        Received::Closed => SubscribeStep::Stop,
        Received::Lagged(_) => SubscribeStep::Continue,
    }
}

} // verus!
