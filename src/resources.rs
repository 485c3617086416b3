//! The tree of driver resources: one loaded module (the interface), the
//! devices opened through it and the channels connected on each device.
//!
//! The host program performs each `DriverCall` on the native driver and hands
//! the reply back. Handles are not `Clone`: a handle is given up when its
//! resource is released, and a channel whose device was released is no longer
//! held, so no call is ever planned for it.
use vstd::prelude::*;
use crate::codes::{protocol_code, ConnectFlags, Protocol};
use crate::error::{Error, ErrorKind, Result};

verus! {

/// A call on the native driver, to be performed by the host program.
#[derive(Clone, Debug, PartialEq, Eq)]
pub enum DriverCall {
    /// Open a device on this port, or on any adapter for `None`.
    Open { port: Option<String> },
    Connect { device: u32, protocol: u32, flags: u32, baudrate: u32 },
    ReadVersion { device: u32 },
    Disconnect { channel: u32 },
    Close { device: u32 },
    /// Unload the module.
    Unload,
}

/// A device opened through the interface, with the identifier the driver gave it.
#[derive(Copy, Clone, Debug, PartialEq, Eq, Structural)]
pub struct DeviceSlot {
    pub id: u32,
    pub live: bool,
}

/// A channel connected on the device in slot `device`.
#[derive(Copy, Clone, Debug, PartialEq, Eq, Structural)]
pub struct ChannelSlot {
    pub id: u32,
    pub device: usize,
    pub live: bool,
}

/// What an interface holds: its module, and every device and channel it has
/// had, in order of acquisition, each marked live until released.
pub struct InterfaceView {
    pub module: u64,
    pub devices: Seq<DeviceSlot>,
    pub channels: Seq<ChannelSlot>,
}

pub open spec fn ended(c: ChannelSlot) -> ChannelSlot {
    ChannelSlot { id: c.id, device: c.device, live: false }
}

/// The disconnects for the live channels of device slot `dev`, in slot order.
pub open spec fn disconnect_plan(chs: Seq<ChannelSlot>, dev: usize) -> Seq<DriverCall>
    decreases chs.len(),
{
    if chs.len() == 0 {
        Seq::empty()
    } else {
        let rest = disconnect_plan(chs.drop_last(), dev);
        let c = chs.last();
        if c.live && c.device == dev {
            rest.push(DriverCall::Disconnect { channel: c.id })
        } else {
            rest
        }
    }
}

/// The disconnects for all live channels, in slot order.
pub open spec fn disconnect_all_plan(chs: Seq<ChannelSlot>) -> Seq<DriverCall>
    decreases chs.len(),
{
    if chs.len() == 0 {
        Seq::empty()
    } else {
        let rest = disconnect_all_plan(chs.drop_last());
        let c = chs.last();
        if c.live {
            rest.push(DriverCall::Disconnect { channel: c.id })
        } else {
            rest
        }
    }
}

/// The closes for all live devices, in slot order.
pub open spec fn close_all_plan(devs: Seq<DeviceSlot>) -> Seq<DriverCall>
    decreases devs.len(),
{
    if devs.len() == 0 {
        Seq::empty()
    } else {
        let rest = close_all_plan(devs.drop_last());
        let d = devs.last();
        if d.live {
            rest.push(DriverCall::Close { device: d.id })
        } else {
            rest
        }
    }
}

impl InterfaceView {
    /// A live channel always sits on a live device.
    pub open spec fn wf(self) -> bool {
        forall|i: int|
            0 <= i < self.channels.len() && (#[trigger] self.channels[i]).live ==> {
                &&& self.channels[i].device < self.devices.len()
                &&& self.devices[self.channels[i].device as int].live
            }
    }

    pub open spec fn holds_device(self, slot: usize, id: u32) -> bool {
        &&& slot < self.devices.len()
        &&& self.devices[slot as int].live
        &&& self.devices[slot as int].id == id
    }

    pub open spec fn holds_channel(self, slot: usize, id: u32) -> bool {
        &&& slot < self.channels.len()
        &&& self.channels[slot as int].live
        &&& self.channels[slot as int].id == id
    }

    /// After the driver opened a device with identifier `id`.
    pub open spec fn after_open(self, id: u32) -> InterfaceView {
        InterfaceView {
            module: self.module,
            devices: self.devices.push(DeviceSlot { id, live: true }),
            channels: self.channels,
        }
    }

    /// After the driver connected channel `id` on the device in slot `dev`.
    pub open spec fn after_connect(self, dev: usize, id: u32) -> InterfaceView {
        InterfaceView {
            module: self.module,
            devices: self.devices,
            channels: self.channels.push(ChannelSlot { id, device: dev, live: true }),
        }
    }

    /// After the channel in slot `slot` was released.
    pub open spec fn after_disconnect(self, slot: usize) -> InterfaceView {
        InterfaceView {
            module: self.module,
            devices: self.devices,
            channels: self.channels.update(slot as int, ended(self.channels[slot as int])),
        }
    }

    /// After the device in slot `slot` was released, with all its channels.
    pub open spec fn after_close(self, slot: usize) -> InterfaceView {
        InterfaceView {
            module: self.module,
            devices: self.devices.update(
                slot as int,
                DeviceSlot { id: self.devices[slot as int].id, live: false },
            ),
            channels: Seq::new(
                self.channels.len(),
                |i: int|
                    if self.channels[i].device == slot {
                        ended(self.channels[i])
                    } else {
                        self.channels[i]
                    },
            ),
        }
    }

    /// The calls that release everything still held: every channel is
    /// disconnected, then every device closed, then the module unloaded.
    pub open spec fn release_plan(self) -> Seq<DriverCall> {
        disconnect_all_plan(self.channels) + close_all_plan(self.devices) + seq![
            DriverCall::Unload,
        ]
    }
}

/// A loaded driver module: the root of the resource tree.
pub struct Interface {
    module: u64,
    devices: Vec<DeviceSlot>,
    channels: Vec<ChannelSlot>,
}

/// A device opened through an `Interface`.
#[derive(Debug)]
pub struct Device {
    slot: usize,
    id: u32,
}

/// A channel connected on a `Device`.
#[derive(Debug)]
pub struct Channel {
    slot: usize,
    id: u32,
}

impl View for Interface {
    type V = InterfaceView;

    closed spec fn view(&self) -> InterfaceView {
        InterfaceView { module: self.module, devices: self.devices@, channels: self.channels@ }
    }
}

impl Device {
    pub closed spec fn slot(&self) -> usize {
        self.slot
    }

    pub closed spec fn spec_id(&self) -> u32 {
        self.id
    }

    /// The identifier the driver assigned.
    pub fn id(&self) -> (r: u32)
        ensures
            r == self.spec_id(),
    {
        self.id
    }

    /// The connect call with the driver's own numeric codes.
    pub fn connect_raw(&self, protocol: u32, flags: u32, baudrate: u32) -> (r: DriverCall)
        ensures
            r == (DriverCall::Connect { device: self.spec_id(), protocol, flags, baudrate }),
    {
        DriverCall::Connect { device: self.id, protocol, flags, baudrate }
    }

    /// The connect call for a protocol and a set of options.
    pub fn connect(&self, protocol: Protocol, flags: ConnectFlags, baudrate: u32) -> (r: DriverCall)
        ensures
            r == (DriverCall::Connect {
                device: self.spec_id(),
                protocol: protocol_code(protocol),
                flags: flags@,
                baudrate,
            }),
    {
        self.connect_raw(protocol.code(), flags.bits(), baudrate)
    }

    /// The call that reads the three version strings of this device.
    pub fn read_version(&self) -> (r: DriverCall)
        ensures
            r == (DriverCall::ReadVersion { device: self.spec_id() }),
    {
        DriverCall::ReadVersion { device: self.id }
    }
}

impl Channel {
    pub closed spec fn slot(&self) -> usize {
        self.slot
    }

    pub closed spec fn spec_id(&self) -> u32 {
        self.id
    }

    /// The identifier the driver assigned.
    pub fn id(&self) -> (r: u32)
        ensures
            r == self.spec_id(),
    {
        self.id
    }
}


impl Interface {
    /// The interface for a module that the loader handed back; `module` is
    /// the loader's handle, zero when it could not load the module.
    pub fn new(module: u64) -> (r: Result<Interface>)
        ensures
            r is Err <==> module == 0,
            r matches Err(e) ==> e.spec_kind() == ErrorKind::NotFound,
            r matches Ok(i) ==> i@.module == module && i@.devices.len() == 0
                && i@.channels.len() == 0 && i@.wf(),
    {
        if module == 0 {
            return Err(Error::not_found());
        }
        Ok(Interface { module, devices: Vec::new(), channels: Vec::new() })
    }

    /// The loader's handle of the module.
    pub fn module(&self) -> (r: u64)
        ensures
            r == self@.module,
    {
        self.module
    }

    /// The call that opens a device on `port`.
    pub fn open(&self, port: &str) -> (r: DriverCall)
        ensures
            r matches DriverCall::Open { port: Some(p) } && p@ == port@,
    {
        DriverCall::Open { port: Some(String::from_str(port)) }
    }

    /// The call that opens a device on any adapter the driver finds.
    pub fn open_any(&self) -> (r: DriverCall)
        ensures
            r == (DriverCall::Open { port: None }),
    {
        DriverCall::Open { port: None }
    }

    /// The driver answered an open call with `status`, and `id` for the device.
    pub fn opened(&mut self, status: i32, id: u32) -> (r: Result<Device>)
        requires
            old(self)@.wf(),
        ensures
            final(self)@.wf(),
            r is Ok <==> status == 0,
            r matches Err(e) ==> e.spec_kind() == ErrorKind::Code(status)
                && final(self)@ == old(self)@,
            r matches Ok(d) ==> d.spec_id() == id && d.slot() == old(self)@.devices.len()
                && final(self)@ == old(self)@.after_open(id)
                && final(self)@.holds_device(d.slot(), id),
    {
        if status != 0 {
            return Err(Error::from_code(status));
        }
        let slot = self.devices.len();
        self.devices.push(DeviceSlot { id, live: true });
        proof {
            assert forall|i: int|
                0 <= i < self@.channels.len() && (#[trigger] self@.channels[i]).live implies {
                &&& self@.channels[i].device < self@.devices.len()
                &&& self@.devices[self@.channels[i].device as int].live
            } by {
                assert(old(self)@.channels[i] == self@.channels[i]);
            }
        }
        Ok(Device { slot, id })
    }

    /// Whether `device` is a live device of this interface.
    pub fn holds_device(&self, device: &Device) -> (r: bool)
        ensures
            r == self@.holds_device(device.slot(), device.spec_id()),
    {
        device.slot < self.devices.len() && self.devices[device.slot].live
            && self.devices[device.slot].id == device.id
    }

    /// Whether `channel` is a live channel of this interface.
    pub fn holds_channel(&self, channel: &Channel) -> (r: bool)
        ensures
            r == self@.holds_channel(channel.slot(), channel.spec_id()),
    {
        channel.slot < self.channels.len() && self.channels[channel.slot].live
            && self.channels[channel.slot].id == channel.id
    }

    /// The driver answered a connect call on `device` with `status`, and `id`
    /// for the channel.
    pub fn connected(&mut self, device: &Device, status: i32, id: u32) -> (r: Result<Channel>)
        requires
            old(self)@.wf(),
            old(self)@.holds_device(device.slot(), device.spec_id()),
        ensures
            final(self)@.wf(),
            r is Ok <==> status == 0,
            r matches Err(e) ==> e.spec_kind() == ErrorKind::Code(status)
                && final(self)@ == old(self)@,
            r matches Ok(c) ==> c.spec_id() == id && c.slot() == old(self)@.channels.len()
                && final(self)@ == old(self)@.after_connect(device.slot(), id)
                && final(self)@.holds_channel(c.slot(), id),
    {
        if status != 0 {
            return Err(Error::from_code(status));
        }
        let slot = self.channels.len();
        self.channels.push(ChannelSlot { id, device: device.slot, live: true });
        proof {
            assert forall|i: int|
                0 <= i < self@.channels.len() && (#[trigger] self@.channels[i]).live implies {
                &&& self@.channels[i].device < self@.devices.len()
                &&& self@.devices[self@.channels[i].device as int].live
            } by {
                if i < old(self)@.channels.len() {
                    assert(old(self)@.channels[i] == self@.channels[i]);
                }
            }
        }
        Ok(Channel { slot, id })
    }

    /// Releases `channel`: its disconnect call, or none where the channel is no
    /// longer held (its device was released before it).
    pub fn release_channel(&mut self, channel: Channel) -> (r: Option<DriverCall>)
        requires
            old(self)@.wf(),
        ensures
            final(self)@.wf(),
            r is Some <==> old(self)@.holds_channel(channel.slot(), channel.spec_id()),
            r is Some ==> r == Some(DriverCall::Disconnect { channel: channel.spec_id() })
                && final(self)@ == old(self)@.after_disconnect(channel.slot()),
            r is None ==> final(self)@ == old(self)@,
    {
        if !self.holds_channel(&channel) {
            return None;
        }
        let c = self.channels[channel.slot];
        self.channels.set(channel.slot, ChannelSlot { id: c.id, device: c.device, live: false });
        proof {
            assert(self@.channels =~= old(self)@.after_disconnect(channel.slot()).channels);
        }
        Some(DriverCall::Disconnect { channel: channel.id })
    }

    /// Releases `device`: the disconnects of its live channels, then its close.
    /// Nothing is planned where the device is not held.
    pub fn release_device(&mut self, device: Device) -> (r: Vec<DriverCall>)
        requires
            old(self)@.wf(),
        ensures
            final(self)@.wf(),
            old(self)@.holds_device(device.slot(), device.spec_id()) ==> {
                &&& final(self)@ == old(self)@.after_close(device.slot())
                &&& r@ == disconnect_plan(old(self)@.channels, device.slot()).push(
                    DriverCall::Close { device: device.spec_id() },
                )
            },
            !old(self)@.holds_device(device.slot(), device.spec_id()) ==> final(self)@
                == old(self)@ && r@.len() == 0,
    {
        let mut calls: Vec<DriverCall> = Vec::new();
        if !self.holds_device(&device) {
            return calls;
        }
        let ghost start = self@;
        let ghost chs = self@.channels;
        let slot = device.slot;
        let mut i: usize = 0;
        while i < self.channels.len()
            invariant
                self@.module == start.module,
                self@.devices == start.devices,
                self@.channels.len() == chs.len(),
                chs == start.channels,
                start == old(self)@,
                slot == device.slot(),
                i <= chs.len(),
                forall|j: int|
                    0 <= j < i ==> #[trigger] self@.channels[j] == (if chs[j].device == slot {
                        ended(chs[j])
                    } else {
                        chs[j]
                    }),
                forall|j: int| i <= j < chs.len() ==> #[trigger] self@.channels[j] == chs[j],
                calls@ == disconnect_plan(chs.subrange(0, i as int), slot),
            decreases chs.len() - i,
        {
            let c = self.channels[i];
            if c.device == slot {
                if c.live {
                    calls.push(DriverCall::Disconnect { channel: c.id });
                }
                self.channels.set(i, ChannelSlot { id: c.id, device: c.device, live: false });
            }
            proof {
                assert(chs.subrange(0, i + 1).drop_last() =~= chs.subrange(0, i as int));
            }
            i += 1;
        }
        let d = self.devices[slot];
        self.devices.set(slot, DeviceSlot { id: d.id, live: false });
        calls.push(DriverCall::Close { device: device.id });
        proof {
            assert(chs.subrange(0, chs.len() as int) =~= chs);
            assert(self@.channels =~= start.after_close(slot).channels);
            assert(self@.devices =~= start.after_close(slot).devices);
        }
        calls
    }

    /// Releases the interface: every live channel is disconnected, then every
    /// live device closed, then the module unloaded.
    pub fn release(self) -> (r: Vec<DriverCall>)
        ensures
            r@ == self@.release_plan(),
    {
        let mut calls: Vec<DriverCall> = Vec::new();
        let mut i: usize = 0;
        while i < self.channels.len()
            invariant
                i <= self.channels@.len(),
                calls@ == disconnect_all_plan(self.channels@.subrange(0, i as int)),
            decreases self.channels@.len() - i,
        {
            let c = self.channels[i];
            if c.live {
                calls.push(DriverCall::Disconnect { channel: c.id });
            }
            proof {
                assert(self.channels@.subrange(0, i + 1).drop_last() =~= self.channels@.subrange(
                    0,
                    i as int,
                ));
            }
            i += 1;
        }
        proof {
            assert(self.channels@.subrange(0, i as int) =~= self.channels@);
        }
        let ghost head = calls@;
        let mut j: usize = 0;
        while j < self.devices.len()
            invariant
                j <= self.devices@.len(),
                head == disconnect_all_plan(self.channels@),
                calls@ == head + close_all_plan(self.devices@.subrange(0, j as int)),
            decreases self.devices@.len() - j,
        {
            let d = self.devices[j];
            if d.live {
                calls.push(DriverCall::Close { device: d.id });
            }
            proof {
                assert(self.devices@.subrange(0, j + 1).drop_last() =~= self.devices@.subrange(
                    0,
                    j as int,
                ));
                assert(calls@ =~= head + close_all_plan(self.devices@.subrange(0, j + 1)));
            }
            j += 1;
        }
        proof {
            assert(self.devices@.subrange(0, j as int) =~= self.devices@);
        }
        calls.push(DriverCall::Unload);
        proof {
            assert(calls@ =~= self@.release_plan());
        }
        calls
    }
}


proof fn lemma_disconnect_plan_only_disconnects(chs: Seq<ChannelSlot>, dev: usize)
    ensures
        forall|k: int|
            0 <= k < disconnect_plan(chs, dev).len() ==> #[trigger] disconnect_plan(chs, dev)[k] is Disconnect,
    decreases chs.len(),
{
    if chs.len() > 0 {
        lemma_disconnect_plan_only_disconnects(chs.drop_last(), dev);
    }
}

proof fn lemma_disconnect_all_only_disconnects(chs: Seq<ChannelSlot>)
    ensures
        forall|k: int|
            0 <= k < disconnect_all_plan(chs).len() ==> #[trigger] disconnect_all_plan(chs)[k] is Disconnect,
    decreases chs.len(),
{
    if chs.len() > 0 {
        lemma_disconnect_all_only_disconnects(chs.drop_last());
    }
}

proof fn lemma_close_all_only_closes(devs: Seq<DeviceSlot>)
    ensures
        forall|k: int| 0 <= k < close_all_plan(devs).len() ==> #[trigger] close_all_plan(devs)[k] is Close,
    decreases devs.len(),
{
    if devs.len() > 0 {
        lemma_close_all_only_closes(devs.drop_last());
    }
}

/// Releasing an interface disconnects every channel before it closes any
/// device, and unloads the module last and only there.
pub proof fn lemma_release_order(v: InterfaceView)
    ensures
        forall|i: int, j: int|
            0 <= i < v.release_plan().len() && 0 <= j < v.release_plan().len()
                && #[trigger] v.release_plan()[i] is Disconnect && #[trigger] v.release_plan()[j] is Close
                ==> i < j,
        v.release_plan().last() == DriverCall::Unload,
        forall|i: int| 0 <= i < v.release_plan().len() - 1 ==> !(#[trigger] v.release_plan()[i] is Unload),
{
    let a = disconnect_all_plan(v.channels);
    let b = close_all_plan(v.devices);
    lemma_disconnect_all_only_disconnects(v.channels);
    lemma_close_all_only_closes(v.devices);
    let p = v.release_plan();
    assert forall|i: int| 0 <= i < p.len() implies {
        &&& (#[trigger] p[i] is Disconnect <==> i < a.len())
        &&& (p[i] is Close <==> a.len() <= i < a.len() + b.len())
        &&& (p[i] is Unload <==> i == a.len() + b.len())
    } by {
        if i < a.len() {
            assert(p[i] == a[i]);
        } else if i < a.len() + b.len() {
            assert(p[i] == b[i - a.len()]);
        }
    }
}

/// Releasing a device disconnects its live channels, then closes it.
pub proof fn lemma_device_release_order(chs: Seq<ChannelSlot>, dev: usize, id: u32)
    ensures
        ({
            let p = disconnect_plan(chs, dev).push(DriverCall::Close { device: id });
            &&& p.last() == (DriverCall::Close { device: id })
            &&& forall|i: int| 0 <= i < p.len() - 1 ==> #[trigger] p[i] is Disconnect
        }),
{
    lemma_disconnect_plan_only_disconnects(chs, dev);
    let p = disconnect_plan(chs, dev).push(DriverCall::Close { device: id });
    assert forall|i: int| 0 <= i < p.len() - 1 implies #[trigger] p[i] is Disconnect by {
        assert(p[i] == disconnect_plan(chs, dev)[i]);
    }
}

/// Once a device is released, none of its channels is held, and the tree
/// stays well formed.
pub proof fn lemma_channel_dies_with_device(v: InterfaceView, dev: usize, ch: usize, id: u32)
    requires
        v.wf(),
        dev < v.devices.len(),
        ch < v.channels.len(),
        v.channels[ch as int].device == dev,
    ensures
        !v.after_close(dev).holds_channel(ch, id),
        v.after_close(dev).wf(),
{
    let w = v.after_close(dev);
    assert forall|i: int| 0 <= i < w.channels.len() && (#[trigger] w.channels[i]).live implies {
        &&& w.channels[i].device < w.devices.len()
        &&& w.devices[w.channels[i].device as int].live
    } by {
        assert(w.channels[i] == v.channels[i]);
    }
}

/// A channel that is no longer held stays so, whatever is acquired or
/// released afterwards.
pub proof fn lemma_released_channel_stays_released(v: InterfaceView, ch: usize)
    requires
        ch < v.channels.len(),
        !v.channels[ch as int].live,
    ensures
        forall|id: u32| !(#[trigger] v.after_open(id)).channels[ch as int].live,
        forall|d: usize, id: u32| !(#[trigger] v.after_connect(d, id)).channels[ch as int].live,
        forall|s: usize| s < v.channels.len() ==> !(#[trigger] v.after_disconnect(s)).channels[ch as int].live,
        forall|s: usize| !(#[trigger] v.after_close(s)).channels[ch as int].live,
{
}

/// Connecting, releasing that channel and connecting again on the same device
/// gives two independent channels: the first is no longer held, the second
/// is, and the devices are untouched.
pub proof fn lemma_reconnect(v: InterfaceView, dev: usize, dev_id: u32, id1: u32, id2: u32)
    requires
        v.wf(),
        v.holds_device(dev, dev_id),
        v.channels.len() + 2 <= usize::MAX,
    ensures
        ({
            let c1 = v.channels.len() as usize;
            let v1 = v.after_connect(dev, id1);
            let v2 = v1.after_disconnect(c1);
            let c2 = v2.channels.len() as usize;
            let v3 = v2.after_connect(dev, id2);
            &&& v1.holds_channel(c1, id1)
            &&& !v2.holds_channel(c1, id1)
            &&& c1 != c2
            &&& v3.holds_channel(c2, id2)
            &&& !v3.holds_channel(c1, id1)
            &&& v3.devices == v.devices
            &&& v3.holds_device(dev, dev_id)
            &&& v3.wf()
        }),
{
    let c1 = v.channels.len() as usize;
    let v1 = v.after_connect(dev, id1);
    let v2 = v1.after_disconnect(c1);
    let v3 = v2.after_connect(dev, id2);
    assert forall|i: int| 0 <= i < v3.channels.len() && (#[trigger] v3.channels[i]).live implies {
        &&& v3.channels[i].device < v3.devices.len()
        &&& v3.devices[v3.channels[i].device as int].live
    } by {
        if i < v.channels.len() {
            assert(v3.channels[i] == v.channels[i]);
        }
    }
}

} // verus!
