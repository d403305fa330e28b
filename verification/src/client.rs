//! The session logic of a PSVR connected via USB: which interfaces make a
//! headset, which bytes each request puts on the wire, and what a sensor
//! read amounts to. The transport itself stays with the caller.

use crate::command::{Command, EnableVrTracking, SetPower, SetVrMode};
use crate::error::Error;
use crate::inertia::Instant;
use crate::protocol;
use crate::protocol::{frame_of, outbound_header, CommandHeader, COMMAND_MAGIC};
use crate::sensor::{Readable, Readout, FRAME_SIZE};
use crate::text::{append_unsigned, decimal_digits};
use crate::usb::{unknown_interface_message, Interface, PSVR_PID, PSVR_VID};
use vstd::prelude::*;
use vstd::slice::slice_to_vec;
use vstd::string::StringExecFns;

verus! {

/// What the HID transport reports of one interface of a device.
#[derive(Debug)]
pub struct DeviceInfo {
    pub vendor_id: u16,
    pub product_id: u16,
    pub interface_number: i32,
    /// The opaque path by which the transport opens the interface.
    pub path: Vec<u8>,
}

/// The mathematical content of a `DeviceInfo`.
pub struct DeviceInfoView {
    pub vendor_id: u16,
    pub product_id: u16,
    pub interface_number: i32,
    pub path: Seq<u8>,
}

/// Information about an individual PSVR USB interface.
///
/// Note that the HID transport models interfaces as individual devices.
#[derive(Debug)]
pub struct InterfaceInfo {
    pub interface: Interface,
    pub device_info: DeviceInfo,
}

/// The mathematical content of an `InterfaceInfo`.
pub struct InterfaceInfoView {
    pub interface: Interface,
    pub device_info: DeviceInfoView,
}

/// The interfaces of one physical headset.
#[derive(Debug)]
pub struct PsvrInfo {
    pub interfaces: Vec<InterfaceInfo>,
}

/// The two paths that a session opens.
#[derive(Debug)]
pub struct Endpoints {
    /// The path of the HID control interface.
    pub control_path: Vec<u8>,
    /// The path of the HID sensor interface.
    pub sensor_path: Vec<u8>,
}

/// The mathematical content of `Endpoints`.
pub struct EndpointsView {
    pub control_path: Seq<u8>,
    pub sensor_path: Seq<u8>,
}

impl View for DeviceInfo {
    type V = DeviceInfoView;

    open spec fn view(&self) -> DeviceInfoView {
        DeviceInfoView {
            vendor_id: self.vendor_id,
            product_id: self.product_id,
            interface_number: self.interface_number,
            path: self.path@,
        }
    }
}

impl View for InterfaceInfo {
    type V = InterfaceInfoView;

    open spec fn view(&self) -> InterfaceInfoView {
        InterfaceInfoView { interface: self.interface, device_info: self.device_info@ }
    }
}

impl View for PsvrInfo {
    type V = Seq<InterfaceInfoView>;

    open spec fn view(&self) -> Seq<InterfaceInfoView> {
        Seq::new(self.interfaces@.len(), |i: int| self.interfaces@[i]@)
    }
}

impl View for Endpoints {
    type V = EndpointsView;

    open spec fn view(&self) -> EndpointsView {
        EndpointsView { control_path: self.control_path@, sensor_path: self.sensor_path@ }
    }
}

/// Whether an entry of the transport's list belongs to a PSVR.
pub open spec fn is_psvr(device: DeviceInfoView) -> bool {
    device.vendor_id == PSVR_VID && device.product_id == PSVR_PID
}

/// The entries of the transport's list that belong to a PSVR, in order.
pub open spec fn psvr_entries(devices: Seq<DeviceInfoView>) -> Seq<DeviceInfoView> {
    devices.filter(|device: DeviceInfoView| is_psvr(device))
}

/// Whether the interface number of an entry names a role.
pub open spec fn has_role(device: DeviceInfoView) -> bool {
    Interface::of_number(device.interface_number as int) is Some
}

/// An entry together with the role of its interface number.
pub open spec fn with_role(device: DeviceInfoView) -> InterfaceInfoView {
    InterfaceInfoView {
        interface: Interface::of_number(device.interface_number as int)->Some_0,
        device_info: device,
    }
}

/// The views of a list of entries.
pub open spec fn device_views(devices: Seq<DeviceInfo>) -> Seq<DeviceInfoView> {
    Seq::new(devices.len(), |i: int| devices[i]@)
}

/// The views of a list of headsets.
pub open spec fn headset_views(headsets: Seq<PsvrInfo>) -> Seq<Seq<InterfaceInfoView>> {
    Seq::new(headsets.len(), |i: int| headsets[i]@)
}

/// The headsets that a list of PSVR entries makes up, where every entry has
/// a role: none for no entry, else one that holds them all.
pub open spec fn grouped(entries: Seq<DeviceInfoView>) -> Seq<Seq<InterfaceInfoView>> {
    if entries.len() == 0 {
        Seq::empty()
    } else {
        seq![Seq::new(entries.len(), |i: int| with_role(entries[i]))]
    }
}

/// The first entry of a headset that has the given role.
pub open spec fn find_interface(
    interfaces: Seq<InterfaceInfoView>,
    interface: Interface,
) -> Option<DeviceInfoView>
    decreases interfaces.len(),
{
    if interfaces.len() == 0 {
        None
    } else if interfaces[0].interface == interface {
        Some(interfaces[0].device_info)
    } else {
        find_interface(interfaces.drop_first(), interface)
    }
}

/// The message of the error for a headset without a control interface.
pub open spec fn no_control_message() -> Seq<char> {
    "PSVR does not expose an HID control interface"@
}

/// The message of the error for a headset without a sensor interface.
pub open spec fn no_sensor_message() -> Seq<char> {
    "PSVR does not expose an HID sensor interface"@
}

/// The endpoints of a headset, or the message of the error that says which
/// one is missing. A missing control interface is reported first.
pub open spec fn endpoints_of(interfaces: Seq<InterfaceInfoView>) -> Result<
    EndpointsView,
    Seq<char>,
> {
    match find_interface(interfaces, Interface::HidControl) {
        None => Err(no_control_message()),
        Some(control) => match find_interface(interfaces, Interface::HidSensor) {
            None => Err(no_sensor_message()),
            Some(sensor) => Ok(
                EndpointsView { control_path: control.path, sensor_path: sensor.path },
            ),
        },
    }
}

/// Whether a result of connecting is the one that the model gives.
pub open spec fn connects_as(
    result: Result<Endpoints, Error>,
    model: Result<EndpointsView, Seq<char>>,
) -> bool {
    match model {
        Ok(endpoints) => result is Ok && result->Ok_0@ == endpoints,
        Err(message) => result is Err && result->Err_0.message_text() == message,
    }
}

impl DeviceInfo {
    /// Whether the entry belongs to a PSVR.
    pub fn is_psvr(&self) -> (b: bool)
        ensures
            b == is_psvr(self@),
    {
        self.vendor_id == PSVR_VID && self.product_id == PSVR_PID
    }

    /// A copy of the entry.
    pub fn duplicate(&self) -> (copy: DeviceInfo)
        ensures
            copy@ == self@,
    {
        DeviceInfo {
            vendor_id: self.vendor_id,
            product_id: self.product_id,
            interface_number: self.interface_number,
            path: slice_to_vec(self.path.as_slice()),
        }
    }
}

impl PsvrInfo {
    /// Gets the entry of the transport's list for a usb interface: the first
    /// that has this role.
    pub fn interface_device_info(&self, interface: Interface) -> (found: Option<&DeviceInfo>)
        ensures
            match found {
                Some(device_info) => find_interface(self@, interface) == Some(device_info@),
                None => find_interface(self@, interface) is None,
            },
    {
        let mut i: usize = 0;
        assert(self@.subrange(0, self@.len() as int) =~= self@);
        while i < self.interfaces.len()
            invariant
                i <= self.interfaces@.len(),
                find_interface(self@, interface) == find_interface(
                    self@.subrange(i as int, self@.len() as int),
                    interface,
                ),
            decreases self.interfaces@.len() - i,
        {
            let ghost rest = self@.subrange(i as int, self@.len() as int);
            if self.interfaces[i].interface == interface {
                return Some(&self.interfaces[i].device_info);
            }
            assert(rest.drop_first() =~= self@.subrange(i + 1, self@.len() as int));
            i = i + 1;
        }
        None
    }

    /// Picks the two interfaces that a session opens. Fails where the
    /// headset lacks one of them.
    pub fn endpoints(&self) -> (result: Result<Endpoints, Error>)
        ensures
            connects_as(result, endpoints_of(self@)),
    {
        let control = match self.interface_device_info(Interface::HidControl) {
            Some(device_info) => device_info,
            None => {
                return Err(
                    Error::communication_error("PSVR does not expose an HID control interface"),
                );
            },
        };
        let sensor = match self.interface_device_info(Interface::HidSensor) {
            Some(device_info) => device_info,
            None => {
                return Err(
                    Error::communication_error("PSVR does not expose an HID sensor interface"),
                );
            },
        };
        Ok(
            Endpoints {
                control_path: slice_to_vec(control.path.as_slice()),
                sensor_path: slice_to_vec(sensor.path.as_slice()),
            },
        )
    }
}

/// The first entry of a list whose interface number names no role.
pub open spec fn first_without_role(entries: Seq<DeviceInfoView>) -> Option<DeviceInfoView>
    decreases entries.len(),
{
    if entries.len() == 0 {
        None
    } else if !has_role(entries[0]) {
        Some(entries[0])
    } else {
        first_without_role(entries.drop_first())
    }
}

/// What discovery makes of the transport's list: the PSVR entries are
/// picked out and classified in order. The first one with an unknown
/// interface number fails the whole discovery; else they are grouped into
/// headsets.
pub open spec fn discovery(devices: Seq<DeviceInfoView>) -> Result<
    Seq<Seq<InterfaceInfoView>>,
    Seq<char>,
> {
    let entries = psvr_entries(devices);
    match first_without_role(entries) {
        Some(device) => Err(unknown_interface_message(device.interface_number as int)),
        None => Ok(grouped(entries)),
    }
}

/// One more entry of the transport's list adds itself to the PSVR entries
/// where it belongs to a PSVR, and nothing otherwise.
proof fn lemma_psvr_entries_step(devices: Seq<DeviceInfoView>, i: int)
    requires
        0 <= i < devices.len(),
    ensures
        psvr_entries(devices.subrange(0, i + 1)) == if is_psvr(devices[i]) {
            psvr_entries(devices.subrange(0, i)).push(devices[i])
        } else {
            psvr_entries(devices.subrange(0, i))
        },
{
    reveal(Seq::filter);
    assert(devices.subrange(0, i + 1).drop_last() =~= devices.subrange(0, i));
}

/// The views of a list of borrowed entries.
spec fn borrowed_views(devices: Seq<&DeviceInfo>) -> Seq<DeviceInfoView> {
    Seq::new(devices.len(), |i: int| devices[i]@)
}

/// Gets information about every connected PSVR device from the list of
/// devices that the HID transport enumerates.
///
/// All the PSVR entries are taken for the interfaces of one headset.
pub fn all(devices: &Vec<DeviceInfo>) -> (result: Result<Vec<PsvrInfo>, Error>)
    ensures
        match discovery(device_views(devices@)) {
            Ok(headsets) => result is Ok && headset_views(result->Ok_0@) == headsets,
            Err(message) => result is Err && result->Err_0.message_text() == message,
        },
{
    let ghost listed = device_views(devices@);
    let mut interface_devices: Vec<&DeviceInfo> = Vec::new();
    let mut i: usize = 0;
    proof {
        reveal(Seq::filter);
    }
    while i < devices.len()
        invariant
            i <= devices@.len(),
            listed == device_views(devices@),
            borrowed_views(interface_devices@) == psvr_entries(listed.subrange(0, i as int)),
        decreases devices@.len() - i,
    {
        proof {
            lemma_psvr_entries_step(listed, i as int);
        }
        if devices[i].is_psvr() {
            interface_devices.push(&devices[i]);
        }
        i = i + 1;
    }
    assert(listed.subrange(0, i as int) =~= listed);
    let ghost entries = psvr_entries(listed);

    let mut interfaces: Vec<InterfaceInfo> = Vec::new();
    let mut j: usize = 0;
    assert(entries.subrange(0, entries.len() as int) =~= entries);
    while j < interface_devices.len()
        invariant
            j <= interface_devices@.len(),
            entries == psvr_entries(device_views(devices@)),
            borrowed_views(interface_devices@) == entries,
            first_without_role(entries) == first_without_role(
                entries.subrange(j as int, entries.len() as int),
            ),
            interfaces@.len() == j,
            forall|k: int| 0 <= k < j ==> (#[trigger] interfaces@[k])@ == with_role(entries[k]),
        decreases interface_devices@.len() - j,
    {
        let hid_device = interface_devices[j];
        let ghost rest = entries.subrange(j as int, entries.len() as int);
        assert(rest.drop_first() =~= entries.subrange(j + 1, entries.len() as int));
        let interface = match Interface::from_i32(hid_device.interface_number) {
            Ok(interface) => interface,
            Err(error) => {
                return Err(error);
            },
        };
        interfaces.push(InterfaceInfo { interface, device_info: hid_device.duplicate() });
        j = j + 1;
    }

    let mut headsets: Vec<PsvrInfo> = Vec::new();
    if interfaces.len() > 0 {
        let headset = PsvrInfo { interfaces };
        assert(headset@ =~= grouped(entries)[0]);
        headsets.push(headset);
    }
    Ok(headsets)
}

/// A walk over the discovered headsets that connects to one at a time.
pub struct Iter {
    psvr_infos: Vec<PsvrInfo>,
    position: usize,
}

impl Iter {
    #[verifier::type_invariant]
    spec fn in_bounds(self) -> bool {
        self.position <= self.psvr_infos@.len()
    }

    /// The headsets that the walk has not come to yet.
    pub closed spec fn remaining(self) -> Seq<Seq<InterfaceInfoView>> {
        headset_views(self.psvr_infos@).subrange(
            self.position as int,
            self.psvr_infos@.len() as int,
        )
    }

    /// Connects to the next headset. A headset that cannot be connected to
    /// yields its error and does not end the walk.
    pub fn next(&mut self) -> (item: Option<Result<Endpoints, Error>>)
        ensures
            old(self).remaining().len() == 0 ==> item is None && final(self).remaining() == old(
                self,
            ).remaining(),
            old(self).remaining().len() > 0 ==> item is Some && connects_as(
                item->Some_0,
                endpoints_of(old(self).remaining()[0]),
            ) && final(self).remaining() == old(self).remaining().drop_first(),
    {
        proof {
            use_type_invariant(&*self);
        }
        if self.position < self.psvr_infos.len() {
            let result = self.psvr_infos[self.position].endpoints();
            self.position = self.position + 1;
            Some(result)
        } else {
            None
        }
    }
}

/// Get a walk over all PSVRs among the devices that the HID transport
/// enumerates.
pub fn iter(devices: &Vec<DeviceInfo>) -> (result: Result<Iter, Error>)
    ensures
        match discovery(device_views(devices@)) {
            Ok(headsets) => result is Ok && result->Ok_0.remaining() == headsets,
            Err(message) => result is Err && result->Err_0.message_text() == message,
        },
{
    let psvr_infos = all(devices)?;
    let walk = Iter { psvr_infos, position: 0 };
    Ok(walk)
}

/// What `get` makes of the transport's list: the endpoints of the first
/// headset, nothing where there is no headset, or the message of the error
/// of discovery or of connecting.
pub open spec fn first_connection(devices: Seq<DeviceInfoView>) -> Result<
    Option<EndpointsView>,
    Seq<char>,
> {
    match discovery(devices) {
        Err(message) => Err(message),
        Ok(headsets) => if headsets.len() == 0 {
            Ok(None)
        } else {
            match endpoints_of(headsets[0]) {
                Ok(endpoints) => Ok(Some(endpoints)),
                Err(message) => Err(message),
            }
        },
    }
}

/// Picks the endpoints of an arbitrary connected PSVR device: the first.
pub fn get(devices: &Vec<DeviceInfo>) -> (result: Result<Option<Endpoints>, Error>)
    ensures
        match first_connection(device_views(devices@)) {
            Ok(Some(endpoints)) => result is Ok && result->Ok_0 is Some
                && result->Ok_0->Some_0@ == endpoints,
            Ok(None) => result is Ok && result->Ok_0 is None,
            Err(message) => result is Err && result->Err_0.message_text() == message,
        },
{
    let mut walk = iter(devices)?;
    match walk.next() {
        Some(psvr) => Ok(Some(psvr?)),
        None => Ok(None),
    }
}

/// The message that carries a command: its identifier and the length of
/// its payload in an outbound header, then the payload.
pub open spec fn message_of<C: Command>(command: &C) -> (CommandHeader, Seq<u8>) {
    (outbound_header(C::ID, command.payload().len()), command.payload())
}

/// The frame that carries a command.
pub open spec fn command_frame<C: Command>(command: &C) -> Seq<u8> {
    frame_of(message_of(command).0, message_of(command).1)
}

/// Builds the message for a command, with the command's identifier and
/// payload.
pub fn message<C: Command>(command: &C) -> (message: protocol::Command)
    ensures
        message.header == message_of(command).0,
        message.payload@ == message_of(command).1,
        message.well_formed(),
{
    let payload = command.payload_bytes();

    protocol::Command {
        header: CommandHeader {
            id: C::ID,
            magic: COMMAND_MAGIC,
            status: 0,
            length: payload.len() as u8,
        },
        payload: payload,
    }
}

/// Encodes a command into the frame that is written to the control
/// interface.
pub fn encode<C: Command>(command: &C) -> (frame: [u8; 64])
    ensures
        frame@ == command_frame(command),
{
    message(command).frame()
}

/// Every command makes a frame of sixty-four bytes that opens with the
/// command's identifier, a zero status, the magic byte and the length of the
/// payload, goes on with the payload, and ends in zeros.
pub proof fn lemma_command_frame<C: Command>(command: &C)
    ensures
        command_frame(command).len() == 64,
        command_frame(command)[0] == C::ID,
        command_frame(command)[1] == 0u8,
        command_frame(command)[2] == 0xAAu8,
        command_frame(command)[3] == command.payload().len(),
        command_frame(command).subrange(4, 4 + command.payload().len() as int) == command.payload(),
        forall|i: int|
            4 + command.payload().len() <= i < 64 ==> command_frame(command)[i] == 0u8,
{
    command.lemma_payload_fits();
    protocol::lemma_frame_layout(message_of(command).0, message_of(command).1);
}

/// The frame that sets the state of the power.
pub fn set_power_frame(on: bool) -> (frame: [u8; 64])
    ensures
        frame@ == command_frame(&SetPower { on }),
{
    encode(&SetPower { on })
}

/// The frame that powers on the PSVR.
pub fn power_on_frame() -> (frame: [u8; 64])
    ensures
        frame@ == command_frame(&SetPower { on: true }),
{
    set_power_frame(true)
}

/// The frame that powers off the PSVR.
pub fn power_off_frame() -> (frame: [u8; 64])
    ensures
        frame@ == command_frame(&SetPower { on: false }),
{
    set_power_frame(false)
}

/// The frame that switches the PSVR to VR mode.
pub fn vr_mode_frame() -> (frame: [u8; 64])
    ensures
        frame@ == command_frame(&SetVrMode { vr_mode: true }),
{
    encode(&SetVrMode { vr_mode: true })
}

/// The frame that enables VR tracking.
pub fn vr_tracking_frame() -> (frame: [u8; 64])
    ensures
        frame@ == command_frame(&EnableVrTracking),
{
    encode(&EnableVrTracking)
}

/// The frame that is sent when a session closes: it powers off the PSVR.
pub fn close_frame() -> (frame: [u8; 64])
    ensures
        frame@ == command_frame(&SetPower { on: false }),
{
    encode(&SetPower { on: false })
}

/// What one read of the sensor interface amounts to.
#[derive(Debug)]
pub enum SensorRead {
    /// No more than the report ID came: read again.
    Retry,
    /// A full frame came, and this is what it holds.
    Frame {
        /// The decoded frame.
        readout: Readout,
        /// What the frame feeds into sensor fusion.
        fusion_input: Instant,
    },
    /// Some other number of bytes came.
    Failed(Error),
}

/// The message of the error for a sensor frame of the wrong size.
pub open spec fn wrong_frame_size_message(bytes_read: nat) -> Seq<char> {
    "read psvr sensor frame of "@ + decimal_digits(bytes_read) + " bytes but should be "@
        + decimal_digits(FRAME_SIZE as nat) + " bytes"@
}

/// What a read of `bytes_read` bytes into `buf` amounts to: a retry for no
/// more than one byte, the decoded frame for a full frame, and an error for
/// any other count.
pub open spec fn sensor_read_of(buf: Seq<u8>, bytes_read: nat, outcome: SensorRead) -> bool {
    if bytes_read <= 1 {
        outcome is Retry
    } else if bytes_read != FRAME_SIZE {
        outcome is Failed && outcome->Failed_0.message_text() == wrong_frame_size_message(
            bytes_read,
        )
    } else {
        outcome == (SensorRead::Frame {
            readout: Readout::parse(buf),
            fusion_input: Instant::of_raw(Readout::parse(buf).instants[0]),
        })
    }
}

/// Decides what follows a read of the sensor interface that put
/// `bytes_read` bytes into `buf`.
pub fn receive_sensor(buf: &[u8; 64], bytes_read: usize) -> (outcome: SensorRead)
    ensures
        sensor_read_of(buf@, bytes_read as nat, outcome),
{
    if bytes_read <= 1 {
        return SensorRead::Retry;  // We need more than the report ID.
    }
    if bytes_read != FRAME_SIZE {
        let mut message = String::from_str("read psvr sensor frame of ");
        append_unsigned(&mut message, bytes_read as u64);
        message.append(" bytes but should be ");
        append_unsigned(&mut message, FRAME_SIZE as u64);
        message.append(" bytes");
        return SensorRead::Failed(Error::CommunicationError { message });
    }
    match Readout::read_bytes(buf) {
        Ok(readout) => {
            let fusion_input = Instant::fusion_input(&readout);
            SensorRead::Frame { readout, fusion_input }
        },
        Err(error) => SensorRead::Failed(error),
    }
}

} // verus!
