//! Sensor devices and their measurements.
//!
//! A sensor device lives in a directory: a required `name` file and one
//! optional file per measurement channel. The caller probes those files and
//! hands the outcomes in as plain values; this module decides which channels
//! a device offers, enforces that decision on every capture, and assembles
//! captures into timestamped measurement records.

use vstd::prelude::*;

use crate::clock::now;
use crate::clock::Timespec;
use crate::text::trim_spec;
use crate::text::trim_ws;

verus! {

/// The measurement channels a sensor device may expose.
#[derive(Clone, Copy, PartialEq, Eq, Structural, Debug)]
pub enum ChannelKind {
    Temperature,
    HumidityRelative,
    Pressure,
}

/// What discovery found for one channel file of a candidate device
/// directory: whether the file exists there, and whether opening it for
/// reading succeeded.
#[derive(Clone, Copy, PartialEq, Eq, Structural, Debug)]
pub struct ChannelProbe {
    pub exists: bool,
    pub opened: bool,
}

impl ChannelProbe {
    /// A channel is present only when its file existed at discovery time and
    /// could be opened for reading.
    pub open spec fn present(self) -> bool {
        self.exists && self.opened
    }
}

/// What discovery found in one candidate device directory: the raw contents
/// of the required `name` file (`None` when it is missing or unreadable) and
/// the outcome of probing each channel file.
#[derive(Clone, Debug)]
pub struct DeviceProbe {
    pub name_contents: Option<String>,
    pub temperature: ChannelProbe,
    pub humidity_relative: ChannelProbe,
    pub pressure: ChannelProbe,
}

impl DeviceProbe {
    /// The probe outcome for one channel kind.
    pub open spec fn channel(self, kind: ChannelKind) -> ChannelProbe {
        match kind {
            ChannelKind::Temperature => self.temperature,
            ChannelKind::HumidityRelative => self.humidity_relative,
            ChannelKind::Pressure => self.pressure,
        }
    }
}

/// The raw outcome of reading each present channel file once, for a single
/// capture: `None` where the device has no handle for the channel or where
/// the read failed this time.
#[derive(Clone, Debug)]
pub struct ChannelReads {
    pub temperature: Option<String>,
    pub humidity_relative: Option<String>,
    pub pressure: Option<String>,
}

impl ChannelReads {
    /// The raw read outcome for one channel kind.
    pub open spec fn channel(self, kind: ChannelKind) -> Option<String> {
        match kind {
            ChannelKind::Temperature => self.temperature,
            ChannelKind::HumidityRelative => self.humidity_relative,
            ChannelKind::Pressure => self.pressure,
        }
    }
}

/// Why enumeration failed.
#[derive(Clone, Copy, PartialEq, Eq, Structural, Debug)]
pub enum SensorError {
    /// The candidate device directory at this position in the listing had no
    /// readable `name` file.
    MissingName { device_index: usize },
    /// The root directory itself could not be listed.
    RootEnumeration,
}

/// One discovered sensor device: its trimmed name and, per channel, whether
/// a read handle was resolved at construction. Presence is decided once, at
/// construction, and never re-evaluated.
#[derive(Clone, Debug)]
pub struct SensorNode {
    pub name: String,
    pub temp_present: bool,
    pub humidity_rel_present: bool,
    pub pressure_present: bool,
}

/// `node` is exactly the device that construction derives from `probe`: the
/// probe carried a readable name, the node's name is its trimmed contents,
/// and each channel is present exactly when its file existed and opened.
pub open spec fn node_matches(node: SensorNode, probe: DeviceProbe) -> bool {
    &&& probe.name_contents is Some
    &&& node.name@ == trim_spec(probe.name_contents->0@)
    &&& forall|kind: ChannelKind| node.spec_present(kind) == probe.channel(kind).present()
}

/// The value a capture stores for one channel: the trimmed raw contents when
/// the channel is present and its read succeeded, and `None` otherwise. The
/// two causes of `None` are indistinguishable by design.
pub open spec fn capture_spec(present: bool, raw: Option<String>) -> Option<Seq<char>> {
    if present && raw is Some {
        Some(trim_spec(raw->0@))
    } else {
        None
    }
}

impl SensorNode {
    /// Whether this device resolved a handle for the given channel at
    /// construction.
    pub open spec fn spec_present(self, kind: ChannelKind) -> bool {
        match kind {
            ChannelKind::Temperature => self.temp_present,
            ChannelKind::HumidityRelative => self.humidity_rel_present,
            ChannelKind::Pressure => self.pressure_present,
        }
    }

    /// Whether this device resolved a handle for the given channel at
    /// construction.
    pub fn has_channel(&self, kind: ChannelKind) -> (r: bool)
        ensures
            r == self.spec_present(kind),
    {
        match kind {
            ChannelKind::Temperature => self.temp_present,
            ChannelKind::HumidityRelative => self.humidity_rel_present,
            ChannelKind::Pressure => self.pressure_present,
        }
    }

    /// Constructs the device a probed directory describes: `None` when the
    /// required `name` file was missing or unreadable, otherwise the device
    /// with the trimmed name and with each channel present exactly when its
    /// file existed and could be opened.
    pub fn new(probe: &DeviceProbe) -> (r: Option<SensorNode>)
        ensures
            r is Some <==> probe.name_contents is Some,
            r is Some ==> node_matches(r->0, *probe),
    {
        match &probe.name_contents {
            None => None,
            Some(raw) => {
                let node = SensorNode {
                    name: trim_ws(raw.as_str()),
                    temp_present: probe.temperature.exists && probe.temperature.opened,
                    humidity_rel_present: probe.humidity_relative.exists
                        && probe.humidity_relative.opened,
                    pressure_present: probe.pressure.exists && probe.pressure.opened,
                };
                Some(node)
            },
        }
    }

    /// Constructs one device per probed directory entry, in listing order.
    /// `listing` is `None` when the root directory itself could not be
    /// listed, which fails with `RootEnumeration`; an entry without a
    /// readable `name` file fails the whole enumeration with `MissingName`
    /// naming the first such entry. An empty listing succeeds with no
    /// devices.
    pub fn enumerate(listing: Option<Vec<DeviceProbe>>) -> (r: Result<
        Vec<SensorNode>,
        SensorError,
    >)
        ensures
            listing is None <==> r == Err::<Vec<SensorNode>, SensorError>(
                SensorError::RootEnumeration,
            ),
            listing is Some ==> {
                let probes = listing->0@;
                &&& (r is Ok <==> forall|i: int|
                    0 <= i < probes.len() ==> (#[trigger] probes[i]).name_contents is Some)
                &&& r is Ok ==> r->Ok_0@.len() == probes.len() && (forall|i: int|
                    0 <= i < probes.len() ==> node_matches(#[trigger] r->Ok_0@[i], probes[i]))
                &&& r is Err ==> exists|i: usize|
                    {
                        &&& 0 <= i < probes.len()
                        &&& probes[i as int].name_contents is None
                        &&& (forall|j: int| 0 <= j < i ==> (#[trigger] probes[j]).name_contents is Some)
                        &&& r->Err_0 == (SensorError::MissingName { device_index: i })
                    }
            },
    {
        let probes = match &listing {
            None => {
                return Err(SensorError::RootEnumeration);
            },
            Some(probes) => probes,
        };
        let mut nodes: Vec<SensorNode> = Vec::new();
        let mut i: usize = 0;
        while i < probes.len()
            invariant
                listing is Some,
                probes@ == listing->0@,
                0 <= i <= probes@.len(),
                nodes@.len() == i,
                forall|j: int| 0 <= j < i ==> (#[trigger] probes@[j]).name_contents is Some,
                forall|j: int| 0 <= j < i ==> node_matches(#[trigger] nodes@[j], probes@[j]),
            decreases probes@.len() - i,
        {
            match SensorNode::new(&probes[i]) {
                None => {
                    return Err(SensorError::MissingName { device_index: i });
                },
                Some(node) => {
                    nodes.push(node);
                },
            }
            i = i + 1;
        }
        Ok(nodes)
    }

    /// The measurement field for the temperature channel, from one raw read
    /// of it: the trimmed contents when the channel is present and the read
    /// succeeded, `None` otherwise.
    pub fn temperature(&self, raw: Option<String>) -> (r: Option<String>)
        ensures
            r.deep_view() == capture_spec(self.spec_present(ChannelKind::Temperature), raw),
    {
        self.channel_value(ChannelKind::Temperature, raw)
    }

    /// The measurement field for the relative-humidity channel, from one raw
    /// read of it: the trimmed contents when the channel is present and the
    /// read succeeded, `None` otherwise.
    pub fn humidity_relative(&self, raw: Option<String>) -> (r: Option<String>)
        ensures
            r.deep_view() == capture_spec(self.spec_present(ChannelKind::HumidityRelative), raw),
    {
        self.channel_value(ChannelKind::HumidityRelative, raw)
    }

    /// The measurement field for the pressure channel, from one raw read of
    /// it: the trimmed contents when the channel is present and the read
    /// succeeded, `None` otherwise.
    pub fn pressure(&self, raw: Option<String>) -> (r: Option<String>)
        ensures
            r.deep_view() == capture_spec(self.spec_present(ChannelKind::Pressure), raw),
    {
        self.channel_value(ChannelKind::Pressure, raw)
    }

    /// The measurement field for one channel, from one raw read of it.
    pub fn channel_value(&self, kind: ChannelKind, raw: Option<String>) -> (r: Option<String>)
        ensures
            r.deep_view() == capture_spec(self.spec_present(kind), raw),
    {
        if self.has_channel(kind) {
            match raw {
                Some(buf) => Some(trim_ws(buf.as_str())),
                None => None,
            }
        } else {
            None
        }
    }

    /// Assembles one measurement from one sweep of raw channel reads: each
    /// channel field is the trimmed raw contents where the channel is
    /// present and its read succeeded and `None` otherwise, the host tag is
    /// the injected hostname, the location is unset, and the timestamp is
    /// taken now.
    pub fn do_measurement(&self, host: String, reads: ChannelReads) -> (m: Measurement)
        ensures
            measurement_matches(m, *self, host@, reads),
    {
        let ChannelReads { temperature, humidity_relative, pressure } = reads;
        let m = Measurement {
            sensor_name: self.name.clone(),
            host,
            location: None,
            timestamp: now(),
            temperature: self.temperature(temperature),
            humidity_relative: self.humidity_relative(humidity_relative),
            pressure: self.pressure(pressure),
        };
        proof {
            assert forall|kind: ChannelKind|
                (#[trigger] m.channel_value(kind)).deep_view() == capture_spec(
                    self.spec_present(kind),
                    reads.channel(kind),
                ) by {
                match kind {
                    ChannelKind::Temperature => {},
                    ChannelKind::HumidityRelative => {},
                    ChannelKind::Pressure => {},
                }
            }
        }
        m
    }
}

/// One capture of one device: the channel values read for this cycle, the
/// injected host tag, an optional location tag, and the capture timestamp.
/// The producing device is referenced by name only.
#[derive(Clone, Debug)]
pub struct Measurement {
    pub sensor_name: String,
    pub host: String,
    pub location: Option<String>,
    pub timestamp: Timespec,
    pub temperature: Option<String>,
    pub humidity_relative: Option<String>,
    pub pressure: Option<String>,
}

/// `m` is exactly what capturing `reads` on `node` with host tag `host`
/// yields: per channel the trimmed raw contents where present and read, and
/// `None` otherwise; no location; a well-formed timestamp.
pub open spec fn measurement_matches(
    m: Measurement,
    node: SensorNode,
    host: Seq<char>,
    reads: ChannelReads,
) -> bool {
    &&& m.sensor_name@ == node.name@
    &&& m.host@ == host
    &&& m.location is None
    &&& m.timestamp.wf()
    &&& forall|kind: ChannelKind|
        (#[trigger] m.channel_value(kind)).deep_view() == capture_spec(
            node.spec_present(kind),
            reads.channel(kind),
        )
}

impl Measurement {
    /// The stored value of one channel.
    pub open spec fn channel_value(self, kind: ChannelKind) -> Option<String> {
        match kind {
            ChannelKind::Temperature => self.temperature,
            ChannelKind::HumidityRelative => self.humidity_relative,
            ChannelKind::Pressure => self.pressure,
        }
    }

    /// The `None` causes are indistinguishable and permanent: a device built
    /// from a directory in which a channel's file did not exist stores no
    /// value for that channel in any capture, whatever raw contents a read
    /// would hand in.
    pub proof fn lemma_missing_channel_never_reported(
        self,
        node: SensorNode,
        probe: DeviceProbe,
        host: Seq<char>,
        reads: ChannelReads,
        kind: ChannelKind,
    )
        requires
            node_matches(node, probe),
            !probe.channel(kind).exists,
            measurement_matches(self, node, host, reads),
        ensures
            self.channel_value(kind) is None,
    {
        assert(self.channel_value(kind).deep_view() == capture_spec(
            node.spec_present(kind),
            reads.channel(kind),
        ));
    }

    /// Captures hold no state between calls: two measurements of one device
    /// whose sweeps read the same raw contents carry equal channel values,
    /// whenever they were taken and whatever their timestamps and host tags.
    pub proof fn lemma_capture_idempotent(
        self,
        other: Measurement,
        node: SensorNode,
        host1: Seq<char>,
        host2: Seq<char>,
        reads: ChannelReads,
        kind: ChannelKind,
    )
        requires
            measurement_matches(self, node, host1, reads),
            measurement_matches(other, node, host2, reads),
        ensures
            self.channel_value(kind).deep_view() == other.channel_value(kind).deep_view(),
    {
    }

    /// Captures are never stale: a measurement's channel value is the
    /// trimmed contents its own sweep read, so a capture taken after the
    /// underlying file changed reports the changed contents, not those an
    /// earlier capture saw.
    pub proof fn lemma_capture_rereads(
        self,
        node: SensorNode,
        host: Seq<char>,
        reads: ChannelReads,
        kind: ChannelKind,
        current: String,
    )
        requires
            measurement_matches(self, node, host, reads),
            node.spec_present(kind),
            reads.channel(kind) == Some(current),
        ensures
            self.channel_value(kind).deep_view() == Some(trim_spec(current@)),
    {
    }

    /// Attaches a location tag; every other field is kept as it is.
    pub fn location(self, location: String) -> (r: Measurement)
        ensures
            r.location == Some(location),
            r.sensor_name == self.sensor_name,
            r.host == self.host,
            r.timestamp == self.timestamp,
            r.temperature == self.temperature,
            r.humidity_relative == self.humidity_relative,
            r.pressure == self.pressure,
    {
        Measurement { location: Some(location), ..self }
    }
}

} // verus!
