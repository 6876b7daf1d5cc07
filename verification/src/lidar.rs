//! Sensor kinds, roster entries and sensor descriptors.

use vstd::prelude::*;
use vstd::string::*;
use crate::error::ServerError;
use crate::text::{append_decimal, decimal};

verus! {

/// The kinds of lidar that a roster can name.
#[derive(Debug, Clone, Copy, PartialEq, Eq, Structural)]
pub enum LidarType {
    VelodyneVLP16,
    VelodyneVLP32C,
    VelodyneVLS128,
    Ouster64,
}

/// The launch profile of each kind that has one.
pub open spec fn launchfile(lidar: LidarType) -> Option<Seq<char>> {
    match lidar {
        LidarType::VelodyneVLP16 => Some("VLP16_points.launch"@),
        LidarType::VelodyneVLP32C => Some("VLP-32C_points.launch"@),
        LidarType::VelodyneVLS128 => Some("VLS128_points.launch"@),
        LidarType::Ouster64 => None,
    }
}

/// The launch profile of a sensor kind. A kind without a profile cannot be
/// launched, and a roster that names one is invalid.
pub fn get_launchfile(lidar: LidarType) -> (r: Result<String, ServerError>)
    ensures
        match r {
            Ok(name) => launchfile(lidar) == Some(name@),
            Err(e) => e == ServerError::ConfigInvalid && launchfile(lidar) is None,
        },
{
    match lidar {
        LidarType::VelodyneVLP16 => Ok(String::from_str("VLP16_points.launch")),
        LidarType::VelodyneVLP32C => Ok(String::from_str("VLP-32C_points.launch")),
        LidarType::VelodyneVLS128 => Ok(String::from_str("VLS128_points.launch")),
        LidarType::Ouster64 => Err(ServerError::ConfigInvalid),
    }
}

/// An IPv4 address as its four octets, first octet first.
#[derive(Debug, Clone, Copy, PartialEq, Eq, Structural)]
pub struct Ipv4Address {
    pub a: u8,
    pub b: u8,
    pub c: u8,
    pub d: u8,
}

/// An address in dotted decimal notation.
pub open spec fn dotted_quad(address: Ipv4Address) -> Seq<char> {
    decimal(address.a as nat) + seq!['.'] + decimal(address.b as nat) + seq!['.'] + decimal(
        address.c as nat,
    ) + seq!['.'] + decimal(address.d as nat)
}

impl Ipv4Address {
    pub fn new(a: u8, b: u8, c: u8, d: u8) -> (r: Self)
        ensures
            r == (Ipv4Address { a, b, c, d }),
    {
        Ipv4Address { a, b, c, d }
    }

    /// Appends the address in dotted decimal notation to `out`.
    pub fn append_to(&self, out: &mut String)
        ensures
            final(out)@ == old(out)@ + dotted_quad(*self),
    {
        let ghost before = out@;
        proof {
            reveal_strlit(".");
        }
        append_decimal(out, self.a as u16);
        out.append(".");
        append_decimal(out, self.b as u16);
        out.append(".");
        append_decimal(out, self.c as u16);
        out.append(".");
        append_decimal(out, self.d as u16);
        proof {
            assert("."@ =~= seq!['.']);
            assert(out@ =~= before + dotted_quad(*self));
        }
    }
}

/// One roster entry, as plain values.
pub struct SensorEntry {
    pub lidar_type: LidarType,
    pub address: Ipv4Address,
    pub port: u16,
    pub frame_id: Seq<char>,
    pub namespace: Seq<char>,
    pub running: bool,
}

/// One sensor of the roster, as the configuration file gives it.
#[derive(Debug, Clone)]
pub struct LidarSensorConfig {
    pub lidar_type: LidarType,
    pub address: Ipv4Address,
    pub port: u16,
    pub frame_id: String,
    pub namespace: String,
    pub running: bool,
}

impl View for LidarSensorConfig {
    type V = SensorEntry;

    open spec fn view(&self) -> SensorEntry {
        SensorEntry {
            lidar_type: self.lidar_type,
            address: self.address,
            port: self.port,
            frame_id: self.frame_id@,
            namespace: self.namespace@,
            running: self.running,
        }
    }
}

impl LidarSensorConfig {
    pub fn new() -> (r: Self)
        ensures
            r@ == (SensorEntry {
                lidar_type: LidarType::VelodyneVLP16,
                address: Ipv4Address { a: 0, b: 0, c: 0, d: 0 },
                port: 0,
                frame_id: "velodyne"@,
                namespace: ""@,
                running: false,
            }),
    {
        Self {
            lidar_type: LidarType::VelodyneVLP16,
            address: Ipv4Address::new(0, 0, 0, 0),
            port: 0,
            frame_id: String::from_str("velodyne"),
            namespace: String::from_str(""),
            running: false,
        }
    }
}

/// A sensor descriptor, as plain values.
pub struct SensorView {
    pub id: u16,
    pub lidar_type: LidarType,
    pub address: Ipv4Address,
    pub port: u16,
    pub frame_id: Seq<char>,
    pub namespace: Seq<char>,
}

/// The descriptor that a roster entry gets under the identity `id`.
pub open spec fn descriptor(entry: SensorEntry, id: u16) -> SensorView {
    SensorView {
        id,
        lidar_type: entry.lidar_type,
        address: entry.address,
        port: entry.port,
        frame_id: entry.frame_id,
        namespace: entry.namespace,
    }
}

/// The static record of one registered sensor.
#[derive(Debug)]
pub struct LidarSensor {
    pub id: u16,
    pub lidar_type: LidarType,
    pub address: Ipv4Address,
    pub port: u16,
    pub frame_id: String,
    pub namespace: String,
}

impl View for LidarSensor {
    type V = SensorView;

    open spec fn view(&self) -> SensorView {
        SensorView {
            id: self.id,
            lidar_type: self.lidar_type,
            address: self.address,
            port: self.port,
            frame_id: self.frame_id@,
            namespace: self.namespace@,
        }
    }
}

impl LidarSensor {
    pub fn builder() -> (r: LidarSensorBuilder)
        ensures
            r@ == LidarSensorBuilder::initial(),
    {
        LidarSensorBuilder::new()
    }
}

/// Collects the fields of a descriptor one by one.
pub struct LidarSensorBuilder {
    pub id: u16,
    pub lidar_type: LidarType,
    pub address: Ipv4Address,
    pub port: u16,
    pub frame_id: String,
    pub namespace: String,
}

impl View for LidarSensorBuilder {
    type V = SensorView;

    open spec fn view(&self) -> SensorView {
        SensorView {
            id: self.id,
            lidar_type: self.lidar_type,
            address: self.address,
            port: self.port,
            frame_id: self.frame_id@,
            namespace: self.namespace@,
        }
    }
}

impl LidarSensorBuilder {
    /// What a new builder holds.
    pub open spec fn initial() -> SensorView {
        SensorView {
            id: 0,
            lidar_type: LidarType::VelodyneVLP32C,
            address: Ipv4Address { a: 0, b: 0, c: 0, d: 0 },
            port: 2368,
            frame_id: ""@,
            namespace: ""@,
        }
    }

    pub fn new() -> (r: Self)
        ensures
            r@ == Self::initial(),
    {
        Self {
            id: 0,
            lidar_type: LidarType::VelodyneVLP32C,
            address: Ipv4Address::new(0, 0, 0, 0),
            port: 2368,
            frame_id: String::from_str(""),
            namespace: String::from_str(""),
        }
    }

    pub fn id(self, id: u16) -> (r: Self)
        ensures
            r@ == (SensorView { id, ..self@ }),
    {
        let mut b = self;
        b.id = id;
        b
    }

    pub fn lidar_type(self, lidar_type: LidarType) -> (r: Self)
        ensures
            r@ == (SensorView { lidar_type, ..self@ }),
    {
        let mut b = self;
        b.lidar_type = lidar_type;
        b
    }

    pub fn address(self, ip_address: Ipv4Address) -> (r: Self)
        ensures
            r@ == (SensorView { address: ip_address, ..self@ }),
    {
        let mut b = self;
        b.address = ip_address;
        b
    }

    pub fn port(self, port: u16) -> (r: Self)
        ensures
            r@ == (SensorView { port, ..self@ }),
    {
        let mut b = self;
        b.port = port;
        b
    }

    pub fn frame_id(self, frame: String) -> (r: Self)
        ensures
            r@ == (SensorView { frame_id: frame@, ..self@ }),
    {
        let mut b = self;
        b.frame_id = frame;
        b
    }

    pub fn namespace(self, namespace: String) -> (r: Self)
        ensures
            r@ == (SensorView { namespace: namespace@, ..self@ }),
    {
        let mut b = self;
        b.namespace = namespace;
        b
    }

    pub fn build(self) -> (r: LidarSensor)
        ensures
            r@ == self@,
    {
        LidarSensor {
            id: self.id,
            lidar_type: self.lidar_type,
            address: self.address,
            port: self.port,
            frame_id: self.frame_id,
            namespace: self.namespace,
        }
    }
}

} // verus!
