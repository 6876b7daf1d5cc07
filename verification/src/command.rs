//! The command lines of the acquisition and recording programs.

use vstd::prelude::*;
use vstd::string::*;
use crate::error::ServerError;
use crate::lidar::{dotted_quad, get_launchfile, launchfile, LidarSensor, SensorView};
use crate::text::{append_decimal, decimal};

verus! {

/// A program and its arguments, as plain text.
#[verifier::ext_equal]
pub struct InvocationView {
    pub program: Seq<char>,
    pub args: Seq<Seq<char>>,
}

/// The text of each string of a list.
pub open spec fn texts(v: Seq<String>) -> Seq<Seq<char>> {
    Seq::new(v.len(), |i: int| v[i]@)
}

/// A program to run, with its arguments in order.
#[derive(Debug)]
pub struct Invocation {
    pub program: String,
    pub args: Vec<String>,
}

impl View for Invocation {
    type V = InvocationView;

    open spec fn view(&self) -> InvocationView {
        InvocationView { program: self.program@, args: texts(self.args@) }
    }
}

/// A decision on a start request, with its command as plain text.
pub open spec fn plan_view(plan: Result<Option<Invocation>, ServerError>) -> Result<
    Option<InvocationView>,
    ServerError,
> {
    match plan {
        Ok(Some(cmd)) => Ok(Some(cmd@)),
        Ok(None) => Ok(None),
        Err(e) => Err(e),
    }
}

/// The acquisition program for one sensor: the launcher, the package, the
/// launch profile of the sensor's kind, then device address, port, frame
/// identifier and namespace. A kind without a launch profile has none.
pub open spec fn launch_invocation(sensor: SensorView) -> Option<InvocationView> {
    match launchfile(sensor.lidar_type) {
        Some(profile) => Some(
            InvocationView {
                program: "roslaunch"@,
                args: seq![
                    "velodyne_pointcloud"@,
                    profile,
                    "device_ip:="@ + dotted_quad(sensor.address),
                    "port:="@ + decimal(sensor.port as nat),
                    "frame_id:="@ + sensor.frame_id,
                    "__ns:="@ + sensor.namespace,
                ],
            },
        ),
        None => None,
    }
}

/// The stream that the recorder captures for a sensor namespace.
pub open spec fn capture_target(namespace: Seq<char>) -> Seq<char> {
    "/"@ + namespace + "/velodyne_points"@
}

/// The recording program over the given capture targets, under its
/// well-known session name.
pub open spec fn record_invocation(targets: Seq<Seq<char>>) -> InvocationView {
    InvocationView {
        program: "rosbag"@,
        args: seq!["record"@] + targets + seq!["__name:=rosbag_recording"@],
    }
}

/// The control command that ends the recording session.
pub open spec fn stop_record_invocation() -> InvocationView {
    InvocationView { program: "rosnode"@, args: seq!["kill"@, "/rosbag_recording"@] }
}

/// Builds the capture target of one namespace.
pub fn make_capture_target(namespace: &String) -> (r: String)
    ensures
        r@ == capture_target(namespace@),
{
    let mut target = String::from_str("/");
    target.append(namespace.as_str());
    target.append("/velodyne_points");
    target
}

impl Invocation {
    /// The command line that starts acquisition for `sensor`.
    pub fn launch(sensor: &LidarSensor) -> (r: Result<Invocation, ServerError>)
        ensures
            match r {
                Ok(cmd) => launch_invocation(sensor@) == Some(cmd@),
                Err(e) => e == ServerError::ConfigInvalid && launch_invocation(sensor@) is None,
            },
    {
        let profile = match get_launchfile(sensor.lidar_type) {
            Ok(p) => p,
            Err(e) => {
                return Err(e);
            },
        };
        let ghost profile_text = profile@;
        let mut device = String::from_str("device_ip:=");
        sensor.address.append_to(&mut device);
        let mut port = String::from_str("port:=");
        append_decimal(&mut port, sensor.port);
        let mut frame = String::from_str("frame_id:=");
        frame.append(sensor.frame_id.as_str());
        let mut namespace = String::from_str("__ns:=");
        namespace.append(sensor.namespace.as_str());
        let mut args: Vec<String> = Vec::new();
        args.push(String::from_str("velodyne_pointcloud"));
        args.push(profile);
        args.push(device);
        args.push(port);
        args.push(frame);
        args.push(namespace);
        let cmd = Invocation { program: String::from_str("roslaunch"), args };
        proof {
            assert(cmd@ =~= launch_invocation(sensor@).unwrap());
        }
        Ok(cmd)
    }

    /// The command line that records the given capture targets.
    pub fn record(targets: Vec<String>) -> (r: Invocation)
        ensures
            r@ == record_invocation(texts(targets@)),
    {
        let ghost given = targets@;
        let mut args: Vec<String> = Vec::new();
        args.push(String::from_str("record"));
        let mut targets = targets;
        args.append(&mut targets);
        args.push(String::from_str("__name:=rosbag_recording"));
        let cmd = Invocation { program: String::from_str("rosbag"), args };
        proof {
            assert(cmd@ =~= record_invocation(texts(given)));
        }
        cmd
    }

    /// The command line that asks the recording session to end.
    pub fn stop_record() -> (r: Invocation)
        ensures
            r@ == stop_record_invocation(),
    {
        let mut args: Vec<String> = Vec::new();
        args.push(String::from_str("kill"));
        args.push(String::from_str("/rosbag_recording"));
        let cmd = Invocation { program: String::from_str("rosnode"), args };
        proof {
            assert(cmd@ =~= stop_record_invocation());
        }
        cmd
    }
}

} // verus!
