use lidar_satellite::command::{make_capture_target, Invocation};
use lidar_satellite::error::ServerError;
use lidar_satellite::lidar::{
    get_launchfile, Ipv4Address, LidarSensor, LidarSensorBuilder, LidarSensorConfig, LidarType,
};
use lidar_satellite::text::append_decimal;

fn decimal_of(n: u16) -> String {
    let mut out = String::new();
    append_decimal(&mut out, n);
    out
}

#[test]
fn launchfile_of_each_kind() {
    assert_eq!(get_launchfile(LidarType::VelodyneVLP16), Ok(String::from("VLP16_points.launch")));
    assert_eq!(get_launchfile(LidarType::VelodyneVLP32C), Ok(String::from("VLP-32C_points.launch")));
    assert_eq!(get_launchfile(LidarType::VelodyneVLS128), Ok(String::from("VLS128_points.launch")));
}

#[test]
fn kind_without_launchfile_is_a_config_error() {
    assert_eq!(get_launchfile(LidarType::Ouster64), Err(ServerError::ConfigInvalid));
}

#[test]
fn decimal_text_of_numbers() {
    assert_eq!(decimal_of(0), "0");
    assert_eq!(decimal_of(7), "7");
    assert_eq!(decimal_of(9), "9");
    assert_eq!(decimal_of(10), "10");
    assert_eq!(decimal_of(100), "100");
    assert_eq!(decimal_of(2368), "2368");
    assert_eq!(decimal_of(65535), "65535");
    assert_eq!(decimal_of(13579), "13579");
    assert_eq!(decimal_of(24680), "24680");
}

#[test]
fn decimal_text_agrees_with_std_everywhere() {
    let mut n: u16 = 0;
    loop {
        assert_eq!(decimal_of(n), format!("{}", n));
        if n == u16::MAX {
            break;
        }
        n += 1;
    }
}

#[test]
fn decimal_text_is_appended() {
    let mut out = String::from("port:=");
    append_decimal(&mut out, 2368);
    assert_eq!(out, "port:=2368");
}

#[test]
fn address_in_dotted_decimal() {
    let mut out = String::new();
    Ipv4Address::new(192, 168, 1, 201).append_to(&mut out);
    assert_eq!(out, "192.168.1.201");
    let mut zero = String::from("device_ip:=");
    Ipv4Address::new(0, 0, 0, 0).append_to(&mut zero);
    assert_eq!(zero, "device_ip:=0.0.0.0");
    let mut top = String::new();
    Ipv4Address::new(255, 255, 255, 255).append_to(&mut top);
    assert_eq!(top, "255.255.255.255");
}

#[test]
fn sensor_config_defaults() {
    let c = LidarSensorConfig::new();
    assert_eq!(c.lidar_type, LidarType::VelodyneVLP16);
    assert_eq!(c.address, Ipv4Address::new(0, 0, 0, 0));
    assert_eq!(c.port, 0);
    assert_eq!(c.frame_id, "velodyne");
    assert_eq!(c.namespace, "");
    assert!(!c.running);
}

#[test]
fn builder_defaults() {
    let s = LidarSensorBuilder::new().build();
    assert_eq!(s.id, 0);
    assert_eq!(s.lidar_type, LidarType::VelodyneVLP32C);
    assert_eq!(s.address, Ipv4Address::new(0, 0, 0, 0));
    assert_eq!(s.port, 2368);
    assert_eq!(s.frame_id, "");
    assert_eq!(s.namespace, "");
}

#[test]
fn builder_sets_each_field() {
    let s = LidarSensor::builder()
        .id(3)
        .lidar_type(LidarType::VelodyneVLS128)
        .address(Ipv4Address::new(10, 0, 0, 5))
        .port(2369)
        .frame_id(String::from("north"))
        .namespace(String::from("lidar_north"))
        .build();
    assert_eq!(s.id, 3);
    assert_eq!(s.lidar_type, LidarType::VelodyneVLS128);
    assert_eq!(s.address, Ipv4Address { a: 10, b: 0, c: 0, d: 5 });
    assert_eq!(s.port, 2369);
    assert_eq!(s.frame_id, "north");
    assert_eq!(s.namespace, "lidar_north");
}

#[test]
fn launch_command_line() {
    let s = LidarSensor::builder()
        .id(1)
        .lidar_type(LidarType::VelodyneVLP16)
        .address(Ipv4Address::new(192, 168, 1, 201))
        .port(2368)
        .frame_id(String::from("velodyne"))
        .namespace(String::from("lidar_a"))
        .build();
    let cmd = Invocation::launch(&s).unwrap();
    assert_eq!(cmd.program, "roslaunch");
    assert_eq!(
        cmd.args,
        vec![
            String::from("velodyne_pointcloud"),
            String::from("VLP16_points.launch"),
            String::from("device_ip:=192.168.1.201"),
            String::from("port:=2368"),
            String::from("frame_id:=velodyne"),
            String::from("__ns:=lidar_a"),
        ]
    );
}

#[test]
fn launch_profile_follows_the_kind() {
    let s = LidarSensor::builder().lidar_type(LidarType::VelodyneVLP32C).build();
    let cmd = Invocation::launch(&s).unwrap();
    assert_eq!(cmd.args[1], "VLP-32C_points.launch");
    assert_eq!(cmd.args[2], "device_ip:=0.0.0.0");
    assert_eq!(cmd.args[4], "frame_id:=");
    assert_eq!(cmd.args[5], "__ns:=");
    let t = LidarSensor::builder().lidar_type(LidarType::VelodyneVLS128).build();
    assert_eq!(Invocation::launch(&t).unwrap().args[1], "VLS128_points.launch");
}

#[test]
fn launch_of_unsupported_kind_fails() {
    let s = LidarSensor::builder().lidar_type(LidarType::Ouster64).build();
    assert_eq!(Invocation::launch(&s).err(), Some(ServerError::ConfigInvalid));
}

#[test]
fn capture_target_of_a_namespace() {
    assert_eq!(make_capture_target(&String::from("lidar_a")), "/lidar_a/velodyne_points");
    assert_eq!(make_capture_target(&String::new()), "//velodyne_points");
}

#[test]
fn record_command_line() {
    let cmd = Invocation::record(vec![
        String::from("/lidar_a/velodyne_points"),
        String::from("/lidar_b/velodyne_points"),
    ]);
    assert_eq!(cmd.program, "rosbag");
    assert_eq!(
        cmd.args,
        vec![
            String::from("record"),
            String::from("/lidar_a/velodyne_points"),
            String::from("/lidar_b/velodyne_points"),
            String::from("__name:=rosbag_recording"),
        ]
    );
    let none = Invocation::record(Vec::new());
    assert_eq!(none.args, vec![String::from("record"), String::from("__name:=rosbag_recording")]);
}

#[test]
fn stop_record_command_line() {
    let cmd = Invocation::stop_record();
    assert_eq!(cmd.program, "rosnode");
    assert_eq!(cmd.args, vec![String::from("kill"), String::from("/rosbag_recording")]);
}
