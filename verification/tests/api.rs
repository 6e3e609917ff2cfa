// The `adb` executable, connection types, and the client, shell and activity
// manager scenarios of the newer interface, each with the output a device
// gives.

use radb_client::client::{Adb, AdbClient, RootAction};
use radb_client::command::{AdbCommand, ExitStatus, ProcessOutput};
use radb_client::device::{ConnectionType, Device};
use radb_client::error::AdbError;
use radb_client::intent::Intent;
use radb_client::options::ScreenRecordOptions;
use radb_client::shell::CommandPath;
use radb_client::types::{MemoryStatus, PropType, Reconnect, UserOption};

fn tcp_client() -> AdbClient {
    AdbClient { adb: Adb("adb".to_string()), device: Device::from_socket_text("192.168.1.101:5555") }
}

fn emulator() -> AdbClient {
    AdbClient { adb: Adb("adb".to_string()), device: Device::try_from_serial("emulator-5554").unwrap() }
}

fn transport() -> AdbClient {
    AdbClient { adb: Adb("adb".to_string()), device: Device::try_from_transport_id(4).unwrap() }
}

fn args(c: &AdbCommand) -> Vec<&str> {
    c.args.iter().map(|s| s.as_str()).collect()
}

fn shell_words(c: &AdbCommand) -> Vec<&str> {
    let a = args(c);
    let at = a.iter().position(|w| *w == "shell").expect("not a shell command");
    a[at + 1..].to_vec()
}

fn finished(code: Option<i32>, signal: Option<i32>, stdout: &[u8]) -> ProcessOutput {
    ProcessOutput { status: ExitStatus { code, signal }, stdout: stdout.to_vec(), stderr: Vec::new() }
}

#[test]
fn test_adb_from() {
    let adb = Adb("/usr/bin/adb".to_string());
    assert_eq!("/usr/bin/adb", adb.as_os_str());
    assert_eq!(adb, Adb::copy(&adb));
}

#[test]
fn adb_test_debug_display() {
    let adb = Adb("/opt/platform-tools/adb".to_string());
    assert_eq!("/opt/platform-tools/adb", adb.as_os_str());
    let command = adb.version_command();
    assert_eq!("/opt/platform-tools/adb", command.program);
    assert_eq!(adb.0, command.program);
}

#[test]
fn adb_test_exec() {
    let adb = Adb("adb".to_string());
    let addr = ConnectionType::TcpIp("192.168.1.101:5555".to_string());
    let command = adb.exec(&addr, vec!["get-state".to_string()], None);
    assert_eq!(vec!["-s", "192.168.1.101:5555", "get-state"], args(&command));
    let command = adb.exec(&ConnectionType::Transport(4), vec!["get-state".to_string()], None);
    assert_eq!(vec!["-t", "4", "get-state"], args(&command));
}

#[test]
fn test_mdns_check() {
    let adb = Adb("adb".to_string());
    assert_eq!(vec!["mdns", "check"], args(&adb.mdns_check()));
}

#[test]
fn adb_test_list_devices() {
    let adb = Adb("adb".to_string());
    let output = b"List of devices attached\nemulator-5554 device product:sdk model:Pixel device:emu transport_id:1\n192.168.1.101:5555 device product:p2 model:IP2300 device:ip2300 transport_id:4\n".to_vec();
    let devices = adb.list_devices(&output).expect("failed to list devices");
    let devices_count = devices.len();
    let clients: Vec<AdbClient> = devices
        .iter()
        .map(|d| AdbClient::try_from_device(Device::try_from_serial(&d.name).unwrap(), Ok(Adb::copy(&adb))).unwrap())
        .collect();
    assert_eq!(devices_count, clients.len());
    assert_eq!(2, clients.len());
}

#[test]
fn adb_test_disconnect_all() {
    let adb = Adb("adb".to_string());
    assert_eq!(vec!["disconnect"], args(&adb.disconnect_all()));
}

#[test]
fn test_restart_server() {
    let adb = Adb("adb".to_string());
    assert_eq!(vec!["kill-server"], args(&adb.kill_server()));
    assert_eq!(vec!["start-server"], args(&adb.start_server()));
}

#[test]
fn test_display() {
    assert_eq!("usb", ConnectionType::USB.to_string());
    assert_eq!("transport_id:4", ConnectionType::Transport(4).to_string());
    assert_eq!("ip:192.168.1.1:5555", ConnectionType::TcpIp("192.168.1.1:5555".to_string()).to_string());
}

#[test]
fn test_debug() {
    let addr = ConnectionType::USB.debug_string(true);
    println!("{addr}");
    assert_eq!("AddressType {\n    usb: \"\",\n}", addr);

    let addr = ConnectionType::Transport(4).debug_string(true);
    println!("{addr}");
    assert_eq!("AddressType {\n    transport_id: 4,\n}", addr);

    let addr = ConnectionType::TcpIp("192.168.1.1:5555".to_string()).debug_string(true);
    println!("{addr}");
    assert_eq!("AddressType {\n    ip: 192.168.1.1:5555,\n}", addr);
}

#[test]
fn connection_type_debug_on_one_line() {
    assert_eq!("AddressType { usb: \"\" }", ConnectionType::USB.debug_string(false));
    assert_eq!("AddressType { transport_id: 4 }", ConnectionType::Transport(4).debug_string(false));
}

#[test]
fn device_debug_form() {
    let d = Device::from_socket_text("192.168.1.1:5555");
    assert_eq!("Device{address=192.168.1.1:5555}", d.debug_string());
    let d = Device::try_from_transport_id(3).unwrap();
    assert_eq!("Device{address=3}", d.debug_string());
    let d = Device::try_from_serial("emulator-5554").unwrap();
    assert_eq!("Device{address=emulator-5554}", d.debug_string());
    assert_eq!("emulator-5554", d.0.debug_string());
}

#[test]
fn connection_type_test_copy() {
    let addr = ConnectionType::USB;
    let addr2 = addr.clone();
    assert_eq!(addr, addr2);
    let addr = ConnectionType::Transport(4);
    let addr2 = addr.clone();
    assert_eq!(addr, addr2);
    let addr = ConnectionType::TcpIp("192.168.1.1:5555".to_string());
    let addr2 = addr.clone();
    assert_eq!(addr, addr2);
}

#[test]
fn test_new_client() {
    let client = tcp_client();
    assert!(client.is_connected(Some(ExitStatus { code: Some(0), signal: None })));
    assert_eq!(vec!["-s", "192.168.1.101:5555", "get-state"], args(&client.is_connected_command()));
    let client = transport();
    assert!(!client.is_connected(Some(ExitStatus { code: Some(1), signal: None })));
    assert_eq!(vec!["-t", "4", "get-state"], args(&client.is_connected_command()));
}

#[test]
fn client_test_root() {
    let client = tcp_client();
    let was_root = client.is_root(Ok(Some("root".to_string()))).expect("failed to get user");
    if was_root {
        assert_eq!(vec!["-s", "192.168.1.101:5555", "unroot"], args(&client.unroot()));
    }
    let is_root = client.is_root(Ok(Some("shell".to_string()))).expect("failed to get user");
    assert!(!is_root);
    let success = client.root(Ok(is_root)).expect("failed to root client");
    assert!(matches!(success, RootAction::Run(_)));
    let is_root = client.is_root(Ok(Some("root".to_string()))).expect("failed to get user status");
    assert!(is_root);
    let is_root = client.is_root(Ok(None)).expect("failed to get user status");
    assert!(!is_root);
    let failed = client.root(Err(AdbError::Unknown("adbd cannot run as root".to_string())));
    assert!(matches!(failed, Err(AdbError::Unknown(_))));
}

#[test]
fn test_get_serialno() {
    let client = emulator();
    assert_eq!(vec!["-s", "emulator-5554", "get-serialno"], args(&client.get_seriano_command()));
    let serial_no = client.get_seriano(&b"emulator-5554\n".to_vec()).expect("failed to get serial number");
    assert!(serial_no.starts_with("emulator-"));
    let client = tcp_client();
    let serial_no = client.get_seriano(&b"192.168.1.101:5555\n".to_vec()).expect("failed to get serial number");
    let (host, port) = serial_no.rsplit_once(':').expect("failed to parse serial no");
    assert_eq!(4, host.split('.').filter(|p| p.parse::<u8>().is_ok()).count());
    assert_eq!(5555, port.parse::<u16>().unwrap());
}

#[test]
fn test_reconnect() {
    let client = emulator();
    assert_eq!(vec!["-s", "emulator-5554", "reconnect"], args(&client.reconnect_command(None)));
    assert_eq!(
        vec!["-s", "emulator-5554", "reconnect", "device"],
        args(&client.reconnect_command(Some(Reconnect::Device)))
    );
    assert_eq!(
        vec!["-s", "emulator-5554", "reconnect", "offline"],
        args(&client.reconnect_command(Some(Reconnect::Offline)))
    );
    let answer = client.reconnect(&b"reconnecting emulator-5554 [device]\n".to_vec()).expect("failed to reconnect");
    assert_eq!("reconnecting emulator-5554 [device]", answer);
}

#[test]
fn test_get_mac_address() {
    let client = tcp_client();
    let mac_address = client.get_mac_address(&b"a0:b1:c2:d3:e4:f5\n".to_vec()).expect("failed to read mac address");
    assert_eq!([0xa0, 0xb1, 0xc2, 0xd3, 0xe4, 0xf5], mac_address);
}

#[test]
fn test_get_wlan_address() {
    let client = tcp_client();
    match client.get_wlan_address(&b"not an address\n".to_vec()) {
        Ok(_) => panic!("the text is no address"),
        Err(err) => assert!(matches!(err, AdbError::MacParseError)),
    }
    let mac_address = client.get_wlan_address(&b"a0b1c2d3e4f5".to_vec()).expect("failed to read wlan address");
    assert_eq!([0xa0, 0xb1, 0xc2, 0xd3, 0xe4, 0xf5], mac_address);
}

#[test]
fn client_test_get_boot_id() {
    let client = tcp_client();
    let boot_id = client.get_boot_id(&b"  67e55044-10b1-426f-9247-bb680e5fe0c8  \n".to_vec()).expect("failed to read boot_id");
    assert_eq!(0x67e55044_10b1_426f_9247_bb680e5fe0c8u128, boot_id);
    assert!(matches!(client.get_boot_id(&b"no uuid".to_vec()), Err(AdbError::UuidError)));
}

#[test]
fn test_enable_verity() {
    let client = tcp_client();
    assert_eq!(vec!["-s", "192.168.1.101:5555", "enable-verity"], args(&client.enable_verity()));
    assert_eq!(vec!["-s", "192.168.1.101:5555", "disable-verity"], args(&client.disable_verity()));
}

#[test]
fn test_mount() {
    let client = tcp_client();
    assert_eq!(vec!["mount -o rw,remount", "/system"], shell_words(&client.mount("/system")));
    assert_eq!(vec!["mount -o ro,remount", "/system"], shell_words(&client.unmount("/system")));
}

#[test]
fn test_check_avbctl() {
    let client = emulator();
    let mut cache = radb_client::outside::new_path_cache(10);
    let shell = client.shell();
    assert!(matches!(shell.get_command_path(&mut cache, "avbctl"), CommandPath::Lookup(_)));
    let found = shell.store_command_path(&mut cache, "avbctl", Some(&b"\n".to_vec()));
    shell.command_path_result(found.clone()).expect_err("check_avbctl should fail");
    assert!(matches!(shell.get_verity_command(found), Err(AdbError::NotFound)));
    let client = tcp_client();
    let found = client.shell().store_command_path(&mut cache, "avbctl", Some(&b"/system/bin/avbctl\n".to_vec()));
    let _result = client.shell().command_path_result(found).expect("failed to check_avbctl");
}

#[test]
fn test_get_command_path() {
    let client = emulator();
    let mut cache = radb_client::outside::new_path_cache(10);
    let found = client.shell().store_command_path(&mut cache, "sh", Some(&b"/system/bin/sh\n".to_vec()));
    let path = client.shell().command_path_result(found).expect("failed to get sh path");
    assert_eq!("/system/bin/sh", path);
    let client = tcp_client();
    assert!(matches!(client.shell().get_command_path(&mut cache, "sh"), CommandPath::Lookup(_)));
    let found = client.shell().store_command_path(&mut cache, "sh", Some(&b"/system/bin/sh\n".to_vec()));
    let path = client.shell().command_path_result(found).expect("failed to get sh path");
    assert_eq!("/system/bin/sh", path);
}

#[test]
fn shell_test_get_verity() {
    let client = tcp_client();
    let has_avbctl = client.shell().has_command(Ok("/system/bin/avbctl".to_string())).expect("failed to check for avbctl");
    assert!(has_avbctl);
    let verity = client.shell().get_verity(&b"verity is disabled\n".to_vec()).expect("failed to get verity status");
    assert!(!verity);
}

#[test]
fn test_toggle_verity() {
    let client = tcp_client();
    let shell = client.shell();
    let enabled = shell.get_verity(&b"verity is disabled\n".to_vec()).expect("failed to get verity");
    let command = if enabled {
        shell.disable_verity(Some("avbctl".to_string())).expect("failed to disable verity")
    } else {
        shell.enable_verity(Some("avbctl".to_string())).expect("failed to disable verity")
    };
    assert_eq!(vec!["avbctl", "enable-verity"], shell_words(&command));
    let verity_enabled = shell.get_verity(&b"verity is enabled\n".to_vec()).expect("failed to get verity");
    assert_ne!(enabled, verity_enabled);
}

#[test]
fn test_file_mode() {
    let client = emulator();
    let command = client.shell().file_mode_command("/system/build.prop");
    assert_eq!(vec!["stat", "-L", "-c", "'%a'", "/system/build.prop"], shell_words(&command));
    let mode = client.shell().file_mode(&b"644\n".to_vec()).expect("failed to get file_mode");
    assert_eq!(644, mode);
    assert!(matches!(client.shell().file_mode(&b"rw-r--r--\n".to_vec()), Err(AdbError::ParseIntError)));
}

#[test]
fn test_ls() {
    let client = emulator();
    assert_eq!(vec!["ls", "/system"], shell_words(&client.shell().ls_command("/system", None)));
    let ls = client.shell().ls(&b"app\nbin\nbuild.prop\n".to_vec());
    assert!(!ls.is_empty());
    assert_eq!(vec!["app", "bin", "build.prop"], ls);
}

#[test]
fn test_dumpsys() {
    let client = emulator();
    let command = client.shell().dumpsys(Some("adb"), None, None, false, false, false, None);
    assert_eq!(vec!["dumpsys", "adb"], shell_words(&command));
    let dump = finished(Some(0), None, b"ADB MANAGER STATE (dumpsys adb):\n");
    assert!(dump.is_success());
    assert!(!dump.stdout.is_empty());
}

#[test]
fn shell_test_screen_mirror() {
    let client = emulator();
    let (record, play) = client.shell().screen_mirror(None, None);
    assert_eq!(vec!["screenrecord --output-format=h264 --bit-rate 20000000 --time-limit 10 -"], shell_words(&record));
    assert_eq!("-framerate", play[0]);
    assert_eq!("-", play[play.len() - 1]);
}

#[test]
fn shell_test_save_screencap() {
    let client = emulator();
    let shell = client.shell();
    assert!(shell.path_exists(&b"1\n".to_vec()));
    assert_eq!(
        vec!["test -e \"/sdcard/Download/screencap.png\" && echo 1 || echo 0"],
        shell_words(&shell.path_exists_command("/sdcard/Download/screencap.png"))
    );
    assert_eq!(vec!["screencap", "-p", "/sdcard/Download/screencap.png"], shell_words(&shell.save_screencap("/sdcard/Download/screencap.png")));
    assert!(shell.path_exists(&b"1\n".to_vec()));
    let pull = client.pull("/sdcard/Download/screencap.png", "/tmp");
    assert_eq!(vec!["-s", "emulator-5554", "pull", "/sdcard/Download/screencap.png", "/tmp"], args(&pull));
    assert_eq!(vec!["rm", "/sdcard/Download/screencap.png"], shell_words(&shell.rm("/sdcard/Download/screencap.png", None)));
}

#[test]
fn test_get_prop() {
    let client = emulator();
    let prop = client.shell().getprop(&b"emulator64_arm64\n".to_vec()).expect("failed to get prop");
    assert!(!prop.is_empty());
    assert!(prop.starts_with("emulator"));
}

#[test]
fn test_get_props() {
    let client = emulator();
    let props = client.shell().getprops(&b"[ro.build.id]: [UE1A]\n[ro.build.product]: [emulator64_arm64]\n".to_vec());
    assert!(!props.is_empty());
    let prop = props.iter().find(|item| item.key == "ro.build.product").unwrap();
    let prop2 = client.shell().getprop(&b"emulator64_arm64\n".to_vec()).unwrap();
    assert_eq!(prop.value, prop2);
}

#[test]
fn test_get_props_type() {
    let client = emulator();
    let props = client.shell().getprop_types(&b"[ro.build.id]: [string]\n[ro.build.product]: [string]\n".to_vec());
    assert!(!props.is_empty());
    let prop_type = &props.iter().find(|(k, _)| k == "ro.build.product").unwrap().1;
    assert_eq!(&PropType::String, prop_type);
}

#[test]
fn test_set_prop() {
    let client = emulator();
    let prop = client.shell().getprop(&b"I\n".to_vec()).expect("failed to getprop");
    let new_prop = if prop == "I" { "D" } else { "I" };
    assert_eq!(vec!["setprop", "log.tag.stats_log", "D"], shell_words(&client.shell().setprop("log.tag.stats_log", new_prop)));
    let prop = client.shell().getprop(&b"D\n".to_vec()).expect("failed to getprop");
    assert_eq!(new_prop, prop);
}

#[test]
fn test_clean_prop() {
    let client = emulator();
    assert_eq!(vec!["setprop", "log.tag.stats_log", "\"\""], shell_words(&client.shell().clear_prop("log.tag.stats_log")));
    let prop = client.shell().getprop(&b"\n".to_vec()).expect("failed to getprop");
    assert_eq!("", prop);
}

#[test]
fn test_get_prop_type() {
    let client = emulator();
    assert_eq!(vec!["getprop", "-T", "log.tag.stats_log"], shell_words(&client.shell().getprop_type_command("log.tag.stats_log")));
    let prop = client.shell().getprop_type(&b"string".to_vec()).expect("failed to get prop type");
    assert_eq!(PropType::String, PropType::from_str(&prop));
}

#[test]
fn test_send_swipe() {
    let client = emulator();
    let swipe = client.shell().send_swipe((0, 0), (500, 500), None, None);
    assert_eq!(vec!["input", "swipe", "0 0 500 500"], shell_words(&swipe));
    let swipe = client.shell().try_send_swipe((0, 0), (500, 500), Some(300), None);
    assert_eq!(vec!["input", "swipe", "0 0 500 500", "300"], shell_words(&swipe));
}

#[test]
fn test_force_stop() {
    let client = tcp_client();
    let command = client.shell().am().force_stop("com.android.bluetooth");
    assert_eq!(vec!["am", "force-stop", "com.android.bluetooth"], shell_words(&command));
}

#[test]
fn test_start_service() {
    let client = tcp_client();
    let mut intent = Intent::from_action("swisscom.android.tv.action.FIRMWARE_ACTIVE_CHECK");
    intent.component = Some(format!("{}/.service.SystemService", "com.swisscom.aot.library.standalone"));
    intent.wait = true;
    let command = client.shell().am().start_service(&intent);
    assert_eq!(
        vec![
            "am",
            "startservice",
            "-a swisscom.android.tv.action.FIRMWARE_ACTIVE_CHECK -n com.swisscom.aot.library.standalone/.service.SystemService -W ",
        ],
        shell_words(&command)
    );
}

#[test]
fn test_start_foreground_service() {
    let client = tcp_client();
    let mut intent = Intent::from_action("swisscom.android.tv.action.FIRMWARE_ACTIVE_CHECK");
    intent.component = Some(format!("{}/.service.SystemService", "com.swisscom.aot.library.standalone"));
    intent.wait = true;
    let command = client.shell().am().start_foreground_service(&intent);
    assert_eq!("start-foreground-service", shell_words(&command)[1]);
}

#[test]
fn test_broadcast() {
    let client = tcp_client();
    let mut intent = Intent::from_action("com.google.android.katniss.action.ENABLE_INTENT_LOGGER");
    intent.receiver_foreground = true;
    intent.wait = true;
    intent.package = Some("com.google.android.katniss".to_string());
    let command = client.shell().am().broadcast(&intent);
    assert_eq!(
        vec![
            "am",
            "broadcast",
            "-a com.google.android.katniss.action.ENABLE_INTENT_LOGGER -p com.google.android.katniss --receiver-foreground -W ",
        ],
        shell_words(&command)
    );
    let ok = finished(Some(0), None, b"Broadcast completed: result=0\n");
    radb_client::command::handle_result(&ok).expect("failed to send broadcast");
}

#[test]
fn test_kill() {
    let client = tcp_client();
    let command = client.shell().am().kill(UserOption::Current, "com.swisscom.aot.library.standalone");
    assert_eq!(vec!["am", "kill", "current", "com.swisscom.aot.library.standalone"], shell_words(&command));
}

#[test]
fn test_kill_all() {
    let client = tcp_client();
    assert_eq!(vec!["am", "kill-all"], shell_words(&client.shell().am().kill_all()));
}

#[test]
fn test_trim_memory() {
    let client = tcp_client();
    let command = client.shell().am().trim_memory("com.swisscom.aot.ui", MemoryStatus::RunningLow);
    assert_eq!(vec!["am", "send-trim-memory", "com.swisscom.aot.ui", "RUNNING_LOW"], shell_words(&command));
}

#[test]
fn test_crash() {
    let client = tcp_client();
    let command = client.shell().am().crash(None, "com.swisscom.aot.ui");
    assert_eq!(vec!["am", "crash", "com.swisscom.aot.ui"], shell_words(&command));
}

#[test]
fn test_get_current_user() {
    let client = emulator();
    let am = client.shell().am();
    assert_eq!(vec!["am", "get-current-user"], shell_words(&am.get_current_user_command()));
    let user = am.get_current_user(&finished(Some(0), None, b"0\n")).expect("failed to get current user");
    assert_eq!("0", user);
    let failed = am.get_current_user(&finished(Some(255), None, b""));
    assert!(matches!(failed, Err(AdbError::CmdError(_))));
    let killed = am.get_current_user(&finished(None, Some(9), b" 10 "));
    assert_eq!(Ok("10".to_string()), killed);
}

#[test]
fn test_start() {
    let client = tcp_client();
    let mut intent = Intent::from_action("android.intent.action.VIEW");
    intent.data = Some("http://www.google.com".to_string());
    intent.wait = true;
    let command = client.shell().am().start(&intent);
    assert_eq!(vec!["am", "start", "-a android.intent.action.VIEW -d http://www.google.com -W "], shell_words(&command));
}

#[test]
fn test_screen_record_args() {
    let client = emulator();
    let mut options = ScreenRecordOptions::new();
    options.verbose = true;
    options.timelimit = Some(12);
    let command = client.shell().screen_record(Some(options), "/sdcard/Download/screenrecord.mp4");
    assert_eq!(
        vec![
            "screenrecord",
            "--bit-rate",
            "20000000",
            "--time-limit",
            "12",
            "--verbose",
            "/sdcard/Download/screenrecord.mp4",
        ],
        shell_words(&command)
    );
}

#[test]
fn screen_record_client_default_is_four_megabits() {
    let client = emulator();
    let options = ScreenRecordOptions::client_default();
    assert_eq!(Some(4_000_000), options.bitrate);
    assert_eq!(Some(10), options.timelimit);
    let command = client.shell().screen_record(Some(options), "/sdcard/a.mp4");
    assert_eq!(
        vec!["screenrecord", "--bit-rate", "4000000", "--time-limit", "10", "/sdcard/a.mp4"],
        shell_words(&command)
    );
}
