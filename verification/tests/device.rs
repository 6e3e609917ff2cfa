// Client and shell scenarios against one device, each with the output a
// device gives to the command that the operation runs.

use radb_client::client::{Adb, AdbClient, ConnectAction, ConnectEvent, RootAction};
use radb_client::command::{AdbCommand, ExitStatus, ProcessOutput};
use radb_client::device::Device;
use radb_client::error::AdbError;
use radb_client::intent::Intent;
use radb_client::keycode::KeyCode;
use radb_client::logcat::{LogcatOptions, LogcatTime};
use radb_client::options::{FFPlayOptions, ScreenRecordOptions};
use radb_client::shell::CommandPath;
use radb_client::types::{
    DumpsysPriority, InputSource, KeyEventType, LogcatLevel, LogcatTag, MotionEvent, PropType, SELinuxType,
    SettingsType, Wakefulness,
};

fn client() -> AdbClient {
    AdbClient { adb: Adb("adb".to_string()), device: Device::from_socket_text("192.168.1.6:5555") }
}

fn args(c: &AdbCommand) -> Vec<&str> {
    c.args.iter().map(|s| s.as_str()).collect()
}

fn shell_args<'a>(c: &'a AdbCommand) -> Vec<&'a str> {
    assert_eq!(vec!["-s", "192.168.1.6:5555", "shell"], args(c)[..3].to_vec());
    args(c)[3..].to_vec()
}

fn exited(code: i32) -> ExitStatus {
    ExitStatus { code: Some(code), signal: None }
}

#[test]
fn tests_test_copy() {
    let client = client();
    let cloned = AdbClient::copy(&client);
    assert_eq!(client, cloned);
    let command = cloned.name_command();
    assert_eq!(vec!["getprop", "ro.build.product"], shell_args(&command));
}

#[test]
fn test_parse() {
    let device = Device::from_socket_text("192.168.1.128");
    let client = AdbClient::try_from_device(device, Ok(Adb("adb".to_string()))).unwrap();
    assert_eq!(vec!["-s", "192.168.1.128"], args(&client.is_connected_command())[..2].to_vec());
}

#[test]
fn tests_test_connect() {
    let client = client();
    match client.connect(Some(10_000), ConnectEvent::StateBefore(false)) {
        ConnectAction::Run(c) => assert_eq!(vec!["connect", "192.168.1.6:5555"], args(&c)),
        _ => panic!("expected adb connect"),
    }
    match client.connect(Some(10_000), ConnectEvent::StateAfter(true)) {
        ConnectAction::Done(r) => r.unwrap(),
        _ => panic!("expected the end of the attempt"),
    }
}

#[test]
fn test_is_connected() {
    let client = client();
    assert_eq!(vec!["-s", "192.168.1.6:5555", "get-state"], args(&client.is_connected_command()));
    assert!(client.is_connected(Some(exited(0))));
    assert!(!client.is_connected(Some(exited(1))));
}

#[test]
fn test_whoami() {
    let client = client();
    assert_eq!(vec!["whoami"], shell_args(&client.shell().whoami_command()));
    let whoami = client.shell().whoami(&b"shell\n".to_vec());
    assert!(whoami.is_some(), "unknown whoami");
}

#[test]
fn tests_test_remount() {
    let client = client();
    match client.root(Ok(false)).expect("root failed") {
        RootAction::Run(c) => assert_eq!(vec!["-s", "192.168.1.6:5555", "root"], args(&c)),
        RootAction::AlreadyRoot => panic!("expected adb root"),
    }
    assert_eq!(vec!["-s", "192.168.1.6:5555", "remount"], args(&client.remount()));
}

#[test]
fn tests_test_root() {
    let client = client();
    let success = client.root(Ok(true)).expect("root failed");
    assert!(matches!(success, RootAction::AlreadyRoot), "root failed");
}

#[test]
fn tests_test_is_root() {
    let client = client();
    let was_rooted = client.is_root(Ok(client.shell().whoami(&b"shell\n".to_vec()))).expect("is_root failed");
    if was_rooted {
        assert_eq!(vec!["-s", "192.168.1.6:5555", "unroot"], args(&client.unroot()));
    } else {
        assert!(matches!(client.root(Ok(was_rooted)), Ok(RootAction::Run(_))));
    }
    let is_rooted = client.is_root(Ok(client.shell().whoami(&b"root\n".to_vec()))).expect("is_root failed");
    assert_ne!(is_rooted, was_rooted);
}

#[test]
fn tests_test_which() {
    let client = client();
    assert_eq!(vec!["which", "busybox"], shell_args(&client.shell().which_command("busybox")));
    let w = client.shell().which(&b"/vendor/bin/busybox\n".to_vec());
    assert!(w.is_some(), "which failed");
    let result = w.unwrap();
    assert_eq!(result.as_str(), "/vendor/bin/busybox");
}

#[test]
fn test_getprop() {
    let client = client();
    assert_eq!(vec!["getprop", "wifi.interface"], shell_args(&client.shell().getprop_command("wifi.interface")));
    let output = client.shell().getprop(&b"wlan0\n".to_vec()).expect("getprop failed");
    assert_eq!("wlan0", output.trim_end());
    let stb_name = client.shell().getprop(&b"Swisscom Box\n".to_vec()).expect("failed to read persist.sys.stb.name");
    assert!(stb_name.len() > 1);
}

#[test]
fn test_setprop() {
    let client = client();
    let shell = client.shell();
    let prop = shell.getprop(&b"256m\n".to_vec()).unwrap();
    assert!(!prop.is_empty());
    assert_eq!(vec!["setprop", "dalvik.vm.heapsize", "512m"], shell_args(&shell.setprop("dalvik.vm.heapsize", "512m")));
    assert_eq!(shell.getprop(&b"512m\n".to_vec()).unwrap(), "512m");
    assert_eq!(vec!["setprop", "debug.hwui.overdraw", "\"\""], shell_args(&shell.setprop("debug.hwui.overdraw", "")));
    assert_eq!(shell.getprop(&b"\n".to_vec()).unwrap(), "");
}

#[test]
fn test_getprop_types() {
    let client = client();
    assert_eq!(vec!["getprop", "-T"], shell_args(&client.shell().getprop_types_command()));
    let types = client.shell().getprop_types(&b"[dalvik.vm.heapsize]: [string]\n[ro.debuggable]: [bool]\n".to_vec());
    assert_eq!(2, types.len());
    assert_eq!(("ro.debuggable".to_string(), PropType::Bool), types[1]);
}

#[test]
fn test_get_device_mac_address() {
    let client = client();
    assert_eq!(vec!["cat", "/sys/class/net/eth0/address"], shell_args(&client.get_mac_address_command()));
    let address = client.get_mac_address(&b"00:11:22:aa:bb:cc\n".to_vec()).expect("failed to get mac address");
    assert_eq!([0x00, 0x11, 0x22, 0xaa, 0xbb, 0xcc], address);
}

#[test]
fn test_get_device_wlan_address() {
    let client = client();
    assert_eq!(vec!["cat", "/sys/class/net/wlan0/address"], shell_args(&client.get_wlan_address_command()));
    let address = client.get_wlan_address(&b"02-00-00-00-00-01\n".to_vec()).expect("failed to get wlan0 address");
    assert_eq!([2, 0, 0, 0, 0, 1], address);
}

#[test]
fn test_cat() {
    let client = client();
    let command = client.shell().cat("/timeshift/conf/tvlib-aot.properties");
    assert_eq!(vec!["cat", "/timeshift/conf/tvlib-aot.properties"], shell_args(&command));
    let output = b"a=1\nb=2\n".to_vec();
    let lines = radb_client::text::strict_lines(&output).expect("lines are not UTF-8");
    assert!(lines.iter().all(|l| !l.is_empty()));
    assert_eq!(vec!["a=1".to_string(), "b=2".to_string()], lines);
}

#[test]
fn test_getprops() {
    let client = client();
    let properties = client.shell().getprops(&b"[ro.product.model]: [IP2300]\n[wifi.interface]: [wlan0]\n".to_vec());
    assert!(properties.len() > 0);
    assert_eq!("wifi.interface", properties[1].key);
    assert_eq!("wlan0", properties[1].value);
}

#[test]
fn test_exists() {
    let client = client();
    let command = client.shell().path_exists_command("/timeshift/conf/tvlib-aot.properties");
    assert_eq!(
        vec!["test -e \"/timeshift/conf/tvlib-aot.properties\" && echo 1 || echo 0"],
        shell_args(&command)
    );
    let exists = client.shell().path_exists(&b"1\n".to_vec());
    assert_eq!(true, exists);
}

#[test]
fn test_is_file() {
    let client = client();
    let command = client.shell().is_file_command("/timeshift/conf/tvlib-aot.properties");
    assert_eq!(
        vec!["test -f \"/timeshift/conf/tvlib-aot.properties\" && echo 1 || echo 0"],
        shell_args(&command)
    );
    let f1 = client.shell().is_file(&b"1\n".to_vec());
    assert_eq!(true, f1);
    let f2 = client.shell().is_file(&b"0\n".to_vec());
    assert_eq!(false, f2);
}

#[test]
fn test_is_dir() {
    let client = client();
    let command = client.shell().is_dir_command("/timeshift/conf/");
    assert_eq!(vec!["test -d \"/timeshift/conf/\" && echo 1 || echo 0"], shell_args(&command));
    let f1 = client.shell().is_dir(&b"0\n".to_vec());
    assert_eq!(false, f1);
    let f2 = client.shell().is_dir(&b"1\n".to_vec());
    assert_eq!(true, f2);
}

#[test]
fn tests_test_disconnect() {
    let client = client();
    assert_eq!(vec!["disconnect", "192.168.1.6:5555"], args(&client.disconnect()));
    assert_eq!(args(&client.disconnect()), args(&client.try_disconnect()));
    assert!(!client.try_disconnect().spawn_only);
    assert!(!client.is_connected(Some(exited(1))));
}

#[test]
fn tests_test_disconnect_all() {
    let adb = Adb("adb".to_string());
    assert_eq!(vec!["disconnect"], args(&adb.disconnect_all()));
}

#[test]
fn test_list_dir() {
    let client = client();
    let command = client.shell().ls_command("/system", Some("-lpALF"));
    assert_eq!(vec!["ls", "-lpALF", "/system"], shell_args(&command));
    let output = b"drwxr-xr-x 2 root root 4096 2023-01-01 00:00 app/\nlrw-r--r-- 1 root root 7 2023-01-01 00:00 vendor -> /vendor\n".to_vec();
    let lines = client.shell().ls(&output);
    assert_eq!(2, lines.len());
    let vendor = &lines[1];
    assert!(vendor.starts_with('l'));
    assert!(!vendor.starts_with('d'));
    assert!(!vendor.starts_with('-'));
}

#[test]
fn tests_test_list_settings() {
    let client = client();
    let shell = client.shell();
    let settings = shell.list_settings(&b"screen_brightness=102\nvolume_music=11\n".to_vec()).expect("list settings failed");
    assert!(settings.len() > 0);
    for s in settings {
        let command = shell.get_setting_command(SettingsType::system, s.key.as_str());
        assert_eq!(vec!["settings", "get", "system", s.key.as_str()], shell_args(&command));
        let mut answer = s.value.clone().into_bytes();
        answer.push(b'\n');
        let value = shell.get_setting_text(&answer).expect("get setting failed").expect("parse value failed");
        assert_eq!(s.value, value);
    }
}

#[test]
fn test_list_dumpsys() {
    let client = client();
    let command = client.shell().dumpsys_list_command(false, Some(DumpsysPriority::CRITICAL));
    assert_eq!(vec!["dumpsys", "-l", "--priority", "CRITICAL"], shell_args(&command));
    let output = client.shell().dumpsys_list(&b"Currently running services:\n  SurfaceFlinger\n  activity\n".to_vec());
    assert_eq!(vec!["SurfaceFlinger".to_string(), "activity".to_string()], output);
}

#[test]
fn tests_test_save_screencap() {
    let client = client();
    let shell = client.shell();
    assert!(shell.path_exists(&b"1\n".to_vec()));
    let rm = shell.rm("/sdcard/Download/screencap.png", None);
    assert_eq!(vec!["rm", "/sdcard/Download/screencap.png"], shell_args(&rm));
    let save = shell.save_screencap("/sdcard/Download/screencap.png");
    assert_eq!(vec!["screencap", "-p", "/sdcard/Download/screencap.png"], shell_args(&save));
    assert!(shell.path_exists(&b"1\n".to_vec()));
}

#[test]
fn tests_test_is_screen_on() {
    let client = client();
    let result = client.shell().is_screen_on(&b"    mInteractive=true\n".to_vec()).expect("is screen on failed");
    assert_eq!(result, true);
}

#[test]
fn tests_test_get_events() {
    let client = client();
    let output = b"add device 1: /dev/input/event3\n  name:     \"gpio-keys\"\n".to_vec();
    let events = client.shell().get_events(&output).unwrap();
    assert!(events.len() > 0);
    assert_eq!("/dev/input/event3", events[0].0);
}

#[test]
fn test_send_events() {
    let client = client();
    let shell = client.shell();
    let output = b"add device 1: /dev/input/event3\n  name:     \"gpio-keys\"\n".to_vec();
    let events: Vec<String> = shell.get_events(&output).unwrap().iter().map(|x| x.0.clone()).collect();
    let event = if events.contains(&"/dev/input/event3".to_string()) { "/dev/input/event3" } else { "/dev/input/event0" };
    let down = shell.send_event(event, 0x0001, 0x006a, 0x00000001);
    assert_eq!(vec!["sendevent", "/dev/input/event3", "1", "106", "1"], shell_args(&down));
    let sync = shell.send_event(event, 0x0000, 0x0000, 0x00000000);
    assert_eq!(vec!["sendevent", "/dev/input/event3", "0", "0", "0"], shell_args(&sync));
}

#[test]
fn tests_test_clear_logcat() {
    let client = client();
    assert_eq!(vec!["-s", "192.168.1.6:5555", "logcat", "-b", "all", "-c"], args(&client.clear_logcat()));
}

#[test]
fn tests_test_list_devices() {
    let adb = Adb("adb".to_string());
    assert_eq!(vec!["devices", "-l"], args(&adb.list_devices_command()));
    let output = b"List of devices attached\nemulator-5554          device product:sdk_gphone64_arm64 model:sdk_gphone64_arm64 device:emu64a transport_id:1\n\n".to_vec();
    let devices = adb.list_devices(&output).expect("failed to list devices");
    assert_eq!(1, devices.len());
}

#[test]
fn test_logcat() {
    let client = client();
    let since = LogcatTime { month: 3, day: 7, hour: 9, minute: 5, second: 0, millisecond: 42 };
    let options = LogcatOptions {
        expr: None,
        dump: false,
        filename: None,
        tags: None,
        format: None,
        since: Some(since),
        pid: None,
        timeout_ms: Some(5000),
    };
    let command = client.logcat(&options);
    assert_eq!(vec!["-s", "192.168.1.6:5555", "logcat", "-t", "03-07 09:05:00.042"], args(&command));
    assert_eq!(Some(5000), command.timeout_ms);
}

#[test]
fn test_client_api_level() {
    let client = client();
    assert_eq!(vec!["getprop", "ro.build.version.sdk"], shell_args(&client.api_level_command()));
    let api_level = client.api_level(&b"30\n".to_vec()).unwrap();
    assert!(api_level.parse::<u8>().unwrap() > 0);
}

#[test]
fn test_client_name() {
    let client = client();
    let name = client.name(Ok(b"ip2300\n".to_vec())).unwrap();
    assert!(name.is_some());
    let string = name.unwrap();
    assert!(string.len() > 0);
}

#[test]
fn test_client_version() {
    let client = client();
    assert_eq!(vec!["getprop", "ro.build.version.release"], shell_args(&client.version_command()));
    let version = client.version(&b"11\n".to_vec()).unwrap();
    assert_eq!(11, version);
}

#[test]
fn test_client_uuid() {
    let client = client();
    let command = client.shell().exec(vec!["scmuuid_test".to_string()], None);
    assert_eq!(vec!["scmuuid_test"], shell_args(&command));
    let result = ProcessOutput {
        status: exited(0),
        stdout: b"CHIPID: 1234\nVMXCHIPID: 5678\nUUID: 550e8400-e29b-41d4-a716-446655440000\n".to_vec(),
        stderr: Vec::new(),
    };
    assert!(result.is_success());
    assert!(result.has_stdout());
    let text = String::from_utf8(result.stdout()).unwrap();
    let uid = text.lines().find_map(|l| l.strip_prefix("UUID: ")).expect("failed to get UUID");
    assert!(!uid.is_empty(), "uuid is empty");
    let boot = client.get_boot_id(&format!("{}\n", uid).into_bytes()).unwrap();
    assert_eq!(0x550e8400_e29b_41d4_a716_446655440000u128, boot);
}

#[test]
fn tests_test_copy_screencap() {
    let client = client();
    let img = image::RgbaImage::new(1, 1);
    let mut png = std::io::Cursor::new(Vec::new());
    img.write_to(&mut png, image::ImageFormat::Png).unwrap();
    let screen = client.copy_screencap(&png.into_inner()).unwrap();
    assert_eq!((1, 1), (screen.width, screen.height));
    assert!(matches!(client.copy_screencap(&b"not a png".to_vec()), Err(AdbError::ImageError(_))));
}

#[test]
fn tests_test_get_boot_id() {
    let client = client();
    assert_eq!(vec!["cat", "/proc/sys/kernel/random/boot_id"], shell_args(&client.get_boot_id_command()));
    let boot_id = client.get_boot_id(&b"4a7c3a9e-8c8d-4f4b-9f5e-3c2d1b0a9f8e\n".to_vec()).expect("failed to get boot id");
    assert_eq!(0x4a7c3a9e_8c8d_4f4b_9f5e_3c2d1b0a9f8eu128, boot_id);
}

#[test]
fn test_send_broadcast() {
    let client = client();
    let shell = client.shell();
    let package_name = "com.swisscom.aot.library.standalone";
    let mut intent = Intent::from_action("swisscom.android.tv.action.PRINT_SESSION_INFO");
    intent.component = Some(format!("{:}/.receiver.PropertiesReceiver", package_name));
    intent.extra.put_string_extra("swisscom.android.tv.extra.TAG", "SESSION_INFO");
    intent.wait = true;
    let command = shell.broadcast(&intent);
    assert_eq!(
        vec![
            "am",
            "broadcast",
            "-a swisscom.android.tv.action.PRINT_SESSION_INFO -n com.swisscom.aot.library.standalone/.receiver.PropertiesReceiver -W --es swisscom.android.tv.extra.TAG SESSION_INFO",
        ],
        shell_args(&command)
    );
    assert_eq!(Some(1000), command.timeout_ms);

    let options = LogcatOptions {
        expr: None,
        dump: true,
        filename: None,
        tags: Some(vec![LogcatTag { name: "SESSION_INFO".to_string(), level: LogcatLevel::Info }]),
        format: None,
        since: None,
        pid: None,
        timeout_ms: Some(5000),
    };
    let logcat = client.logcat(&options);
    assert_eq!(vec!["-s", "192.168.1.6:5555", "logcat", "-d", "SESSION_INFO:I", "*:S"], args(&logcat));
    let o = ProcessOutput {
        status: exited(0),
        stdout: b"05-10 12:00:00.000  1000  1000 I SESSION_INFO: {\"id\":1}\n".to_vec(),
        stderr: Vec::new(),
    };
    assert!(o.is_success());
    assert!(!o.is_kill());
    assert!(!o.is_interrupt());
    let lines: Vec<String> = String::from_utf8(o.stdout).unwrap().lines().filter(|l| l.contains(" SESSION_INFO:")).map(|l| l.to_string()).collect();
    assert_eq!(lines.len(), 1);
}

#[test]
fn tests_test_get_enforce() {
    let client = client();
    assert_eq!(vec!["getenforce"], shell_args(&client.shell().get_enforce_command()));
    let enforce = client.shell().get_enforce(&b"Permissive\n".to_vec()).unwrap();
    assert_eq!(SELinuxType::Permissive, enforce);
}

#[test]
fn tests_test_set_enforce() {
    let client = client();
    let shell = client.shell();
    let enforce1 = shell.get_enforce(&b"Permissive\n".to_vec()).unwrap();
    let command = if enforce1 == SELinuxType::Permissive {
        shell.set_enforce(SELinuxType::Enforcing)
    } else {
        shell.set_enforce(SELinuxType::Permissive)
    };
    assert_eq!(vec!["setenforce", "1"], shell_args(&command));
    assert_ne!(enforce1, shell.get_enforce(&b"Enforcing\n".to_vec()).unwrap());
}

#[test]
fn test_mount_unmount() {
    let client = client();
    assert_eq!(vec!["mount -o rw,remount", "/system"], shell_args(&client.mount("/system")));
    assert_eq!(vec!["mount -o ro,remount", "/system"], shell_args(&client.unmount("/system")));
}

#[test]
fn tests_test_wait_for_device() {
    let client = client();
    let command = client.wait_for_device(Some(5000));
    assert_eq!(Some(5000), command.timeout_ms);
    assert_eq!("wait-for-device", command.args[2]);
    assert!(client.is_connected(Some(exited(0))));
}

#[test]
fn test_reboot_and_wait() {
    let client = client();
    assert_eq!(vec!["-s", "192.168.1.6:5555", "reboot", ""], args(&client.reboot(None)));
    let wait = client.wait_for_device(None);
    assert_eq!(None, wait.timeout_ms);
    assert!(client.is_connected(Some(exited(0))));
}

#[test]
fn test_am_broadcast() {
    let client = client();
    let package_name = "com.swisscom.aot.library.standalone";
    let mut intent = Intent::from_action("swisscom.android.tv.action.PRINT_SESSION_INFO");
    intent.component = Some(format!("{:}/.receiver.PropertiesReceiver", package_name));
    intent.extra.put_string_extra("swisscom.android.tv.extra.TAG", "SESSION_INFO");
    intent.wait = true;
    let command = client.am().broadcast(&intent);
    assert_eq!("broadcast", shell_args(&command)[1]);
    assert!(shell_args(&command)[2].ends_with("--es swisscom.android.tv.extra.TAG SESSION_INFO"));
}

#[test]
fn test_am_start() {
    let client = client();
    let mut intent = Intent::from_action("android.intent.action.VIEW");
    intent.data = Some("http://www.google.com".to_string());
    intent.wait = true;
    let command = client.am().start(&intent);
    assert_eq!(vec!["am", "start", "-a android.intent.action.VIEW -d http://www.google.com -W "], shell_args(&command));
}

#[test]
fn test_am_force_stop() {
    let client = client();
    let command = client.am().force_stop("com.swisscom.aot.ui");
    assert_eq!(vec!["am", "force-stop", "com.swisscom.aot.ui"], shell_args(&command));
}

#[test]
fn test_shell_send_key_event() {
    let client = client();
    let command = client.shell().send_keyevent(KeyCode::KEYCODE_1, Some(KeyEventType::DoubleTap), Some(InputSource::dpad));
    assert_eq!(vec!["input", "dpad", "keyevent", "--doubletap", "KEYCODE_1"], shell_args(&command));
}

#[test]
fn test_shell_send_motion() {
    let client = client();
    let shell = client.shell();
    assert_eq!(vec!["input", "motionevent", "DOWN", "1000", "600"], shell_args(&shell.send_motion(None, MotionEvent::DOWN, (1000, 600))));
    assert_eq!(vec!["input", "motionevent", "MOVE", "1000", "100"], shell_args(&shell.send_motion(None, MotionEvent::MOVE, (1000, 100))));
    assert_eq!(vec!["input", "motionevent", "UP", "1000", "100"], shell_args(&shell.send_motion(None, MotionEvent::UP, (1000, 100))));
}

#[test]
fn test_shell_send_drag_and_drop() {
    let client = client();
    let command = client.shell().send_draganddrop(None, Some(1500), (1800, 600), (1700, 100));
    assert_eq!(vec!["input", "draganddrop", "1800", "600", "1700", "100", "1500"], shell_args(&command));
}

#[test]
fn test_shell_send_press() {
    let client = client();
    assert_eq!(vec!["input", "press"], shell_args(&client.shell().send_press(None)));
}

#[test]
fn test_shell_send_keycombination() {
    let client = client();
    let command = client.shell().send_keyevent_combination(None, vec![KeyCode::KEYCODE_1, KeyCode::KEYCODE_3]);
    assert_eq!(vec!["input", "keycombination", "KEYCODE_1", "KEYCODE_3"], shell_args(&command));
}

#[test]
fn test_shell_send_key_code() {
    let client = client();
    assert_eq!(vec!["input", "keyevent", "82"], shell_args(&client.shell().send_keycode(82, None, None)));
}

#[test]
fn test_shell_send_key_events() {
    let client = client();
    let command = client.shell().send_keyevents(vec![KeyCode::KEYCODE_1, KeyCode::KEYCODE_9], Some(InputSource::dpad));
    assert_eq!(vec!["input", "dpad", "keyevent", "KEYCODE_1", "KEYCODE_9"], shell_args(&command));
}

#[test]
fn test_is_awake() {
    let client = client();
    let is_awake = client.is_awake(client.get_wakefulness(&b"Awake\n".to_vec())).unwrap();
    assert!(is_awake);
}

#[test]
fn test_get_awake_status() {
    let client = client();
    let status = client.get_wakefulness(&b"Dreaming\n".to_vec()).unwrap();
    assert_eq!(Wakefulness::Dreaming, status);
}

#[test]
fn test_shell_dumpsys() {
    let client = client();
    let command = client.shell().dumpsys(Some("adb"), None, None, true, false, false, None);
    assert_eq!(vec!["dumpsys", "--pid", "adb"], shell_args(&command));
}

#[test]
fn test_screen_mirror2() {
    let client = client();
    let screen_record_options = ScreenRecordOptions {
        bitrate: Some(4_000_000),
        timelimit: Some(10),
        rotate: None,
        bug_report: None,
        size: Some((1920, 1080)),
        verbose: false,
    };
    let play_options = FFPlayOptions::default();
    let (record, play) = client.shell().screen_mirror(Some(screen_record_options), Some(play_options));
    assert_eq!(
        vec!["screenrecord --output-format=h264 --bit-rate 4000000 --time-limit 10 --size 1920x1080 -"],
        shell_args(&record)
    );
    assert_eq!(
        vec![
            "-framerate", "30", "-probesize", "300", "-vf", "scale=1440:800", "-loglevel", "repeat+level+verbose", "-an",
            "-autoexit", "-sync", "video", "-",
        ],
        play
    );
}

#[test]
fn test_try_send_events() {
    let client = client();
    for _ in 0..4 {
        let command = client.shell().try_send_keyevent(KeyCode::KEYCODE_DPAD_UP, None, None);
        assert_eq!(vec!["input", "keyevent", "KEYCODE_DPAD_UP"], shell_args(&command));
    }
}

#[test]
fn test_get_command() {
    let client = client();
    let shell = client.shell();
    let mut cache = radb_client::outside::new_path_cache(10);
    let lookup = match shell.get_command_path(&mut cache, "avbctl") {
        CommandPath::Lookup(c) => c,
        CommandPath::Known(_) => panic!("the cache starts empty"),
    };
    assert_eq!(vec!["command -v avbctl"], shell_args(&lookup));
    let found = shell.store_command_path(&mut cache, "avbctl", Some(&b"/system/bin/avbctl\n".to_vec()));
    let command = shell.command_path_result(found).unwrap();
    assert_eq!("/system/bin/avbctl", command.as_str());
    match shell.get_command_path(&mut cache, "avbctl") {
        CommandPath::Known(p) => assert_eq!(Some("/system/bin/avbctl".to_string()), p),
        CommandPath::Lookup(_) => panic!("the path was stored"),
    }
    let missing = shell.store_command_path(&mut cache, "this_should_not_exist!", Some(&Vec::new()));
    let _ = shell.command_path_result(missing).expect_err("Error expected!");
}

#[test]
fn tests_test_get_verity() {
    let client = client();
    let command = client.shell().get_verity_command(Some("/system/bin/avbctl".to_string())).unwrap();
    assert_eq!(vec!["avbctl", "get-verity"], shell_args(&command));
    let verity_enabled = client.shell().get_verity(&b"verity is enabled\n".to_vec()).unwrap();
    assert!(verity_enabled);
}

#[test]
fn test_enabled_disable_verity() {
    let client = client();
    let shell = client.shell();
    let enabled = shell.get_verity(&b"verity is enabled\n".to_vec()).unwrap();
    let command = if enabled {
        shell.disable_verity(Some("avbctl".to_string())).unwrap()
    } else {
        shell.enable_verity(Some("avbctl".to_string())).unwrap()
    };
    assert_eq!(vec!["avbctl", "disable-verity"], shell_args(&command));
    assert!(matches!(shell.enable_verity(None), Err(AdbError::NotFound)));
    assert_eq!(vec!["-s", "192.168.1.6:5555", "reboot", ""], args(&client.reboot(None)));
    let enabled2 = shell.get_verity(&b"verity is disabled\n".to_vec()).unwrap();
    assert_ne!(enabled, enabled2);
}
