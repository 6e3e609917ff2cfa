// Device scenarios: each builds the command a device operation runs and
// reads what a device answers to it.

use radb_client::client::{Adb, AdbClient, ConnectAction, ConnectEvent};
use radb_client::command::AdbCommand;
use radb_client::device::Device;
use radb_client::types::{DumpsysPriority, SELinuxType, SettingsType, Wakefulness};

fn emulator() -> AdbClient {
    AdbClient { adb: Adb("adb".to_string()), device: Device::try_from_serial("emulator-5554").unwrap() }
}

fn tcp_client() -> AdbClient {
    AdbClient { adb: Adb("adb".to_string()), device: Device::from_socket_text("192.168.1.24:5555") }
}

fn args(c: &AdbCommand) -> Vec<&str> {
    c.args.iter().map(|s| s.as_str()).collect()
}

#[test]
fn adb_test_adb() {
    let _adb = Adb::from_lookup(Ok("/usr/bin/adb".to_string())).expect("failed to find adb command in you PATH");
    assert_eq!("/usr/bin/adb", _adb.0);
}

#[test]
fn test_get_version() {
    let adb = Adb("adb".to_string());
    let command = adb.version_command();
    assert_eq!(vec!["--version"], args(&command));
    let output = b"Android Debug Bridge version 1.0.41\nVersion 34.0.5-10900879\nInstalled as /usr/bin/adb\n".to_vec();
    let version = adb.version(&output).expect("failed to get adb version");
    assert_eq!("34.0.5-10900879", version);
}

#[test]
fn client_test_connect() {
    let client = tcp_client();
    let action = client.connect(Some(1000), ConnectEvent::Start);
    match action {
        ConnectAction::CheckState(c) => {
            assert_eq!(vec!["-s", "192.168.1.24:5555", "get-state"], args(&c));
            assert_eq!(Some(200), c.timeout_ms);
        },
        _ => panic!("expected a state check"),
    }
    match client.connect(Some(1000), ConnectEvent::StateBefore(false)) {
        ConnectAction::Run(c) => {
            assert_eq!(vec!["connect", "192.168.1.24:5555"], args(&c));
            assert_eq!(Some(1000), c.timeout_ms);
        },
        _ => panic!("expected adb connect"),
    }
    assert!(matches!(client.connect(Some(1000), ConnectEvent::Connected), ConnectAction::CheckState(_)));
    match client.connect(Some(1000), ConnectEvent::StateAfter(true)) {
        ConnectAction::Done(result) => result.expect("failed to connect"),
        _ => panic!("expected the end of the attempt"),
    }
}

#[test]
fn client_test_disconnect() {
    let client = tcp_client();
    let command = client.disconnect();
    assert_eq!("adb", command.program);
    assert_eq!(vec!["disconnect", "192.168.1.24:5555"], args(&command));
    assert!(!command.spawn_only);
}

#[test]
fn client_test_wait_for_device() {
    let client = tcp_client();
    let command = client.wait_for_device(Some(1000));
    assert_eq!(
        vec![
            "-s",
            "192.168.1.24:5555",
            "wait-for-device",
            "shell",
            "while [[ -z $(getprop sys.boot_completed) ]]; do sleep 1; done; input keyevent 143",
        ],
        args(&command)
    );
    assert_eq!(Some(1000), command.timeout_ms);

    let client = emulator();
    let command = client.wait_for_device(None);
    assert_eq!(None, command.timeout_ms);
    assert_eq!("emulator-5554", command.args[1]);
}

#[test]
fn test_get_wakefulness() {
    let client = tcp_client();
    let (dumpsys, sed) = client.get_wakefulness_commands();
    assert_eq!(vec!["-s", "192.168.1.24:5555", "shell", "dumpsys", "power"], args(&dumpsys));
    assert_eq!("sed", sed.program);
    let awake = client.get_wakefulness(&b"Awake\n".to_vec()).expect("failed to get awake status");
    assert_eq!(Wakefulness::Awake, awake);

    let client = emulator();
    let awake = client.get_wakefulness(&b"  Asleep  \n".to_vec()).expect("failed to get awake status");
    assert_eq!(Wakefulness::Asleep, awake);
    assert_eq!(Ok(false), client.is_awake(Ok(awake)));
}

#[test]
fn client_test_is_root() {
    let client = emulator();
    let whoami = client.shell().whoami(&b"root\n".to_vec());
    let is_root = client.is_root(Ok(whoami)).expect("failed to get root status");
    assert!(is_root);
}

#[test]
fn client_test_copy_screencap() {
    let client = emulator();
    let command = client.save_screencap_command();
    assert_eq!(vec!["-s", "emulator-5554", "exec-out", "screencap", "-p"], args(&command));
    let img = image::RgbaImage::new(3, 2);
    let mut png = std::io::Cursor::new(Vec::new());
    img.write_to(&mut png, image::ImageFormat::Png).expect("failed to encode png");
    let screen = client.copy_screencap(&png.into_inner()).expect("failed to copy screencap");
    assert_eq!(3, screen.width);
    assert_eq!(2, screen.height);
    assert_eq!(24, screen.bytes.len());
}

#[test]
fn test_reboot() {
    let client = emulator();
    let command = client.reboot(None);
    assert_eq!(vec!["-s", "emulator-5554", "reboot", ""], args(&command));
}

#[test]
fn client_test_remount() {
    let client = emulator();
    let command = client.remount();
    assert_eq!(vec!["-s", "emulator-5554", "remount"], args(&command));

    let client = tcp_client();
    match client.root(Ok(false)).expect("failed to root client") {
        radb_client::client::RootAction::Run(c) => assert_eq!(vec!["-s", "192.168.1.24:5555", "root"], args(&c)),
        radb_client::client::RootAction::AlreadyRoot => panic!("expected adb root"),
    }
    let command = client.remount();
    assert_eq!(vec!["-s", "192.168.1.24:5555", "remount"], args(&command));
}

#[test]
fn client_test_clear_logcat() {
    let client = emulator();
    let command = client.clear_logcat();
    assert_eq!(vec!["-s", "emulator-5554", "logcat", "-b", "all", "-c"], args(&command));
}

#[test]
fn test_disable_verity() {
    let client = tcp_client();
    let command = client.disable_verity();
    assert_eq!(vec!["-s", "192.168.1.24:5555", "disable-verity"], args(&command));
}

#[test]
fn test_who_am_i() {
    let client = emulator();
    let command = client.shell().whoami_command();
    assert_eq!(vec!["-s", "emulator-5554", "shell", "whoami"], args(&command));
    let whoami = client.shell().whoami(&b"shell\n".to_vec()).expect("failed to get user");
    assert!(!whoami.is_empty());
}

#[test]
fn shell_test_is_root() {
    let client = tcp_client();
    let whoami = client.shell().whoami(&b" root \r\n".to_vec()).expect("failed to get user");
    let is_root = client.is_root(Ok(Some(whoami.clone()))).expect("failed to get root status");
    if whoami.eq_ignore_ascii_case("root") {
        assert!(is_root);
    } else {
        assert!(!is_root);
    }
}

#[test]
fn shell_test_which() {
    let client = emulator();
    let command = client.shell().which_command("sh");
    assert_eq!(vec!["-s", "emulator-5554", "shell", "which", "sh"], args(&command));
    let path = client.shell().which(&b"/system/bin/sh\n".to_vec()).expect("failed to get sh path");
    assert_eq!("/system/bin/sh", path);
}

#[test]
fn shell_test_get_enforce() {
    let client = emulator();
    let enforce = client.shell().get_enforce(&b"Enforcing\n".to_vec()).expect("failed to get enforce");
    assert_eq!(SELinuxType::Enforcing, enforce);
}

#[test]
fn shell_test_set_enforce() {
    let client = tcp_client();
    let enforce = client.shell().get_enforce(&b"Enforcing\n".to_vec()).expect("failed to get enforce");
    let next = if enforce == SELinuxType::Enforcing { SELinuxType::Permissive } else { SELinuxType::Enforcing };
    let command = client.shell().set_enforce(next);
    assert_eq!(vec!["-s", "192.168.1.24:5555", "shell", "setenforce", "0"], args(&command));
    let now_enforce = client.shell().get_enforce(&b"Permissive\n".to_vec()).expect("failed to get enforce");
    assert_ne!(enforce, now_enforce);
}

#[test]
fn shell_test_get_events() {
    let client = emulator();
    let output = b"add device 1: /dev/input/event1\n  name:     \"Power Button\"\nadd device 2: /dev/input/event0\n  name:     \"qwerty2\"\n".to_vec();
    let events = client.shell().get_events(&output).expect("failed to get events");
    assert!(!events.is_empty());
    assert_eq!(
        vec![
            ("/dev/input/event1".to_string(), "Power Button".to_string()),
            ("/dev/input/event0".to_string(), "qwerty2".to_string()),
        ],
        events
    );
}

#[test]
fn shell_test_list_settings() {
    let client = emulator();
    for setting in [SettingsType::global, SettingsType::system, SettingsType::secure] {
        let command = client.shell().list_settings_command(setting);
        assert_eq!("list", command.args[4]);
        let settings = client
            .shell()
            .list_settings(&b"adb_enabled=1\ntheater_mode_on=0\n".to_vec())
            .expect("failed to list settings");
        assert!(!settings.is_empty());
    }
}

#[test]
fn test_get_setting() {
    let client = emulator();
    let command = client.shell().get_setting_command(SettingsType::global, "theater_mode_on");
    assert_eq!(vec!["-s", "emulator-5554", "shell", "settings", "get", "global", "theater_mode_on"], args(&command));
    let setting = client.shell().get_setting(&b"0\n".to_vec()).expect("failed to get setting");
    assert_eq!(Some("0".to_string()), setting);
}

#[test]
fn test_put_setting() {
    let client = emulator();
    let setting = client.shell().get_setting(&b"0\n".to_vec()).expect("failed to get setting").unwrap();
    let new_value = if setting == "0" { "1" } else { "0" };
    let command = client.shell().put_setting(SettingsType::global, "theater_mode_on", new_value);
    assert_eq!(
        vec!["-s", "emulator-5554", "shell", "settings", "put", "global", "theater_mode_on", "1"],
        args(&command)
    );
    let setting = client.shell().get_setting(&b"1\n".to_vec()).expect("failed to read settings").unwrap();
    assert_eq!(new_value, setting);
}

#[test]
fn test_delete_setting() {
    let client = emulator();
    let command = client.shell().put_setting(SettingsType::global, "my_custom_setting", "1");
    assert_eq!("my_custom_setting", command.args[6]);
    let value = client.shell().get_setting(&b"1\n".to_vec()).expect("failed to read settings").unwrap();
    assert_eq!("1", value);
    let command = client.shell().delete_setting(SettingsType::global, "my_custom_setting");
    assert_eq!(vec!["-s", "emulator-5554", "shell", "settings", "delete", "global", "my_custom_setting"], args(&command));
    let value = client.shell().get_setting(&b"null\n".to_vec()).expect("failed to read settings");
    assert_eq!(None, value);
}

#[test]
fn test_dumpsys_list() {
    let client = emulator();
    let command = client.shell().dumpsys_list_command(false, Some(DumpsysPriority::NORMAL));
    assert_eq!(
        vec!["-s", "emulator-5554", "shell", "dumpsys", "-l", "--priority", "NORMAL"],
        args(&command)
    );
    let list = client.shell().dumpsys_list(&b"Currently running services:\n  activity\n  package\n".to_vec());
    assert!(!list.is_empty());
    assert_eq!(vec!["activity".to_string(), "package".to_string()], list);
}
