// The library's laws on concrete values, edge cases of its readers, one input
// for each error it reports, and the outside calls seen through the
// functions that make them.

use radb_client::client::{Adb, AdbClient, ConnectAction, ConnectEvent};
use radb_client::command::{handle_result, success_result, ExitStatus, ProcessOutput};
use radb_client::device::{ConnectionType, Device};
use radb_client::error::AdbError;
use radb_client::intent::{Extra, Intent};
use radb_client::types::{SELinuxType, Wakefulness};

fn client() -> AdbClient {
    AdbClient { adb: Adb("adb".to_string()), device: Device::try_from_transport_id(7).unwrap() }
}

fn output(code: Option<i32>, signal: Option<i32>, stderr: &[u8]) -> ProcessOutput {
    ProcessOutput { status: ExitStatus { code, signal }, stdout: b"out".to_vec(), stderr: stderr.to_vec() }
}

#[test]
fn decimal_numbers_read_back() {
    let c = client();
    for n in [0u8, 9, 10, 99, 255] {
        let text = format!("{}\n", n);
        assert_eq!(Ok(n), c.version(&text.into_bytes()));
    }
    assert_eq!(Err(AdbError::ParseIntError), c.version(&b"256\n".to_vec()));
    assert_eq!(Ok(7), c.version(&b"+7".to_vec()));
    assert_eq!(vec!["-t", "7"], Device::try_from_transport_id(7).unwrap().args());
}

#[test]
fn trimming_twice_is_trimming_once() {
    let c = client();
    let once = c.shell().whoami(&b" \t root \r\n".to_vec()).unwrap();
    assert_eq!("root", once);
    let twice = c.shell().whoami(&once.clone().into_bytes()).unwrap();
    assert_eq!(once, twice);
    assert_eq!(Some("".to_string()), c.shell().whoami(&b" \n\t ".to_vec()));
}

#[test]
fn selinux_names_read_back() {
    for t in [SELinuxType::Enforcing, SELinuxType::Permissive] {
        assert_eq!(Ok(t), SELinuxType::try_from_str(&t.to_string()));
    }
    assert_eq!(Ok(SELinuxType::Enforcing), SELinuxType::try_from_str("  Enforcing\n"));
    assert!(SELinuxType::try_from_str("enforcing").is_err());
}

#[test]
fn getprop_lines_read_back() {
    let c = client();
    let line = format!("[{}]: [{}]\n", "weird]key [x]", "a value: with [brackets");
    let props = c.shell().getprops(&line.into_bytes());
    assert_eq!(1, props.len());
    assert_eq!("weird]key [x]", props[0].key);
    assert_eq!("a value: with [brackets", props[0].value);
    assert!(c.shell().getprops(&b"no brackets here\n".to_vec()).is_empty());
}

#[test]
fn commands_go_to_the_device() {
    let c = client();
    let shell = c.shell().getprop_command("ro.serialno");
    assert_eq!(vec!["-t", "7", "shell", "getprop", "ro.serialno"], shell.args);
    let adb = c.disable_verity();
    assert_eq!(vec!["-t", "7", "disable-verity"], adb.args);
    assert_eq!("adb", adb.program);
}

#[test]
fn extras_read_back_what_was_put() {
    let mut e = Extra::new();
    e.put_string_extra("a", "1");
    e.put_string_extra("b", "2");
    e.put_string_extra("a", "3");
    assert_eq!(vec![("a".to_string(), "3".to_string()), ("b".to_string(), "2".to_string())], e.es);
    e.put_bool_extra("z", true).put_int_extra("i", -4).put_long_extra("l", 1 << 40);
    e.put_string_array_extra("s", vec!["x".to_string(), "y".to_string()]);
    e.put_bool_extra("z", false);
    assert_eq!(vec![("z".to_string(), false)], e.ez);
    assert_eq!(vec![("i".to_string(), -4)], e.ei);
    assert_eq!(vec![("l".to_string(), 1i64 << 40)], e.el);
    assert_eq!(
        "--es a 3 --es b 2 --ez z false --ei i -4 --el l 1099511627776 --esa s x,y",
        e.to_string()
    );
}

#[test]
fn intent_words_in_order() {
    let mut i = Intent::from_action("A");
    i.category = Some("C".to_string());
    i.user_id = Some("0".to_string());
    i.extra.put_int_extra("n", 1);
    assert_eq!("-a A -c C --user 0 --ei n 1", i.to_string());
    assert_eq!("", Intent::new().to_string());
}

#[test]
fn runtime_permission_lines_read_back() {
    let dump = "    runtime permissions:\n      a.b.C: granted=true, flags=[ X|Y ]\n      d: granted=false, flags=[Z]\n\n";
    let perms = radb_client::dump::runtime_permissions(dump).unwrap();
    assert_eq!(2, perms.len());
    assert_eq!(("a.b.C", true), (perms[0].name.as_str(), perms[0].granted));
    assert_eq!(vec!["X".to_string(), "Y ".to_string()], perms[0].flags);
    assert_eq!(("d", false, vec!["Z".to_string()]), (perms[1].name.as_str(), perms[1].granted, perms[1].flags.clone()));
    let no_empty_line = "    runtime permissions:\n      a: granted=true, flags=[X]";
    assert_eq!(Ok(vec![]), radb_client::dump::runtime_permissions(no_empty_line));
    let too_shallow = "  runtime permissions:\n      a: granted=true, flags=[X]\n\n";
    assert_eq!(Err(AdbError::ParseInputError), radb_client::dump::runtime_permissions(too_shallow));
}

#[test]
fn failed_runs_and_results_agree() {
    for o in [
        output(Some(0), None, b""),
        output(Some(1), None, b"boom"),
        output(None, Some(2), b""),
        output(None, Some(9), b""),
        output(None, Some(15), b""),
    ] {
        let handled = handle_result(&o);
        let converted = ProcessOutput::try_from(ProcessOutput { status: o.status, stdout: o.stdout.clone(), stderr: o.stderr.clone() });
        assert_eq!(handled.is_ok(), converted.is_ok());
    }
    assert!(handle_result(&output(None, Some(15), b"")).is_err());
    assert!(success_result(&output(None, Some(9), b"")).is_err());
    assert!(success_result(&output(Some(0), None, b"warning")).is_ok());
}

#[test]
fn process_output_predicates() {
    let o = output(None, Some(2), b"");
    assert!(o.is_interrupt() && !o.is_kill() && o.has_signal() && o.is_error() && !o.is_success());
    assert!(o.has_stdout() && !o.has_stderr());
    assert_eq!(Some(2), o.signal());
    let e = radb_client::error::CmdError::from_err(ExitStatus { code: Some(3), signal: None }, b"m".to_vec());
    assert_eq!((Some(3), None), (e.exit_code(), e.exit_signal()));
}

#[test]
fn every_error_has_an_input() {
    let c = client();
    let tcp = AdbClient { adb: Adb("adb".to_string()), device: Device::try_from_serial("emulator-5554").unwrap() };
    assert!(matches!(
        tcp.connect(None, ConnectEvent::Start),
        ConnectAction::Done(Err(AdbError::InvalidDeviceAddressError(_))) | ConnectAction::CheckState(_)
    ));
    match c.connect(None, ConnectEvent::StateBefore(false)) {
        ConnectAction::Done(Err(AdbError::InvalidDeviceAddressError(_))) => {},
        _ => panic!("a transport id has no address to connect to"),
    }
    let ip = AdbClient { adb: Adb("adb".to_string()), device: Device::from_socket_text("10.0.0.2:5555") };
    assert!(matches!(ip.connect(None, ConnectEvent::StateAfter(false)), ConnectAction::Done(Err(AdbError::ConnectToDeviceError))));
    assert_eq!(Err(AdbError::Errno(22)), c.shell().getprop(&vec![0xc3]));
    assert!(matches!(c.shell().get_setting_text(&vec![0xc3]), Err(AdbError::Unknown(_))));
    assert_eq!(Err(AdbError::Errno(22)), c.shell().get_setting(&vec![0xc3]));
    assert!(matches!(c.shell().get_enforce(&b"Disabled".to_vec()), Err(AdbError::ParseSELinuxTypeError(_))));
    assert!(matches!(c.shell().list_settings(&b"a\\u12".to_vec()), Err(AdbError::PropertiesError(_))));
    assert_eq!(Err(AdbError::InvalidInput), c.get_wakefulness(&b"Sleeping".to_vec()));
    assert_eq!(Err(AdbError::ParseInputError), c.shell().is_screen_on(&vec![0xff]));
    assert_eq!(Err(AdbError::InvalidData), Adb("adb".to_string()).list_devices(&vec![0xff, b'\n']));
    assert!(matches!(handle_result(&output(Some(1), None, b"x")), Err(AdbError::CmdError(_))));
    assert_eq!(Err(AdbError::NotFound), c.shell().command_path_result(None));
    assert_eq!(Err(AdbError::MacParseError), c.get_mac_address(&b"00:11".to_vec()));
    assert_eq!(Err(AdbError::UuidError), c.get_boot_id(&b"0000".to_vec()));
    assert!(matches!(c.copy_screencap(&vec![1, 2, 3]), Err(AdbError::ImageError(_))));
    assert!(matches!(
        radb_client::dump::SimplePackageReader::new("no sections"),
        Err(AdbError::ParseInputError)
    ));
}

#[test]
fn outside_calls_seen_through_the_library() {
    let c = client();
    // the test line quotes the path as a Rust string, escapes included
    let command = c.shell().is_file_command("a \"b\"\\c");
    assert_eq!("test -f \"a \\\"b\\\"\\\\c\" && echo 1 || echo 0", command.args[3]);
    // lower-casing before the state names are compared
    assert_eq!(Ok(Wakefulness::Awake), c.get_wakefulness(&b"AWAKE\n".to_vec()));
    // the file mode keeps the type, special and permission bits
    assert_eq!(Ok(0o755 & 0o177777), c.shell().file_mode(&b"493\n".to_vec()));
    assert_eq!(Ok(4294967295u32 & 0o177777), c.shell().file_mode(&b"4294967295\n".to_vec()));
    // Java properties escapes are undone
    let settings = c.shell().list_settings(&b"a\\:b=x\\ty\n".to_vec()).unwrap();
    assert_eq!("a:b", settings[0].key);
    assert_eq!("x\ty", settings[0].value);
    // an image decodes to its pixels
    let img = image::RgbaImage::from_pixel(2, 1, image::Rgba([1, 2, 3, 4]));
    let mut png = std::io::Cursor::new(Vec::new());
    img.write_to(&mut png, image::ImageFormat::Png).unwrap();
    let screen = c.copy_screencap(&png.into_inner()).unwrap();
    assert_eq!(vec![1, 2, 3, 4, 1, 2, 3, 4], screen.bytes);
    // a UUID is read as its 128-bit value, a MAC address as its bytes
    assert_eq!(Ok(1u128), c.get_boot_id(&b"00000000-0000-0000-0000-000000000001".to_vec()));
    assert_eq!(Ok([1, 2, 3, 4, 5, 6]), c.get_mac_address(&b"01:02:03:04:05:06".to_vec()));
    // the command path cache gives back what was stored
    let mut cache = radb_client::outside::new_path_cache(2);
    let found = c.shell().store_command_path(&mut cache, "ls", Some(&b" /system/bin/ls \n".to_vec()));
    assert_eq!(Some("/system/bin/ls".to_string()), found);
    match c.shell().get_command_path(&mut cache, "ls") {
        radb_client::shell::CommandPath::Known(p) => assert_eq!(found, p),
        radb_client::shell::CommandPath::Lookup(_) => panic!("stored path forgotten"),
    }
    // a version line keeps what the decimal class of the pattern matches
    let adb = Adb("adb".to_string());
    assert_eq!(Ok("1.0.41".to_string()), adb.version(&b"Version 1.0.41\n".to_vec()));
}

#[test]
fn connection_texts() {
    assert_eq!("usb", ConnectionType::USB.to_string());
    let adb = Adb("adb".to_string());
    let c = adb.exec(&ConnectionType::USB, vec!["devices".to_string()], Some(5));
    assert_eq!(vec!["-d", "devices"], c.args);
    assert_eq!(Some(5), c.timeout_ms);
}

#[test]
fn settings_values_are_read_as_the_newer_client_reads_them() {
    let c = radb_client::client::AdbClient {
        adb: radb_client::client::Adb("adb".to_string()),
        device: radb_client::device::Device::from_socket_text("192.168.1.6:5555"),
    };
    assert_eq!(Ok(None), c.shell().get_setting(&Vec::new()));
    assert_eq!(Ok(None), c.shell().get_setting(&b"  null \n".to_vec()));
    assert_eq!(Ok(Some("a b".to_string())), c.shell().get_setting(&b" a b\n".to_vec()));
    assert_eq!(Ok(Some(" a b".to_string())), c.shell().get_setting_text(&b" a b\n".to_vec()));
    assert_eq!(Ok(Some("".to_string())), c.shell().get_setting_text(&Vec::new()));
    assert_eq!(Ok(Some("null".to_string())), c.shell().get_setting_text(&b"null\n".to_vec()));
}

#[test]
fn puts_keep_the_other_extras_and_flags() {
    let mut e = Extra::new();
    e.eia.push(("e".to_string(), vec![3, 4]));
    e.grant_read_uri_permission = true;
    e.put_string_extra("a", "x");
    e.put_bool_extra("b", true);
    e.put_int_extra("c", 1);
    e.put_long_extra("d", 2);
    assert_eq!(vec![("e".to_string(), vec![3, 4])], e.eia);
    assert!(e.grant_read_uri_permission);
    assert_eq!("--es a x --ez b true --ei c 1 --el d 2 --eia e 3,4 --grant-read-uri-permission", e.to_string());
}

#[test]
fn intent_text_after_a_put() {
    let mut i = Intent::from_action("swisscom.android.tv.action.PRINT_SESSION_INFO");
    i.component = Some("com.swisscom.aot.library.standalone/.receiver.PropertiesReceiver".to_string());
    i.extra.put_string_extra("swisscom.android.tv.extra.TAG", "SESSION_INFO");
    i.wait = true;
    assert_eq!(
        "-a swisscom.android.tv.action.PRINT_SESSION_INFO -n com.swisscom.aot.library.standalone/.receiver.PropertiesReceiver -W --es swisscom.android.tv.extra.TAG SESSION_INFO",
        i.to_string()
    );
}

#[test]
fn mac_address_text_is_upper_case_pairs() {
    assert_eq!("80:FA:5B:41:10:6B", radb_client::control::mac_text([128, 250, 91, 65, 16, 107]));
    assert_eq!("00:0A:FF:01:10:09", radb_client::control::mac_text([0, 10, 255, 1, 16, 9]));
    let c = AdbClient { adb: Adb("adb".to_string()), device: Device::try_from_transport_id(7).unwrap() };
    let b = c.get_mac_address(&b"80:fa:5b:41:10:6b\n".to_vec()).unwrap();
    assert_eq!("80:FA:5B:41:10:6B", radb_client::control::mac_text(b));
}

#[test]
fn adb_lookup_failure_is_which_error() {
    assert_eq!(Err(AdbError::WhichError("not found".to_string())), Adb::from_lookup(Err("not found".to_string())));
    match Adb::new() {
        Ok(adb) => assert!(!adb.0.is_empty()),
        Err(err) => assert!(matches!(err, AdbError::WhichError(_))),
    }
}
