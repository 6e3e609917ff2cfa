// Package manager scenarios, with the text `pm dump` and `pm list packages`
// print on a device.

use radb_client::client::{Adb, AdbClient};
use radb_client::command::{AdbCommand, ExitStatus, ProcessOutput};
use radb_client::error::CmdError;
use radb_client::device::Device;
use radb_client::dump::SimplePackageReader;
use radb_client::error::AdbError;
use radb_client::options::{InstallOptions, ListPackageDisplayOptions, ListPackageFilter, UninstallOptions};
use radb_client::types::{InstallLocationOption, PackageFlags};

const DUMP: &str = "Activity Resolver Table:
  Non-Data Actions:
      android.intent.action.MAIN:
        4c1e3c6 com.swisscom.aot.ui/.MainActivity filter 8f9a

Packages:
  Package [com.swisscom.aot.ui] (2a9c1b0):
    userId=10065
    pkg=Package{7d2c1e0 com.swisscom.aot.ui}
    codePath=/system/priv-app/AotUi
    resourcePath=/system/priv-app/AotUi
    versionCode=1203 minSdk=28 targetSdk=30
    versionName=1.2.3
    dataDir=/data/user/0/com.swisscom.aot.ui
    timeStamp=2023-05-10 12:00:00
    firstInstallTime=2023-05-10 12:00:00
    lastUpdateTime=2023-06-01 08:30:00
    pkgFlags=[ SYSTEM HAS_CODE ALLOW_CLEAR_USER_DATA ALLOW_BACKUP ]
    requested permissions:
      android.permission.INTERNET
      android.permission.ACCESS_FINE_LOCATION
    install permissions:
      android.permission.INTERNET: granted=true
      android.permission.WAKE_LOCK: granted=false
    User 0: ceDataInode=0 installed=true
      runtime permissions:
        android.permission.ACCESS_FINE_LOCATION: granted=true, flags=[ USER_SET|USER_SENSITIVE_WHEN_GRANTED ]
        android.permission.CAMERA: granted=false, flags=[ USER_FIXED ]

Dexopt state:
  [com.swisscom.aot.ui]
    path: /system/priv-app/AotUi/AotUi.apk
      arm64: [status=speed-profile] [reason=install]

";

fn client() -> AdbClient {
    AdbClient { adb: Adb("adb".to_string()), device: Device::try_from_serial("emulator-5554").unwrap() }
}

fn shell_words(c: &AdbCommand) -> Vec<&str> {
    let a: Vec<&str> = c.args.iter().map(|s| s.as_str()).collect();
    assert_eq!(vec!["-s", "emulator-5554", "shell"], a[..3].to_vec());
    a[3..].to_vec()
}

fn ok_output(stdout: &[u8]) -> ProcessOutput {
    ProcessOutput { status: ExitStatus { code: Some(0), signal: None }, stdout: stdout.to_vec(), stderr: Vec::new() }
}

#[test]
fn test_path() {
    let client = client();
    let pm = client.pm();
    assert_eq!(vec!["pm", "path", "com.android.bluetooth"], shell_words(&pm.path_command("com.android.bluetooth", None)));
    let path = pm
        .path(&b"package:/system/app/Bluetooth/Bluetooth.apk\n".to_vec(), "com.android.bluetooth")
        .expect("failed to get package path");
    assert!(!path.is_empty());
    assert_eq!("/system/app/Bluetooth/Bluetooth.apk", path);
}

#[test]
fn test_revoke() {
    let client = client();
    let command = client.pm().revoke("com.swisscom.aot.library.standalone", "android.permission.BLUETOOTH_SCAN", None);
    assert_eq!(
        vec!["pm", "revoke", "com.swisscom.aot.library.standalone", "android.permission.BLUETOOTH_SCAN"],
        shell_words(&command)
    );
    radb_client::command::handle_result(&ok_output(b"")).expect("failed to revoke permission");
}

#[test]
fn test_grant() {
    let client = client();
    let command = client.pm().grant("com.swisscom.aot.library.standalone", "android.permission.BLUETOOTH_SCAN", None);
    assert_eq!(
        vec!["pm", "grant", "com.swisscom.aot.library.standalone", "android.permission.BLUETOOTH_SCAN"],
        shell_words(&command)
    );
    radb_client::command::handle_result(&ok_output(b"")).expect("failed to grant permission");
}

#[test]
fn test_enable_package() {
    let client = client();
    let pm = client.pm();
    let package_name = "com.android.bluetooth";
    let user_id = Some("0");
    let expect = |c: AdbCommand, op: &str| {
        assert_eq!(vec!["pm", op, "--user", "0", package_name], shell_words(&c));
    };
    expect(pm.clear(package_name, user_id), "clear");
    expect(pm.suspend(package_name, user_id), "suspend");
    expect(pm.unsuspend(package_name, user_id), "unsuspend");
    expect(pm.hide_package(package_name, user_id), "hide");
    expect(pm.unhide(package_name, user_id), "unhide");
    expect(pm.default_state(package_name, user_id), "default-state");
    expect(pm.disable_until_used(package_name, user_id), "disable-until-used");
    expect(pm.disable_user(package_name, user_id), "disable-user");
    expect(pm.enable(package_name, user_id), "enable");
    expect(pm.disable(package_name, user_id), "disable");
    expect(pm.enable(package_name, user_id), "enable");
}

#[test]
fn test_reset_permissions() {
    let client = client();
    assert_eq!(vec!["pm", "reset-permissions"], shell_words(&client.pm().reset_permissions()));
}

#[test]
fn test_list_packages() {
    let client = client();
    let filters = ListPackageFilter {
        show_only_disabled: false,
        show_only_enabed: true,
        show_only_system: false,
        show_only3rd_party: true,
        apex_only: false,
        uid: None,
        user: None,
    };
    let display = ListPackageDisplayOptions {
        show_uid: true,
        show_version_code: true,
        include_uninstalled: true,
        show_apk_file: true,
    };
    let command = client.pm().list_packages_command(&filters, &display, None);
    assert_eq!(vec!["pm", "list", "packages", "-e", "-3", "-U", "--show-versioncode", "-u", "-f"], shell_words(&command));
    let output = b"package:/data/app/~~x/com.example.app-1/base.apk=com.example.app versionCode:42 uid:10150\n".to_vec();
    let packages = client.pm().list_packages(&output).expect("failed to list packages");
    assert!(!packages.is_empty());
    assert_eq!("com.example.app", packages[0].package_name);
    assert_eq!(Some("/data/app/~~x/com.example.app-1/base.apk".to_string()), packages[0].file_name);
    assert_eq!(Some(42), packages[0].version_code);
    assert_eq!(Some(10150), packages[0].uid);
}

#[test]
fn pm_test_dump() {
    let client = client();
    let command = client.pm().dump_command("com.android.bluetooth", None);
    assert_eq!(vec!["pm", "dump", "com.android.bluetooth"], shell_words(&command));
    let dump = client.pm().dump(&DUMP.as_bytes().to_vec()).expect("failed to dump package");
    assert!(!dump.is_empty());
}

#[test]
fn test_dump_runtime_permissions() {
    let client = client();
    let command = client.pm().dump_command("com.swisscom.aot.library.standalone", Some(radb_client::pm::DUMP_TIMEOUT_MS));
    assert_eq!(Some(1000), command.timeout_ms);
    let permissions = client.pm().runtime_permissions(DUMP).expect("failed to get runtime permissions");
    assert!(!permissions.is_empty());
    assert_eq!(2, permissions.len());
    assert_eq!("android.permission.ACCESS_FINE_LOCATION", permissions[0].name);
    assert!(permissions[0].granted);
    assert_eq!(vec!["USER_SET".to_string(), "USER_SENSITIVE_WHEN_GRANTED ".to_string()], permissions[0].flags);
    assert_eq!("android.permission.CAMERA", permissions[1].name);
    assert!(!permissions[1].granted);
    assert_eq!(vec!["USER_FIXED ".to_string()], permissions[1].flags);
}

#[test]
fn test_install_permissions() {
    let client = client();
    let permissions = client.pm().install_permissions(DUMP).expect("failed to get install permissions");
    assert!(!permissions.is_empty());
    assert_eq!(2, permissions.len());
    assert_eq!("android.permission.INTERNET", permissions[0].name);
    assert!(permissions[0].granted);
    assert!(!permissions[1].granted);
}

#[test]
fn test_requested_permissions() {
    let client = client();
    let permissions = client.pm().requested_permissions(DUMP).expect("failed to get requested permissions");
    assert!(!permissions.is_empty());
    assert_eq!(
        vec!["android.permission.INTERNET".to_string(), "android.permission.ACCESS_FINE_LOCATION".to_string()],
        permissions
    );
}

#[test]
fn test_package_flags() {
    let client = client();
    let flags = client.pm().package_flags(DUMP).expect("failed to get package flags");
    assert!(!flags.is_empty());
    assert_eq!(
        vec![PackageFlags::System, PackageFlags::HasCode, PackageFlags::AllowClearUserData, PackageFlags::AllowBackup],
        flags
    );
}

#[test]
fn test_is_system() {
    let client = client();
    let result = client.pm().is_system(DUMP).expect("failed to call is_system");
    assert!(result);
}

#[test]
fn test_is_installed() {
    let client = client();
    let pm = client.pm();
    let result = pm
        .is_installed(pm.path(&b"package:/system/app/Bluetooth/Bluetooth.apk\n".to_vec(), "com.android.bluetooth"))
        .expect("failed to call is_installed");
    assert!(result);
    assert_eq!(
        vec!["pm", "path", "--user", "0", "com.android.bluetooth"],
        shell_words(&pm.path_command("com.android.bluetooth", Some("0")))
    );
    let result = pm
        .is_installed(pm.path(&b"package:/system/app/Bluetooth/Bluetooth.apk\n".to_vec(), "com.android.bluetooth"))
        .expect("failed to call is_installed");
    assert!(result);
    let failed = Err(AdbError::CmdError(CmdError {
        status: Some(ExitStatus { code: Some(1), signal: None }),
        stdout: Vec::new(),
        stderr: Vec::new(),
    }));
    let result = pm.is_installed(failed).expect("failed to call is_installed");
    assert!(!result);
}

#[test]
fn test_install_uninstall() {
    let client = client();
    let package_name = "it.sephiroth.android.app.app";
    let is_installed = client.pm().is_installed(client.pm().path(&b"package:/data/app/base.apk\n".to_vec(), package_name)).unwrap();
    if is_installed {
        let command = client.pm().uninstall(package_name, None);
        assert_eq!(vec!["cmd", "package", "uninstall", package_name], shell_words(&command));
        assert!(!client.pm().is_installed(Err(AdbError::PackageNotFoundError(package_name.to_string()))).unwrap());
    }
    assert!(client.shell().is_dir(&b"1\n".to_vec()));
    let target_file = "/data/local/tmp/app-debug.apk";
    let push = client.push("/tmp/app-debug.apk", "/data/local/tmp");
    assert_eq!("push", push.args[2]);
    let command = client.pm().install(
        target_file,
        Some(InstallOptions {
            user: None,
            dont_kill: false,
            restrict_permissions: false,
            package_name: None,
            install_location: Some(InstallLocationOption::Auto),
            grant_permissions: false,
            force: true,
            replace_existing_application: true,
            allow_version_downgrade: true,
        }),
    );
    let words = shell_words(&command);
    assert_eq!(vec!["cmd", "package", "install"], words[..3].to_vec());
    assert_eq!(target_file, words[words.len() - 1]);
    let is_installed = client.pm().is_installed(client.pm().path(&b"package:/data/app/base.apk\n".to_vec(), package_name)).unwrap();
    assert!(is_installed);
}

#[test]
fn test_pm_list_packages() {
    let client = client();
    let output = b"package:/system/app/A/A.apk=com.a versionCode:1 uid:1000\npackage:/system/app/B/B.apk=com.b uid:1001 versionCode:7\n".to_vec();
    let result = client.pm().list_packages(&output).unwrap();
    assert!(result.len() > 0);
    result.iter().for_each(|p| {
        assert!(p.file_name.is_some());
        assert!(p.version_code.is_some());
        assert!(p.uid.is_some());
    });
    assert_eq!(Some(7), result[1].version_code);
    assert_eq!(Some(1001), result[1].uid);
}

#[test]
fn test_pm_path() {
    let client = client();
    let path = client.pm().path(&b"package:/data/app/x/base.apk\n".to_vec(), "com.swisscom.aot.library.standalone").unwrap();
    assert_eq!("/data/app/x/base.apk", path);
    let missing = client.pm().path(&b"\n".to_vec(), "com.swisscom.aot.library.standalone");
    assert!(matches!(missing, Err(AdbError::PackageNotFoundError(n)) if n == "com.swisscom.aot.library.standalone"));
}

#[test]
fn test_pm_is_system() {
    let client = client();
    let result = client.pm().is_system(DUMP).unwrap();
    assert!(result);
}

#[test]
fn test_pm_get_package_flags() {
    let client = client();
    let result = client.pm().package_flags(DUMP).unwrap();
    let path = client.pm().path(&b"package:/system/priv-app/AotUi/AotUi.apk\n".to_vec(), "com.swisscom.aot.ui").unwrap();
    if result.contains(&PackageFlags::System) && result.contains(&PackageFlags::UpdatedSystemApp) {
        assert!(!path.starts_with("/system/"))
    } else if result.contains(&PackageFlags::System) {
        assert!(path.starts_with("/system/"))
    } else {
        assert!(path.starts_with("/data/"))
    }
}

#[test]
fn test_pm_is_installed() {
    let client = client();
    let result = client.pm().is_installed(Ok("/data/app/base.apk".to_string())).unwrap();
    assert!(result);
    let result = client.pm().is_installed(Ok(String::new())).unwrap();
    assert!(!result);
}

#[test]
fn test_pm_install() {
    let client = client();
    let package_name = "com.swisscom.aot.library.appservice";
    let remote_path = "/data/local/tmp";
    let remote_file = format!("{:}/{:}", remote_path, "app-service-ip2300-release.apk");
    let push = client.push("app-service-ip2300-release.apk", remote_path);
    assert_eq!(vec!["push", "app-service-ip2300-release.apk", "/data/local/tmp"], push.args[2..].to_vec());
    let command = client.pm().install(
        &remote_file,
        Some(InstallOptions {
            user: None,
            dont_kill: false,
            restrict_permissions: false,
            package_name: Some(package_name.to_string()),
            install_location: Some(InstallLocationOption::Auto),
            grant_permissions: true,
            force: true,
            replace_existing_application: false,
            allow_version_downgrade: true,
        }),
    );
    let words = shell_words(&command);
    assert!(words.contains(&"--pkg com.swisscom.aot.library.appservice"));
    assert_eq!(remote_file.as_str(), words[words.len() - 1]);
}

#[test]
fn test_pm_uninstall() {
    let client = client();
    let package_name = "com.swisscom.aot.library.appservice";
    let installed = client.pm().is_installed(Ok("/data/app/base.apk".to_string())).unwrap();
    assert!(installed);
    let package = client
        .pm()
        .list_packages(&b"package:com.swisscom.aot.library.appservice versionCode:12\n".to_vec())
        .unwrap()
        .first()
        .unwrap()
        .to_owned();
    let command = client.pm().uninstall(
        package_name,
        Some(UninstallOptions { keep_data: false, user: Some("0".to_string()), version_code: package.version_code }),
    );
    assert_eq!(
        vec!["cmd", "package", "uninstall", "--user", "0", "--versionCode", "12", package_name],
        shell_words(&command)
    );
    assert!(!client.pm().is_installed(Err(AdbError::PackageNotFoundError(package_name.to_string()))).unwrap());
}

#[test]
fn test_pm_runtime_permissions() {
    let client = client();
    let result = client.pm().runtime_permissions(DUMP).unwrap();
    assert!(result.len() > 0);
    assert!(matches!(client.pm().runtime_permissions("no permissions here"), Err(AdbError::ParseInputError)));
}

#[test]
fn test_pm_grant_runtime_permissions() {
    let client = client();
    let package_name = "com.swisscom.aot.library.appservice";
    let command = client.pm().grant(package_name, "android.permission.ACCESS_FINE_LOCATION", Some("1000"));
    assert_eq!(
        vec!["pm", "grant", "--user", "1000", package_name, "android.permission.ACCESS_FINE_LOCATION"],
        shell_words(&command)
    );
    assert!(client.pm().runtime_permissions(DUMP).unwrap().iter().any(|p| p.name == "android.permission.ACCESS_FINE_LOCATION"));
}

#[test]
fn test_pm_revoke_runtime_permissions() {
    let client = client();
    let command = client.pm().revoke("com.swisscom.aot.library.appservice", "android.permission.ACCESS_FINE_LOCATION", Some("1000"));
    assert_eq!("revoke", shell_words(&command)[1]);
}

#[test]
fn test_pm_disable() {
    let client = client();
    let command = client.pm().disable("com.swisscom.aot.library.appservice", Some("1000"));
    assert_eq!(vec!["pm", "disable", "--user", "1000", "com.swisscom.aot.library.appservice"], shell_words(&command));
}

#[test]
fn test_pm_enable() {
    let client = client();
    let command = client.pm().enable("com.swisscom.aot.library.appservice", Some("1000"));
    assert_eq!(vec!["pm", "enable", "--user", "1000", "com.swisscom.aot.library.appservice"], shell_words(&command));
}

#[test]
fn test_pm_dump_requested_permissions() {
    let client = client();
    let requested_permissions = client.pm().requested_permissions(DUMP).unwrap();
    assert!(requested_permissions.len() > 0);
}

#[test]
fn test_pm_install_permissions() {
    let client = client();
    let result = client.pm().install_permissions(DUMP).unwrap();
    assert!(result.len() > 0);
    assert!(matches!(client.pm().install_permissions("no packages"), Err(AdbError::ParseInputError)));
}

#[test]
fn test_pm_operations() {
    let client = client();
    let command = client.pm().clear("com.swisscom.aot.library.appservice", None);
    assert_eq!(vec!["pm", "clear", "com.swisscom.aot.library.appservice"], shell_words(&command));
}

#[test]
fn tests_test_dump() {
    let client = client();
    let dump = client.pm().dump(&DUMP.as_bytes().to_vec()).expect("failed to dump package");
    assert!(!dump.is_empty());
    assert!(matches!(client.pm().dump(&vec![0xff, 0xfe]), Err(AdbError::Errno(22))));
}

#[test]
fn test_pm_package_reader() {
    let reader = SimplePackageReader::new(DUMP).unwrap();
    assert_eq!(Some("1.2.3".to_string()), reader.get_version_name());
    assert_eq!(Some("2023-05-10 12:00:00".to_string()), reader.get_first_install_time());
    assert_eq!(Some("2023-06-01 08:30:00".to_string()), reader.get_last_update_time());
    assert_eq!(Some("2023-05-10 12:00:00".to_string()), reader.get_timestamp());
    assert_eq!(Some("/data/user/0/com.swisscom.aot.ui".to_string()), reader.get_data_dir());
    assert_eq!(Some("10065".to_string()), reader.get_user_id());
    assert_eq!(Some("/system/priv-app/AotUi".to_string()), reader.get_code_path());
    assert_eq!(Some("/system/priv-app/AotUi".to_string()), reader.get_resource_path());
    assert_eq!(Some(1203), reader.get_version_code());
    assert_eq!(Some(true), reader.is_system());
    assert_eq!(
        Some("/system/priv-app/AotUi/AotUi.apk".to_string()),
        radb_client::dump::is_installed(DUMP, "com.swisscom.aot.ui")
    );
    assert_eq!(None, radb_client::dump::is_installed(DUMP, "com.example.missing"));
    assert_eq!(
        Some("/system/priv-app/AotUi/AotUi.apk".to_string()),
        radb_client::dump::is_installed(DUMP, "com.swisscom.aot.u+i")
    );
    assert!(radb_client::dump::is_package_pattern("com.swisscom.aot.u+i"));
    assert!(!radb_client::dump::is_package_pattern("com.(swisscom"));
    assert_eq!(None, radb_client::dump::is_installed(DUMP, "com.(swisscom"));
    assert!(matches!(reader.get_item("missingField"), Err(AdbError::NameNotFoundError(n)) if n == "missingField"));
}

#[test]
fn dexopt_heading_pattern_text() {
    assert_eq!("^\\s+\\[com.example.app\\]$", radb_client::dump::header_pattern("com.example.app"));
}
