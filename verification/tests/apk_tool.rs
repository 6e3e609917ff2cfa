// The `apkanalyzer` tool: where it is found and what its answers read as.

use radb_client::apk::{apk_analyzer, ApkAnalyzer};
use radb_client::command::AdbCommand;
use radb_client::error::AdbError;

const APK_PATH: &str = "/tmp/app-release.apk";

fn analyzer() -> ApkAnalyzer {
    ApkAnalyzer::new(apk_analyzer(Ok("/opt/android-sdk".to_string()), true)).expect("Failed to create ApkAnalyzer")
}

fn words(c: &AdbCommand) -> Vec<&str> {
    c.args.iter().map(|s| s.as_str()).collect()
}

#[test]
fn test_new() {
    let apkanalyzer = analyzer();
    assert_eq!("/opt/android-sdk/cmdline-tools/latest/bin/apkanalyzer", apkanalyzer.path);
    let apkanalyzer = ApkAnalyzer::from("/opt/android-sdk/cmdline-tools/latest/bin/apkanalyzer");
    assert_eq!("/opt/android-sdk/cmdline-tools/latest/bin/apkanalyzer", apkanalyzer.path);
    let missing = apk_analyzer(Ok("/opt/android-sdk/".to_string()), false);
    assert_eq!(Err("apkanalyzer not found".to_string()), missing);
}

#[test]
fn test_version_name() {
    let apkanalyzer = analyzer();
    let command = apkanalyzer.version_name_command(APK_PATH);
    assert_eq!(apkanalyzer.path, command.program);
    assert_eq!(vec!["manifest", "version-name", APK_PATH], words(&command));
    let version_name = apkanalyzer.version_name(&b"2.4.1\n".to_vec()).expect("Failed to get version name");
    assert!(version_name.len() > 0);
    assert_eq!("2.4.1", version_name);
}

#[test]
fn test_version_code() {
    let apkanalyzer = analyzer();
    assert_eq!(vec!["manifest", "version-code", APK_PATH], words(&apkanalyzer.version_code_command(APK_PATH)));
    let version_code = apkanalyzer.version_code(&b"241\n".to_vec()).expect("Failed to get version code");
    assert!(version_code.len() > 0);
}

#[test]
fn test_application_id() {
    let apkanalyzer = analyzer();
    assert_eq!(vec!["manifest", "application-id", APK_PATH], words(&apkanalyzer.application_id_command(APK_PATH)));
    let application_id = apkanalyzer.application_id(&b"com.example.app\n".to_vec()).expect("Failed to get application id");
    assert!(application_id.len() > 0);
}

#[test]
fn test_manifest_print() {
    let apkanalyzer = analyzer();
    assert_eq!(vec!["manifest", "print", APK_PATH], words(&apkanalyzer.manifest_code_command(APK_PATH)));
    let manifest = apkanalyzer.manifest_code(&b"<manifest package=\"com.example.app\"/>\n".to_vec()).expect("Failed to get manifest");
    assert!(manifest.len() > 0);
}

#[test]
fn test_apk_summary() {
    let apkanalyzer = analyzer();
    assert_eq!(vec!["apk", "summary", APK_PATH], words(&apkanalyzer.summary_command(APK_PATH)));
    let fields = apkanalyzer.summary_fields(&b"com.example.app\t241\t2.4.1 beta\n".to_vec()).expect("Failed to get apk summary");
    assert_eq!(3, fields.len(), "Failed to split string");
    let result = apkanalyzer.summary(fields);
    assert!(result.package_name.len() > 0);
    assert!(result.version_name.len() > 0);
    assert!(result.version_code.len() > 0);
    assert_eq!("2.4.1 beta", result.version_name);
}

#[test]
fn test_file_list() {
    let apkanalyzer = analyzer();
    assert_eq!(vec!["files", "list", APK_PATH], words(&apkanalyzer.files_list_command(APK_PATH)));
    let result = apkanalyzer.files_list(&b"/\n/classes.dex\n/AndroidManifest.xml\n".to_vec()).expect("Failed to get files list");
    assert!(result.len() > 0);
    assert_eq!("/classes.dex", result[1]);
}

#[test]
fn test_min_sdk() {
    let apkanalyzer = analyzer();
    assert_eq!(vec!["manifest", "min-sdk", APK_PATH], words(&apkanalyzer.min_sdk_command(APK_PATH)));
    let result = apkanalyzer.min_sdk(&b"24\n".to_vec()).expect("Failed to get min sdk");
    assert!(result > 0);
}

#[test]
fn test_target_sdk() {
    let apkanalyzer = analyzer();
    assert_eq!(vec!["manifest", "target-sdk", APK_PATH], words(&apkanalyzer.target_sdk_command(APK_PATH)));
    let result = apkanalyzer.target_sdk(&b"34\n".to_vec()).expect("Failed to get target sdk");
    assert!(result > 0);
    assert_eq!(Err(AdbError::ParseIntError), apkanalyzer.target_sdk(&b"thirty\n".to_vec()));
}

#[test]
fn test_manifest_debuggable() {
    let apkanalyzer = analyzer();
    assert_eq!(vec!["manifest", "debuggable", APK_PATH], words(&apkanalyzer.debuggable_command(APK_PATH)));
    let result = apkanalyzer.debuggable(&b"false\n".to_vec()).expect("Failed to get manifest debuggable");
    assert!(!result);
    assert_eq!(Ok(true), apkanalyzer.debuggable(&b" true \n".to_vec()));
}

#[test]
fn test_manifest_permissions() {
    let apkanalyzer = analyzer();
    assert_eq!(vec!["manifest", "permissions", APK_PATH], words(&apkanalyzer.manifest_permissions_command(APK_PATH)));
    let result = apkanalyzer
        .manifest_permissions(&b"android.permission.INTERNET\nandroid.permission.CAMERA\n".to_vec())
        .expect("Failed to get manifest permissions");
    assert!(result.len() > 0);
    assert_eq!(vec!["android.permission.INTERNET", "android.permission.CAMERA"], result);
}

#[test]
fn test_files_cat() {
    let apkanalyzer = analyzer();
    let command = apkanalyzer.files_cat_command(APK_PATH, "/assets/config/router-models.json");
    assert_eq!(vec!["files", "cat", "--file", "/assets/config/router-models.json", APK_PATH], words(&command));
    let result = apkanalyzer.files_cat(&b"{\"models\": []}\n".to_vec()).expect("Failed to get files cat");
    assert!(result.len() > 0);
}

#[test]
fn test_dex_list() {
    let apkanalyzer = analyzer();
    assert_eq!(vec!["dex", "list", APK_PATH], words(&apkanalyzer.dex_list_command(APK_PATH)));
    let result = apkanalyzer.dex_list(&b"classes.dex\nclasses2.dex\n".to_vec()).expect("Failed to get dex list");
    assert!(result.len() > 0, "dex list len invalid");
    assert_eq!(Err(AdbError::InvalidData), apkanalyzer.dex_list(&vec![b'a', b'\n', 0xff, b'\n']));
}

#[test]
fn test_dex_code() {
    let apkanalyzer = analyzer();
    let command = apkanalyzer.dex_code_command(APK_PATH, "com.example.TimingInfo");
    assert_eq!(vec!["dex", "code", "-class", "com.example.TimingInfo", APK_PATH], words(&command));
    let result = apkanalyzer.dex_code(&b".class public Lcom/example/TimingInfo;\n".to_vec()).expect("Failed to get dex code");
    assert!(result.len() > 0, "dex code invalid");
    assert!(result.ends_with('\n'));
}
