use llmd::device::{
    abi_for_target, api_test_base_url, appium_status_url, capitalize, content_desc_contains, contains_text,
    device_args, device_dir_args, gradle_assemble_args, is_build_apk, is_missing_element, main_activity,
    missing_apk_message, missing_model_message, picker_plan, port_forward_args, resolve_run_settings,
    tauri_build_args, tauri_target, text, xpath_literal, AndroidBuildType, RunEnvironment,
};

#[test]
fn build_types_parse_and_name_their_outputs() {
    assert_eq!(AndroidBuildType::from_setting(None).unwrap(), AndroidBuildType::Debug);
    assert_eq!(AndroidBuildType::from_setting(Some("debug")).unwrap(), AndroidBuildType::Debug);
    assert_eq!(AndroidBuildType::from_setting(Some("e2e")).unwrap(), AndroidBuildType::E2e);
    assert_eq!(
        AndroidBuildType::from_setting(Some("release")).unwrap_err(),
        "LLMD_ANDROID_BUILD_TYPE must be debug or e2e, got release"
    );
    assert_eq!(AndroidBuildType::Debug.gradle_suffix(), "Debug");
    assert_eq!(AndroidBuildType::E2e.gradle_suffix(), "E2e");
    assert_eq!(AndroidBuildType::Debug.gradle_name(), "debug");
    assert_eq!(AndroidBuildType::E2e.gradle_name(), "e2e");
}

#[test]
fn targets_map_to_tauri_and_abis() {
    assert_eq!(tauri_target("arm64"), "aarch64");
    assert_eq!(tauri_target("arm"), "armv7");
    assert_eq!(tauri_target("x86"), "i686");
    assert_eq!(tauri_target("x86_64"), "x86_64");
    assert_eq!(tauri_target("mips"), "mips");
    assert_eq!(abi_for_target("arm64").unwrap(), "arm64-v8a");
    assert_eq!(abi_for_target("arm").unwrap(), "armeabi-v7a");
    assert_eq!(abi_for_target("x86").unwrap(), "x86");
    assert_eq!(abi_for_target("x86_64").unwrap(), "x86_64");
    assert_eq!(abi_for_target("mips").unwrap_err(), "unsupported Android target mips");
}

#[test]
fn capitalize_uppercases_the_first_character() {
    assert_eq!(capitalize("arm64"), "Arm64");
    assert_eq!(capitalize("x86"), "X86");
    assert_eq!(capitalize("Zed"), "Zed");
    assert_eq!(capitalize(""), "");
    assert_eq!(capitalize("ß"), "SS");
}

#[test]
fn xpath_literals_quote_safely() {
    assert_eq!(xpath_literal("abc"), "'abc'");
    assert_eq!(xpath_literal("it's"), "\"it's\"");
    assert_eq!(xpath_literal("a'b\"c"), "concat('a',\"'\",'b\"c')");
    assert_eq!(text("Import model"), "//*[@text='Import model']");
    assert_eq!(contains_text("x.litertlm"), "//*[contains(@text,'x.litertlm')]");
    assert_eq!(content_desc_contains("Show roots"), "//*[contains(@content-desc,'Show roots')]");
}

fn env() -> RunEnvironment {
    RunEnvironment {
        android_udid: None,
        android_serial: None,
        android_target: None,
        build_type: None,
        gradle_variant: None,
        android_package: None,
        device_model_path: None,
        appium_url: None,
        local_port: None,
        remote_port: None,
    }
}

#[test]
fn run_settings_fill_defaults() {
    let s = resolve_run_settings(env(), "gemma-4-E2B-it.litertlm").unwrap();
    assert_eq!(s.device_serial, None);
    assert_eq!(s.android_target, "arm64");
    assert_eq!(s.android_build_type, AndroidBuildType::Debug);
    assert_eq!(s.android_variant, "Arm64Debug");
    assert_eq!(s.android_package, "com.storytellerf.llmd.debug");
    assert_eq!(s.device_model_path, "/sdcard/Download/gemma-4-E2B-it.litertlm");
    assert_eq!(s.appium_url, "http://127.0.0.1:4723/");
    assert_eq!(s.local_port, "11435");
    assert_eq!(s.remote_port, "11435");
}

#[test]
fn run_settings_follow_the_environment() {
    let mut e = env();
    e.android_udid = Some(String::new());
    e.android_serial = Some("serial".to_string());
    e.android_target = Some("x86".to_string());
    e.build_type = Some("e2e".to_string());
    let s = resolve_run_settings(e, "m.litertlm").unwrap();
    assert_eq!(s.device_serial, None);
    assert_eq!(s.android_variant, "X86E2e");
    let mut e = env();
    e.android_serial = Some("serial".to_string());
    e.gradle_variant = Some("Custom".to_string());
    let s = resolve_run_settings(e, "m.litertlm").unwrap();
    assert_eq!(s.device_serial.as_deref(), Some("serial"));
    assert_eq!(s.android_variant, "Custom");
    let mut e = env();
    e.build_type = Some("nope".to_string());
    assert_eq!(
        resolve_run_settings(e, "m").err().unwrap(),
        "LLMD_ANDROID_BUILD_TYPE must be debug or e2e, got nope"
    );
}

#[test]
fn build_commands_name_target_and_variant() {
    assert_eq!(
        tauri_build_args("arm64", true),
        vec!["tauri", "android", "build", "--apk", "--debug", "--target", "aarch64", "--ci"]
    );
    assert_eq!(
        tauri_build_args("arm", false),
        vec!["tauri", "android", "build", "--apk", "--target", "armv7", "--ci"]
    );
    assert_eq!(
        gradle_assemble_args("Arm64E2e", "arm64").unwrap(),
        vec![
            ":app:assembleArm64E2e",
            "-x",
            ":app:rustBuildArm64E2e",
            "-PtargetList=aarch64",
            "-ParchList=arm64",
            "-PabiList=arm64-v8a",
            "--no-daemon",
        ]
    );
    assert_eq!(gradle_assemble_args("V", "mips").unwrap_err(), "unsupported Android target mips");
}

#[test]
fn adb_commands() {
    assert_eq!(device_args("adb", Some("emulator-5554")), vec!["-s", "emulator-5554"]);
    assert!(device_args("adb", None).is_empty());
    assert!(device_args("npx", Some("x")).is_empty());
    let (remove, forward) = port_forward_args("11435", "8080");
    assert_eq!(remove, vec!["forward", "--remove", "tcp:11435"]);
    assert_eq!(forward, vec!["forward", "tcp:11435", "tcp:8080"]);
    assert_eq!(device_dir_args(Some("/sdcard/X")), vec!["shell", "mkdir", "-p", "/sdcard/X"]);
    assert_eq!(device_dir_args(None), vec!["shell", "mkdir", "-p", "/sdcard/Download"]);
    assert_eq!(api_test_base_url("11435"), "http://127.0.0.1:11435");
    assert_eq!(main_activity("com.a"), "com.a.MainActivity");
}

#[test]
fn appium_status_address_drops_trailing_slashes() {
    assert_eq!(appium_status_url("http://127.0.0.1:4723/"), "http://127.0.0.1:4723/status");
    assert_eq!(appium_status_url("http://h//"), "http://h/status");
    assert_eq!(appium_status_url("http://h"), "http://h/status");
}

#[test]
fn apks_are_found_by_build_type() {
    assert!(is_build_apk(Some("apk"), Some("debug"), "debug"));
    assert!(!is_build_apk(Some("apk"), Some("release"), "debug"));
    assert!(!is_build_apk(Some("aab"), Some("debug"), "debug"));
    assert!(!is_build_apk(None, Some("debug"), "debug"));
    assert_eq!(missing_apk_message("e2e", "/out"), "no e2e APK found under /out");
    assert_eq!(
        missing_model_message("/m.litertlm"),
        "Gemma model is missing: /m.litertlm. Run scripts/download-gemma-model.sh or set GEMMA_MODEL_PATH."
    );
}

#[test]
fn missing_elements_are_not_failures() {
    assert!(is_missing_element("no such element: x"));
    assert!(is_missing_element("NoSuchElement"));
    assert!(is_missing_element("request timeout"));
    assert!(!is_missing_element("session closed"));
    assert!(!is_missing_element(""));
}

#[test]
fn picker_walk_looks_for_the_file_then_its_stem() {
    let plan = picker_plan("gemma-4-E2B-it.litertlm");
    let steps: Vec<(&str, u64, bool)> =
        plan.steps.iter().map(|s| (s.selector.as_str(), s.timeout_secs, s.selects)).collect();
    assert_eq!(
        steps,
        vec![
            ("//*[contains(@text,'gemma-4-E2B-it.litertlm')]", 10, true),
            ("//*[contains(@content-desc,'Show roots')]", 5, false),
            ("//*[contains(@content-desc,'Open navigation drawer')]", 5, false),
            ("//*[@text='Downloads']", 5, false),
            ("//*[@text='Download']", 5, false),
            ("//*[contains(@text,'gemma-4-E2B-it.litertlm')]", 180, true),
            ("//*[contains(@text,'gemma-4-E2B-it')]", 10, true),
        ]
    );
    assert_eq!(plan.failure, "unable to select gemma-4-E2B-it.litertlm in Android document picker");
    let twice = picker_plan("m.litertlm.litertlm");
    assert_eq!(twice.steps[6].selector, "//*[contains(@text,'m')]");
}

#[test]
fn newest_apk_wins() {
    assert!(llmd::device::replaces_latest(None));
    assert!(llmd::device::replaces_latest(Some(true)));
    assert!(!llmd::device::replaces_latest(Some(false)));
}
