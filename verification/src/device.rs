//! Planning of the Android end-to-end run: which build to make, which
//! commands to run, which screen elements to look for, and how the settings
//! of a run follow from the environment.
use vstd::prelude::*;

use crate::text::{
    includes_text, owned, push_char, replace_char, replaced, same_text, trim_end_char, trim_end_text,
    trimmed_end, without_suffixes, has_infix,
};

verus! {

/// The package of the debuggable build, which a run installs and drives by
/// default.
pub const DEFAULT_PACKAGE: &'static str = "com.storytellerf.llmd.debug";

/// The port of the API, as the end-to-end run passes it on.
pub const DEFAULT_API_PORT: &'static str = "11435";

/// The kind of Android build under test.
#[derive(Clone, Copy, PartialEq, Eq, Structural, Debug)]
pub enum AndroidBuildType {
    /// The debuggable build.
    Debug,
    /// The minified build signed for local installation.
    E2e,
}

impl AndroidBuildType {
    /// The build named by a setting: `debug` when none is given, `debug` or
    /// `e2e` when one is, and an error for any other name.
    pub fn from_setting(value: Option<&str>) -> (r: Result<AndroidBuildType, String>)
        ensures
            value is None ==> r == Ok::<AndroidBuildType, String>(AndroidBuildType::Debug),
            value matches Some(v) ==> (v@ == "debug"@ ==> r == Ok::<AndroidBuildType, String>(AndroidBuildType::Debug)),
            value matches Some(v) ==> (v@ == "e2e"@ ==> r == Ok::<AndroidBuildType, String>(AndroidBuildType::E2e)),
            value matches Some(v) ==> (v@ != "debug"@ && v@ != "e2e"@ ==> (r matches Err(m)
                && m@ == "LLMD_ANDROID_BUILD_TYPE must be debug or e2e, got "@ + v@)),
    {
        proof {
            reveal_strlit("debug");
            reveal_strlit("e2e");
            assert("e2e"@[0] != "debug"@[0]);
        }
        match value {
            None => Ok(AndroidBuildType::Debug),
            Some(v) => {
                if same_text(v, "debug") {
                    Ok(AndroidBuildType::Debug)
                } else if same_text(v, "e2e") {
                    Ok(AndroidBuildType::E2e)
                } else {
                    let mut m = owned("LLMD_ANDROID_BUILD_TYPE must be debug or e2e, got ");
                    m.append(v);
                    Err(m)
                }
            },
        }
    }

    /// The suffix of the build's Gradle variant.
    pub fn gradle_suffix(self) -> (r: &'static str)
        ensures
            self == AndroidBuildType::Debug ==> r@ == "Debug"@,
            self == AndroidBuildType::E2e ==> r@ == "E2e"@,
    {
        match self {
            AndroidBuildType::Debug => "Debug",
            AndroidBuildType::E2e => "E2e",
        }
    }

    /// The build type's name in Gradle, which names its output directory.
    pub fn gradle_name(self) -> (r: &'static str)
        ensures
            self == AndroidBuildType::Debug ==> r@ == "debug"@,
            self == AndroidBuildType::E2e ==> r@ == "e2e"@,
    {
        match self {
            AndroidBuildType::Debug => "debug",
            AndroidBuildType::E2e => "e2e",
        }
    }
}

/// The Rust target that Tauri builds for an Android architecture; an
/// unknown architecture is passed on as it is.
pub open spec fn tauri_target_of(target: Seq<char>) -> Seq<char> {
    if target == "arm64"@ {
        "aarch64"@
    } else if target == "arm"@ {
        "armv7"@
    } else if target == "x86"@ {
        "i686"@
    } else if target == "x86_64"@ {
        "x86_64"@
    } else {
        target
    }
}

/// The Tauri build target of an Android architecture.
pub fn tauri_target<'a>(target: &'a str) -> (r: &'a str)
    ensures
        r@ == tauri_target_of(target@),
{
    if same_text(target, "arm64") {
        "aarch64"
    } else if same_text(target, "arm") {
        "armv7"
    } else if same_text(target, "x86") {
        "i686"
    } else if same_text(target, "x86_64") {
        "x86_64"
    } else {
        target
    }
}

/// The Android ABI of an architecture, if the run supports it.
pub open spec fn abi_of(target: Seq<char>) -> Option<Seq<char>> {
    if target == "arm64"@ {
        Some("arm64-v8a"@)
    } else if target == "arm"@ {
        Some("armeabi-v7a"@)
    } else if target == "x86"@ {
        Some("x86"@)
    } else if target == "x86_64"@ {
        Some("x86_64"@)
    } else {
        None
    }
}

/// The Android ABI of an architecture; other architectures are refused.
pub fn abi_for_target(target: &str) -> (r: Result<&'static str, String>)
    ensures
        abi_of(target@) matches Some(a) ==> (r matches Ok(x) && x@ == a),
        abi_of(target@) is None ==> (r matches Err(m) && m@ == "unsupported Android target "@ + target@),
{
    if same_text(target, "arm64") {
        Ok("arm64-v8a")
    } else if same_text(target, "arm") {
        Ok("armeabi-v7a")
    } else if same_text(target, "x86") {
        Ok("x86")
    } else if same_text(target, "x86_64") {
        Ok("x86_64")
    } else {
        let mut m = owned("unsupported Android target ");
        m.append(target);
        Err(m)
    }
}

/// The uppercase mapping of a character, as `char::to_uppercase` yields it.
pub uninterp spec fn uppercase_of(c: char) -> Seq<char>;

/// The uppercase mapping of a character.
///
/// Calls `char::to_uppercase`, which the standard library documents as
/// yielding the Unicode uppercase mapping of the character, one or more
/// characters, or the character itself when it has none. For ASCII this is
/// stated here: a lowercase letter maps to its capital, and every other ASCII
/// character to itself.
#[verifier::external_body]
fn uppercase(c: char) -> (r: String)
    ensures
        r@ == uppercase_of(c),
        'a' <= c <= 'z' ==> r@ == seq![((c as u32) - 32) as char],
        (c as u32) < 128 && !('a' <= c <= 'z') ==> r@ == seq![c],
{
    c.to_uppercase().collect::<String>()
}

/// A text with its first character in uppercase.
pub open spec fn capitalized(value: Seq<char>) -> Seq<char> {
    if value.len() == 0 {
        Seq::empty()
    } else {
        uppercase_of(value[0]) + value.skip(1)
    }
}

/// A non-empty text with its first character replaced by `first_upper`, the
/// uppercase mapping of that character.
pub fn capitalize_with(first_upper: String, value: &str) -> (r: String)
    requires
        value@.len() > 0,
    ensures
        r@ == first_upper@ + value@.skip(1),
{
    let n = value.unicode_len();
    let mut r = first_upper;
    let rest = value.substring_char(1, n);
    r.append(rest);
    assert(value@.subrange(1, n as int) =~= value@.skip(1));
    r
}

/// Puts the first character of a text in uppercase: an ASCII lowercase
/// letter becomes its capital, any other ASCII character stays as it is.
pub fn capitalize(value: &str) -> (r: String)
    ensures
        r@ == capitalized(value@),
        value@.len() == 0 ==> r@.len() == 0,
        value@.len() > 0 && 'a' <= value@[0] <= 'z' ==> r@ == seq![((value@[0] as u32) - 32) as char]
            + value@.skip(1),
        value@.len() > 0 && (value@[0] as u32) < 128 && !('a' <= value@[0] <= 'z') ==> r@ == value@,
{
    let n = value.unicode_len();
    if n == 0 {
        return String::new();
    }
    let r = capitalize_with(uppercase(value.get_char(0)), value);
    proof {
        if (value@[0] as u32) < 128 && !('a' <= value@[0] <= 'z') {
            assert(seq![value@[0]] + value@.skip(1) =~= value@);
        }
    }
    r
}

/// A text as an XPath string literal: in single quotes when it has none, in
/// double quotes when it has no double quote, and otherwise as a `concat`
/// whose pieces put each single quote inside double quotes.
pub open spec fn xpath_literal_of(value: Seq<char>) -> Seq<char> {
    if !value.contains('\'') {
        seq!['\''] + value + seq!['\'']
    } else if !value.contains('"') {
        seq!['"'] + value + seq!['"']
    } else {
        "concat('"@ + replaced(value, '\'', "',\"'\",'"@) + "')"@
    }
}

fn has_char(s: &str, c: char) -> (r: bool)
    ensures
        r == s@.contains(c),
{
    let n = s.unicode_len();
    let mut i: usize = 0;
    while i < n
        invariant
            n == s@.len(),
            i <= n,
            forall|j: int| 0 <= j < i ==> s@[j] != c,
        decreases n - i,
    {
        if s.get_char(i) == c {
            return true;
        }
        i = i + 1;
    }
    false
}

/// The XPath string literal of a text.
pub fn xpath_literal(value: &str) -> (r: String)
    ensures
        r@ == xpath_literal_of(value@),
{
    if !has_char(value, '\'') {
        let mut r = String::new();
        push_char(&mut r, '\'');
        r.append(value);
        push_char(&mut r, '\'');
        assert(r@ =~= xpath_literal_of(value@));
        return r;
    }
    if !has_char(value, '"') {
        let mut r = String::new();
        push_char(&mut r, '"');
        r.append(value);
        push_char(&mut r, '"');
        assert(r@ =~= xpath_literal_of(value@));
        return r;
    }
    let mut r = owned("concat('");
    let inner = replace_char(value, '\'', "',\"'\",'");
    r.append(inner.as_str());
    r.append("')");
    r
}

/// The selector of elements whose text is `value`.
pub fn text(value: &str) -> (r: String)
    ensures
        r@ == "//*[@text="@ + xpath_literal_of(value@) + "]"@,
{
    let mut r = owned("//*[@text=");
    let lit = xpath_literal(value);
    r.append(lit.as_str());
    r.append("]");
    r
}

/// The selector of elements whose text contains `value`.
pub fn contains_text(value: &str) -> (r: String)
    ensures
        r@ == "//*[contains(@text,"@ + xpath_literal_of(value@) + ")]"@,
{
    let mut r = owned("//*[contains(@text,");
    let lit = xpath_literal(value);
    r.append(lit.as_str());
    r.append(")]");
    r
}

/// The selector of elements whose content description contains `value`.
pub fn content_desc_contains(value: &str) -> (r: String)
    ensures
        r@ == "//*[contains(@content-desc,"@ + xpath_literal_of(value@) + ")]"@,
{
    let mut r = owned("//*[contains(@content-desc,");
    let lit = xpath_literal(value);
    r.append(lit.as_str());
    r.append(")]");
    r
}

} // verus!

verus! {

/// The settings of a run as the environment gives them, each one absent when
/// its variable is unset or not text.
pub struct RunEnvironment {
    pub android_udid: Option<String>,
    pub android_serial: Option<String>,
    pub android_target: Option<String>,
    pub build_type: Option<String>,
    pub gradle_variant: Option<String>,
    pub android_package: Option<String>,
    pub device_model_path: Option<String>,
    pub appium_url: Option<String>,
    pub local_port: Option<String>,
    pub remote_port: Option<String>,
}

/// The settings of a run, the defaults filled in.
pub struct RunSettings {
    pub device_serial: Option<String>,
    pub android_target: String,
    pub android_build_type: AndroidBuildType,
    pub android_variant: String,
    pub android_package: String,
    pub device_model_path: String,
    pub appium_url: String,
    pub local_port: String,
    pub remote_port: String,
}

/// A setting, or its default when unset.
pub open spec fn or_default(value: Option<String>, default: Seq<char>) -> Seq<char> {
    match value {
        Some(v) => v@,
        None => default,
    }
}

fn or_default_exec(value: Option<String>, default: &str) -> (r: String)
    ensures
        r@ == or_default(value, default@),
{
    match value {
        Some(v) => v,
        None => owned(default),
    }
}

/// The device to drive: `ANDROID_UDID` when set, else `ANDROID_SERIAL`; an
/// empty name means any device.
pub open spec fn device_serial_of(udid: Option<String>, serial: Option<String>) -> Option<Seq<char>> {
    let chosen = match udid {
        Some(u) => Some(u@),
        None => match serial {
            Some(s) => Some(s@),
            None => None,
        },
    };
    match chosen {
        Some(c) => if c.len() > 0 { Some(c) } else { None },
        None => None,
    }
}

/// Fills in the settings of a run, given the file name of the model to
/// import: the target defaults to `arm64`, the build type to `debug`, the
/// Gradle variant to the capitalized target followed by the build's suffix,
/// the package to the default one, the model's place on the device to the
/// Downloads directory, Appium to its local address, and both ports to the
/// API's port. An unknown build type is refused.
pub fn resolve_run_settings(env: RunEnvironment, model_file_name: &str) -> (r: Result<RunSettings, String>)
    ensures
        r is Ok <==> (env.build_type matches Some(b) ==> (b@ == "debug"@ || b@ == "e2e"@)),
        r matches Err(m) ==> (env.build_type matches Some(b) && m@
            == "LLMD_ANDROID_BUILD_TYPE must be debug or e2e, got "@ + b@),
        r matches Ok(s) ==> {
            &&& (match s.device_serial {
                Some(d) => device_serial_of(env.android_udid, env.android_serial) == Some(d@),
                None => device_serial_of(env.android_udid, env.android_serial) is None,
            })
            &&& s.android_target@ == or_default(env.android_target, "arm64"@)
            &&& (env.build_type matches Some(b) && b@ == "e2e"@ ==> s.android_build_type
                == AndroidBuildType::E2e)
            &&& (!(env.build_type matches Some(b) && b@ == "e2e"@) ==> s.android_build_type
                == AndroidBuildType::Debug)
            &&& s.android_variant@ == or_default(
                env.gradle_variant,
                capitalized(s.android_target@) + (if s.android_build_type == AndroidBuildType::Debug {
                    "Debug"@
                } else {
                    "E2e"@
                }),
            )
            &&& s.android_package@ == or_default(env.android_package, DEFAULT_PACKAGE@)
            &&& s.device_model_path@ == or_default(
                env.device_model_path,
                "/sdcard/Download/"@ + model_file_name@,
            )
            &&& s.appium_url@ == or_default(env.appium_url, "http://127.0.0.1:4723/"@)
            &&& s.local_port@ == or_default(env.local_port, DEFAULT_API_PORT@)
            &&& s.remote_port@ == or_default(env.remote_port, DEFAULT_API_PORT@)
        },
{
    proof {
        reveal_strlit("debug");
        reveal_strlit("e2e");
        assert("e2e"@[0] != "debug"@[0]);
    }
    let RunEnvironment {
        android_udid,
        android_serial,
        android_target,
        build_type,
        gradle_variant,
        android_package,
        device_model_path,
        appium_url,
        local_port,
        remote_port,
    } = env;
    let ghost udid0 = android_udid;
    let ghost serial0 = android_serial;
    let chosen = match android_udid {
        Some(u) => Some(u),
        None => android_serial,
    };
    let device_serial = match chosen {
        Some(c) => if c.as_str().unicode_len() > 0 { Some(c) } else { None },
        None => None,
    };
    let android_target = or_default_exec(android_target, "arm64");
    let android_build_type = match &build_type {
        Some(b) => AndroidBuildType::from_setting(Some(b.as_str())),
        None => AndroidBuildType::from_setting(None),
    };
    let android_build_type = match android_build_type {
        Ok(t) => t,
        Err(m) => {
            return Err(m);
        },
    };
    let android_variant = match gradle_variant {
        Some(v) => v,
        None => {
            let mut v = capitalize(android_target.as_str());
            v.append(android_build_type.gradle_suffix());
            v
        },
    };
    let android_package = or_default_exec(android_package, DEFAULT_PACKAGE);
    let device_model_path = match device_model_path {
        Some(p) => p,
        None => {
            let mut p = owned("/sdcard/Download/");
            p.append(model_file_name);
            p
        },
    };
    let appium_url = or_default_exec(appium_url, "http://127.0.0.1:4723/");
    let local_port = or_default_exec(local_port, DEFAULT_API_PORT);
    let remote_port = or_default_exec(remote_port, DEFAULT_API_PORT);
    Ok(RunSettings {
        device_serial,
        android_target,
        android_build_type,
        android_variant,
        android_package,
        device_model_path,
        appium_url,
        local_port,
        remote_port,
    })
}

} // verus!

verus! {

/// The views of a list of arguments.
pub open spec fn args_view(args: Seq<String>) -> Seq<Seq<char>> {
    args.map_values(|a: String| a@)
}

fn args_of(parts: &[&str]) -> (r: Vec<String>)
    ensures
        r@.len() == parts@.len(),
        forall|i: int| 0 <= i < parts@.len() ==> (#[trigger] r@[i])@ == parts@[i]@,
{
    let mut r: Vec<String> = Vec::new();
    let mut i: usize = 0;
    while i < parts.len()
        invariant
            i <= parts@.len(),
            r@.len() == i,
            forall|j: int| 0 <= j < i ==> (#[trigger] r@[j])@ == parts@[j]@,
        decreases parts.len() - i,
    {
        r.push(owned(parts[i]));
        i = i + 1;
    }
    r
}

/// The arguments of `npx` that build the Android app with Tauri for an
/// architecture, as a debuggable build or not.
pub fn tauri_build_args(target: &str, debug: bool) -> (r: Vec<String>)
    ensures
        debug ==> args_view(r@) == seq![
            "tauri"@, "android"@, "build"@, "--apk"@, "--debug"@, "--target"@,
            tauri_target_of(target@), "--ci"@,
        ],
        !debug ==> args_view(r@) == seq![
            "tauri"@, "android"@, "build"@, "--apk"@, "--target"@, tauri_target_of(target@),
            "--ci"@,
        ],
{
    let t = tauri_target(target);
    let r = if debug {
        args_of(&["tauri", "android", "build", "--apk", "--debug", "--target", t, "--ci"])
    } else {
        args_of(&["tauri", "android", "build", "--apk", "--target", t, "--ci"])
    };
    assert(args_view(r@) =~= if debug {
        seq!["tauri"@, "android"@, "build"@, "--apk"@, "--debug"@, "--target"@, tauri_target_of(target@), "--ci"@]
    } else {
        seq!["tauri"@, "android"@, "build"@, "--apk"@, "--target"@, tauri_target_of(target@), "--ci"@]
    });
    r
}

fn joined2(a: &str, b: &str) -> (r: String)
    ensures
        r@ == a@ + b@,
{
    let mut r = owned(a);
    r.append(b);
    r
}

/// The arguments of `gradlew` that assemble a variant of the Android app
/// with its Rust part already built, for one architecture and its ABI; an
/// architecture without a known ABI is refused.
pub fn gradle_assemble_args(variant: &str, target: &str) -> (r: Result<Vec<String>, String>)
    ensures
        abi_of(target@) is None ==> (r matches Err(m) && m@ == "unsupported Android target "@ + target@),
        abi_of(target@) matches Some(abi) ==> (r matches Ok(a) && args_view(a@) == seq![
            ":app:assemble"@ + variant@,
            "-x"@,
            ":app:rustBuild"@ + variant@,
            "-PtargetList="@ + tauri_target_of(target@),
            "-ParchList="@ + target@,
            "-PabiList="@ + abi,
            "--no-daemon"@,
        ]),
{
    let assemble = joined2(":app:assemble", variant);
    let rust = joined2(":app:rustBuild", variant);
    let targets = joined2("-PtargetList=", tauri_target(target));
    let arches = joined2("-ParchList=", target);
    let abi = abi_for_target(target)?;
    let abis = joined2("-PabiList=", abi);
    let mut r: Vec<String> = Vec::new();
    r.push(assemble);
    r.push(owned("-x"));
    r.push(rust);
    r.push(targets);
    r.push(arches);
    r.push(abis);
    r.push(owned("--no-daemon"));
    assert(args_view(r@) =~= seq![
        ":app:assemble"@ + variant@,
        "-x"@,
        ":app:rustBuild"@ + variant@,
        "-PtargetList="@ + tauri_target_of(target@),
        "-ParchList="@ + target@,
        "-PabiList="@ + abi@,
        "--no-daemon"@,
    ]);
    Ok(r)
}

/// The arguments that go before any `adb` command: the device's serial when
/// one is set; other programs get none.
pub fn device_args(program: &str, serial: Option<&str>) -> (r: Vec<String>)
    ensures
        program@ == "adb"@ && serial is Some ==> args_view(r@) == seq!["-s"@, serial->0@],
        !(program@ == "adb"@ && serial is Some) ==> r@.len() == 0,
{
    let mut r: Vec<String> = Vec::new();
    if same_text(program, "adb") {
        if let Some(s) = serial {
            r.push(owned("-s"));
            r.push(owned(s));
            assert(args_view(r@) =~= seq!["-s"@, s@]);
        }
    }
    r
}

/// The `adb` arguments that drop the forwarding of a local port, and those
/// that forward it to a port on the device.
pub fn port_forward_args(local_port: &str, remote_port: &str) -> (r: (Vec<String>, Vec<String>))
    ensures
        args_view(r.0@) == seq!["forward"@, "--remove"@, "tcp:"@ + local_port@],
        args_view(r.1@) == seq!["forward"@, "tcp:"@ + local_port@, "tcp:"@ + remote_port@],
{
    let mut remove: Vec<String> = Vec::new();
    remove.push(owned("forward"));
    remove.push(owned("--remove"));
    remove.push(joined2("tcp:", local_port));
    let mut forward: Vec<String> = Vec::new();
    forward.push(owned("forward"));
    forward.push(joined2("tcp:", local_port));
    forward.push(joined2("tcp:", remote_port));
    assert(args_view(remove@) =~= seq!["forward"@, "--remove"@, "tcp:"@ + local_port@]);
    assert(args_view(forward@) =~= seq!["forward"@, "tcp:"@ + local_port@, "tcp:"@ + remote_port@]);
    (remove, forward)
}

/// The address the API tests use: the forwarded port on this machine.
pub fn api_test_base_url(local_port: &str) -> (r: String)
    ensures
        r@ == "http://127.0.0.1:"@ + local_port@,
{
    joined2("http://127.0.0.1:", local_port)
}

/// The activity that starts the app of a package.
pub fn main_activity(package: &str) -> (r: String)
    ensures
        r@ == package@ + ".MainActivity"@,
{
    joined2(package, ".MainActivity")
}

/// The status address of an Appium server: its address without trailing
/// slashes, then `/status`.
pub fn appium_status_url(appium_url: &str) -> (r: String)
    ensures
        r@ == trimmed_end(appium_url@, '/') + "/status"@,
{
    let mut r = trim_end_char(appium_url, '/');
    r.append("/status");
    r
}

/// Whether an APK found under the build outputs belongs to a build type: an
/// `.apk` file in a directory named after the build type.
pub fn is_build_apk(extension: Option<&str>, parent_name: Option<&str>, build_type: &str) -> (r: bool)
    ensures
        r == ((extension matches Some(e) && e@ == "apk"@) && (parent_name matches Some(p) && p@
            == build_type@)),
{
    match (extension, parent_name) {
        (Some(e), Some(p)) => same_text(e, "apk") && same_text(p, build_type),
        _ => false,
    }
}

/// The failure when no APK of a build type was found under a directory.
pub fn missing_apk_message(build_type: &str, dir: &str) -> (r: String)
    ensures
        r@ == "no "@ + build_type@ + " APK found under "@ + dir@,
{
    let mut r = joined2("no ", build_type);
    r.append(" APK found under ");
    r.append(dir);
    r
}

/// The failure when the model file to push is missing or empty.
pub fn missing_model_message(path: &str) -> (r: String)
    ensures
        r@ == "Gemma model is missing: "@ + path@
            + ". Run scripts/download-gemma-model.sh or set GEMMA_MODEL_PATH."@,
{
    let mut r = joined2("Gemma model is missing: ", path);
    r.append(". Run scripts/download-gemma-model.sh or set GEMMA_MODEL_PATH.");
    r
}

/// Whether an Appium failure only means that the element did not show up:
/// its message speaks of a missing element or of a timeout.
pub fn is_missing_element(message: &str) -> (r: bool)
    ensures
        r == (has_infix(message@, "no such element"@) || has_infix(message@, "NoSuchElement"@)
            || has_infix(message@, "timeout"@)),
{
    includes_text(message, "no such element") || includes_text(message, "NoSuchElement")
        || includes_text(message, "timeout")
}

} // verus!

verus! {

/// The selector of elements whose text is `v`.
pub open spec fn text_selector(v: Seq<char>) -> Seq<char> {
    "//*[@text="@ + xpath_literal_of(v) + "]"@
}

/// The selector of elements whose text contains `v`.
pub open spec fn contains_text_selector(v: Seq<char>) -> Seq<char> {
    "//*[contains(@text,"@ + xpath_literal_of(v) + ")]"@
}

/// The selector of elements whose content description contains `v`.
pub open spec fn content_desc_selector(v: Seq<char>) -> Seq<char> {
    "//*[contains(@content-desc,"@ + xpath_literal_of(v) + ")]"@
}

/// One attempt of the document picker walk: the element to tap, how many
/// seconds to wait for it, and whether tapping it selects the model.
pub struct PickerStep {
    pub selector: String,
    pub timeout_secs: u64,
    pub selects: bool,
}

/// Whether a picker step taps `selector`, waits `timeout_secs` and selects or not.
pub open spec fn step_is(s: PickerStep, selector: Seq<char>, timeout_secs: u64, selects: bool) -> bool {
    s.selector@ == selector && s.timeout_secs == timeout_secs && s.selects == selects
}

/// How to pick the model file in Android's document picker: the attempts in
/// order, and the failure when none of the selecting ones succeeds.
pub struct PickerPlan {
    pub steps: Vec<PickerStep>,
    pub failure: String,
}

/// The walk through the document picker for a model file: look for the file
/// at once; otherwise open the roots and the navigation drawer and go to the
/// Downloads folder, each if present, then wait for the file, and at last
/// look for its name without the `.litertlm` extension.
pub fn picker_plan(model_name: &str) -> (p: PickerPlan)
    ensures
        p.steps@.len() == 7,
        step_is(p.steps@[0], contains_text_selector(model_name@), 10, true),
        step_is(p.steps@[1], content_desc_selector("Show roots"@), 5, false),
        step_is(p.steps@[2], content_desc_selector("Open navigation drawer"@), 5, false),
        step_is(p.steps@[3], text_selector("Downloads"@), 5, false),
        step_is(p.steps@[4], text_selector("Download"@), 5, false),
        step_is(p.steps@[5], contains_text_selector(model_name@), 180, true),
        step_is(
            p.steps@[6],
            contains_text_selector(without_suffixes(model_name@, ".litertlm"@)),
            10,
            true,
        ),
        p.failure@ == "unable to select "@ + model_name@ + " in Android document picker"@,
{
    proof {
        reveal_strlit(".litertlm");
    }
    let stem = trim_end_text(model_name, ".litertlm");
    let mut steps: Vec<PickerStep> = Vec::new();
    steps.push(PickerStep { selector: contains_text(model_name), timeout_secs: 10, selects: true });
    steps.push(PickerStep { selector: content_desc_contains("Show roots"), timeout_secs: 5, selects: false });
    steps.push(
        PickerStep { selector: content_desc_contains("Open navigation drawer"), timeout_secs: 5, selects: false },
    );
    steps.push(PickerStep { selector: text("Downloads"), timeout_secs: 5, selects: false });
    steps.push(PickerStep { selector: text("Download"), timeout_secs: 5, selects: false });
    steps.push(PickerStep { selector: contains_text(model_name), timeout_secs: 180, selects: true });
    steps.push(PickerStep { selector: contains_text(stem.as_str()), timeout_secs: 10, selects: true });
    let mut failure = owned("unable to select ");
    failure.append(model_name);
    failure.append(" in Android document picker");
    PickerPlan { steps, failure }
}

} // verus!

verus! {

/// The `adb` arguments that create the directory the model is pushed to:
/// the given directory, or the Downloads directory when the model's place
/// names none.
pub fn device_dir_args(parent: Option<&str>) -> (r: Vec<String>)
    ensures
        parent matches Some(p) ==> args_view(r@) == seq!["shell"@, "mkdir"@, "-p"@, p@],
        parent is None ==> args_view(r@) == seq!["shell"@, "mkdir"@, "-p"@, "/sdcard/Download"@],
{
    let dir = match parent {
        Some(p) => owned(p),
        None => owned("/sdcard/Download"),
    };
    let mut r: Vec<String> = Vec::new();
    r.push(owned("shell"));
    r.push(owned("mkdir"));
    r.push(owned("-p"));
    r.push(dir);
    assert(args_view(r@) =~= seq!["shell"@, "mkdir"@, "-p"@, r@[3]@]);
    r
}

} // verus!

verus! {

/// Whether an APK replaces the newest one found so far: when none was found,
/// or when it was modified later.
pub fn replaces_latest(modified_later: Option<bool>) -> (r: bool)
    ensures
        modified_later is None ==> r,
        modified_later matches Some(later) ==> r == later,
{
    match modified_later {
        Some(later) => later,
        None => true,
    }
}

} // verus!
