use kiro_account_manager::machine_guid::macos::{
    get_system_machine_guid_inner, machine_guid_from_file, new_dev_device_id, new_sqm_id,
    parse_hardware_uuid, reset_machine_guid_inner, set_custom_machine_guid_inner,
    telemetry_machine_id, updated_storage_json, sqm_id_of, storage_json_with_ids,
};
use kiro_account_manager::machine_guid::random::generate_machine_guid;
use kiro_account_manager::machine_guid::{is_valid_machine_id, unsupported, SystemMachineInfo};

const IOREG: &str = "+-o J314sAP  <class IOPlatformExpertDevice, id 0x100000001, registered>\n    {\n      \"IOPlatformSerialNumber\" = \"C02XXXX\"\r\n      \"IOPlatformUUID\" = \"1A2B3C4D-AAAA-BBBB-CCCC-112233445566\"\r\n    }\n";

#[test]
fn machine_id_format() {
    assert!(is_valid_machine_id("1a2b3c4d-aaaa-bbbb-cccc-112233445566"));
    assert!(is_valid_machine_id("1A2B3C4D-AAAA-BBBB-CCCC-112233445566"));
    assert!(!is_valid_machine_id("1a2b3c4daaaabbbbcccc112233445566"));
    assert!(!is_valid_machine_id("1a2b3c4d-aaaa-bbbb-cccc-11223344556g"));
    assert!(!is_valid_machine_id(" 1a2b3c4d-aaaa-bbbb-cccc-112233445566"));
    assert!(!is_valid_machine_id(""));
}

#[test]
fn custom_id_is_checked_and_lowercased() {
    assert_eq!(
        set_custom_machine_guid_inner("1A2B3C4D-AAAA-BBBB-CCCC-112233445566".to_string()),
        Ok("1a2b3c4d-aaaa-bbbb-cccc-112233445566".to_string())
    );
    assert_eq!(set_custom_machine_guid_inner("nope".to_string()), Err("无效的机器码格式".to_string()));
}

#[test]
fn reset_gives_a_fresh_valid_id() {
    let a = reset_machine_guid_inner().unwrap();
    let b = reset_machine_guid_inner().unwrap();
    assert!(is_valid_machine_id(&a));
    assert_eq!(a, a.to_lowercase());
    assert_ne!(a, b);
    assert_eq!(set_custom_machine_guid_inner(a.clone()), Ok(a));
}

#[test]
fn stored_id_is_trimmed_and_checked() {
    assert_eq!(
        machine_guid_from_file(Some(" 1a2b3c4d-aaaa-bbbb-cccc-112233445566\n".to_string())).as_deref(),
        Some("1a2b3c4d-aaaa-bbbb-cccc-112233445566")
    );
    assert_eq!(machine_guid_from_file(Some("garbage".to_string())), None);
    assert_eq!(machine_guid_from_file(None), None);
}

#[test]
fn hardware_uuid_from_ioreg() {
    assert_eq!(parse_hardware_uuid(IOREG), Ok("1a2b3c4d-aaaa-bbbb-cccc-112233445566".to_string()));
    assert_eq!(parse_hardware_uuid("no uuid here\n"), Err("无法获取 IOPlatformUUID".to_string()));
    assert_eq!(parse_hardware_uuid("\"IOPlatformUUID\" = "), Err("无法获取 IOPlatformUUID".to_string()));
    assert_eq!(parse_hardware_uuid("\"IOPlatformUUID\" = \"ABC"), Ok("abc".to_string()));
    assert_eq!(parse_hardware_uuid("x\n\"IOPlatformUUID\" = \"ÀB\""), Ok("àb".to_string()));
    assert_eq!(parse_hardware_uuid(""), Err("无法获取 IOPlatformUUID".to_string()));
}

fn guid(info: &SystemMachineInfo) -> Option<&str> {
    info.machine_guid.as_deref()
}

#[test]
fn system_guid_prefers_the_stored_id() {
    let info = get_system_machine_guid_inner(Some("s".to_string()), Err("unused".to_string())).unwrap();
    assert_eq!(guid(&info), Some("s"));
    assert_eq!(info.os_type, "macos");
    assert!(info.can_modify && !info.requires_admin && !info.backup_exists);
    assert_eq!(info.backup_time, None);
    let info = get_system_machine_guid_inner(None, Ok("h".to_string())).unwrap();
    assert_eq!(guid(&info), Some("h"));
    assert_eq!(get_system_machine_guid_inner(None, Err("e".to_string())).unwrap_err(), "e");
}

#[test]
fn telemetry_ids() {
    assert_eq!(telemetry_machine_id("abc"), "ba7816bf8f01cfea414140de5dae2223b00361a396177a9cb410ff61f20015ad");
    assert_eq!(telemetry_machine_id(""), "e3b0c44298fc1c149afbf4c8996fb92427ae41e4649b934ca495991b7852b855");
    let d = new_dev_device_id().unwrap();
    assert!(is_valid_machine_id(&d));
    assert_eq!(d, d.to_lowercase());
    let s = new_sqm_id().unwrap();
    assert_eq!(s.len(), 38);
    assert!(s.starts_with('{') && s.ends_with('}'));
    assert!(is_valid_machine_id(&s[1..37]));
    assert_eq!(s, s.to_uppercase());
}

#[test]
fn unsupported_platform_refuses() {
    let msg = "当前仅支持 Windows、macOS 和 Linux".to_string();
    assert_eq!(unsupported::get_system_machine_guid_inner().unwrap_err(), msg);
    assert_eq!(unsupported::reset_machine_guid_inner(), Err(msg.clone()));
    assert_eq!(unsupported::set_custom_machine_guid_inner("x".to_string()), Err(msg));
}

#[test]
fn accepted_id_is_accepted_again_unchanged() {
    let once = set_custom_machine_guid_inner("ABCDEF01-2345-6789-ABCD-EF0123456789".to_string()).unwrap();
    assert_eq!(once, "abcdef01-2345-6789-abcd-ef0123456789");
    assert_eq!(set_custom_machine_guid_inner(once.clone()), Ok(once));
}

fn is_v4(s: &str) -> bool {
    let b = s.as_bytes();
    is_valid_machine_id(s) && b[14] == b'4' && matches!(b[19], b'8' | b'9' | b'a' | b'b') && s == s.to_lowercase()
}

#[test]
fn random_ids_are_version_4() {
    for _ in 0..20 {
        assert!(is_v4(&generate_machine_guid().unwrap()));
        assert!(is_v4(&reset_machine_guid_inner().unwrap()));
        assert!(is_v4(&new_dev_device_id().unwrap()));
        let q = new_sqm_id().unwrap();
        assert!(is_v4(&q[1..37].to_lowercase()));
    }
}

#[test]
fn storage_json_object_gets_the_telemetry_ids() {
    let id = "1a2b3c4d-aaaa-bbbb-cccc-112233445566";
    let text = "{\"other\": [1, 2], \"telemetry.machineId\": \"old\"}";
    let out = updated_storage_json(text, id).unwrap();
    let v: serde_json::Value = serde_json::from_str(&out).unwrap();
    assert_eq!(serde_json::to_string_pretty(&v).unwrap(), out);
    let o = v.as_object().unwrap();
    assert_eq!(o.len(), 4);
    assert_eq!(o["other"].to_string(), "[1,2]");
    assert_eq!(o["telemetry.machineId"].as_str(), Some(telemetry_machine_id(id).as_str()));
    assert!(is_v4(o["telemetry.devDeviceId"].as_str().unwrap()));
    let q = o["telemetry.sqmId"].as_str().unwrap();
    assert!(q.starts_with('{') && q.ends_with('}') && q.len() == 38);
    assert!(is_v4(&q[1..37].to_lowercase()));
    assert_eq!(q, q.to_uppercase());
}

#[test]
fn storage_json_other_values_are_written_back() {
    assert_eq!(updated_storage_json("[1,2]", "x"), Ok("[\n  1,\n  2\n]".to_string()));
    assert_eq!(updated_storage_json(" 7 ", "x"), Ok("7".to_string()));
}

#[test]
fn storage_json_that_is_not_json_is_refused() {
    let e = updated_storage_json("{oops", "x").unwrap_err();
    assert!(e.starts_with("解析 storage.json 失败: "), "{e}");
    assert!(updated_storage_json("", "x").is_err());
}

#[test]
fn sqm_id_wraps_the_uuid_in_capitals() {
    assert_eq!(sqm_id_of("1a2b3c4d-aaaa-4bbb-8ccc-112233445566"), "{1A2B3C4D-AAAA-4BBB-8CCC-112233445566}");
}

#[test]
fn storage_json_with_given_ids() {
    let out = storage_json_with_ids("{\"a\": 1, \"telemetry.sqmId\": \"x\"}", "abc", "dev", "{SQM}").unwrap();
    let v: serde_json::Value = serde_json::from_str(&out).unwrap();
    let o = v.as_object().unwrap();
    assert_eq!(o.len(), 4);
    assert_eq!(o["a"].to_string(), "1");
    assert_eq!(
        o["telemetry.machineId"].as_str(),
        Some("ba7816bf8f01cfea414140de5dae2223b00361a396177a9cb410ff61f20015ad")
    );
    assert_eq!(o["telemetry.devDeviceId"].as_str(), Some("dev"));
    assert_eq!(o["telemetry.sqmId"].as_str(), Some("{SQM}"));
    assert_eq!(storage_json_with_ids("\"s\"", "abc", "d", "q"), Ok("\"s\"".to_string()));
    assert!(storage_json_with_ids("nope", "abc", "d", "q").unwrap_err().starts_with("解析 storage.json 失败: "));
}
