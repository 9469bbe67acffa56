use kiro_account_manager::protocol::{
    extract_executable, get_protocol_command_inner, normalize_protocol_path, protocol_class_path,
    protocol_command, protocol_command_key, protocol_needs_repair, protocol_title,
};

#[test]
fn normalizing_the_handler_path() {
    assert_eq!(normalize_protocol_path("  \"C:\\App\\kiro.exe\"  ").unwrap(), "C:\\App\\kiro.exe");
    assert_eq!(normalize_protocol_path("\"\"C:\\x.exe\"").unwrap(), "C:\\x.exe");
    assert_eq!(normalize_protocol_path("C:\\x.exe").unwrap(), "C:\\x.exe");
    assert_eq!(normalize_protocol_path(" \" \" ").unwrap(), " ");
    let e = normalize_protocol_path("  \"\"  ").unwrap_err();
    assert_eq!(e, "鍗忚\u{e185}鏄犲皠璺\u{e21a}緞涓嶈兘涓虹┖");
    assert!(normalize_protocol_path("").is_err());
}

#[test]
fn registry_texts() {
    assert_eq!(protocol_command("C:\\a b\\k.exe"), "\"C:\\a b\\k.exe\" \"%1\"");
    assert_eq!(protocol_class_path("kiro"), "Software\\Classes\\kiro");
    assert_eq!(protocol_title("kiro"), "URL:kiro Protocol");
    assert_eq!(protocol_command_key("kiro-account-manager"), "Software\\Classes\\kiro-account-manager\\shell\\open\\command");
}

#[test]
fn executable_of_a_command() {
    assert_eq!(extract_executable("\"C:\\Program Files\\K\\k.exe\" \"%1\"").as_deref(), Some("C:\\Program Files\\K\\k.exe"));
    assert_eq!(extract_executable("  C:\\k.exe --x").as_deref(), Some("C:\\k.exe"));
    assert_eq!(extract_executable("\"unterminated"), None);
    assert_eq!(extract_executable("   "), None);
    assert_eq!(extract_executable(""), None);
    assert_eq!(extract_executable("\"\" x").as_deref(), Some(""));
    assert_eq!(extract_executable("a\tb").as_deref(), Some("a"));
}

#[test]
fn repair_decisions() {
    assert!(protocol_needs_repair(None, true));
    assert!(protocol_needs_repair(Some("C:\\x\\Electron.EXE".to_string()), true));
    assert!(protocol_needs_repair(Some("C:\\x\\kiro.exe".to_string()), false));
    assert!(!protocol_needs_repair(Some("C:\\x\\kiro.exe".to_string()), true));
}

#[test]
fn registered_command_lookup() {
    assert_eq!(get_protocol_command_inner(Some("a".to_string()), Some("b".to_string())), Ok("a".to_string()));
    assert_eq!(get_protocol_command_inner(Some("  ".to_string()), Some("b".to_string())), Ok("b".to_string()));
    assert_eq!(get_protocol_command_inner(None, Some("b".to_string())), Ok("b".to_string()));
    assert_eq!(
        get_protocol_command_inner(None, Some(String::new())),
        Err("鏈\u{e045}壘鍒?kiro 鍗忚\u{e185}鏄犲皠".to_string())
    );
    assert!(get_protocol_command_inner(None, None).is_err());
}

#[test]
fn written_command_reads_back_its_executable() {
    for p in ["C:\\Program Files\\Kiro\\kiro.exe", "", " spaced ", "C:\\x\\Electron.exe"] {
        let c = protocol_command(p);
        assert_eq!(extract_executable(&c).as_deref(), Some(p));
    }
    let c = protocol_command("C:\\k\\kiro.exe");
    assert!(!protocol_needs_repair(extract_executable(&c), true));
    let c = protocol_command("C:\\x\\Electron.exe");
    assert!(protocol_needs_repair(extract_executable(&c), true));
}
