use copy_type::i18n::I18n;
use copy_type::permissions::{check_permissions, get_permission_fix_instructions, PermissionStatus};
use copy_type::platform::Platform;

fn status(keyboard: bool, clipboard: bool, issues: &[&str]) -> PermissionStatus {
    PermissionStatus {
        keyboard_simulation: keyboard,
        clipboard_access: clipboard,
        issues: issues.iter().map(|s| s.to_string()).collect(),
    }
}

#[test]
fn all_granted_needs_both() {
    assert!(status(true, true, &[]).all_granted());
    assert!(status(true, true, &["noted"]).all_granted());
    assert!(!status(false, true, &[]).all_granted());
    assert!(!status(true, false, &[]).all_granted());
    assert!(!status(false, false, &[]).all_granted());
}

#[test]
fn no_warning_when_all_granted() {
    let i18n = I18n::new("en");
    assert_eq!(status(true, true, &[]).get_warning_message(&i18n), None);
    assert_eq!(status(true, true, &["noted"]).get_warning_message(&i18n), None);
}

#[test]
fn warning_lists_what_is_missing() {
    let i18n = I18n::new("en");
    assert_eq!(
        status(false, true, &[]).get_warning_message(&i18n),
        Some("Keyboard simulation is not permitted".to_string())
    );
    assert_eq!(
        status(true, false, &[]).get_warning_message(&i18n),
        Some("Clipboard access is not permitted".to_string())
    );
    assert_eq!(
        status(false, false, &["first", "second"]).get_warning_message(&i18n),
        Some(
            "Keyboard simulation is not permitted\nClipboard access is not permitted\nfirst\nsecond"
                .to_string()
        )
    );
    let zh = I18n::new("zh-CN");
    assert_eq!(
        status(false, true, &["x"]).get_warning_message(&zh),
        Some("缺少键盘模拟权限\nx".to_string())
    );
}

#[test]
fn check_with_working_keyboard() {
    let i18n = I18n::new("en");
    for platform in [Platform::Windows, Platform::MacOs, Platform::Linux] {
        let status = check_permissions(&i18n, platform, Ok(()));
        assert!(status.keyboard_simulation);
        assert!(status.clipboard_access);
        assert!(status.issues.is_empty());
        assert!(status.all_granted());
    }
}

#[test]
fn check_with_failing_keyboard() {
    let i18n = I18n::new("en");
    let windows = check_permissions(&i18n, Platform::Windows, Err("denied".to_string()));
    assert!(!windows.keyboard_simulation);
    assert!(windows.clipboard_access);
    assert_eq!(windows.issues, vec!["Cannot start keyboard simulation: denied".to_string()]);
    let mac = check_permissions(&i18n, Platform::MacOs, Err("denied".to_string()));
    assert!(!mac.keyboard_simulation);
    assert_eq!(mac.issues, vec!["Grant the accessibility permission in System Settings".to_string()]);
    let linux = check_permissions(&i18n, Platform::Linux, Err("denied".to_string()));
    assert!(!linux.all_granted());
    assert_eq!(linux.issues, vec!["Add your user to the input group".to_string()]);
    assert_eq!(
        linux.get_warning_message(&i18n),
        Some("Keyboard simulation is not permitted\nAdd your user to the input group".to_string())
    );
}

#[test]
fn fix_instructions_by_platform() {
    let i18n = I18n::new("en");
    assert_eq!(
        get_permission_fix_instructions(&i18n, Platform::Windows),
        "Try running as administrator, and check whether security software blocks simulated input."
    );
    assert_eq!(
        get_permission_fix_instructions(&i18n, Platform::MacOs),
        "Allow this program under System Settings > Privacy & Security > Accessibility."
    );
    assert_eq!(
        get_permission_fix_instructions(&i18n, Platform::Linux),
        "Add your user to the input group, then log in again."
    );
    let zh = I18n::new("zh-CN");
    assert_eq!(get_permission_fix_instructions(&zh, Platform::Linux), "请将当前用户加入 input 组，然后重新登录。");
}
