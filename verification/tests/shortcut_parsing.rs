use thymestamp::prefs::RuntimePrefs;
use thymestamp::shortcuts::{
    ShortcutDescriptor, ShortcutKey, fkey_to_code, letter_to_code, parse_shortcut,
};

#[test]
fn ctrl_alt_t() {
    let d = parse_shortcut("Ctrl+Alt+T").expect("valid combination");
    assert_eq!(
        d,
        ShortcutDescriptor {
            meta: false,
            control: true,
            alt: true,
            shift: false,
            key: ShortcutKey::Letter('T'),
        }
    );
}

#[test]
fn modifiers_alone_fail() {
    assert_eq!(parse_shortcut("Shift"), None);
    assert_eq!(parse_shortcut("Cmd+Alt"), None);
    assert_eq!(parse_shortcut(""), None);
}

#[test]
fn function_key_range() {
    assert_eq!(parse_shortcut("Cmd+F13"), None);
    let d = parse_shortcut("Cmd+F12").expect("F12 is supported");
    assert_eq!(
        d,
        ShortcutDescriptor {
            meta: true,
            control: false,
            alt: false,
            shift: false,
            key: ShortcutKey::Function(12),
        }
    );
    assert_eq!(parse_shortcut("F0"), None);
    assert_eq!(parse_shortcut("f1").map(|d| d.key), Some(ShortcutKey::Function(1)));
    assert_eq!(parse_shortcut("f012").map(|d| d.key), Some(ShortcutKey::Function(12)));
    assert_eq!(parse_shortcut("f99999999999999999999"), None);
    assert_eq!(parse_shortcut("fx"), None);
}

#[test]
fn aliases_accumulate() {
    let d = parse_shortcut("meta+option+shift+control+y").expect("valid combination");
    assert!(d.meta && d.control && d.alt && d.shift);
    assert_eq!(d.key, ShortcutKey::Letter('Y'));
    let d2 = parse_shortcut("command+x").expect("valid combination");
    assert!(d2.meta && !d2.control && !d2.alt && !d2.shift);
    assert_eq!(d2.key, ShortcutKey::Letter('X'));
}

#[test]
fn segments_are_trimmed_and_case_folded() {
    let d = parse_shortcut(" CTRL + alt + t ").expect("valid combination");
    assert!(d.control && d.alt && !d.meta && !d.shift);
    assert_eq!(d.key, ShortcutKey::Letter('T'));
}

#[test]
fn last_key_segment_wins() {
    let d = parse_shortcut("a+b").expect("valid combination");
    assert_eq!(d.key, ShortcutKey::Letter('B'));
}

#[test]
fn bad_segments_fail_whole_parse() {
    assert_eq!(parse_shortcut("Ctrl+Alt+Del"), None);
    assert_eq!(parse_shortcut("Ctrl+7"), None);
    assert_eq!(parse_shortcut("Ctrl++T"), None);
    assert_eq!(parse_shortcut("T+"), None);
}

#[test]
fn key_code_tables() {
    assert_eq!(letter_to_code('A'), Some(ShortcutKey::Letter('A')));
    assert_eq!(letter_to_code('Z'), Some(ShortcutKey::Letter('Z')));
    assert_eq!(letter_to_code('a'), None);
    assert_eq!(letter_to_code('7'), None);
    assert_eq!(fkey_to_code(1), Some(ShortcutKey::Function(1)));
    assert_eq!(fkey_to_code(12), Some(ShortcutKey::Function(12)));
    assert_eq!(fkey_to_code(0), None);
    assert_eq!(fkey_to_code(13), None);
}

#[test]
fn prefs_snapshot_reflects_values() {
    let mut p = RuntimePrefs::default();
    let s0 = p.snapshot();
    assert!(!s0.close_on_blur && !s0.always_on_top);
    p.set_close_on_blur(true);
    p.set_always_on_top(true);
    let s1 = p.snapshot();
    assert!(s1.close_on_blur && s1.always_on_top);
    p.set_close_on_blur(false);
    let s2 = p.snapshot();
    assert!(!s2.close_on_blur && s2.always_on_top);
}
