use ipcprims::channel::{channel_name, is_builtin, is_reserved, COMMAND, CONTROL, ERROR};

#[test]
fn channel_names() {
    assert_eq!(channel_name(CONTROL), "CONTROL");
    assert_eq!(channel_name(COMMAND), "COMMAND");
    assert_eq!(channel_name(ERROR), "ERROR");
    assert_eq!(channel_name(5), "RESERVED");
    assert_eq!(channel_name(255), "RESERVED");
    assert_eq!(channel_name(256), "USER");
}

#[test]
fn reserved_and_builtin_ranges() {
    assert!(is_reserved(255));
    assert!(!is_reserved(256));
    assert!(is_builtin(4));
    assert!(!is_builtin(5));
}
