use sidecar_supervisor::decimal::u32_to_decimal;
use sidecar_supervisor::termination::{tree_kill_command, tree_kill_failure, Platform};

#[test]
fn posix_tree_kill_targets_children() {
    let c = tree_kill_command(Platform::Posix, 4242);
    assert_eq!(c.program, "pkill");
    assert_eq!(c.args, vec!["-P".to_string(), "4242".to_string()]);
}

#[test]
fn windows_tree_kill_is_forced() {
    let c = tree_kill_command(Platform::Windows, 17);
    assert_eq!(c.program, "taskkill");
    assert_eq!(
        c.args,
        vec!["/F".to_string(), "/T".to_string(), "/PID".to_string(), "17".to_string()]
    );
}

#[test]
fn decimal_edges() {
    assert_eq!(u32_to_decimal(0), "0");
    assert_eq!(u32_to_decimal(9), "9");
    assert_eq!(u32_to_decimal(10), "10");
    assert_eq!(u32_to_decimal(u32::MAX), "4294967295");
}

#[test]
fn tree_kill_failure_texts() {
    assert_eq!(
        tree_kill_failure(Platform::Posix, "not found"),
        "Failed to terminate child processes: not found"
    );
    assert_eq!(
        tree_kill_failure(Platform::Windows, "denied"),
        "Failed to terminate process tree: denied"
    );
}
