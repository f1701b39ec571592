use remote_desktop::capture::{
    capture_monitor, capture_primary, get_primary_screen_size, list_monitors, Monitor,
};

fn monitor(id: u32, name: &str, width: u32, height: u32, is_primary: bool) -> Monitor {
    Monitor { id, name: name.to_string(), width, height, is_primary }
}

fn two_monitors() -> Result<Vec<Monitor>, String> {
    Ok(vec![monitor(7, "DP-1", 1280, 1024, false), monitor(9, "eDP-1", 2560, 1440, true)])
}

#[test]
fn list_monitors_does_not_panic() {
    let _ = list_monitors(&Ok(vec![]));
    let _ = list_monitors(&two_monitors());
    let _ = list_monitors(&Err("no display".to_string()));
}

#[test]
fn monitor_names_come_in_order() {
    assert_eq!(
        list_monitors(&two_monitors()),
        Ok(vec!["DP-1".to_string(), "eDP-1".to_string()])
    );
    assert_eq!(list_monitors(&Err("no display".to_string())), Err("no display".to_string()));
}

#[test]
fn primary_monitor_is_captured() {
    assert_eq!(capture_primary(&two_monitors()), Ok(1));
    let unmarked = Ok(vec![monitor(1, "A", 10, 10, false), monitor(2, "B", 20, 20, false)]);
    assert_eq!(capture_primary(&unmarked), Ok(0));
}

#[test]
fn capturing_without_monitors_fails() {
    assert_eq!(capture_primary(&Ok(vec![])), Err("no monitors found".to_string()));
    assert_eq!(capture_primary(&Err("no display".to_string())), Err("no display".to_string()));
}

#[test]
fn monitor_index_is_checked() {
    assert_eq!(capture_monitor(&two_monitors(), 1), Ok(1));
    assert_eq!(
        capture_monitor(&two_monitors(), 2),
        Err("monitor index 2 out of range".to_string())
    );
    assert_eq!(
        capture_monitor(&two_monitors(), 1030),
        Err("monitor index 1030 out of range".to_string())
    );
    assert_eq!(capture_monitor(&Err("no display".to_string()), 0), Err("no display".to_string()));
}

#[test]
fn screen_size_is_that_of_the_primary_monitor() {
    assert_eq!(get_primary_screen_size(&two_monitors()), (2560, 1440));
    assert_eq!(get_primary_screen_size(&Ok(vec![monitor(1, "A", 10, 10, false)])), (1920, 1080));
    assert_eq!(get_primary_screen_size(&Err("no display".to_string())), (1920, 1080));
}
