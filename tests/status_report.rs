use hheat::status::{device_status, render_status, shows_fire, status_lines};
use hheat::device::DeviceError;
use hheat::text::{pad_left, same_text};

#[test]
fn manual_working_shows_fire() {
    let lines = render_status("MANUAL", "19.5", "21.0", true);
    assert_eq!(lines[0], "Mode            manual");
    assert_eq!(lines[1], "Temperature      19.5\u{b0}");
    assert_eq!(lines[2], "Target           21.0\u{b0} \u{1f525}");
    assert_eq!(lines.len(), 3);
}

#[test]
fn off_hides_fire_even_when_working() {
    let lines = render_status("OFF", "19.5", "7.0", true);
    assert_eq!(lines[0], "Mode               off");
    assert_eq!(lines[2], "Target            7.0\u{b0} ");
    assert!(!shows_fire("OFF", true));
    assert!(!shows_fire("OFF", false));
}

#[test]
fn idle_burner_hides_fire() {
    assert!(!shows_fire("MANUAL", false));
    assert!(shows_fire("SCHEDULE", true));
}

#[test]
fn lines_from_lowered_mode() {
    let lines = status_lines("schedule", "SCHEDULE", "5.0", "100.5", false);
    assert_eq!(lines[0], "Mode          schedule");
    assert_eq!(lines[1], "Temperature       5.0\u{b0}");
    assert_eq!(lines[2], "Target          100.5\u{b0} ");
}

#[test]
fn device_status_reads_record() {
    let device = r#"{"id":"n","type":"heating","state":{"mode":"MANUAL","target":21.0},"props":{"temperature":19.5,"working":true}}"#;
    let lines = device_status(device, "19.5", "21.0").unwrap();
    assert_eq!(lines[0], "Mode            manual");
    assert_eq!(lines[2], "Target           21.0\u{b0} \u{1f525}");
}

#[test]
fn device_status_needs_working_flag() {
    let device = r#"{"state":{"mode":"MANUAL"},"props":{}}"#;
    assert_eq!(device_status(device, "1.0", "2.0"), Err(DeviceError::MissingField));
}

#[test]
fn padding() {
    assert_eq!(pad_left("ab", 5), "   ab");
    assert_eq!(pad_left("abcdef", 3), "abcdef");
    assert_eq!(pad_left("", 2), "  ");
    assert_eq!(pad_left("\u{b0}x", 3), " \u{b0}x");
}

#[test]
fn text_equality() {
    assert!(same_text("heating", "heating"));
    assert!(!same_text("heating", "heatinG"));
    assert!(!same_text("heat", "heating"));
    assert!(same_text("", ""));
}
