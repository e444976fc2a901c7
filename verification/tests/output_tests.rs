use rg_audio::output::{needs_handle, plan_output, OutputPlan};

#[test]
fn same_device_needs_no_handling() {
    let a = String::from("pulse");
    let b = String::from("pulse");
    assert!(!needs_handle(Some(&a), Some(&b)));
}

#[test]
fn changed_device_needs_handling() {
    let a = String::from("pulse");
    let b = String::from("hdmi");
    assert!(needs_handle(Some(&a), Some(&b)));
}

#[test]
fn missing_device_needs_handling() {
    let a = String::from("pulse");
    assert!(needs_handle(None, Some(&a)));
    assert!(needs_handle(Some(&a), None));
    assert!(needs_handle(None, None));
}

#[test]
fn plan_keeps_a_fine_output() {
    assert_eq!(plan_output(false, false), OutputPlan::Keep);
    assert_eq!(plan_output(false, true), OutputPlan::Keep);
}

#[test]
fn plan_rebuilds_when_nothing_plays() {
    assert_eq!(plan_output(true, false), OutputPlan::Rebuild);
}

#[test]
fn plan_stops_and_continues_a_playing_track() {
    assert_eq!(plan_output(true, true), OutputPlan::StopRebuildContinue);
}
