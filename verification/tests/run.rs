use monitor_switch::run::{
    plan_write, run_set, run_toggle, toggle_target, ActionProbe, RunError, WriteCmd,
};
use monitor_switch::source::InputSource;

fn ready(current_value: u16, write_ok: bool) -> ActionProbe {
    ActionProbe {
        caps_ok: true,
        feature_code: Some(0x60),
        read_ok: true,
        current_value,
        write_ok,
    }
}

#[test]
fn plan_write_carries_feature_code_and_value() {
    assert_eq!(plan_write(Some(0x60), InputSource::Hdmi1), Some((0x60, 0x11)));
    assert_eq!(plan_write(None, InputSource::Hdmi1), None);
}

#[test]
fn toggle_decision_resolves_to_the_other_candidate() {
    let c1 = InputSource::Hdmi1;
    let c2 = InputSource::DisplayPort1;
    assert_eq!(toggle_target(c1, c2, c1), Some(c2));
    assert_eq!(toggle_target(c1, c2, c2), Some(c1));
    assert_eq!(toggle_target(c1, c2, InputSource::Vga1), None);
}

#[test]
fn set_writes_to_every_display_in_order() {
    let probes = vec![ready(0, true), ready(0, true), ready(0, true)];
    let out = run_set(InputSource::Hdmi2, &probes);
    assert_eq!(out.result, Ok(()));
    assert_eq!(
        out.writes,
        vec![
            WriteCmd { index: 0, feature: 0x60, value: 0x12 },
            WriteCmd { index: 1, feature: 0x60, value: 0x12 },
            WriteCmd { index: 2, feature: 0x60, value: 0x12 },
        ]
    );
    assert_eq!(out.warned, Vec::<usize>::new());
    assert_eq!(out.teardown, vec![0, 1, 2]);
}

#[test]
fn set_aborts_on_a_missing_feature_before_touching_others() {
    let mut first = ready(0, true);
    first.feature_code = None;
    let probes = vec![first, ready(0, true), ready(0, true)];
    let out = run_set(InputSource::Hdmi1, &probes);
    assert_eq!(out.result, Err(RunError::FeatureNotAccessible { index: 0 }));
    assert_eq!(out.writes, Vec::<WriteCmd>::new());
    assert_eq!(out.teardown, vec![0]);
}

#[test]
fn teardown_is_exactly_once_per_opened_display() {
    // Three displays matched, fatal error on the second: the first two
    // each get exactly one teardown registration, the third none.
    let mut second = ready(0, true);
    second.caps_ok = false;
    let probes = vec![ready(0, true), second, ready(0, true)];
    let out = run_set(InputSource::Hdmi1, &probes);
    assert_eq!(out.result, Err(RunError::CapabilityRefresh { index: 1 }));
    assert_eq!(out.teardown, vec![0, 1]);
    assert_eq!(out.writes.len(), 1);
}

#[test]
fn set_tolerates_write_failures_with_a_warning() {
    let probes = vec![ready(0, true), ready(0, false), ready(0, true)];
    let out = run_set(InputSource::Vga2, &probes);
    assert_eq!(out.result, Ok(()));
    assert_eq!(out.writes.len(), 3);
    assert_eq!(out.warned, vec![1]);
    assert_eq!(out.teardown, vec![0, 1, 2]);
}

#[test]
fn toggle_resolves_against_the_first_display_and_applies_everywhere() {
    let c1 = InputSource::Hdmi1;
    let c2 = InputSource::DisplayPort1;
    // Current source is candidate 1 (code 0x11): target is candidate 2.
    let probes = vec![ready(0x11, true), ready(0x11, true)];
    let out = run_toggle(c1, c2, &probes);
    assert_eq!(out.result, Ok(()));
    assert_eq!(
        out.writes,
        vec![
            WriteCmd { index: 0, feature: 0x60, value: 0x0f },
            WriteCmd { index: 1, feature: 0x60, value: 0x0f },
        ]
    );
    // After the switch the current source reads as candidate 2, and
    // running toggle again returns to candidate 1.
    let probes_after = vec![ready(0x0f, true), ready(0x0f, true)];
    let back = run_toggle(c1, c2, &probes_after);
    assert_eq!(back.result, Ok(()));
    assert_eq!(back.writes[0].value, 0x11);
    assert_eq!(back.writes[1].value, 0x11);
}

#[test]
fn toggle_from_candidate_two_resolves_to_candidate_one() {
    let out = run_toggle(
        InputSource::Hdmi1,
        InputSource::Hdmi2,
        &vec![ready(0x12, true)],
    );
    assert_eq!(out.result, Ok(()));
    assert_eq!(out.writes, vec![WriteCmd { index: 0, feature: 0x60, value: 0x11 }]);
}

#[test]
fn toggle_aborts_with_no_write_when_current_is_neither_candidate() {
    // Current source is Vga1, candidates are the two HDMI inputs.
    let probes = vec![ready(0x01, true), ready(0x01, true), ready(0x01, true)];
    let out = run_toggle(InputSource::Hdmi1, InputSource::Hdmi2, &probes);
    assert_eq!(
        out.result,
        Err(RunError::NotToggleOption { index: 0, current: InputSource::Vga1 })
    );
    assert_eq!(out.writes, Vec::<WriteCmd>::new());
    assert_eq!(out.warned, Vec::<usize>::new());
    assert_eq!(out.teardown, vec![0]);
}

#[test]
fn toggle_rejects_a_value_outside_the_table() {
    let probes = vec![ready(0x00, true)];
    let out = run_toggle(InputSource::Hdmi1, InputSource::Hdmi2, &probes);
    assert_eq!(out.result, Err(RunError::UnknownSourceCode { index: 0, value: 0x00 }));
    assert_eq!(out.writes, Vec::<WriteCmd>::new());
    assert_eq!(out.teardown, vec![0]);
}

#[test]
fn toggle_read_failures_are_fatal() {
    let mut p = ready(0x11, true);
    p.read_ok = false;
    let out = run_toggle(InputSource::Hdmi1, InputSource::Hdmi2, &vec![p]);
    assert_eq!(out.result, Err(RunError::ReadFailed { index: 0 }));

    let mut q = ready(0x11, true);
    q.feature_code = None;
    let out = run_toggle(InputSource::Hdmi1, InputSource::Hdmi2, &vec![q]);
    assert_eq!(out.result, Err(RunError::FeatureNotAccessible { index: 0 }));
}

#[test]
fn toggle_of_no_displays_does_nothing() {
    let out = run_toggle(InputSource::Hdmi1, InputSource::Hdmi2, &Vec::new());
    assert_eq!(out.result, Ok(()));
    assert_eq!(out.writes, Vec::<WriteCmd>::new());
    assert_eq!(out.teardown, Vec::<usize>::new());
}
