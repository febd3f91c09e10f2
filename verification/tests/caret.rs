use flag_on_caret::caret::{
    accessible_caret_point, caret_probe_plan, gui_thread_caret_point, probe_step, str_contains,
    str_equals, uia_caret_point, uses_accessible_caret, uses_ui_automation, CaretProbe, ProbeStep,
};

#[test]
fn contains_finds_inner_run() {
    assert!(str_contains("Chrome_WidgetWin_1", "WidgetWin"));
    assert!(str_contains("abc", ""));
    assert!(str_contains("abc", "abc"));
    assert!(!str_contains("abc", "abcd"));
    assert!(!str_contains("Chrome", "chrome"));
    assert!(!str_contains("", "a"));
}

#[test]
fn equals_compares_characters() {
    assert!(str_equals("Notepad", "Notepad"));
    assert!(!str_equals("Notepad", "Notepad2"));
    assert!(!str_equals("notepad", "Notepad"));
    assert!(str_equals("", ""));
}

#[test]
fn notepad_uses_ui_automation_first() {
    assert!(uses_ui_automation("Notepad"));
    assert_eq!(caret_probe_plan("Notepad"), vec![CaretProbe::UiAutomation, CaretProbe::GuiThread]);
}

#[test]
fn uwp_frame_uses_ui_automation() {
    assert_eq!(
        caret_probe_plan("ApplicationFrameWindow"),
        vec![CaretProbe::UiAutomation, CaretProbe::GuiThread]
    );
}

#[test]
fn chromium_uses_accessible_caret() {
    for class in ["Chrome_WidgetWin_1", "Maxthon3Cls_MainFrm", "SlimjetWindow", "VivaldiHTM"] {
        assert!(uses_accessible_caret(class));
        assert_eq!(
            caret_probe_plan(class),
            vec![CaretProbe::AccessibleCaret, CaretProbe::GuiThread]
        );
    }
}

#[test]
fn classic_window_uses_gui_thread_only() {
    assert_eq!(caret_probe_plan("Edit"), vec![CaretProbe::GuiThread]);
    assert_eq!(caret_probe_plan(""), vec![CaretProbe::GuiThread]);
    assert_eq!(caret_probe_plan("notepad"), vec![CaretProbe::GuiThread]);
    assert_eq!(caret_probe_plan("NotepadPlusPlus"), vec![CaretProbe::GuiThread]);
}

#[test]
fn uia_point_needs_both_coordinates() {
    assert_eq!(uia_caret_point(true, 10, 20), Some((10, 20)));
    assert_eq!(uia_caret_point(true, 0, 20), None);
    assert_eq!(uia_caret_point(true, 10, 0), None);
}

#[test]
fn uia_point_hidden_on_blur() {
    assert_eq!(uia_caret_point(false, 10, 20), None);
}

#[test]
fn probe_step_found_decides() {
    assert_eq!(probe_step(3, 0, Some((4, 5))), ProbeStep::Found(4, 5));
    assert_eq!(probe_step(3, 2, Some((-1, 0))), ProbeStep::Found(-1, 0));
}

#[test]
fn probe_step_falls_through() {
    assert_eq!(probe_step(3, 0, None), ProbeStep::Next(1));
    assert_eq!(probe_step(3, 1, None), ProbeStep::Next(2));
    assert_eq!(probe_step(3, 2, None), ProbeStep::NotFound);
    assert_eq!(probe_step(1, 0, None), ProbeStep::NotFound);
}

#[test]
fn first_found_probe_wins_over_later_ones() {
    let plan = caret_probe_plan("Chrome_WidgetWin_1");
    let answers = [Some((30, 40)), Some((1, 1))];
    let mut i = 0;
    let result = loop {
        match probe_step(plan.len(), i, answers[i]) {
            ProbeStep::Found(x, y) => break Some((x, y)),
            ProbeStep::Next(j) => i = j,
            ProbeStep::NotFound => break None,
        }
    };
    assert_eq!(result, Some((30, 40)));
    assert_eq!(i, 0);
}

#[test]
fn accessible_point_needs_one_coordinate() {
    assert_eq!(accessible_caret_point(0, 5, None), Some((0, 5)));
    assert_eq!(accessible_caret_point(5, 0, Some(0)), Some((5, 0)));
    assert_eq!(accessible_caret_point(0, 0, None), None);
}

#[test]
fn invisible_accessible_caret_is_hidden() {
    assert_eq!(accessible_caret_point(100, 200, Some(0x8000)), None);
    assert_eq!(accessible_caret_point(100, 200, Some(0x8000 | 0x40)), None);
    assert_eq!(accessible_caret_point(100, 200, Some(0x40)), Some((100, 200)));
}

#[test]
fn gui_thread_point_at_origin_is_none() {
    assert_eq!(gui_thread_caret_point(0, 0), None);
    assert_eq!(gui_thread_caret_point(0, 1), Some((0, 1)));
    assert_eq!(gui_thread_caret_point(-3, 0), Some((-3, 0)));
}
