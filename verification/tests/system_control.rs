use neen_desktop_agent::system_control::{
    ActionParams, ControlError, InputStep, KeyCode, MissingParameter, ScrollPlan, SystemAction,
    SystemControl,
};

fn params() -> ActionParams {
    ActionParams {
        text: None,
        delay_ms: None,
        key: None,
        keys: None,
        direction: None,
        amount: None,
        app_name: None,
    }
}

#[test]
fn resolves_known_actions() {
    let c = SystemControl::new();
    assert_eq!(c.resolve_action("click").unwrap(), SystemAction::Click);
    assert_eq!(c.resolve_action("key_combination").unwrap(), SystemAction::KeyCombination);
    assert_eq!(c.resolve_action("switch_window").unwrap(), SystemAction::SwitchWindow);
    match c.resolve_action("fly") {
        Err(e) => assert_eq!(e.message(), "Unknown action: fly"),
        Ok(_) => panic!("unknown action accepted"),
    }
    assert!(c.resolve_action("Click").is_err());
}

#[test]
fn key_names_in_any_case() {
    let c = SystemControl::new();
    assert_eq!(c.string_to_key("Enter").unwrap(), KeyCode::Return);
    assert_eq!(c.string_to_key("RETURN").unwrap(), KeyCode::Return);
    assert_eq!(c.string_to_key("esc").unwrap(), KeyCode::Escape);
    assert_eq!(c.string_to_key("F12").unwrap(), KeyCode::F12);
    assert_eq!(c.string_to_key("Control").unwrap(), KeyCode::ControlLeft);
    assert_eq!(c.string_to_key("meta").unwrap(), KeyCode::MetaLeft);
    match c.string_to_key("Hyper") {
        Err(e) => assert_eq!(e.message(), "Unknown key: Hyper"),
        Ok(_) => panic!("unknown key accepted"),
    }
}

#[test]
fn characters_to_keys() {
    let c = SystemControl::new();
    assert_eq!(c.char_to_key('q'), Some(KeyCode::KeyA));
    assert_eq!(c.char_to_key('Z'), Some(KeyCode::KeyA));
    assert_eq!(c.char_to_key('7'), Some(KeyCode::Num0));
    assert_eq!(c.char_to_key(' '), Some(KeyCode::Space));
    assert_eq!(c.char_to_key('\n'), Some(KeyCode::Return));
    assert_eq!(c.char_to_key('\t'), Some(KeyCode::Tab));
    assert_eq!(c.char_to_key('!'), None);
}

#[test]
fn typing_plan() {
    let c = SystemControl::new();
    let mut p = params();
    p.text = Some("a!1".to_string());
    let steps = c.type_text_steps(&p).unwrap();
    assert_eq!(
        steps,
        vec![
            InputStep::Press(KeyCode::KeyA),
            InputStep::PauseMs(10),
            InputStep::Release(KeyCode::KeyA),
            InputStep::PauseMs(50),
            InputStep::Press(KeyCode::Num0),
            InputStep::PauseMs(10),
            InputStep::Release(KeyCode::Num0),
            InputStep::PauseMs(50),
        ]
    );
    p.delay_ms = Some(5);
    p.text = Some(" ".to_string());
    assert_eq!(
        c.type_text_steps(&p).unwrap(),
        vec![
            InputStep::Press(KeyCode::Space),
            InputStep::PauseMs(10),
            InputStep::Release(KeyCode::Space),
            InputStep::PauseMs(5),
        ]
    );
    match c.type_text_steps(&params()) {
        Err(e) => assert_eq!(e.message(), "Missing text parameter"),
        Ok(_) => panic!("missing text accepted"),
    }
}

#[test]
fn key_press_plan() {
    let c = SystemControl::new();
    let mut p = params();
    p.key = Some("Tab".to_string());
    assert_eq!(
        c.key_press_steps(&p).unwrap(),
        vec![InputStep::Press(KeyCode::Tab), InputStep::PauseMs(50), InputStep::Release(KeyCode::Tab)]
    );
    match c.key_press_steps(&params()) {
        Err(ControlError::Missing(MissingParameter::Key)) => {}
        _ => panic!("missing key accepted"),
    }
}

#[test]
fn key_combination_releases_in_reverse() {
    let c = SystemControl::new();
    let mut p = params();
    p.keys = Some(vec![Some("ctrl".to_string()), None, Some("shift".to_string()), Some("tab".to_string())]);
    let steps = c.key_combination_steps(&p).unwrap();
    assert_eq!(
        steps,
        vec![
            InputStep::Press(KeyCode::ControlLeft),
            InputStep::PauseMs(10),
            InputStep::Press(KeyCode::ShiftLeft),
            InputStep::PauseMs(10),
            InputStep::Press(KeyCode::Tab),
            InputStep::PauseMs(10),
            InputStep::PauseMs(100),
            InputStep::Release(KeyCode::Tab),
            InputStep::PauseMs(10),
            InputStep::Release(KeyCode::ShiftLeft),
            InputStep::PauseMs(10),
            InputStep::Release(KeyCode::ControlLeft),
            InputStep::PauseMs(10),
        ]
    );
}

#[test]
fn key_combination_stops_at_unknown_key() {
    let c = SystemControl::new();
    let mut p = params();
    p.keys = Some(vec![Some("alt".to_string()), Some("bogus".to_string()), Some("tab".to_string())]);
    match c.key_combination_steps(&p) {
        Err(f) => {
            assert_eq!(f.steps, vec![InputStep::Press(KeyCode::Alt), InputStep::PauseMs(10)]);
            assert_eq!(f.error.message(), "Unknown key: bogus");
        }
        Ok(_) => panic!("unknown key accepted"),
    }
    match c.key_combination_steps(&params()) {
        Err(f) => {
            assert!(f.steps.is_empty());
            assert_eq!(f.error.message(), "Missing keys array");
        }
        Ok(_) => panic!("missing keys accepted"),
    }
}

#[test]
fn scroll_plans() {
    let c = SystemControl::new();
    assert_eq!(c.scroll_plan(&params()).unwrap(), ScrollPlan { notch: 1, count: 3 });
    let mut p = params();
    p.direction = Some("down".to_string());
    p.amount = Some(4);
    assert_eq!(c.scroll_plan(&p).unwrap(), ScrollPlan { notch: -1, count: 4 });
    p.amount = Some(-2);
    assert_eq!(c.scroll_plan(&p).unwrap(), ScrollPlan { notch: 1, count: 2 });
    p.direction = Some("up".to_string());
    p.amount = Some(0);
    assert_eq!(c.scroll_plan(&p).unwrap(), ScrollPlan { notch: -1, count: 0 });
    p.direction = Some("sideways".to_string());
    match c.scroll_plan(&p) {
        Err(e) => assert_eq!(e.message(), "Invalid scroll direction: sideways"),
        Ok(_) => panic!("bad direction accepted"),
    }
    p.amount = Some(i64::MIN);
    assert!(c.scroll_plan(&p).is_err());
    p.direction = Some("up".to_string());
    p.amount = Some(i64::MAX);
    assert_eq!(c.scroll_plan(&p).unwrap(), ScrollPlan { notch: 1, count: i64::MAX as u64 });
}

#[test]
fn window_shortcuts() {
    let c = SystemControl::new();
    assert_eq!(
        c.switch_window_steps(false),
        vec![
            InputStep::Press(KeyCode::Alt),
            InputStep::Press(KeyCode::Tab),
            InputStep::PauseMs(100),
            InputStep::Release(KeyCode::Tab),
            InputStep::Release(KeyCode::Alt),
        ]
    );
    let mut p = params();
    p.app_name = Some("Excel".to_string());
    assert_eq!(
        c.close_application_steps(&p, true).unwrap(),
        vec![
            InputStep::Press(KeyCode::MetaLeft),
            InputStep::Press(KeyCode::KeyQ),
            InputStep::PauseMs(50),
            InputStep::Release(KeyCode::KeyQ),
            InputStep::Release(KeyCode::MetaLeft),
        ]
    );
    match c.close_application_steps(&params(), false) {
        Err(e) => assert_eq!(e.message(), "Missing app_name"),
        Ok(_) => panic!("missing app accepted"),
    }
}
