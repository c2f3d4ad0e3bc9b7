use egui_demo::frame::{Central, FramePlan};
use egui_demo::panel::LeftMenuEnum;
use egui_demo::state::{Event, MyApp};
use egui_demo::text::{greeting, push_decimal, theme_toggle_label};

fn screen_central(app: &MyApp) -> Central {
    match app.plan() {
        FramePlan::Draw(s) => s.central,
        FramePlan::Close => panic!("the frame closes"),
    }
}

#[test]
fn starting_state() {
    let app = MyApp::default();
    assert!(app.is_running);
    assert!(!app.is_fullscreen);
    assert!(app.is_popup_shown);
    assert!(!app.is_dark);
    assert_eq!(app.left_menu, LeftMenuEnum::First);
    assert_eq!(app.name, "Arthur");
    assert_eq!(app.age, 42);
}

#[test]
fn click_each_year_once() {
    let mut app = MyApp::default();
    app.apply(Event::AddOneYear);
    assert_eq!(app.age, 43);
}

#[test]
fn click_add_two_years_once() {
    let mut app = MyApp::default();
    app.apply(Event::AddTwoYears);
    assert_eq!(app.age, 44);
}

#[test]
fn year_clicks_in_either_order() {
    let mut a = MyApp::default();
    a.apply(Event::AddOneYear);
    a.apply(Event::AddTwoYears);
    let mut b = MyApp::default();
    b.apply(Event::AddTwoYears);
    b.apply(Event::AddOneYear);
    assert_eq!(a.age, 45);
    assert_eq!(b.age, 45);
}

#[test]
fn increments_pass_the_slider_range() {
    let mut app = MyApp::default();
    app.apply(Event::EditAge(120));
    app.apply(Event::AddTwoYears);
    assert_eq!(app.age, 122);
}

#[test]
fn increments_refused_at_the_machine_limit() {
    let mut app = MyApp::default();
    app.apply(Event::EditAge(u32::MAX - 1));
    assert!(app.can_apply(&Event::AddOneYear));
    assert!(!app.can_apply(&Event::AddTwoYears));
    app.apply(Event::AddOneYear);
    assert_eq!(app.age, u32::MAX);
    assert!(!app.can_apply(&Event::AddOneYear));
    assert!(app.can_apply(&Event::SetAgeTo45));
}

#[test]
fn exit_closes_the_next_frame() {
    let mut app = MyApp::default();
    assert!(!app.should_close());
    assert!(matches!(app.plan(), FramePlan::Draw(_)));
    app.apply(Event::Exit);
    assert!(!app.is_running);
    assert!(app.should_close());
    assert!(matches!(app.plan(), FramePlan::Close));
}

#[test]
fn fullscreen_toggles_twice() {
    let mut app = MyApp::default();
    app.apply(Event::ToggleFullscreen);
    assert!(app.is_fullscreen);
    match app.plan() {
        FramePlan::Draw(s) => assert!(s.fullscreen),
        FramePlan::Close => panic!("the frame closes"),
    }
    app.apply(Event::ToggleFullscreen);
    assert!(!app.is_fullscreen);
}

#[test]
fn panels_switch_and_come_back() {
    let mut app = MyApp::default();
    app.apply(Event::ClosePopup);
    app.apply(Event::SelectPanel(LeftMenuEnum::Second));
    assert_eq!(app.left_menu, LeftMenuEnum::Second);
    match screen_central(&app) {
        Central::Placeholder(t) => assert_eq!(t, "Second panel"),
        Central::Form { .. } => panic!("the form is shown"),
    }
    app.apply(Event::SelectPanel(LeftMenuEnum::Third));
    assert_eq!(app.left_menu, LeftMenuEnum::Third);
    match screen_central(&app) {
        Central::Placeholder(t) => assert_eq!(t, "Third panel"),
        Central::Form { .. } => panic!("the form is shown"),
    }
    app.apply(Event::SelectPanel(LeftMenuEnum::First));
    match screen_central(&app) {
        Central::Form { greeting, popup } => {
            assert_eq!(greeting, "Hello 'Arthur', age 42");
            assert!(!popup);
        }
        Central::Placeholder(_) => panic!("a placeholder is shown"),
    }
}

#[test]
fn popup_kept_across_navigation() {
    let mut app = MyApp::default();
    app.apply(Event::SelectPanel(LeftMenuEnum::Third));
    app.apply(Event::SelectPanel(LeftMenuEnum::First));
    match screen_central(&app) {
        Central::Form { popup, .. } => assert!(popup),
        Central::Placeholder(_) => panic!("a placeholder is shown"),
    }
}

#[test]
fn set_age_to_45_from_any_age() {
    for start in [0u32, 42, 45, 120, u32::MAX] {
        let mut app = MyApp::default();
        app.apply(Event::EditAge(start));
        app.apply(Event::SetAgeTo45);
        assert_eq!(app.age, 45);
    }
}

#[test]
fn theme_toggle_label_follows_theme() {
    let mut app = MyApp::default();
    match app.plan() {
        FramePlan::Draw(s) => assert_eq!(s.theme_toggle_label, "Set dark"),
        FramePlan::Close => panic!("the frame closes"),
    }
    app.apply(Event::ToggleTheme);
    assert!(app.is_dark);
    match app.plan() {
        FramePlan::Draw(s) => {
            assert!(s.dark);
            assert_eq!(s.theme_toggle_label, "Set light");
        }
        FramePlan::Close => panic!("the frame closes"),
    }
    app.apply(Event::ToggleTheme);
    assert!(!app.is_dark);
    assert_eq!(theme_toggle_label(false), "Set dark");
    assert_eq!(theme_toggle_label(true), "Set light");
}

#[test]
fn edits_replace_name_and_age() {
    let mut app = MyApp::default();
    app.apply(Event::EditName("Ford".to_string()));
    app.apply(Event::EditAge(7));
    assert_eq!(app.name, "Ford");
    assert_eq!(app.age, 7);
    match screen_central(&app) {
        Central::Form { greeting, .. } => assert_eq!(greeting, "Hello 'Ford', age 7"),
        Central::Placeholder(_) => panic!("a placeholder is shown"),
    }
}

#[test]
fn greeting_text_exact() {
    assert_eq!(greeting(&"Arthur".to_string(), 42), "Hello 'Arthur', age 42");
    assert_eq!(greeting(&String::new(), 0), "Hello '', age 0");
    assert_eq!(greeting(&"Zaphod".to_string(), 120), "Hello 'Zaphod', age 120");
}

#[test]
fn decimal_digits() {
    for n in [0u32, 9, 10, 100, 1007, 4294967295] {
        let mut s = "x".to_string();
        push_decimal(&mut s, n);
        assert_eq!(s, format!("x{}", n));
    }
}

#[test]
fn placeholder_labels() {
    assert_eq!(LeftMenuEnum::First.placeholder_label(), None);
    assert_eq!(LeftMenuEnum::Second.placeholder_label(), Some("Second panel".to_string()));
    assert_eq!(LeftMenuEnum::Third.placeholder_label(), Some("Third panel".to_string()));
}
