use dice_roller::dice::DieType;
use dice_roller::material::TrayMaterial;
use dice_roller::results::{result_layout, settled_results, sum_results, ResultSlot};
use dice_roller::roll::DieOutcome;
use dice_roller::session::{AppState, DiceSession};
use dice_roller::style::{result_color, result_sep_styles, result_title_styles, Color};
use dice_roller::ui::{panel_widgets, widget_spec, PanelWidget};
use dice_roller::TempAssets;

fn die(die_type: DieType, sides: u32, result: Option<u32>) -> DieOutcome {
    DieOutcome { die_type, sides, result }
}

#[test]
fn layout_of_three_d6() {
    let dice = vec![
        die(DieType::Normal, 6, Some(6)),
        die(DieType::Normal, 6, Some(1)),
        die(DieType::Normal, 6, Some(4)),
    ];
    let p = result_layout(&dice);
    assert_eq!(p.len(), 6);
    // block: 36 + 3 * 26 + 46 = 160; start 65 + (555 - 160) / 2 = 262
    assert_eq!(p[0].slot, ResultSlot::Title);
    assert_eq!(p[0].y, 262);
    assert_eq!(p[0].label, "3d6");
    assert_eq!(p[0].styles, result_title_styles());
    assert_eq!(p[1].slot, ResultSlot::Line(0));
    assert_eq!(p[1].y, 298);
    assert_eq!(p[1].label, "6");
    assert_eq!(p[1].styles.font_color, result_color(6, 6));
    assert_eq!(p[2].slot, ResultSlot::Line(1));
    assert_eq!(p[2].y, 324);
    assert_eq!(p[2].label, "1");
    assert_eq!(p[3].slot, ResultSlot::Line(2));
    assert_eq!(p[3].y, 350);
    assert_eq!(p[3].label, "4");
    assert_eq!(p[4].slot, ResultSlot::Separator);
    assert_eq!(p[4].y, 298 + 78 + 6);
    assert_eq!(p[4].label, "");
    assert_eq!(p[4].styles, result_sep_styles());
    assert_eq!(p[5].slot, ResultSlot::Total);
    assert_eq!(p[5].y, 298 + 78 + 16);
    assert_eq!(p[5].label, "11");
    assert_eq!(p[5].styles.font_color, result_color(11, 18));
}

#[test]
fn layout_of_one_die() {
    let p = result_layout(&vec![die(DieType::Normal, 20, Some(20))]);
    assert_eq!(p.len(), 2);
    assert_eq!(p[0].label, "d20");
    assert_eq!(p[0].y, 65 + (555 - 62) / 2);
    assert_eq!(p[1].label, "20");
    assert_eq!(p[1].styles.font_color, Color { r: 0, g: 220, b: 220, a: 255 });
}

#[test]
fn layout_before_any_die_settles() {
    let p = result_layout(&vec![die(DieType::Normal, 8, None), die(DieType::Normal, 8, None)]);
    assert!(p.is_empty());
    assert!(result_layout(&Vec::new()).is_empty());
}

#[test]
fn layout_of_percentile() {
    let p = result_layout(&vec![
        die(DieType::PercentileTens, 10, Some(0)),
        die(DieType::PercentileOnes, 10, Some(7)),
    ]);
    assert_eq!(p.len(), 5);
    assert_eq!(p[0].label, "d%");
    assert_eq!(p[0].y, 275);
    assert_eq!(p[1].label, "00");
    assert_eq!(p[1].y, 311);
    assert_eq!(p[1].styles.font_color, Color { r: 220, g: 220, b: 255, a: 255 });
    assert_eq!(p[2].label, "7");
    assert_eq!(p[2].y, 337);
    assert_eq!(p[3].slot, ResultSlot::Separator);
    assert_eq!(p[3].y, 311 + 52 + 6);
    assert_eq!(p[4].label, "7");
    assert_eq!(p[4].y, 311 + 52 + 16);
    let q = result_layout(&vec![
        die(DieType::PercentileTens, 10, Some(0)),
        die(DieType::PercentileOnes, 10, Some(0)),
    ]);
    assert_eq!(q[4].label, "100");
    assert_eq!(q[4].styles.font_color, result_color(100, 100));
    let r = result_layout(&vec![
        die(DieType::PercentileTens, 10, Some(90)),
        die(DieType::PercentileOnes, 10, Some(9)),
    ]);
    assert_eq!(r[1].label, "90");
    assert_eq!(r[4].label, "99");
}

#[test]
fn settled_faces_and_sum() {
    let dice = vec![
        die(DieType::Normal, 6, Some(2)),
        die(DieType::Normal, 6, None),
        die(DieType::Normal, 6, Some(5)),
    ];
    let v = settled_results(&dice);
    assert_eq!(v, vec![2, 5]);
    assert_eq!(sum_results(&v), 7);
}

#[test]
fn session_starts_at_splash() {
    let mut s = DiceSession::new();
    assert_eq!(s.app_state(), AppState::Splash);
    assert_eq!(s.material(), TrayMaterial::Felt);
    assert!(!s.is_dragging());
    // clicks on the toggle and the buttons do nothing on the splash screen
    assert!(!s.toggle_material(true));
    assert_eq!(s.press(40, 60, true), None);
    assert!(!s.splash_input(false, false, false));
    assert_eq!(s.app_state(), AppState::Splash);
    assert!(s.splash_input(true, false, false));
    assert_eq!(s.app_state(), AppState::Playing);
    assert!(!s.splash_input(true, true, true));
}

#[test]
fn session_toggle_and_drag() {
    let mut s = DiceSession::new();
    s.splash_input(false, true, false);
    assert!(s.toggle_material(true));
    assert_eq!(s.material(), TrayMaterial::Hardwood);
    assert!(!s.toggle_material(false));
    assert_eq!(s.press(40, 60, false), None);
    assert_eq!(s.press(500, 60, true), None);
    assert_eq!(s.press(40, 140, true), Some(1));
    assert!(s.is_dragging());
    assert_eq!(s.drag_button(), 1);
    assert_eq!(s.drag_count(), 1);
    // no toggle and no new pick-up while dragging
    assert!(!s.toggle_material(true));
    assert_eq!(s.material(), TrayMaterial::Hardwood);
    assert_eq!(s.press(40, 60, true), None);
    for k in 2..=8 {
        assert!(s.add_die());
        assert_eq!(s.drag_count(), k);
    }
    assert!(!s.add_die());
    assert_eq!(s.drag_count(), 8);
    let thrown = s.release().unwrap();
    assert_eq!(thrown.len(), 8);
    assert!(thrown.iter().all(|d| d.texture == "d6" && d.outcome.sides == 6));
    assert!(!s.is_dragging());
    assert!(s.release().is_none());
    assert!(!s.add_die());
}

#[test]
fn session_percentile_drag() {
    let mut s = DiceSession::new();
    s.splash_input(true, false, false);
    let y = 51 + 6 * 78 + 5;
    assert_eq!(s.press(15, y, true), Some(6));
    assert!(!s.add_die());
    assert_eq!(s.drag_count(), 1);
    let thrown = s.release().unwrap();
    assert_eq!(thrown.len(), 2);
    assert_eq!(thrown[0].outcome.die_type, DieType::PercentileTens);
    assert_eq!(thrown[1].outcome.die_type, DieType::PercentileOnes);
}

#[test]
fn session_results_once_per_roll() {
    let mut s = DiceSession::new();
    s.splash_input(true, false, false);
    assert!(!s.results_ready(false));
    assert!(s.results_ready(true));
    assert!(s.results_shown());
    assert!(!s.results_ready(true));
    s.press(40, 60, true);
    assert!(!s.results_shown());
    s.release();
    assert!(s.results_ready(true));
}

#[test]
fn widgets_set_up() {
    let order = panel_widgets();
    assert_eq!(order.len(), 17);
    assert_eq!(order[0], PanelWidget::MaterialToggle);
    assert_eq!(order[2], PanelWidget::ResultLine(0));
    assert_eq!(order[9], PanelWidget::ResultLine(7));
    assert_eq!(order[16], PanelWidget::CountLabel);
    let t = widget_spec(PanelWidget::MaterialToggle, TrayMaterial::Ice);
    assert_eq!(t.label, "ICE");
    assert_eq!((t.x, t.y, t.width, t.height, t.active), (768, 20, 180, 35, true));
    let r = widget_spec(PanelWidget::Root, TrayMaterial::Felt);
    assert_eq!((r.x, r.y, r.width, r.height, r.active), (0, 0, 960, 640, true));
    let st = widget_spec(PanelWidget::SplashTitle, TrayMaterial::Felt);
    assert_eq!(st.label, "EXTREME DICE ROLLER");
    assert_eq!((st.x, st.y, st.width, st.height), (330, 230, 300, 55));
    let line = widget_spec(PanelWidget::ResultLine(3), TrayMaterial::Felt);
    assert_eq!(line.height, 26);
    assert!(!line.active);
    assert_eq!(widget_spec(PanelWidget::SplashInstruction, TrayMaterial::Felt).label, "click or press any key");
}

#[test]
fn asset_paths_join() {
    let a = TempAssets::new("/tmp/kyrios-dice-1".to_string());
    assert_eq!(a.dir_str(), "/tmp/kyrios-dice-1");
    let p = a.path("assets/fonts/Roboto-Regular.ttf");
    assert_ne!(p, "assets/fonts/Roboto-Regular.ttf");
    let expected = std::path::Path::new("/tmp/kyrios-dice-1")
        .join("assets/fonts/Roboto-Regular.ttf")
        .to_string_lossy()
        .into_owned();
    assert_eq!(p, expected);
    assert!(p.starts_with("/tmp/kyrios-dice-1"));
    assert!(p.ends_with("Roboto-Regular.ttf"));
}
