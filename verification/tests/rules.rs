use dice_roller::dice::{
    button_sides, button_texture, do_roll, face_value, percentile_total, roll_bounds, DieType,
    BUTTON_COUNT, MAX_DICE,
};
use dice_roller::layout::{
    button_at, button_top, centered_result_start, count_label_position, count_label_text,
};
use dice_roller::material::TrayMaterial;
use dice_roller::roll::{all_settled, spawn_plan, DieOutcome};
use dice_roller::style::{
    count_label_styles, hidden_styles, material_toggle_styles, result_color,
    result_line_styles, result_total_styles_colored, Color,
};
use dice_roller::text::{decimal_string, two_digit_string};

fn rgba(r: u8, g: u8, b: u8, a: u8) -> Color {
    Color { r, g, b, a }
}

#[test]
fn material_cycles_in_order() {
    let m = TrayMaterial::Felt;
    assert_eq!(m.next(), TrayMaterial::Hardwood);
    assert_eq!(m.next().next(), TrayMaterial::Carpet);
    assert_eq!(m.next().next().next(), TrayMaterial::Ice);
    assert_eq!(m.next().next().next().next(), TrayMaterial::Felt);
    for m in [TrayMaterial::Felt, TrayMaterial::Hardwood, TrayMaterial::Carpet, TrayMaterial::Ice] {
        assert_ne!(m.next(), m);
        assert_eq!(m.next().next().next().next(), m);
    }
}

#[test]
fn material_labels_and_textures() {
    assert_eq!(TrayMaterial::Felt.label(), "FELT");
    assert_eq!(TrayMaterial::Hardwood.label(), "HARDWOOD");
    assert_eq!(TrayMaterial::Carpet.label(), "CARPET");
    assert_eq!(TrayMaterial::Ice.label(), "ICE");
    assert_eq!(TrayMaterial::Felt.tex_id(), "tray_felt");
    assert_eq!(TrayMaterial::Hardwood.tex_id(), "tray_hardwood");
    assert_eq!(TrayMaterial::Carpet.tex_id(), "tray_carpet");
    assert_eq!(TrayMaterial::Ice.tex_id(), "tray_ice");
}

#[test]
fn result_color_grades() {
    let cyan = rgba(0, 220, 220, 255);
    let red = rgba(220, 30, 30, 255);
    let green = rgba(50, 200, 50, 255);
    let yellow = rgba(225, 210, 30, 255);
    let orange = rgba(255, 140, 0, 255);
    assert_eq!(result_color(6, 6), cyan);
    assert_eq!(result_color(1, 6), red);
    assert_eq!(result_color(1, 1), cyan);
    assert_eq!(result_color(5, 6), green); // 83%
    assert_eq!(result_color(4, 6), yellow); // 66%
    assert_eq!(result_color(3, 6), yellow); // 50%
    assert_eq!(result_color(2, 6), orange); // 33%
    assert_eq!(result_color(67, 100), green);
    assert_eq!(result_color(34, 100), yellow);
    assert_eq!(result_color(33, 100), orange);
    assert_eq!(result_color(100, 100), cyan);
}

#[test]
fn style_values() {
    let h = hidden_styles();
    assert_eq!(h.color, rgba(0, 0, 0, 0));
    assert_eq!(h.hover_color, None);
    assert_eq!(h.font_color, rgba(0, 0, 0, 0));
    let t = material_toggle_styles();
    assert_eq!(t.hover_color, Some(rgba(70, 55, 25, 230)));
    assert_eq!(t.font_hover_color, Some(rgba(255, 220, 120, 255)));
    let l = result_line_styles(rgba(1, 2, 3, 4));
    assert_eq!(l.color, rgba(20, 20, 45, 180));
    assert_eq!(l.font_color, rgba(1, 2, 3, 4));
    let tot = result_total_styles_colored(rgba(9, 9, 9, 9));
    assert_eq!(tot.color, rgba(50, 30, 10, 240));
    assert_eq!(tot.font_color, rgba(9, 9, 9, 9));
    assert_eq!(count_label_styles().font_color, rgba(255, 255, 255, 255));
}

#[test]
fn die_table() {
    let sides: Vec<u32> = (0..BUTTON_COUNT).map(button_sides).collect();
    assert_eq!(sides, vec![4, 6, 8, 10, 12, 20, 100]);
    let tex: Vec<&str> = (0..BUTTON_COUNT).map(button_texture).collect();
    assert_eq!(tex, vec!["d4", "d6", "d8", "d10", "d12", "d20", "d%"]);
    assert_eq!(MAX_DICE, 8);
}

#[test]
fn rolls_stay_on_the_die() {
    for _ in 0..500 {
        let r = do_roll(DieType::Normal, 6);
        assert!((1..=6).contains(&r));
        let t = do_roll(DieType::PercentileTens, 10);
        assert!(t <= 90 && t % 10 == 0);
        let o = do_roll(DieType::PercentileOnes, 10);
        assert!(o <= 9);
    }
    for _ in 0..50 {
        assert_eq!(do_roll(DieType::Normal, 1), 1);
    }
}

#[test]
fn rolls_reach_every_face() {
    let mut seen = [false; 4];
    for _ in 0..2000 {
        seen[(do_roll(DieType::Normal, 4) - 1) as usize] = true;
    }
    assert!(seen.iter().all(|s| *s));
}

#[test]
fn draw_ranges_and_faces() {
    assert_eq!(roll_bounds(DieType::Normal, 20), (1, 20));
    assert_eq!(roll_bounds(DieType::PercentileTens, 10), (0, 9));
    assert_eq!(roll_bounds(DieType::PercentileOnes, 10), (0, 9));
    assert_eq!(face_value(DieType::PercentileTens, 7), 70);
    assert_eq!(face_value(DieType::PercentileOnes, 7), 7);
    assert_eq!(face_value(DieType::Normal, 7), 7);
}

#[test]
fn percentile_totals() {
    assert_eq!(percentile_total(0, 0), 100);
    assert_eq!(percentile_total(0, 1), 1);
    assert_eq!(percentile_total(90, 9), 99);
    assert_eq!(percentile_total(40, 0), 40);
    let mut seen = std::collections::HashSet::new();
    for t in (0..=90).step_by(10) {
        for o in 0..=9 {
            let v = percentile_total(t, o);
            assert!((1..=100).contains(&v));
            seen.insert(v);
        }
    }
    assert_eq!(seen.len(), 100);
}

#[test]
fn spawn_plans() {
    let p = spawn_plan(1, 3);
    assert_eq!(p.len(), 3);
    for d in &p {
        assert_eq!(d.texture, "d6");
        assert_eq!(d.outcome, DieOutcome { die_type: DieType::Normal, sides: 6, result: None });
    }
    let q = spawn_plan(6, 5);
    assert_eq!(q.len(), 2);
    assert_eq!(q[0].texture, "d%");
    assert_eq!(q[0].outcome.die_type, DieType::PercentileTens);
    assert_eq!(q[0].outcome.sides, 10);
    assert_eq!(q[1].texture, "d10");
    assert_eq!(q[1].outcome.die_type, DieType::PercentileOnes);
}

#[test]
fn settling() {
    let mut d = DieOutcome { die_type: DieType::Normal, sides: 12, result: None };
    d.settle();
    let r = d.result.unwrap();
    assert!((1..=12).contains(&r));
    d.settle();
    assert_eq!(d.result, Some(r));
    let dice = vec![d, DieOutcome { die_type: DieType::Normal, sides: 12, result: None }];
    assert!(!all_settled(&dice));
    assert!(all_settled(&vec![d, d]));
    assert!(all_settled(&Vec::new()));
}

#[test]
fn decimal_text() {
    assert_eq!(decimal_string(0), "0");
    assert_eq!(decimal_string(7), "7");
    assert_eq!(decimal_string(42), "42");
    assert_eq!(decimal_string(100), "100");
    assert_eq!(decimal_string(u32::MAX), u32::MAX.to_string());
    assert_eq!(two_digit_string(0), "00");
    assert_eq!(two_digit_string(7), "07");
    assert_eq!(two_digit_string(70), "70");
    assert_eq!(two_digit_string(123), "123");
    for n in [1u32, 9, 10, 99, 1000, 65535, 123456789] {
        assert_eq!(decimal_string(n), n.to_string());
        assert_eq!(two_digit_string(n), format!("{:02}", n));
    }
}

#[test]
fn count_badge() {
    assert_eq!(count_label_text(2, 6), "2d6");
    assert_eq!(count_label_text(8, 20), "8d20");
    assert_eq!(count_label_text(1, 100), "1d%");
    assert_eq!(count_label_position(100, 200), (138, 172));
    assert_eq!(count_label_position(900, 10), (905, 0));
    assert_eq!(count_label_position(867, 28), (905, 0));
}

#[test]
fn buttons() {
    assert_eq!(button_top(0), 51);
    assert_eq!(button_top(6), 51 + 6 * 78);
    assert_eq!(button_at(10, 51), Some(0));
    assert_eq!(button_at(79, 120), Some(0));
    assert_eq!(button_at(80, 60), None);
    assert_eq!(button_at(9, 60), None);
    assert_eq!(button_at(40, 121), None); // the gap between the first two
    assert_eq!(button_at(40, 129), Some(1));
    assert_eq!(button_at(40, 51 + 6 * 78 + 69), Some(6));
    assert_eq!(button_at(40, 51 + 6 * 78 + 70), None);
    assert_eq!(button_at(40, 10), None);
}

#[test]
fn result_block_start() {
    assert_eq!(centered_result_start(2, true), 275);
    assert_eq!(centered_result_start(1, false), 65 + (555 - 62) / 2);
    assert_eq!(centered_result_start(8, true), 65 + (555 - (36 + 208 + 46)) / 2);
    assert_eq!(centered_result_start(30, true), 65);
}
