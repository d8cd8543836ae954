use vstd::prelude::*;

verus! {

/// An RGBA colour, one byte per channel.
#[derive(Clone, Copy, Debug, PartialEq, Eq, Structural)]
pub struct Color {
    pub r: u8,
    pub g: u8,
    pub b: u8,
    pub a: u8,
}

/// The look of a widget: its background and font colours, each with an
/// optional colour under the mouse pointer.
#[derive(Clone, Copy, Debug, PartialEq, Eq, Structural)]
pub struct WidgetStyles {
    pub color: Color,
    pub hover_color: Option<Color>,
    pub font_color: Color,
    pub font_hover_color: Option<Color>,
}

/// The colour with the given channels.
pub open spec fn rgba(r: u8, g: u8, b: u8, a: u8) -> Color {
    Color { r, g, b, a }
}

/// Styles with no hover colours.
pub open spec fn plain(color: Color, font_color: Color) -> WidgetStyles {
    WidgetStyles { color, hover_color: None, font_color, font_hover_color: None }
}

/// Fully transparent.
pub open spec fn transparent() -> Color {
    rgba(0, 0, 0, 0)
}

/// Colour of a result that is the highest face of its die.
pub open spec fn cyan() -> Color {
    rgba(0, 220, 220, 255)
}

/// Colour of a result of one (the lowest face of a die).
pub open spec fn red() -> Color {
    rgba(220, 30, 30, 255)
}

/// Colour of a result in the top third of its range.
pub open spec fn green() -> Color {
    rgba(50, 200, 50, 255)
}

/// Colour of a result in the middle third of its range.
pub open spec fn yellow() -> Color {
    rgba(225, 210, 30, 255)
}

/// Colour of a result in the bottom third of its range.
pub open spec fn orange() -> Color {
    rgba(255, 140, 0, 255)
}

/// The colour that grades `result` out of a best possible `max`: cyan for
/// the maximum, red for one, then green, yellow or orange by the
/// percentage of the maximum that `result` reaches (rounded down).
pub open spec fn result_band(result: u32, max: u32) -> Color {
    if result == max {
        cyan()
    } else if result == 1 {
        red()
    } else {
        let pct = (result * 100) / (max as int);
        if 67 <= pct <= 99 {
            green()
        } else if 34 <= pct <= 66 {
            yellow()
        } else {
            orange()
        }
    }
}

/// Grades a roll: cyan for the exact maximum, red for one, green for the
/// top third, yellow for the middle third and orange for the bottom third.
pub fn result_color(result: u32, max: u32) -> (c: Color)
    requires
        max > 0,
        result * 100 <= u32::MAX,
    ensures
        c == result_band(result, max),
{
    if result == max {
        return Color { r: 0, g: 220, b: 220, a: 255 };
    }
    if result == 1 {
        return Color { r: 220, g: 30, b: 30, a: 255 };
    }
    let pct = (result * 100) / max;
    if 67 <= pct && pct <= 99 {
        Color { r: 50, g: 200, b: 50, a: 255 }
    } else if 34 <= pct && pct <= 66 {
        Color { r: 225, g: 210, b: 30, a: 255 }
    } else {
        Color { r: 255, g: 140, b: 0, a: 255 }
    }
}

/// A widget that draws nothing: transparent background and text.
pub fn hidden_styles() -> (s: WidgetStyles)
    ensures
        s == plain(transparent(), transparent()),
{
    WidgetStyles {
        color: Color { r: 0, g: 0, b: 0, a: 0 },
        hover_color: None,
        font_color: Color { r: 0, g: 0, b: 0, a: 0 },
        font_hover_color: None,
    }
}

/// The heading of the result panel ("3d6", "d%").
pub fn result_title_styles() -> (s: WidgetStyles)
    ensures
        s == plain(rgba(20, 20, 50, 230), rgba(255, 210, 80, 255)),
{
    WidgetStyles {
        color: Color { r: 20, g: 20, b: 50, a: 230 },
        hover_color: None,
        font_color: Color { r: 255, g: 210, b: 80, a: 255 },
        font_hover_color: None,
    }
}

/// One line of the result panel, its text in `font_color`.
pub fn result_line_styles(font_color: Color) -> (s: WidgetStyles)
    ensures
        s == plain(rgba(20, 20, 45, 180), font_color),
{
    WidgetStyles {
        color: Color { r: 20, g: 20, b: 45, a: 180 },
        hover_color: None,
        font_color,
        font_hover_color: None,
    }
}

/// The bar between the result lines and the total.
pub fn result_sep_styles() -> (s: WidgetStyles)
    ensures
        s == plain(rgba(150, 150, 180, 160), transparent()),
{
    WidgetStyles {
        color: Color { r: 150, g: 150, b: 180, a: 160 },
        hover_color: None,
        font_color: Color { r: 0, g: 0, b: 0, a: 0 },
        font_hover_color: None,
    }
}

/// The badge beside the cursor that counts the dice being dragged.
pub fn count_label_styles() -> (s: WidgetStyles)
    ensures
        s == plain(rgba(40, 40, 40, 220), rgba(255, 255, 255, 255)),
{
    WidgetStyles {
        color: Color { r: 40, g: 40, b: 40, a: 220 },
        hover_color: None,
        font_color: Color { r: 255, g: 255, b: 255, a: 255 },
        font_hover_color: None,
    }
}

/// The dimmed backdrop of the splash screen.
pub fn splash_bg_styles() -> (s: WidgetStyles)
    ensures
        s == plain(rgba(10, 10, 30, 210), transparent()),
{
    WidgetStyles {
        color: Color { r: 10, g: 10, b: 30, a: 210 },
        hover_color: None,
        font_color: Color { r: 0, g: 0, b: 0, a: 0 },
        font_hover_color: None,
    }
}

/// The title of the splash screen.
pub fn splash_title_styles() -> (s: WidgetStyles)
    ensures
        s == plain(rgba(160, 40, 40, 255), rgba(255, 220, 80, 255)),
{
    WidgetStyles {
        color: Color { r: 160, g: 40, b: 40, a: 255 },
        hover_color: None,
        font_color: Color { r: 255, g: 220, b: 80, a: 255 },
        font_hover_color: None,
    }
}

/// The subtitle of the splash screen.
pub fn splash_sub_styles() -> (s: WidgetStyles)
    ensures
        s == plain(rgba(100, 25, 25, 255), rgba(255, 170, 60, 255)),
{
    WidgetStyles {
        color: Color { r: 100, g: 25, b: 25, a: 255 },
        hover_color: None,
        font_color: Color { r: 255, g: 170, b: 60, a: 255 },
        font_hover_color: None,
    }
}

/// The material toggle, the one widget that lights up under the pointer.
pub fn material_toggle_styles() -> (s: WidgetStyles)
    ensures
        s == (WidgetStyles {
            color: rgba(40, 30, 15, 200),
            hover_color: Some(rgba(70, 55, 25, 230)),
            font_color: rgba(210, 165, 75, 255),
            font_hover_color: Some(rgba(255, 220, 120, 255)),
        }),
{
    WidgetStyles {
        color: Color { r: 40, g: 30, b: 15, a: 200 },
        hover_color: Some(Color { r: 70, g: 55, b: 25, a: 230 }),
        font_color: Color { r: 210, g: 165, b: 75, a: 255 },
        font_hover_color: Some(Color { r: 255, g: 220, b: 120, a: 255 }),
    }
}

/// The instruction line of the splash screen.
pub fn splash_inst_styles() -> (s: WidgetStyles)
    ensures
        s == plain(rgba(25, 25, 70, 220), rgba(180, 200, 255, 255)),
{
    WidgetStyles {
        color: Color { r: 25, g: 25, b: 70, a: 220 },
        hover_color: None,
        font_color: Color { r: 180, g: 200, b: 255, a: 255 },
        font_hover_color: None,
    }
}

/// The total of a roll, its text in `font_color`.
pub fn result_total_styles_colored(font_color: Color) -> (s: WidgetStyles)
    ensures
        s == plain(rgba(50, 30, 10, 240), font_color),
{
    WidgetStyles {
        color: Color { r: 50, g: 30, b: 10, a: 240 },
        hover_color: None,
        font_color,
        font_hover_color: None,
    }
}

/// The grade of a roll is cyan exactly at the maximum; a roll of one below
/// the maximum is red; every other grade follows from the percentage of
/// the maximum, and a higher percentage never grades lower.
pub proof fn lemma_result_band_order(lo: u32, hi: u32, max: u32)
    requires
        max > 0,
        1 < lo <= hi < max,
    ensures
        result_band(hi, max) == orange() ==> result_band(lo, max) == orange(),
        result_band(lo, max) == green() ==> result_band(hi, max) == green(),
        result_band(lo, max) != cyan() && result_band(lo, max) != red(),
{
    assert((lo * 100) / (max as int) <= (hi * 100) / (max as int)) by (nonlinear_arith)
        requires
            lo <= hi,
            max > 0,
    ;
    assert((hi * 100) / (max as int) <= 99) by (nonlinear_arith)
        requires
            hi < max,
            max > 0,
    ;
}

} // verus!
