use vstd::prelude::*;
use crate::layout::{PANEL_W, PANEL_X, RESULT_LINE_H, SCREEN_H, SCREEN_W};
use crate::material::{TrayMaterial, material_label};
use crate::style::{
    WidgetStyles, hidden_styles, material_toggle_styles, plain, rgba,
    splash_bg_styles, splash_inst_styles, splash_sub_styles, splash_title_styles, transparent,
};

verus! {

/// The widgets of the window, beside the sprites of the tray.
#[derive(Clone, Copy, Debug, PartialEq, Eq, Structural)]
pub enum PanelWidget {
    /// The full-window container of all other widgets.
    Root,
    /// The caption that cycles the tray material when clicked.
    MaterialToggle,
    ResultTitle,
    /// One of the eight lines of the result panel.
    ResultLine(usize),
    ResultSeparator,
    ResultTotal,
    SplashBackground,
    SplashTitle,
    SplashSubtitle,
    SplashInstruction,
    /// The dice-count badge beside the cursor while dragging.
    CountLabel,
}

/// How a widget is first set up: text, top-left corner, size, whether it
/// takes input and its look. Every widget starts visible.
#[derive(Clone, Copy, Debug)]
pub struct WidgetSpec {
    pub label: &'static str,
    pub x: u32,
    pub y: u32,
    pub width: u32,
    pub height: u32,
    pub active: bool,
    pub styles: WidgetStyles,
}

/// The text a widget starts with.
pub open spec fn initial_label(w: PanelWidget, m: TrayMaterial) -> Seq<char> {
    match w {
        PanelWidget::MaterialToggle => material_label(m),
        PanelWidget::SplashTitle => "EXTREME DICE ROLLER"@,
        PanelWidget::SplashSubtitle => "EPIC EDITION"@,
        PanelWidget::SplashInstruction => "click or press any key"@,
        _ => Seq::empty(),
    }
}

/// Where a widget starts, how large it is, and whether it takes input:
/// (x, y, width, height, active). The result widgets are moved into place
/// when a roll is shown.
pub open spec fn initial_frame(w: PanelWidget) -> (u32, u32, u32, u32, bool) {
    match w {
        PanelWidget::Root => (0, 0, SCREEN_W, SCREEN_H, true),
        PanelWidget::MaterialToggle => (PANEL_X, 20, PANEL_W, 35, true),
        PanelWidget::ResultTitle => (PANEL_X, 0, PANEL_W, 28, false),
        PanelWidget::ResultLine(_) => (PANEL_X, 0, PANEL_W, RESULT_LINE_H, false),
        PanelWidget::ResultSeparator => (PANEL_X, 0, PANEL_W, 4, false),
        PanelWidget::ResultTotal => (PANEL_X, 0, PANEL_W, 30, false),
        PanelWidget::SplashBackground => (0, 0, SCREEN_W, SCREEN_H, false),
        PanelWidget::SplashTitle => (330, 230, 300, 55, false),
        PanelWidget::SplashSubtitle => (400, 295, 160, 38, false),
        PanelWidget::SplashInstruction => (368, 390, 224, 35, false),
        PanelWidget::CountLabel => (0, 0, 50, 25, false),
    }
}

/// The look a widget starts with: the splash screen and the material
/// toggle show, everything else is hidden until used.
pub open spec fn initial_look(w: PanelWidget) -> WidgetStyles {
    match w {
        PanelWidget::MaterialToggle => WidgetStyles {
            color: rgba(40, 30, 15, 200),
            hover_color: Some(rgba(70, 55, 25, 230)),
            font_color: rgba(210, 165, 75, 255),
            font_hover_color: Some(rgba(255, 220, 120, 255)),
        },
        PanelWidget::SplashBackground => plain(rgba(10, 10, 30, 210), transparent()),
        PanelWidget::SplashTitle => plain(rgba(160, 40, 40, 255), rgba(255, 220, 80, 255)),
        PanelWidget::SplashSubtitle => plain(rgba(100, 25, 25, 255), rgba(255, 170, 60, 255)),
        PanelWidget::SplashInstruction => plain(rgba(25, 25, 70, 220), rgba(180, 200, 255, 255)),
        _ => plain(transparent(), transparent()),
    }
}

/// How widget `w` is first set up on a tray of material `m`.
pub fn widget_spec(w: PanelWidget, m: TrayMaterial) -> (r: WidgetSpec)
    ensures
        r.label@ == initial_label(w, m),
        (r.x, r.y, r.width, r.height, r.active) == initial_frame(w),
        r.styles == initial_look(w),
{
    proof {
        reveal_strlit("");
    }
    match w {
        PanelWidget::Root => WidgetSpec {
            label: "",
            x: 0,
            y: 0,
            width: SCREEN_W,
            height: SCREEN_H,
            active: true,
            styles: hidden_styles(),
        },
        PanelWidget::MaterialToggle => WidgetSpec {
            label: m.label(),
            x: PANEL_X,
            y: 20,
            width: PANEL_W,
            height: 35,
            active: true,
            styles: material_toggle_styles(),
        },
        PanelWidget::ResultTitle => WidgetSpec {
            label: "",
            x: PANEL_X,
            y: 0,
            width: PANEL_W,
            height: 28,
            active: false,
            styles: hidden_styles(),
        },
        PanelWidget::ResultLine(_) => WidgetSpec {
            label: "",
            x: PANEL_X,
            y: 0,
            width: PANEL_W,
            height: RESULT_LINE_H,
            active: false,
            styles: hidden_styles(),
        },
        PanelWidget::ResultSeparator => WidgetSpec {
            label: "",
            x: PANEL_X,
            y: 0,
            width: PANEL_W,
            height: 4,
            active: false,
            styles: hidden_styles(),
        },
        PanelWidget::ResultTotal => WidgetSpec {
            label: "",
            x: PANEL_X,
            y: 0,
            width: PANEL_W,
            height: 30,
            active: false,
            styles: hidden_styles(),
        },
        PanelWidget::SplashBackground => WidgetSpec {
            label: "",
            x: 0,
            y: 0,
            width: SCREEN_W,
            height: SCREEN_H,
            active: false,
            styles: splash_bg_styles(),
        },
        PanelWidget::SplashTitle => WidgetSpec {
            label: "EXTREME DICE ROLLER",
            x: 330,
            y: 230,
            width: 300,
            height: 55,
            active: false,
            styles: splash_title_styles(),
        },
        PanelWidget::SplashSubtitle => WidgetSpec {
            label: "EPIC EDITION",
            x: 400,
            y: 295,
            width: 160,
            height: 38,
            active: false,
            styles: splash_sub_styles(),
        },
        PanelWidget::SplashInstruction => WidgetSpec {
            label: "click or press any key",
            x: 368,
            y: 390,
            width: 224,
            height: 35,
            active: false,
            styles: splash_inst_styles(),
        },
        PanelWidget::CountLabel => WidgetSpec {
            label: "",
            x: 0,
            y: 0,
            width: 50,
            height: 25,
            active: false,
            styles: hidden_styles(),
        },
    }
}

/// Every widget starts inside the 960 x 640 window (a result line, whatever
/// its number, included), and the root and the splash backdrop both start
/// at the window's top-left corner and cover exactly the whole window.
pub proof fn lemma_widgets_in_window(w: PanelWidget)
    ensures
        ({
            let (x, y, width, height, active) = initial_frame(w);
            x + width <= 960 && y + height <= 640
        }),
        ({
            let (x, y, width, height, active) = initial_frame(PanelWidget::SplashBackground);
            x == 0 && y == 0 && width == SCREEN_W && height == SCREEN_H && width == 960 && height == 640
        }),
        ({
            let (x, y, width, height, active) = initial_frame(PanelWidget::Root);
            x == 0 && y == 0 && width == 960 && height == 640
        }),
{
}

/// The order in which the widgets are created below the root, which is
/// the order they are drawn in: the toggle, the result panel, the splash
/// screen, and the count badge last so that it is drawn over everything.
pub open spec fn widget_order() -> Seq<PanelWidget> {
    seq![
        PanelWidget::MaterialToggle,
        PanelWidget::ResultTitle,
        PanelWidget::ResultLine(0),
        PanelWidget::ResultLine(1),
        PanelWidget::ResultLine(2),
        PanelWidget::ResultLine(3),
        PanelWidget::ResultLine(4),
        PanelWidget::ResultLine(5),
        PanelWidget::ResultLine(6),
        PanelWidget::ResultLine(7),
        PanelWidget::ResultSeparator,
        PanelWidget::ResultTotal,
        PanelWidget::SplashBackground,
        PanelWidget::SplashTitle,
        PanelWidget::SplashSubtitle,
        PanelWidget::SplashInstruction,
        PanelWidget::CountLabel,
    ]
}

/// The widgets to create under the root, in drawing order.
pub fn panel_widgets() -> (r: Vec<PanelWidget>)
    ensures
        r@ == widget_order(),
{
    let mut v: Vec<PanelWidget> = Vec::new();
    v.push(PanelWidget::MaterialToggle);
    v.push(PanelWidget::ResultTitle);
    let mut i: usize = 0;
    while i < 8
        invariant
            i <= 8,
            v@ == seq![PanelWidget::MaterialToggle, PanelWidget::ResultTitle] + Seq::new(
                i as nat,
                |k: int| PanelWidget::ResultLine(k as usize),
            ),
        decreases 8 - i,
    {
        v.push(PanelWidget::ResultLine(i));
        i = i + 1;
        assert(v@ =~= seq![PanelWidget::MaterialToggle, PanelWidget::ResultTitle] + Seq::new(
            i as nat,
            |k: int| PanelWidget::ResultLine(k as usize),
        ));
    }
    v.push(PanelWidget::ResultSeparator);
    v.push(PanelWidget::ResultTotal);
    v.push(PanelWidget::SplashBackground);
    v.push(PanelWidget::SplashTitle);
    v.push(PanelWidget::SplashSubtitle);
    v.push(PanelWidget::SplashInstruction);
    v.push(PanelWidget::CountLabel);
    assert(v@ =~= widget_order());
    v
}

} // verus!
