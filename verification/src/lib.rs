//! The rules of a dice-rolling table: tray materials, the die table and
//! the rolls, the layout of the window's panels and of the result panel,
//! and the state of a drag from the die buttons into the tray.
pub mod assets;
pub mod dice;
pub mod layout;
pub mod material;
pub mod results;
pub mod roll;
pub mod session;
pub mod style;
pub mod text;
pub mod ui;

pub use assets::TempAssets;
pub use dice::{DieType, do_roll};
pub use layout::centered_result_start;
pub use material::TrayMaterial;
pub use results::{Placement, ResultSlot, result_layout};
pub use roll::{DieOutcome, DieSpawn};
pub use session::{AppState, DiceSession};
pub use style::{Color, WidgetStyles, result_color};
