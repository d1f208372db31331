//! Heavy: the logic of a game framework, with machine-checked contracts: path cleaning, input
//! bindings and button states, key names, where script modules are looked for, the scene stack,
//! graphics formats and layouts, sprite animation and sprite sheets, and the text of the script
//! console.
pub mod belltower;
pub mod conf;
pub mod console;
pub mod egui_input;
pub mod friends;
pub mod graphics;
pub mod input;
pub mod keyboard;
pub mod package;
pub mod path_clean;
pub mod player;
pub mod scene;
pub mod spaces;
pub mod swappable_cache;
pub mod util;
