//! Deterministic I Ching casting: a seed from three sensor readings, six lines
//! drawn by the three-coin method, two hexagram keys and their names.

pub mod casting;
pub mod coins;
pub mod gua;
pub mod lines;
pub mod report;
pub mod seed;
pub mod yao;

pub use casting::{cast_lines, divination};
pub use gua::get_gua_name;
pub use lines::LineSequence;
pub use report::{push_decimal, render_report};
pub use seed::derive_seed;
pub use yao::YaoType;
