//! IteraScope's verified core: the instrument catalogue, arbitrary-precision
//! reference arithmetic, the colouring catalogue and layer rules, palette
//! parsing, the precision policy, export tiling, result caching and the
//! rules of experiment documents.

mod text;
pub mod decimal;
pub mod family;
pub mod animation;
pub mod inspector;
pub mod arbitrary;
pub mod colouring;
pub mod palette;
pub mod precision;
pub mod experiment;
pub mod cache;

pub use text::chars_of;
