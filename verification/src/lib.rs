pub mod emit;
pub mod escape;
pub mod hrefs;
pub mod options;
pub mod placeholder;

pub use options::{RenderOptions, RenderUserData};
