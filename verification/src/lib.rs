pub mod corpus;
pub mod engine;
pub mod jsonval;
pub mod numeral;
pub mod rx;

pub use corpus::{load_volume_chapters, load_volume_sections, Scripture};
pub use engine::{Gospel, SearchError, SearchParams};
