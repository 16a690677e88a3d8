pub mod container;
pub mod effects;

pub use container::{duplicate, extend, extract, fmap, CoMonad};
pub use effects::{lookup, monad, random_sequence, safe_add};
