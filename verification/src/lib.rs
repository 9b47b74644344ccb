pub mod erasable;
pub mod erased;
pub mod limits;
pub mod trident;

pub use erasable::Erasable;
pub use erased::Erased;
pub use trident::Trident;
