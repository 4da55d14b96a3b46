pub mod conversion;
pub mod directory;
pub mod effect;
pub mod errors;
pub mod fees;
pub mod key;
pub mod lemmas;
pub mod merchant;
pub mod metadata;
pub mod platform;
pub mod purchase;
pub mod registry;
