pub mod editor;
pub mod keys;
pub mod terminal;
