//! Cake orders: a flavor enum, a party record whose equality looks only at
//! its cake, and the text a short walk through them produces.

pub mod cake;
pub mod party;
pub mod script;
pub mod text;

pub use cake::Cake;
pub use party::Party;
