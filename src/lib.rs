pub mod decode;
pub mod json;
pub mod lemmas;
pub mod node;
pub mod tags;
