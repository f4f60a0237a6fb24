pub mod hash;
pub mod helper;
pub mod rand;
pub mod serializer;

pub use rand::random_str;
