pub mod bytes;
pub mod criteria;
pub mod derivation;
pub mod hashing;
pub mod laws;
pub mod search;
pub mod types;
