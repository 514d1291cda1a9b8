pub mod codec;
pub mod custody;
pub mod host;
pub mod laws;
pub mod machine;
pub mod records;
pub mod registry;
pub mod settlement;
