pub mod image;
pub mod instruction;
pub mod laws;
pub mod machine;
pub mod memory;
pub mod register;
pub mod vm;
