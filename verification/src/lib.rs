pub mod approval;
pub mod json;
pub mod mcp;
pub mod text;
pub mod vm;
