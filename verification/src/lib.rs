pub mod laws;
pub mod render;
pub mod types;
pub mod walker;

pub use render::CustomDisplay;
pub use walker::export_line;
pub use walker::export_lines;
pub use types::Export;
pub use types::ExternSignature;
pub use types::FuncSignature;
pub use types::GlobalSignature;
pub use types::MemorySignature;
pub use types::Mutability;
pub use types::TableSignature;
pub use types::ValueType;
