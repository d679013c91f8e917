pub mod format;
pub mod lang;
pub mod resource_quantity;
pub mod sorting;
pub mod status;
pub mod text;
