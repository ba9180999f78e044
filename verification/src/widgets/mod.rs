pub mod button;
pub mod controls;
pub mod fields;
pub mod dropdown;
pub mod surfaces;
pub mod navigation;
pub mod data_display;
pub mod laws;
