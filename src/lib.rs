pub mod camera;
pub mod exposure;
pub mod messages;
pub mod number;
pub mod project;
pub mod rational;
pub mod text;
