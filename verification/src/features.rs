pub mod renderable_object;
pub mod model_changer;
pub mod chams;
pub mod glow;
pub mod glow_object_manager;
pub mod misc;
pub mod visuals;
