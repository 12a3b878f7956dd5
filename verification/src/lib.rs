pub mod component;
pub mod error;
pub mod frame_channel;
pub mod frame_image;
pub mod media_container;
pub mod media_manager;
pub mod pipeline;
pub mod viewer;

pub use error::Error;
pub use media_manager::GstreamerMediaManager;
