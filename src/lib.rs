pub mod codec;
pub mod delivery;
pub mod json;
pub mod message;
pub mod relay;
pub mod subject;
