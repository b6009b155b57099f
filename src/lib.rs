pub mod handler;
pub mod key_id;
pub mod padding;
pub mod record;
pub mod repository;
pub mod wire;
