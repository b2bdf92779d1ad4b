//! The ownership-transferring builder variant and the value types it
//! assembles.

pub mod address;
pub mod user_web_dto;
pub mod user_web_dto_builder;
