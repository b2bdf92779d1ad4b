//! The mutation-through-reference builder variant.

pub mod user_web_dto_builder;
