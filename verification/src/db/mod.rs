//! Storage: database codes of the order enums, and the QuestDB writer's
//! decisions.

pub mod codes;
pub mod writer;
