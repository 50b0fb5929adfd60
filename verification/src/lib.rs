//! Persistence bootstrapping for the nschool store: opening the database,
//! validating and atomically executing SQL scripts, applying the schema
//! migrations exactly once, and seeding reference data conditionally or
//! forcibly.

pub mod bootstrap;
pub mod executor;
pub mod migrate;
pub mod navigation;
pub mod page;
pub mod records;
pub mod script;
pub mod seeder;
pub mod store;
pub mod tabs;
