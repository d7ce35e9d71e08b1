//! Request handling rules of an agent and transaction service: what a request must carry,
//! how its fields are read, and which reply each outcome earns.
pub mod agents;
pub mod db_agents;
pub mod errors;
pub mod text;
pub mod transactions;
