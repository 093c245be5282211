//! Verified storage rules for an LXMF messaging daemon: message, conversation,
//! contact, ticket and propagation bookkeeping over an SQLite database.
pub mod error;
pub mod outside;
pub mod schema_sql;
pub mod schema_check;
pub mod sql;
pub mod text;
pub mod limits;
pub mod records;
pub mod lifecycle;
pub mod propagation;
pub mod migration;
pub mod store;
pub mod schema;
pub mod propagation_schema;
pub mod propagation_rows;
pub mod propagation_plan;
pub mod propagation_store;
pub mod propagation_ops;
pub mod message_rows;
pub mod text_order;
pub mod message_store;
pub mod conversations;
pub mod attachment_store;
pub mod outbound_store;
pub mod ticket_store;
pub mod directory_store;
pub mod pages;
pub mod record_text;
pub mod laws;
