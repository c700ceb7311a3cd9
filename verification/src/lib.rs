pub mod arrow;
pub mod builtin_views;
pub mod builtins;
pub mod catalog;
pub mod datetime_text;
pub mod delta;
pub mod error;
pub mod expand_array;
pub mod format;
pub mod handler;
pub mod interval;
pub mod messages;
pub mod notice;
pub mod numfmt;
pub mod pg_functions;
pub mod pg_type_oid;
pub mod query_flow;
pub mod scalar;
pub mod startup;
pub mod text;
pub mod timezone;
pub mod types;
pub mod vars;
pub mod wire;
pub mod writer;
