//! Verified core of the finance overview service: the accounting data model,
//! the booking and account rules, the in-memory ledger store, and the text and
//! session helpers that the web front end builds on.
pub mod datatypes;
pub mod text;
pub mod lookup;
pub mod convert_tools;
pub mod platform;
pub mod accounting_database;
pub mod database_handler_mongodb;
pub mod database_handler_couchbase;
pub mod in_memory_database;
pub mod accounting_logic;
pub mod accounting_config_logic;
pub mod ledger_laws;
pub mod balance_laws;
pub mod balance_since_saldo;
pub mod view_laws;
pub mod setting_struct;
pub mod session_data_handle;
pub mod html_render;
pub mod ajax_handle;
pub mod password_handle;
pub mod mail_handle;
pub mod frontend_functions;
pub mod mdb_convert_tools;
