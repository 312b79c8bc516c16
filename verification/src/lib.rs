//! Verified core of the Aditya Capital insurance CRM: record visibility,
//! renewal pipeline rules, reminder scheduling, workflow automation,
//! report periods and the request parsing the HTTP layer relies on.
pub mod text;
pub mod error;
pub mod oid;
pub mod dates;
pub mod value;
pub mod filter;
pub mod auth;
pub mod visibility;
pub mod categorize;
pub mod listview;
pub mod renewal;
pub mod reminders;
pub mod template;
pub mod workflow;
pub mod reports;
pub mod grouping;
pub mod policies;
pub mod documents;
pub mod records;
pub mod numbers;
pub mod config;
pub mod dashboard;
pub mod customers;
pub mod staff;
pub mod messages;
pub mod suggestions;
pub mod activities;
pub mod views;
pub mod notifications;
pub mod assistant;
pub mod indexes;
