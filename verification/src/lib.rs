//! Inventory, purchasing, sales and stock-check core of a multi-tenant
//! wholesale/retail management service, with its contracts proved by Verus.
//!
//! The library holds the decisions of the service: how each document moves
//! through its states, how every stock movement changes products and is
//! recorded, how costs are averaged, and how failures are reported. Reading
//! and writing rows, HTTP and process start-up live outside the library and
//! hand it plain values.

pub mod text;
pub mod config;
pub mod money;
pub mod models;
pub mod error;
pub mod costing;
pub mod inventory;
pub mod moves;
pub mod documents;
pub mod purchase;
pub mod sales;
pub mod stock_check;
pub mod repository;
pub mod repository_sqlite;
pub mod records;
pub mod response;
pub mod middleware;
pub mod extractors;
pub mod standalone;
pub mod serials;
pub mod persistence;
pub mod laws;
