//! Conversions between civil date and time values and the forms that MySQL,
//! PostgreSQL and SQLite store them in.
//!
//! `calendar` models dates, times of day, datetimes, instants, durations and
//! spans as plain integers; `duration` does arithmetic on durations;
//! `jiff_api` and `bytes_io` make the calls into the calendar and byte-order
//! libraries; `text` reads the text forms; `mysql_time`, `mysql`, `postgres`
//! and `sqlite` hold each database's forms.
pub mod bytes_io;
pub mod calendar;
pub mod duration;
pub mod error;
pub mod jiff_api;
pub mod mysql;
pub mod mysql_time;
pub mod postgres;
pub mod sqlite;
pub mod text;
