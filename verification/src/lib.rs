//! The rules of a salon's booking application, verified.
//!
//! The heart of it is the life of a backup of the data file: where backups
//! are kept ([`directory`]), how their files are named ([`naming`]), how a
//! folder is listed newest first ([`listing`], [`record`]), which backups stay
//! when only the newest are kept ([`retention`]), and the steps of taking,
//! restoring and deleting one ([`create`], [`restore`], [`delete`]). The file
//! and network work is left to the caller: the library says what to do next
//! and takes the report ([`host`]). What every course of such steps does to
//! the files is stated and proved in [`create_run`] and [`restore_run`]: a
//! restore never loses the data that was there, and a backup that is reported
//! as taken is a true copy. What a folder lists after a backup was written
//! into it is stated in [`folder`].
//!
//! The remote store is read in [`remote`] and [`cloudkit`]. Around the
//! backups stand the app lock ([`auth`], [`security`]), the exports
//! ([`export`]) and the records of the salon ([`customers`], [`designers`],
//! [`reservations`], [`business_hours`], [`statistics`]).

pub mod auth;
pub mod business_hours;
pub mod clock;
pub mod cloudkit;
pub mod create;
pub mod create_run;
pub mod customers;
pub mod delete;
pub mod designers;
pub mod directory;
pub mod error;
pub mod export;
pub mod folder;
pub mod host;
pub mod ident;
pub mod listing;
pub mod naming;
pub mod record;
pub mod remote;
pub mod reservations;
pub mod restore;
pub mod restore_run;
pub mod retention;
pub mod security;
pub mod service;
pub mod statistics;
pub mod text;
