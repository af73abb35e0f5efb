//! Navigation and form-state engine for a terminal ledger client.
//!
//! The library models the screens of the client, the flat (tab-style) and
//! hierarchical (drill-down) navigation between them, the breadcrumb trail,
//! the transfer form with its account autocomplete, and the policies that
//! decide which data a transition must reload.  Everything here is verified;
//! terminal rendering and the RPC transport live outside the library and
//! exchange plain values with it.

pub mod app;
pub mod breadcrumb;
pub mod contracts;
pub mod dispatch;
pub mod form;
pub mod future;
pub mod history;
pub mod labels;
pub mod model;
pub mod numtext;
pub mod textops;
pub mod transfer;
pub mod views;
