//! A gateway that takes database commands as JSON and answers in JSON.
//!
//! A command names an operation (`insertOne`, `findOne`, `find` or
//! `findAndModify`), a database and a collection, and brings the filter,
//! update, options or document that the operation works on. This library holds
//! the decisions of the gateway and leaves the talking to its caller:
//!
//! * [`dispatch::dispatch`] turns a command into the one database call it
//!   stands for, or into the rejection that is sent back at once;
//! * the caller makes that call;
//! * [`dispatch::respond_to`] turns what the database answered into the
//!   reply, a failed call included.
//!
//! The contracts are stated over [`dispatch::plan_holds`] and
//! [`dispatch::reply_holds`]; [`laws`] proves what follows from them for
//! every command. JSON values, query filters and the clock come from other
//! crates; [`json`], [`backend`] and [`clock`] say what is taken on trust
//! about them.

pub mod backend;
pub mod clock;
pub mod command;
pub mod dispatch;
pub mod json;
pub mod laws;
pub mod reply;
pub mod settings;
pub mod timing;
