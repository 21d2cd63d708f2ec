//! Tag-based file query engine: a query language over tags and values, its
//! validation against the stored vocabulary, and its lowering into
//! parameterised SQL statements that honour tag implication.

pub mod common;
pub mod tag;
pub mod value;
pub mod query;

pub mod text;
pub mod lexer;
pub mod parser;

pub mod sql;
pub mod fragment;
pub mod path;
pub mod builder;
pub mod closure;
pub mod validation;

pub mod file;
pub mod setting;
pub mod migrations;
pub mod upgrade;

pub mod args;
pub mod init;
pub mod rendering;
