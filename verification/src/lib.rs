//! A read-only SQLite viewer's library: the screens' state machines (database
//! picker, table list, row grid, application shell), the keyboard bindings,
//! and the read-only query layer. Terminal drawing and file access live with
//! the caller, which performs the outside work each screen asks for.
pub mod action;
pub mod bindings;
pub mod discover;
pub mod grid;
pub mod like;
pub mod logo;
pub mod picker;
pub mod query;
pub mod shell;
pub mod tables;
pub mod text;
