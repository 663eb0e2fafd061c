//! Local management of patch series on top of a git repository: the
//! revision model of a series, the trailers of commit messages and the
//! decisions of the history rewrite that applies them.

pub mod commands;
pub mod commit;
pub mod error;
pub mod history;
pub mod parser;
pub mod repo;
pub mod input;
pub mod selection;
pub mod sender;
pub mod series;
pub mod text;
pub mod user_data;
pub mod util;
