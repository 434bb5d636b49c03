//! Session core of a terminal client that browses a remote list of school
//! assignments and circulars: the records, the filterable and scrollable list
//! over them, the screens with their key handling, and the loop that routes
//! actions between the screens.

pub mod action;
pub mod components;
pub mod details;
pub mod engine;
pub mod error;
pub mod homework;
pub mod html;
pub mod input;
pub mod json;
pub mod key;
pub mod laws;
pub mod login;
pub mod record;
pub mod repository;
pub mod serial;
pub mod session;
pub mod text;

pub use action::{Action, Mode};
pub use engine::{App, Direction, Modes, Step, TableRow, Typing};
pub use error::{FetchError, NormalizationError, RepositoryError};
pub use key::{KeyCode, KeyEvent};
pub use login::Login;
pub use record::{Assignment, AssignmentType, Attachment, CleanString, Link, RecordDetails};
pub use repository::get_circular;
pub use session::Session;
