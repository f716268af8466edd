//! Long-format directory listing: the rules that turn one directory entry's
//! metadata into one printable row.
//!
//! The crate reads no directory, looks up no time zone and prints nothing. A
//! caller enumerates a directory, reads each entry's metadata into an
//! [`EntryMetadata`], together with the local zone's offset at the time of
//! the last modification, and hands it over with the entry's name; [`list_entry`] answers with the row
//! to print, with nothing for a hidden entry, or with the reason why the
//! listing has to stop.
//!
//! A row is made in three steps, each of which can be used alone:
//! [`render_mode`] writes the mode string, [`owner_and_group_of_file`] asks
//! the host for the names of owner and group, and [`format_row`] shows the
//! time of the last modification at the local offset, leaves out hidden
//! entries and puts the fields together. [`row_with_names`] is the row for
//! names that are already known.

pub mod date;
pub mod entry;
pub mod error;
pub mod identity;
pub mod mode;
pub mod text;

pub use date::{day_month_time_at, render_modified};
pub use entry::{format_row, is_hidden, list_entry, row_with_names, EntryMetadata, RenderedRow};
pub use error::{IdentityKind, ListError};
pub use identity::{identity_from_lookup, names_with_group, owner_and_group_of_file};
pub use mode::render_mode;
