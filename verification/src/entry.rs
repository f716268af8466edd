//! One directory entry: what is known of it, and the row it becomes.

use vstd::prelude::*;
use vstd::string::StringExecFns;
use crate::date::{
    date_failure, is_day_month_time, offset_time_text, render_modified, shown_from, DAY_MONTH_TIME,
};
use crate::error::{IdentityKind, ListError};
use crate::identity::owner_and_group_of_file;
use crate::mode::{mode_text, render_mode};
use crate::text::{decimal_text, push_char, push_decimal};

verus! {

/// What the file system knows of one entry, taken once and not refreshed.
#[derive(Clone, Copy, Debug, PartialEq, Eq)]
pub struct EntryMetadata {
    /// Whether the entry is a directory. Links, devices and the like are not.
    pub is_directory: bool,
    /// The mode bits. Only the low twelve are shown.
    pub permission_bits: u32,
    /// The size in bytes.
    pub size_bytes: u64,
    /// The time of the last modification, in whole seconds since the start of
    /// 1970 in UTC; negative before it.
    pub modified_at: i64,
    /// How many seconds the local time zone is ahead of UTC at the time of
    /// the last modification; negative where it is behind.
    pub local_offset: i32,
    /// The numeric id of the owner.
    pub owner_id: u32,
    /// The numeric id of the group.
    pub group_id: u32,
}

/// The six fields of one output line, in the order in which they are printed.
#[derive(Debug, PartialEq, Eq)]
pub struct RenderedRow {
    /// The ten-character mode string.
    pub mode: String,
    /// The size in bytes.
    pub size: u64,
    /// The owner's name.
    pub owner: String,
    /// The group's name.
    pub group: String,
    /// Day, month and time of the last modification.
    pub date: String,
    /// The entry's name.
    pub name: String,
}

/// One output line: the six fields with a single space between neighbours,
/// the size in decimal, nothing padded and nothing after the name.
pub open spec fn row_text(
    mode: Seq<char>,
    size: nat,
    owner: Seq<char>,
    group: Seq<char>,
    date: Seq<char>,
    name: Seq<char>,
) -> Seq<char> {
    mode + seq![' '] + decimal_text(size) + seq![' '] + owner + seq![' '] + group + seq![' '] + date
        + seq![' '] + name
}

/// Whether a name marks its entry as hidden: it starts with a dot.
pub open spec fn hidden_name(name: Seq<char>) -> bool {
    name.len() > 0 && name[0] == '.'
}

impl View for RenderedRow {
    type V = Seq<char>;

    /// A row is seen as the line that is printed for it.
    open spec fn view(&self) -> Seq<char> {
        row_text(self.mode@, self.size as nat, self.owner@, self.group@, self.date@, self.name@)
    }
}

impl RenderedRow {
    /// Whether this is the row of the entry with the given name and
    /// metadata, whoever its owner and group turn out to be.
    pub open spec fn describes(&self, name: Seq<char>, metadata: EntryMetadata) -> bool {
        &&& self.mode@ == mode_text(metadata.is_directory, metadata.permission_bits)
        &&& self.size == metadata.size_bytes
        &&& self.date@ == offset_time_text(metadata.modified_at, metadata.local_offset, DAY_MONTH_TIME@)
        &&& is_day_month_time(self.date@)
        &&& self.name@ == name
    }

    /// The line to print, without the line break.
    pub fn line(&self) -> (text: String)
        ensures
            text@ == self@,
    {
        let mut text = String::new();
        text.append(self.mode.as_str());
        push_char(&mut text, ' ');
        push_decimal(&mut text, self.size);
        push_char(&mut text, ' ');
        text.append(self.owner.as_str());
        push_char(&mut text, ' ');
        text.append(self.group.as_str());
        push_char(&mut text, ' ');
        text.append(self.date.as_str());
        push_char(&mut text, ' ');
        text.append(self.name.as_str());
        assert(text@ =~= self@);
        text
    }
}

/// Whether an entry of this name is left out of the listing.
pub fn is_hidden(name: &str) -> (hidden: bool)
    ensures
        hidden == hidden_name(name@),
{
    broadcast use vstd::string::group_string_axioms;

    let mut chars = name.chars();
    match chars.next() {
        Some(first) => first == '.',
        None => false,
    }
}

/// Puts the fields of an entry together into its row, with the time of the
/// last modification shown in the local time zone, which is `local_offset`
/// seconds ahead of UTC at that time.
///
/// The time is brought into the calendar before the name is looked at: a
/// time that the calendar does not cover, or an offset of a day or more, is
/// a failure for a hidden entry as well. Otherwise an entry whose name
/// starts with a dot gets no row, whatever the other fields hold, and every
/// other entry gets one.
pub fn format_row(
    mode: String,
    size: u64,
    owner: String,
    group: String,
    modified_at: i64,
    local_offset: i32,
    name: &str,
) -> (row: Result<Option<RenderedRow>, ListError>)
    ensures
        match row {
            Ok(Some(shown)) => {
                &&& shown_from(modified_at, local_offset)
                &&& !hidden_name(name@)
                &&& shown.mode == mode
                &&& shown.size == size
                &&& shown.owner == owner
                &&& shown.group == group
                &&& shown.date@ == offset_time_text(modified_at, local_offset, DAY_MONTH_TIME@)
                &&& is_day_month_time(shown.date@)
                &&& shown.name@ == name@
            },
            Ok(None) => shown_from(modified_at, local_offset) && hidden_name(name@),
            Err(failure) => {
                &&& !shown_from(modified_at, local_offset)
                &&& failure == date_failure(modified_at, local_offset)
            },
        },
{
    let date = match render_modified(modified_at, local_offset) {
        Ok(text) => text,
        Err(failure) => {
            return Err(failure);
        },
    };
    if is_hidden(name) {
        Ok(None)
    } else {
        Ok(Some(RenderedRow { mode, size, owner, group, date, name: name.to_owned() }))
    }
}

/// The row of an entry once the host has answered for its owner and group:
/// the answer's failure where it is one, and otherwise what `format_row`
/// makes of the entry's mode string, its size, the two names as they came,
/// owner first, the time of its last modification and its name.
pub fn row_with_names(
    name: &str,
    metadata: &EntryMetadata,
    names: Result<(String, String), ListError>,
) -> (shown: Result<Option<RenderedRow>, ListError>)
    ensures
        match names {
            Err(failure) => shown == Err::<Option<RenderedRow>, ListError>(failure),
            Ok((owner, group)) => match shown {
                Ok(Some(row)) => {
                    &&& shown_from(metadata.modified_at, metadata.local_offset)
                    &&& !hidden_name(name@)
                    &&& row.describes(name@, *metadata)
                    &&& row.owner == owner
                    &&& row.group == group
                },
                Ok(None) => shown_from(metadata.modified_at, metadata.local_offset) && hidden_name(name@),
                Err(failure) => {
                    &&& !shown_from(metadata.modified_at, metadata.local_offset)
                    &&& failure == date_failure(metadata.modified_at, metadata.local_offset)
                },
            },
        },
{
    let mode = render_mode(metadata.is_directory, metadata.permission_bits);
    match names {
        Err(failure) => Err(failure),
        Ok((owner, group)) => format_row(
            mode,
            metadata.size_bytes,
            owner,
            group,
            metadata.modified_at,
            metadata.local_offset,
            name,
        ),
    }
}

/// The row of one directory entry: its mode string, its size, the names of
/// its owner and group, the local time of its last modification, and its
/// name.
///
/// The owner and the group are resolved before anything else can fail, and
/// before the name is looked at: an id without a name ends the listing for a
/// hidden entry as well. Where nothing fails, a hidden entry gets no row and
/// every other entry gets its own.
pub fn list_entry(name: &str, metadata: &EntryMetadata) -> (shown: Result<Option<RenderedRow>, ListError>)
    ensures
        match shown {
            Ok(Some(row)) => {
                &&& shown_from(metadata.modified_at, metadata.local_offset)
                &&& !hidden_name(name@)
                &&& row.describes(name@, *metadata)
            },
            Ok(None) => shown_from(metadata.modified_at, metadata.local_offset) && hidden_name(name@),
            Err(failure) => {
                ||| failure.concerns(IdentityKind::User, metadata.owner_id)
                ||| failure.concerns(IdentityKind::Group, metadata.group_id)
                ||| {
                    &&& !shown_from(metadata.modified_at, metadata.local_offset)
                    &&& failure == date_failure(metadata.modified_at, metadata.local_offset)
                }
            },
        },
{
    row_with_names(name, metadata, owner_and_group_of_file(metadata))
}

} // verus!
