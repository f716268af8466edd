//! The ten-character type-and-permission string of a directory entry.

use vstd::prelude::*;
use crate::text::{push_char, push_chars};

verus! {

/// Owner may read.
pub const OWNER_READ: u32 = 0o400;
/// Owner may write.
pub const OWNER_WRITE: u32 = 0o200;
/// Owner may execute.
pub const OWNER_EXECUTE: u32 = 0o100;
/// Group may read.
pub const GROUP_READ: u32 = 0o040;
/// Group may write.
pub const GROUP_WRITE: u32 = 0o020;
/// Group may execute.
pub const GROUP_EXECUTE: u32 = 0o010;
/// Others may read.
pub const OTHER_READ: u32 = 0o004;
/// Others may write.
pub const OTHER_WRITE: u32 = 0o002;
/// Others may execute.
pub const OTHER_EXECUTE: u32 = 0o001;
/// Run with the owner's identity.
pub const SETUID: u32 = 0o4000;
/// Run with the group's identity.
pub const SETGID: u32 = 0o2000;
/// Sticky bit.
pub const STICKY: u32 = 0o1000;
/// The twelve bits that the mode string shows.
pub const SHOWN_BITS: u32 = 0o7777;

/// Whether any bit of `mask` is set in `bits`.
pub open spec fn has_bit(bits: u32, mask: u32) -> bool {
    bits & mask != 0
}

/// First character: the entry's type. Everything but a directory is shown as `-`.
pub open spec fn kind_char(is_directory: bool) -> char {
    if is_directory {
        'd'
    } else {
        '-'
    }
}

/// A read or write slot: `shown` if the permission is granted, `-` if not.
pub open spec fn flag_char(bits: u32, mask: u32, shown: char) -> char {
    if has_bit(bits, mask) {
        shown
    } else {
        '-'
    }
}

/// An execute slot. Without the special bit it is `x` or `-`. With the special
/// bit it is `lower` where execute is granted and `upper` where it is not.
pub open spec fn execute_char(bits: u32, execute: u32, special: u32, lower: char, upper: char) -> char {
    if has_bit(bits, special) {
        if has_bit(bits, execute) {
            lower
        } else {
            upper
        }
    } else {
        flag_char(bits, execute, 'x')
    }
}

/// The three slots of one class: read, write, execute.
pub open spec fn class_text(
    bits: u32,
    read: u32,
    write: u32,
    execute: u32,
    special: u32,
    lower: char,
    upper: char,
) -> Seq<char> {
    seq![
        flag_char(bits, read, 'r'),
        flag_char(bits, write, 'w'),
        execute_char(bits, execute, special, lower, upper),
    ]
}

/// The nine permission slots: owner, group, others.
pub open spec fn permission_text(bits: u32) -> Seq<char> {
    class_text(bits, OWNER_READ, OWNER_WRITE, OWNER_EXECUTE, SETUID, 's', 'S')
        + class_text(bits, GROUP_READ, GROUP_WRITE, GROUP_EXECUTE, SETGID, 's', 'S')
        + class_text(bits, OTHER_READ, OTHER_WRITE, OTHER_EXECUTE, STICKY, 't', 'T')
}

/// The mode string: the type character, then the nine permission slots.
pub open spec fn mode_text(is_directory: bool, bits: u32) -> Seq<char> {
    seq![kind_char(is_directory)] + permission_text(bits)
}

/// The nine slots as they stand before the special bits are looked at: each
/// is the letter of its permission, or `-`.
spec fn plain_permission_text(bits: u32) -> Seq<char> {
    seq![
        flag_char(bits, OWNER_READ, 'r'),
        flag_char(bits, OWNER_WRITE, 'w'),
        flag_char(bits, OWNER_EXECUTE, 'x'),
        flag_char(bits, GROUP_READ, 'r'),
        flag_char(bits, GROUP_WRITE, 'w'),
        flag_char(bits, GROUP_EXECUTE, 'x'),
        flag_char(bits, OTHER_READ, 'r'),
        flag_char(bits, OTHER_WRITE, 'w'),
        flag_char(bits, OTHER_EXECUTE, 'x'),
    ]
}

/// Tests the nine permission bits, one slot each: a slot stays `-` unless
/// its bit is set.
fn plain_permission_slots(mode: u32) -> (chars: Vec<char>)
    ensures
        chars@ == plain_permission_text(mode),
{
    let mut chars: Vec<char> = vec!['-'; 9];

    if mode & OWNER_READ != 0 {
        chars[0] = 'r';
    }
    if mode & OWNER_WRITE != 0 {
        chars[1] = 'w';
    }
    if mode & OWNER_EXECUTE != 0 {
        chars[2] = 'x';
    }

    if mode & GROUP_READ != 0 {
        chars[3] = 'r';
    }
    if mode & GROUP_WRITE != 0 {
        chars[4] = 'w';
    }
    if mode & GROUP_EXECUTE != 0 {
        chars[5] = 'x';
    }

    if mode & OTHER_READ != 0 {
        chars[6] = 'r';
    }
    if mode & OTHER_WRITE != 0 {
        chars[7] = 'w';
    }
    if mode & OTHER_EXECUTE != 0 {
        chars[8] = 'x';
    }
    assert(chars@ =~= plain_permission_text(mode));
    chars
}

/// Looks at setuid, setgid and sticky, in this order, after the plain slots
/// are settled: each overwrites the execute slot of its class and no other.
fn apply_special_bits(chars: &mut Vec<char>, mode: u32)
    requires
        old(chars)@ == plain_permission_text(mode),
    ensures
        final(chars)@ == permission_text(mode),
{
    if mode & SETUID != 0 {
        chars[2] = if chars[2] == 'x' { 's' } else { 'S' };
    }
    if mode & SETGID != 0 {
        chars[5] = if chars[5] == 'x' { 's' } else { 'S' };
    }
    if mode & STICKY != 0 {
        chars[8] = if chars[8] == 'x' { 't' } else { 'T' };
    }
    assert(chars@ =~= permission_text(mode));
}

/// Renders the type of an entry and its permission bits as the ten-character
/// mode string. Bits above the low twelve are ignored.
pub fn render_mode(is_directory: bool, mode: u32) -> (text: String)
    ensures
        text@ == mode_text(is_directory, mode),
        text@.len() == 10,
{
    let mut chars = plain_permission_slots(mode);
    apply_special_bits(&mut chars, mode);

    let mut text = String::new();
    push_char(&mut text, if is_directory { 'd' } else { '-' });
    push_chars(&mut text, &chars);
    text
}

/// The characters that a permission slot can hold.
pub open spec fn is_slot_char(c: char) -> bool {
    c == 'r' || c == 'w' || c == 'x' || c == 's' || c == 'S' || c == 't' || c == 'T' || c == '-'
}

/// The mode string always has ten characters, and each position holds what
/// belongs there: the type character first, then for owner, group and others
/// a read slot, a write slot and an execute slot. Every permission slot is
/// drawn from `r w x s S t T -`.
pub proof fn mode_text_shape(is_directory: bool, bits: u32)
    ensures
        mode_text(is_directory, bits).len() == 10,
        mode_text(is_directory, bits)[0] == kind_char(is_directory),
        mode_text(is_directory, bits)[0] == 'd' || mode_text(is_directory, bits)[0] == '-',
        mode_text(is_directory, bits)[1] == flag_char(bits, OWNER_READ, 'r'),
        mode_text(is_directory, bits)[2] == flag_char(bits, OWNER_WRITE, 'w'),
        mode_text(is_directory, bits)[3] == execute_char(bits, OWNER_EXECUTE, SETUID, 's', 'S'),
        mode_text(is_directory, bits)[4] == flag_char(bits, GROUP_READ, 'r'),
        mode_text(is_directory, bits)[5] == flag_char(bits, GROUP_WRITE, 'w'),
        mode_text(is_directory, bits)[6] == execute_char(bits, GROUP_EXECUTE, SETGID, 's', 'S'),
        mode_text(is_directory, bits)[7] == flag_char(bits, OTHER_READ, 'r'),
        mode_text(is_directory, bits)[8] == flag_char(bits, OTHER_WRITE, 'w'),
        mode_text(is_directory, bits)[9] == execute_char(bits, OTHER_EXECUTE, STICKY, 't', 'T'),
        forall|i: int| 1 <= i <= 9 ==> is_slot_char(#[trigger] mode_text(is_directory, bits)[i]),
{
}

/// The mode string depends on nothing but the entry's type and its low twelve
/// permission bits: two renderings that agree on these are the same string.
pub proof fn mode_text_depends_on_inputs_only(
    is_directory_a: bool,
    bits_a: u32,
    is_directory_b: bool,
    bits_b: u32,
)
    requires
        is_directory_a == is_directory_b,
        bits_a & SHOWN_BITS == bits_b & SHOWN_BITS,
    ensures
        mode_text(is_directory_a, bits_a) == mode_text(is_directory_b, bits_b),
{
    shown_bits_decide(bits_a);
    shown_bits_decide(bits_b);
}

/// Masking away everything above the low twelve bits changes no slot.
proof fn shown_bits_decide(bits: u32)
    ensures
        mode_text(true, bits) == mode_text(true, bits & SHOWN_BITS),
        mode_text(false, bits) == mode_text(false, bits & SHOWN_BITS),
{
    let low = bits & SHOWN_BITS;
    assert forall|mask: u32| mask & SHOWN_BITS == mask implies has_bit(low, mask) == has_bit(bits, mask) by {
        shown_bit_survives_masking(bits, mask);
    }
    assert(OWNER_READ & SHOWN_BITS == OWNER_READ && OWNER_WRITE & SHOWN_BITS == OWNER_WRITE
        && OWNER_EXECUTE & SHOWN_BITS == OWNER_EXECUTE && GROUP_READ & SHOWN_BITS == GROUP_READ
        && GROUP_WRITE & SHOWN_BITS == GROUP_WRITE && GROUP_EXECUTE & SHOWN_BITS == GROUP_EXECUTE
        && OTHER_READ & SHOWN_BITS == OTHER_READ && OTHER_WRITE & SHOWN_BITS == OTHER_WRITE
        && OTHER_EXECUTE & SHOWN_BITS == OTHER_EXECUTE && SETUID & SHOWN_BITS == SETUID && SETGID
        & SHOWN_BITS == SETGID && STICKY & SHOWN_BITS == STICKY) by (bit_vector);
    assert(mode_text(true, bits) =~= mode_text(true, low));
    assert(mode_text(false, bits) =~= mode_text(false, low));
}

/// A bit that lies within the low twelve is set after masking where it was
/// set before.
proof fn shown_bit_survives_masking(bits: u32, mask: u32)
    by (bit_vector)
    requires
        mask & 0o7777 == mask,
    ensures
        ((bits & 0o7777) & mask != 0) == (bits & mask != 0),
{
}

/// Setuid shows in the owner's execute slot, setgid in the group's, sticky in
/// that of the others: lower case where the class may execute, upper case
/// where it may not. Without the special bit the slot is plain `x` or `-`.
pub proof fn special_bits_show_in_execute_slots(is_directory: bool, bits: u32)
    ensures
        has_bit(bits, SETUID) && has_bit(bits, OWNER_EXECUTE) ==> mode_text(is_directory, bits)[3] == 's',
        has_bit(bits, SETUID) && !has_bit(bits, OWNER_EXECUTE) ==> mode_text(is_directory, bits)[3] == 'S',
        !has_bit(bits, SETUID) && has_bit(bits, OWNER_EXECUTE) ==> mode_text(is_directory, bits)[3] == 'x',
        !has_bit(bits, SETUID) && !has_bit(bits, OWNER_EXECUTE) ==> mode_text(is_directory, bits)[3] == '-',
        has_bit(bits, SETGID) && has_bit(bits, GROUP_EXECUTE) ==> mode_text(is_directory, bits)[6] == 's',
        has_bit(bits, SETGID) && !has_bit(bits, GROUP_EXECUTE) ==> mode_text(is_directory, bits)[6] == 'S',
        !has_bit(bits, SETGID) && has_bit(bits, GROUP_EXECUTE) ==> mode_text(is_directory, bits)[6] == 'x',
        !has_bit(bits, SETGID) && !has_bit(bits, GROUP_EXECUTE) ==> mode_text(is_directory, bits)[6] == '-',
        has_bit(bits, STICKY) && has_bit(bits, OTHER_EXECUTE) ==> mode_text(is_directory, bits)[9] == 't',
        has_bit(bits, STICKY) && !has_bit(bits, OTHER_EXECUTE) ==> mode_text(is_directory, bits)[9] == 'T',
        !has_bit(bits, STICKY) && has_bit(bits, OTHER_EXECUTE) ==> mode_text(is_directory, bits)[9] == 'x',
        !has_bit(bits, STICKY) && !has_bit(bits, OTHER_EXECUTE) ==> mode_text(is_directory, bits)[9] == '-',
{
}

} // verus!
