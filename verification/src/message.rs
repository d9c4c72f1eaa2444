//! Decoding of raw window messages: which kind a message number stands for,
//! the two sizes packed into the parameter of a size message, and the path
//! held by a buffer of UTF-16 units.

use vstd::prelude::*;

verus! {

/// The number of the message sent when a window is created.
pub const WM_CREATE: u32 = 0x0001;

/// The number of the message sent when a window is destroyed.
pub const WM_DESTROY: u32 = 0x0002;

/// The number of the message sent when a window has changed its size.
pub const WM_SIZE: u32 = 0x0005;

/// The number of the message sent when files are dropped on a window.
pub const WM_DROPFILES: u32 = 0x0233;

/// The kinds of window message that the controller tells apart.
#[derive(Clone, Copy, Debug, PartialEq, Eq)]
pub enum MessageKind {
    Create,
    Size,
    DropFiles,
    Destroy,
    /// Any other message: left to the platform's default handling.
    Other,
}

/// The kind that a message number stands for.
pub open spec fn kind_of(message: u32) -> MessageKind {
    if message == WM_CREATE {
        MessageKind::Create
    } else if message == WM_SIZE {
        MessageKind::Size
    } else if message == WM_DROPFILES {
        MessageKind::DropFiles
    } else if message == WM_DESTROY {
        MessageKind::Destroy
    } else {
        MessageKind::Other
    }
}

/// Tells the kind of a message by its number.
pub fn classify(message: u32) -> (kind: MessageKind)
    ensures
        kind == kind_of(message),
{
    if message == WM_CREATE {
        MessageKind::Create
    } else if message == WM_SIZE {
        MessageKind::Size
    } else if message == WM_DROPFILES {
        MessageKind::DropFiles
    } else if message == WM_DESTROY {
        MessageKind::Destroy
    } else {
        MessageKind::Other
    }
}

/// The low 32 bits of a message parameter, which hold its two packed words.
pub fn packed_words(lparam: isize) -> (packed: u32)
    ensures
        packed == lparam as u32,
{
    #[verifier::truncate]
    (lparam as u32)
}

/// The low word of a packed value: its 16 low bits.
pub fn loword(packed: u32) -> (word: u16)
    ensures
        word == packed % 0x1_0000,
{
    assert((packed & 0xffff) == packed % 0x1_0000) by (bit_vector);
    (packed & 0xffff) as u16
}

/// The high word of a packed value: its 16 high bits.
pub fn hiword(packed: u32) -> (word: u16)
    ensures
        word == packed / 0x1_0000,
{
    assert((packed >> 16) == packed / 0x1_0000) by (bit_vector);
    assert((packed >> 16) <= 0xffff) by (bit_vector);
    (packed >> 16) as u16
}

/// A packed value is its high word times 65536 plus its low word, so the two
/// words together hold all of it.
pub proof fn lemma_words_hold_packed_value(packed: u32)
    ensures
        packed == (packed / 0x1_0000) * 0x1_0000 + packed % 0x1_0000,
        0 <= packed % 0x1_0000 < 0x1_0000,
        0 <= packed / 0x1_0000 < 0x1_0000,
{
}

/// Whether `path` is the path that `buffer` holds: the units of `buffer` in
/// front of its first zero unit, or all of them where none is zero.
pub open spec fn is_path_of(buffer: Seq<u16>, path: Seq<u16>) -> bool {
    &&& path.len() <= buffer.len()
    &&& path == buffer.take(path.len() as int)
    &&& forall|i: int| 0 <= i < path.len() ==> #[trigger] path[i] != 0
    &&& path.len() < buffer.len() ==> buffer[path.len() as int] == 0
}

/// The path that a buffer of UTF-16 units holds: the buffer up to its first
/// zero unit.
pub fn path_in_buffer(buffer: &Vec<u16>) -> (path: Vec<u16>)
    ensures
        is_path_of(buffer@, path@),
{
    let mut path: Vec<u16> = Vec::new();
    let mut i: usize = 0;
    while i < buffer.len() && buffer[i] != 0
        invariant
            i <= buffer.len(),
            path@ == buffer@.take(i as int),
            forall|k: int| 0 <= k < i ==> #[trigger] buffer@[k] != 0,
        decreases buffer.len() - i,
    {
        path.push(buffer[i]);
        assert(buffer@.take(i + 1) == buffer@.take(i as int).push(buffer@[i as int]));
        i += 1;
    }
    path
}

/// A buffer holds exactly one path.
pub proof fn lemma_path_is_unique(buffer: Seq<u16>, first: Seq<u16>, second: Seq<u16>)
    requires
        is_path_of(buffer, first),
        is_path_of(buffer, second),
    ensures
        first == second,
{
    if first.len() < second.len() {
        assert(second[first.len() as int] == buffer[first.len() as int]);
    } else if second.len() < first.len() {
        assert(first[second.len() as int] == buffer[second.len() as int]);
    }
}

} // verus!
