use vstd::prelude::*;

verus! {

/// Fixed capacity, in bytes, of every storage slot; the encoded record must
/// fit into it.
pub const SLOT_CAPACITY: usize = 1000;

/// Lowest rating on the scale.
pub const RATING_MIN: u8 = 1;

/// Highest rating on the scale.
pub const RATING_MAX: u8 = 5;

/// The persisted review. Title and description hold the UTF-8 bytes of the
/// caller's strings; this core treats them as opaque byte strings.
#[derive(Debug)]
pub struct Record {
    pub initialized: bool,
    pub rating: u8,
    pub title: Vec<u8>,
    pub description: Vec<u8>,
}

/// Mathematical model of a [`Record`].
#[verifier::ext_equal]
pub struct RecordView {
    pub initialized: bool,
    pub rating: u8,
    pub title: Seq<u8>,
    pub description: Seq<u8>,
}

impl View for Record {
    type V = RecordView;

    open spec fn view(&self) -> RecordView {
        RecordView {
            initialized: self.initialized,
            rating: self.rating,
            title: self.title@,
            description: self.description@,
        }
    }
}

impl RecordView {
    /// Both byte strings are short enough for their four-byte length
    /// prefixes; every record a handler builds satisfies this.
    pub open spec fn wf(self) -> bool {
        self.title.len() <= u32::MAX && self.description.len() <= u32::MAX
    }
}

/// Whether a rating lies on the accepted scale.
pub open spec fn spec_rating_ok(rating: u8) -> bool {
    RATING_MIN <= rating <= RATING_MAX
}

/// Serialized size of a record with the given title and description: the
/// initialized flag, the rating byte, and each byte string behind a
/// four-byte length prefix.
pub open spec fn spec_encoded_size(title: Seq<u8>, description: Seq<u8>) -> int {
    1 + 1 + (4 + title.len() as int) + (4 + description.len() as int)
}

/// Serialized size of a record, computed without encoding it.
pub fn encoded_size(record: &Record) -> (n: usize)
    requires
        spec_encoded_size(record.title@, record.description@) <= usize::MAX,
    ensures
        n == spec_encoded_size(record.title@, record.description@),
{
    1 + 1 + (4 + record.title.len()) + (4 + record.description.len())
}

/// Whether a record with the given title and description lengths would
/// exceed the slot capacity; computed without risk of overflow.
pub fn exceeds_capacity(title_len: usize, description_len: usize) -> (r: bool)
    ensures
        r == (10 + title_len + description_len > SLOT_CAPACITY),
{
    title_len > SLOT_CAPACITY - 10 || description_len > SLOT_CAPACITY - 10 - title_len
}

} // verus!
