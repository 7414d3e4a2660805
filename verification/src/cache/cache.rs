use vstd::prelude::*;

verus! {

/// Cache key type
pub type KeyType = Vec<u8>;

/// Cache value associated with a key
pub type ValueType = Vec<u8>;

/// Argument of an increment or decrement: the amount, and the value a new
/// counter starts with.
#[derive(Clone, Copy, Debug)]
pub struct DeltaParam {
    pub delta: u64,
    pub value: u64,
}

pub type IncrementParam = DeltaParam;

pub type DecrementParam = IncrementParam;

pub type DeltaResultValueType = u64;

/// Outcome of an increment or decrement: the counter's new version and value.
#[derive(Debug)]
pub struct DeltaResult {
    pub cas: u64,
    pub value: DeltaResultValueType,
}

/// Meta data stored with cache value
#[derive(Clone, Copy, Debug, PartialEq, Eq, Structural)]
pub struct CacheMetaData {
    pub cas: u64,
    pub flags: u32,
    pub time_to_live: u32,
}

impl CacheMetaData {
    pub fn new(cas: u64, flags: u32, time_to_live: u32) -> (r: CacheMetaData)
        ensures
            r == (CacheMetaData { cas, flags, time_to_live }),
    {
        CacheMetaData { cas, flags, time_to_live }
    }

    pub fn get_expiration(&self) -> (r: u32)
        ensures
            r == self.time_to_live,
    {
        self.time_to_live
    }

    /// Size in bytes of the meta data.
    pub fn len(&self) -> (r: usize)
        ensures
            r == vstd::layout::size_of::<CacheMetaData>(),
    {
        core::mem::size_of::<CacheMetaData>()
    }

    pub fn is_empty(&self) -> (r: bool)
        ensures
            r == (vstd::layout::size_of::<CacheMetaData>() == 0),
    {
        self.len() == 0
    }
}

/// Model of a stored record: (cas, flags, time to live, value).
pub type RecordModel = (u64, u32, u32, Seq<u8>);

/// Value and meta data stored in cache
#[derive(Clone, Debug)]
pub struct Record {
    pub header: CacheMetaData,
    pub value: ValueType,
}

impl View for Record {
    type V = RecordModel;

    open spec fn view(&self) -> RecordModel {
        (self.header.cas, self.header.flags, self.header.time_to_live, self.value@)
    }
}

/// Whether two byte strings are equal.
pub fn bytes_equal(a: &Vec<u8>, b: &Vec<u8>) -> (r: bool)
    ensures
        r == (a@ == b@),
{
    if a.len() != b.len() {
        return false;
    }
    let mut i: usize = 0;
    while i < a.len()
        invariant
            i <= a@.len(),
            a@.len() == b@.len(),
            forall|j: int| 0 <= j < i ==> a@[j] == b@[j],
        decreases a@.len() - i,
    {
        if a[i] != b[i] {
            return false;
        }
        i = i + 1;
    }
    assert(a@ =~= b@);
    true
}

/// A copy of a byte string.
pub fn copy_bytes(a: &Vec<u8>) -> (r: Vec<u8>)
    ensures
        r@ == a@,
{
    let r = a.clone();
    assert(r@ =~= a@);
    r
}

impl Record {
    pub fn new(value: ValueType, cas: u64, flags: u32, expiration: u32) -> (r: Record)
        ensures
            r@ == (cas, flags, expiration, value@),
    {
        let header = CacheMetaData::new(cas, flags, expiration);
        Record { header, value }
    }

    /// Size in bytes of the meta data and the value.
    pub fn len(&self) -> (r: usize)
        requires
            vstd::layout::size_of::<CacheMetaData>() + self.value@.len() <= usize::MAX,
        ensures
            r == vstd::layout::size_of::<CacheMetaData>() + self.value@.len(),
    {
        self.header.len() + self.value.len()
    }

    pub fn is_empty(&self) -> (r: bool)
        requires
            vstd::layout::size_of::<CacheMetaData>() + self.value@.len() <= usize::MAX,
        ensures
            r == (vstd::layout::size_of::<CacheMetaData>() + self.value@.len() == 0),
    {
        self.len() == 0
    }

    /// A copy of the record.
    pub fn duplicate(&self) -> (r: Record)
        ensures
            r@ == self@,
    {
        Record { header: self.header, value: copy_bytes(&self.value) }
    }
}

impl PartialEq for Record {
    fn eq(&self, other: &Self) -> (r: bool) {
        bytes_equal(&self.value, &other.value)
    }
}

impl vstd::std_specs::cmp::PartialEqSpecImpl for Record {
    /// Records compare by their values only.
    open spec fn obeys_eq_spec() -> bool {
        true
    }

    open spec fn eq_spec(&self, other: &Record) -> bool {
        self.value@ == other.value@
    }
}

/// Result of set operation on cache
/// cas indicates version stored in cache
#[derive(Debug)]
pub struct SetStatus {
    pub cas: u64,
}

} // verus!
