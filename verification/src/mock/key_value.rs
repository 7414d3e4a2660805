use vstd::prelude::*;

verus! {

/// A key and a value for load tests.
pub struct KeyValue {
    pub key: Vec<u8>,
    pub value: Vec<u8>,
}

/// A lower case ASCII letter.
pub open spec fn is_lowercase_letter(b: u8) -> bool {
    0x61 <= b <= 0x7a
}

/// `rand::RngExt::random_range` on the thread's generator over `low..high`:
/// some number of that range, chosen at random.
#[verifier::external_body]
fn random_usize_in(low: usize, high: usize) -> (r: usize)
    requires
        low < high,
    ensures
        low <= r < high,
{
    rand::RngExt::random_range(&mut rand::rng(), low..high)
}

/// `rand::RngExt::random_range` on the thread's generator over `b'a'..=b'z'`:
/// a lower case letter chosen at random.
#[verifier::external_body]
fn random_lowercase_letter() -> (r: u8)
    ensures
        is_lowercase_letter(r),
{
    rand::RngExt::random_range(&mut rand::rng(), b'a'..=b'z')
}

/// `capacity` random lower case letters.
pub fn create_random_value(capacity: usize) -> (r: Vec<u8>)
    ensures
        r@.len() == capacity,
        forall|i: int| 0 <= i < r@.len() ==> is_lowercase_letter(#[trigger] r@[i]),
{
    let mut value: Vec<u8> = Vec::with_capacity(capacity);
    let mut i: usize = 0;
    while i < capacity
        invariant
            i <= capacity,
            value@.len() == i,
            forall|j: int| 0 <= j < value@.len() ==> is_lowercase_letter(#[trigger] value@[j]),
        decreases capacity - i,
    {
        value.push(random_lowercase_letter());
        i = i + 1;
    }
    value
}

/// `capacity` random pairs with keys of `key_size` letters and values of
/// `value_size` letters.
pub fn generate_random_with_size(capacity: usize, key_size: usize, value_size: usize) -> (r: Vec<
    KeyValue,
>)
    ensures
        r@.len() == capacity,
        forall|i: int|
            0 <= i < r@.len() ==> (#[trigger] r@[i]).key@.len() == key_size && r@[i].value@.len()
                == value_size,
{
    let mut values: Vec<KeyValue> = Vec::with_capacity(capacity);
    let mut i: usize = 0;
    while i < capacity
        invariant
            i <= capacity,
            values@.len() == i,
            forall|j: int|
                0 <= j < values@.len() ==> (#[trigger] values@[j]).key@.len() == key_size
                    && values@[j].value@.len() == value_size,
        decreases capacity - i,
    {
        let key = create_random_value(key_size);
        let value = create_random_value(value_size);
        values.push(KeyValue { key, value });
        i = i + 1;
    }
    values
}

/// `capacity` random pairs whose key and value lengths are drawn at random
/// from `5..max_key_size` and `5..max_value_size`.
pub fn generate_random_with_max_size(capacity: usize, max_key_size: usize, max_value_size: usize) -> (r: Vec<KeyValue>)
    requires
        capacity > 0 ==> 5 < max_key_size && 5 < max_value_size,
    ensures
        r@.len() == capacity,
        forall|i: int|
            0 <= i < r@.len() ==> 5 <= (#[trigger] r@[i]).key@.len() < max_key_size && 5
                <= r@[i].value@.len() < max_value_size,
{
    let mut values: Vec<KeyValue> = Vec::with_capacity(capacity);
    let mut i: usize = 0;
    while i < capacity
        invariant
            i <= capacity,
            capacity > 0 ==> 5 < max_key_size && 5 < max_value_size,
            values@.len() == i,
            forall|j: int|
                0 <= j < values@.len() ==> 5 <= (#[trigger] values@[j]).key@.len() < max_key_size
                    && 5 <= values@[j].value@.len() < max_value_size,
        decreases capacity - i,
    {
        let key_size = random_usize_in(5, max_key_size);
        let value_size = random_usize_in(5, max_value_size);
        let key = create_random_value(key_size);
        let value = create_random_value(value_size);
        values.push(KeyValue { key, value });
        i = i + 1;
    }
    values
}

} // verus!
