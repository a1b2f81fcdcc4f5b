//! The payloads that are sent back and forth.

use vstd::prelude::*;

verus! {

/// One byte drawn by `rand::Rng::sample` from the `Standard` distribution, with the random number
/// generator of this thread, for the given place of a payload. Nothing is claimed of it: any byte
/// may come, and another one each time, whatever the place. It panics where the operating system
/// gives no randomness to seed the generator with, or to seed it with again after it has given many
/// bytes, and where the generator cannot arrange to be seeded again after a fork.
#[verifier::external_body]
fn sample_byte(_place: usize) -> (byte: u8) {
    rand::Rng::sample(&mut rand::thread_rng(), rand::distributions::Standard)
}

/// Whether `byte` may be what a draw of the random number generator for this place gives.
pub closed spec fn random_byte(place: usize, byte: u8) -> bool {
    call_ensures(sample_byte, (place,), byte)
}

/// A random byte is one that the random number generator gave, in a draw for its own place.
proof fn law_random_byte_is_drawn(place: usize, byte: u8)
    ensures
        random_byte(place, byte) <==> call_ensures(sample_byte, (place,), byte),
{
}

/// A payload of the given size, each byte of which is drawn by `draw` for its place.
pub fn payload_by_place<F: Fn(usize) -> u8>(size: usize, draw: F) -> (payload: Vec<u8>)
    requires
        size <= isize::MAX,
        forall|place: usize| place < size ==> #[trigger] call_requires(draw, (place,)),
    ensures
        payload@.len() == size,
        forall|i: int| 0 <= i < size ==> call_ensures(draw, (i as usize,), #[trigger] payload@[i]),
{
    let mut payload: Vec<u8> = Vec::with_capacity(size);
    for i in 0..size
        invariant
            forall|place: usize| place < size ==> #[trigger] call_requires(draw, (place,)),
            payload@.len() == i,
            forall|j: int| 0 <= j < i ==> call_ensures(draw, (j as usize,), #[trigger] payload@[j]),
    {
        payload.push(draw(i));
    }
    payload
}

/// A payload of the given size, each byte of which is drawn by `draw`.
pub fn payload_of<F: Fn() -> u8>(size: usize, draw: F) -> (payload: Vec<u8>)
    requires
        size <= isize::MAX,
        call_requires(draw, ()),
    ensures
        payload@.len() == size,
        forall|i: int| 0 <= i < size ==> call_ensures(draw, (), #[trigger] payload@[i]),
{
    let mut payload: Vec<u8> = Vec::with_capacity(size);
    for i in 0..size
        invariant
            call_requires(draw, ()),
            payload@.len() == i,
            forall|j: int| 0 <= j < i ==> call_ensures(draw, (), #[trigger] payload@[j]),
    {
        payload.push(draw());
    }
    payload
}

/// Generate a random payload of bytes of the given size. Each byte is drawn for its own place: none
/// is made up, and none is a copy of a byte drawn for another place.
pub fn random_payload(size: usize) -> (payload: Vec<u8>)
    requires
        size <= isize::MAX,
    ensures
        payload@.len() == size,
        forall|i: int| 0 <= i < size ==> random_byte(i as usize, #[trigger] payload@[i]),
{
    payload_by_place(size, sample_byte)
}

/// A buffer to read the expected payload into: as long as that payload, with every byte zero.
pub fn receive_buffer(expected: &[u8]) -> (buffer: Vec<u8>)
    ensures
        buffer@ == Seq::new(expected@.len(), |i: int| 0u8),
{
    vec![0u8; expected.len()]
}

/// Whether the bytes that arrived are the bytes that were expected.
pub fn arrived_intact(received: &[u8], expected: &[u8]) -> (intact: bool)
    ensures
        intact <==> received@ == expected@,
{
    if received.len() != expected.len() {
        return false;
    }
    for i in 0..received.len()
        invariant
            received.len() == expected.len(),
            forall|j: int| 0 <= j < i ==> received@[j] == expected@[j],
    {
        if received[i] != expected[i] {
            return false;
        }
    }
    assert(received@ =~= expected@);
    true
}

} // verus!
