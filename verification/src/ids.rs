use vstd::prelude::*;

verus! {

/// A lowercase hexadecimal digit.
pub open spec fn is_lower_hex(c: char) -> bool {
    ('0' <= c && c <= '9') || ('a' <= c && c <= 'f')
}

/// The instance id taken from a UUID in simple form: its first 8
/// characters. From the 32 lowercase hexadecimal digits of a random UUID
/// this gives 8 lowercase hexadecimal digits.
pub fn instance_id_from_uuid(u: &str) -> (id: String)
    requires
        u.is_ascii(),
        u@.len() >= 8,
    ensures
        id@ == u@.take(8),
        id@.len() == 8,
        (forall|i: int| 0 <= i < u@.len() ==> is_lower_hex(#[trigger] u@[i]))
            ==> forall|i: int| 0 <= i < 8 ==> is_lower_hex(#[trigger] id@[i]),
{
    let head = u.substring_ascii(0, 8);
    assert(head@ =~= u@.take(8));
    head.to_owned()
}

} // verus!
