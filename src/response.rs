//! A decoded response kept with the bytes it was decoded from.

use vstd::prelude::*;

verus! {

/// A decoded value and the body it was decoded from.
#[derive(Debug)]
pub struct ApiResponse<T> {
    bytes: Vec<u8>,
    value: T,
}

impl<T> ApiResponse<T> {
    /// The body.
    pub closed spec fn bytes_spec(&self) -> Seq<u8> {
        self.bytes@
    }

    /// The decoded value.
    pub closed spec fn value_spec(&self) -> T {
        self.value
    }

    /// Keeps a decoded value with its body.
    pub fn new(bytes: Vec<u8>, value: T) -> (r: ApiResponse<T>)
        ensures
            r.bytes_spec() == bytes@,
            r.value_spec() == value,
    {
        ApiResponse { bytes, value }
    }

    /// The body.
    pub fn get_bytes(&self) -> (r: &[u8])
        ensures
            r@ == self.bytes_spec(),
    {
        self.bytes.as_slice()
    }

    /// The body, to change in place.
    pub fn get_bytes_mut(&mut self) -> (r: &mut [u8])
        ensures
            r@ == old(self).bytes_spec(),
            final(self).bytes_spec() == final(r)@,
            final(self).value_spec() == old(self).value_spec(),
    {
        self.bytes.as_mut_slice()
    }

    /// The decoded value.
    pub fn get_value(&self) -> (r: &T)
        ensures
            *r == self.value_spec(),
    {
        &self.value
    }

    /// The decoded value, to change in place.
    pub fn get_value_mut(&mut self) -> (r: &mut T)
        ensures
            *r == old(self).value_spec(),
            final(self).value_spec() == *final(r),
            final(self).bytes_spec() == old(self).bytes_spec(),
    {
        &mut self.value
    }

    /// The body, dropping the value.
    pub fn into_bytes(self) -> (r: Vec<u8>)
        ensures
            r@ == self.bytes_spec(),
    {
        self.bytes
    }

    /// The value, dropping the body.
    pub fn into_value(self) -> (r: T)
        ensures
            r == self.value_spec(),
    {
        self.value
    }

    /// The body and the value.
    pub fn into_bytes_value(self) -> (r: (Vec<u8>, T))
        ensures
            r.0@ == self.bytes_spec(),
            r.1 == self.value_spec(),
    {
        (self.bytes, self.value)
    }
}

} // verus!
