//! Fixed-size UTF-8 buffers for the OS notification structures, which want
//! titles and bodies as zero-padded byte arrays of fixed width.

use vstd::prelude::*;
use vstd::string::StringSliceAdditionalSpecFns;
use vstd::utf8::encode_utf8;

verus! {

broadcast use vstd::array::group_array_axioms;

/// Text that can be copied into a fixed-size, zero-padded UTF-8 buffer.
/// Text longer than the buffer is truncated at the buffer's end, by bytes.
pub trait ToUtf8 {
    /// The UTF-8 bytes of the text.
    spec fn utf8_bytes(&self) -> Seq<u8>;

    fn to_utf8_arr64(&self) -> (r: [u8; 64])
        ensures
            forall|i: int| 0 <= i < vstd::math::min(64, self.utf8_bytes().len() as int)
                ==> r@[i] == self.utf8_bytes()[i],
            forall|i: int| vstd::math::min(64, self.utf8_bytes().len() as int) <= i < 64
                ==> r@[i] == 0,
    ;

    fn to_utf8_arr128(&self) -> (r: [u8; 128])
        ensures
            forall|i: int| 0 <= i < vstd::math::min(128, self.utf8_bytes().len() as int)
                ==> r@[i] == self.utf8_bytes()[i],
            forall|i: int| vstd::math::min(128, self.utf8_bytes().len() as int) <= i < 128
                ==> r@[i] == 0,
    ;

    fn to_utf8_arr256(&self) -> (r: [u8; 256])
        ensures
            forall|i: int| 0 <= i < vstd::math::min(256, self.utf8_bytes().len() as int)
                ==> r@[i] == self.utf8_bytes()[i],
            forall|i: int| vstd::math::min(256, self.utf8_bytes().len() as int) <= i < 256
                ==> r@[i] == 0,
    ;
}

fn copy_prefix_64(bytes: &[u8]) -> (r: [u8; 64])
    ensures
        forall|i: int| 0 <= i < vstd::math::min(64, bytes@.len() as int) ==> r@[i] == bytes@[i],
        forall|i: int| vstd::math::min(64, bytes@.len() as int) <= i < 64 ==> r@[i] == 0,
{
    let mut buf = [0u8; 64];
    let len = bytes.len();
    let n = if len > 64 { 64 } else { len };
    let mut i: usize = 0;
    while i < n
        invariant
            i <= n,
            n <= 64,
            n == vstd::math::min(64, bytes@.len() as int),
            buf@.len() == 64,
            forall|j: int| 0 <= j < i ==> buf@[j] == bytes@[j],
            forall|j: int| i <= j < 64 ==> buf@[j] == 0,
        decreases n - i,
    {
        buf[i] = bytes[i];
        i = i + 1;
    }
    buf
}

fn copy_prefix_128(bytes: &[u8]) -> (r: [u8; 128])
    ensures
        forall|i: int| 0 <= i < vstd::math::min(128, bytes@.len() as int) ==> r@[i] == bytes@[i],
        forall|i: int| vstd::math::min(128, bytes@.len() as int) <= i < 128 ==> r@[i] == 0,
{
    let mut buf = [0u8; 128];
    let len = bytes.len();
    let n = if len > 128 { 128 } else { len };
    let mut i: usize = 0;
    while i < n
        invariant
            i <= n,
            n <= 128,
            n == vstd::math::min(128, bytes@.len() as int),
            buf@.len() == 128,
            forall|j: int| 0 <= j < i ==> buf@[j] == bytes@[j],
            forall|j: int| i <= j < 128 ==> buf@[j] == 0,
        decreases n - i,
    {
        buf[i] = bytes[i];
        i = i + 1;
    }
    buf
}

fn copy_prefix_256(bytes: &[u8]) -> (r: [u8; 256])
    ensures
        forall|i: int| 0 <= i < vstd::math::min(256, bytes@.len() as int) ==> r@[i] == bytes@[i],
        forall|i: int| vstd::math::min(256, bytes@.len() as int) <= i < 256 ==> r@[i] == 0,
{
    let mut buf = [0u8; 256];
    let len = bytes.len();
    let n = if len > 256 { 256 } else { len };
    let mut i: usize = 0;
    while i < n
        invariant
            i <= n,
            n <= 256,
            n == vstd::math::min(256, bytes@.len() as int),
            buf@.len() == 256,
            forall|j: int| 0 <= j < i ==> buf@[j] == bytes@[j],
            forall|j: int| i <= j < 256 ==> buf@[j] == 0,
        decreases n - i,
    {
        buf[i] = bytes[i];
        i = i + 1;
    }
    buf
}

impl ToUtf8 for str {
    open spec fn utf8_bytes(&self) -> Seq<u8> {
        self.spec_bytes()
    }

    fn to_utf8_arr64(&self) -> (r: [u8; 64]) {
        copy_prefix_64(self.as_bytes())
    }

    fn to_utf8_arr128(&self) -> (r: [u8; 128]) {
        copy_prefix_128(self.as_bytes())
    }

    fn to_utf8_arr256(&self) -> (r: [u8; 256]) {
        copy_prefix_256(self.as_bytes())
    }
}

impl ToUtf8 for String {
    open spec fn utf8_bytes(&self) -> Seq<u8> {
        encode_utf8(self@)
    }

    fn to_utf8_arr64(&self) -> (r: [u8; 64]) {
        copy_prefix_64(self.as_str().as_bytes())
    }

    fn to_utf8_arr128(&self) -> (r: [u8; 128]) {
        copy_prefix_128(self.as_str().as_bytes())
    }

    fn to_utf8_arr256(&self) -> (r: [u8; 256]) {
        copy_prefix_256(self.as_str().as_bytes())
    }
}

} // verus!
