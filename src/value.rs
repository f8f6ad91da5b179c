//! Registry values and their typed decoding.
//!
//! A value carries an explicit type code. Each accessor checks that code
//! first and fails with `TypeMismatch` where it does not fit; it then fails
//! with `Truncated` where the data is shorter than the type needs.

use vstd::prelude::*;

use crate::text::utf16le_decoding;

verus! {

/// `REG_SZ`: a UTF-16LE string.
pub const REG_SZ: u32 = 1;

/// `REG_EXPAND_SZ`: a UTF-16LE string holding environment references.
pub const REG_EXPAND_SZ: u32 = 2;

/// `REG_BINARY`: raw bytes.
pub const REG_BINARY: u32 = 3;

/// `REG_DWORD`: a little-endian 32-bit integer.
pub const REG_DWORD: u32 = 4;

/// `REG_DWORD_BIG_ENDIAN`: a big-endian 32-bit integer.
pub const REG_DWORD_BIG_ENDIAN: u32 = 5;

/// `REG_MULTI_SZ`: a list of UTF-16LE strings.
pub const REG_MULTI_SZ: u32 = 7;

/// `REG_QWORD`: a little-endian 64-bit integer.
pub const REG_QWORD: u32 = 11;

/// A named value of a key: its type code and its raw data.
pub struct Value {
    pub name: String,
    pub data_type: u32,
    pub data: Vec<u8>,
}

/// Why a value could not be decoded as requested.
#[derive(Clone, Copy, Debug, PartialEq, Eq, Structural)]
pub enum DecodeError {
    /// The value's type code does not fit the accessor.
    TypeMismatch { found: u32 },
    /// The data is shorter than the type needs.
    Truncated { needed: usize, actual: usize },
}

/// The unsigned integer of four bytes, least significant first.
pub open spec fn le_u32(b: Seq<u8>) -> int {
    b[0] + 256 * b[1] + 65536 * b[2] + 16777216 * b[3]
}

/// The unsigned integer of four bytes, most significant first.
pub open spec fn be_u32(b: Seq<u8>) -> int {
    b[3] + 256 * b[2] + 65536 * b[1] + 16777216 * b[0]
}

/// The unsigned integer of eight bytes, least significant first.
pub open spec fn le_u64(b: Seq<u8>) -> int {
    le_u32(b) + 4294967296 * le_u32(b.subrange(4, 8))
}

/// The number of UTF-16 units of `b` before its first NUL unit, counting
/// from unit `k`; all whole units where there is none.
pub open spec fn units_before_nul(b: Seq<u8>, k: nat) -> nat
    decreases b.len() - 2 * k,
{
    if 2 * k + 1 >= b.len() {
        k
    } else if b[2 * k as int] == 0 && b[2 * k as int + 1] == 0 {
        k
    } else {
        units_before_nul(b, k + 1)
    }
}

/// The bytes of a string value up to its first NUL unit.
pub open spec fn string_bytes(b: Seq<u8>) -> Seq<u8> {
    b.subrange(0, 2 * units_before_nul(b, 0) as int)
}

impl Value {
    /// The value as a string: `REG_SZ` or `REG_EXPAND_SZ` data decoded as
    /// UTF-16LE up to the first NUL unit (a trailing odd byte is dropped).
    pub fn string_data(&self) -> (r: Result<String, DecodeError>)
        ensures
            (self.data_type == REG_SZ || self.data_type == REG_EXPAND_SZ) ==> (r matches Ok(s)
                && s@ == utf16le_decoding(string_bytes(self.data@)).0),
            !(self.data_type == REG_SZ || self.data_type == REG_EXPAND_SZ) ==> r == Err::<
                String,
                DecodeError,
            >(DecodeError::TypeMismatch { found: self.data_type }),
    {
        if self.data_type != REG_SZ && self.data_type != REG_EXPAND_SZ {
            return Err(DecodeError::TypeMismatch { found: self.data_type });
        }
        let b = self.data.as_slice();
        let n = b.len();
        let mut k: usize = 0;
        while 2 * k + 1 < n && !(b[2 * k] == 0 && b[2 * k + 1] == 0)
            invariant
                n == b@.len(),
                b@ == self.data@,
                2 * k <= n,
                units_before_nul(b@, 0) == units_before_nul(b@, k as nat),
            decreases n - 2 * k,
        {
            k = k + 1;
        }
        let (text, _) = crate::text::decode_utf16le(vstd::slice::slice_subrange(b, 0, 2 * k));
        Ok(text)
    }

    /// The value as a 32-bit integer: `REG_DWORD` (little-endian) or
    /// `REG_DWORD_BIG_ENDIAN`, from the first four bytes of the data.
    pub fn dword_data(&self) -> (r: Result<u32, DecodeError>)
        ensures
            self.data_type == REG_DWORD && self.data@.len() >= 4 ==> r == Ok::<u32, DecodeError>(
                le_u32(self.data@) as u32,
            ),
            self.data_type == REG_DWORD_BIG_ENDIAN && self.data@.len() >= 4 ==> r == Ok::<
                u32,
                DecodeError,
            >(be_u32(self.data@) as u32),
            (self.data_type == REG_DWORD || self.data_type == REG_DWORD_BIG_ENDIAN)
                && self.data@.len() < 4 ==> r == Err::<u32, DecodeError>(
                DecodeError::Truncated { needed: 4, actual: self.data@.len() as usize },
            ),
            !(self.data_type == REG_DWORD || self.data_type == REG_DWORD_BIG_ENDIAN) ==> r == Err::<
                u32,
                DecodeError,
            >(DecodeError::TypeMismatch { found: self.data_type }),
            r matches Ok(v) ==> v as int == if self.data_type == REG_DWORD {
                le_u32(self.data@)
            } else {
                be_u32(self.data@)
            },
    {
        if self.data_type != REG_DWORD && self.data_type != REG_DWORD_BIG_ENDIAN {
            return Err(DecodeError::TypeMismatch { found: self.data_type });
        }
        if self.data.len() < 4 {
            return Err(DecodeError::Truncated { needed: 4, actual: self.data.len() });
        }
        let b0 = self.data[0] as u32;
        let b1 = self.data[1] as u32;
        let b2 = self.data[2] as u32;
        let b3 = self.data[3] as u32;
        if self.data_type == REG_DWORD {
            Ok(b0 + 256 * b1 + 65536 * b2 + 16777216 * b3)
        } else {
            Ok(b3 + 256 * b2 + 65536 * b1 + 16777216 * b0)
        }
    }

    /// The value as a 64-bit integer: `REG_QWORD` data, little-endian, from
    /// the first eight bytes.
    pub fn qword_data(&self) -> (r: Result<u64, DecodeError>)
        ensures
            self.data_type == REG_QWORD && self.data@.len() >= 8 ==> r == Ok::<u64, DecodeError>(
                le_u64(self.data@) as u64,
            ),
            self.data_type == REG_QWORD && self.data@.len() < 8 ==> r == Err::<u64, DecodeError>(
                DecodeError::Truncated { needed: 8, actual: self.data@.len() as usize },
            ),
            self.data_type != REG_QWORD ==> r == Err::<u64, DecodeError>(
                DecodeError::TypeMismatch { found: self.data_type },
            ),
            r matches Ok(v) ==> v as int == le_u64(self.data@),
    {
        if self.data_type != REG_QWORD {
            return Err(DecodeError::TypeMismatch { found: self.data_type });
        }
        if self.data.len() < 8 {
            return Err(DecodeError::Truncated { needed: 8, actual: self.data.len() });
        }
        let lo = (self.data[0] as u64) + 256 * (self.data[1] as u64) + 65536 * (self.data[2] as u64)
            + 16777216 * (self.data[3] as u64);
        let hi = (self.data[4] as u64) + 256 * (self.data[5] as u64) + 65536 * (self.data[6] as u64)
            + 16777216 * (self.data[7] as u64);
        proof {
            assert(self.data@.subrange(4, 8)[0] == self.data@[4]);
            assert(self.data@.subrange(4, 8)[1] == self.data@[5]);
            assert(self.data@.subrange(4, 8)[2] == self.data@[6]);
            assert(self.data@.subrange(4, 8)[3] == self.data@[7]);
            assert(hi <= 4294967295);
            assert(lo + 4294967296 * hi <= u64::MAX) by (nonlinear_arith)
                requires
                    lo <= 4294967295,
                    hi <= 4294967295,
            ;
        }
        Ok(lo + 4294967296 * hi)
    }

    /// The raw data of the value, whatever its type.
    pub fn data(&self) -> (r: Vec<u8>)
        ensures
            r@ == self.data@,
    {
        vstd::slice::slice_to_vec(self.data.as_slice())
    }
}

} // verus!
