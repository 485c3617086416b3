//! The version strings a driver writes into fixed-size, NUL-terminated buffers.
use vstd::prelude::*;
use vstd::slice::slice_subrange;
use crate::error::{Error, ErrorKind, Result};

verus! {

/// The characters that `bytes` encode in UTF-8, or `None` where they are not
/// valid UTF-8.
pub uninterp spec fn utf8_text(bytes: Seq<u8>) -> Option<Seq<char>>;

/// Relies on `core::str::from_utf8`: `Ok` exactly when the bytes are valid
/// UTF-8, holding the characters they encode.
#[verifier::external_body]
fn decode_utf8(bytes: &[u8]) -> (r: core::result::Result<&str, core::str::Utf8Error>)
    ensures
        match r {
            Ok(s) => utf8_text(bytes@) == Some(s@),
            Err(_) => utf8_text(bytes@) is None,
        },
{
    core::str::from_utf8(bytes)
}

/// `k` is the position of the first NUL of `buf`.
pub open spec fn is_text_end(buf: Seq<u8>, k: int) -> bool {
    &&& 0 <= k < buf.len()
    &&& buf[k] == 0
    &&& forall|j: int| 0 <= j < k ==> buf[j] != 0
}

/// The text of a NUL-terminated buffer: the UTF-8 characters before its first
/// NUL, or `None` where it holds no NUL or those bytes are not valid UTF-8.
pub open spec fn buffer_text(buf: Seq<u8>) -> Option<Seq<char>> {
    if exists|k: int| is_text_end(buf, k) {
        utf8_text(buf.take(choose|k: int| is_text_end(buf, k)))
    } else {
        None
    }
}

/// The three version strings of a device.
#[derive(Clone, Debug)]
pub struct VersionInfo {
    pub firmware_version: String,
    pub dll_version: String,
    pub api_version: String,
}

/// Reads the text of a NUL-terminated buffer. A buffer without NUL, or with
/// bytes before it that are not UTF-8, gives a `Utf8` error.
pub fn buffer_string(buf: &[u8]) -> (r: Result<String>)
    ensures
        match r {
            Ok(s) => buffer_text(buf@) == Some(s@),
            Err(e) => buffer_text(buf@) is None && e.spec_kind() == ErrorKind::Utf8,
        },
{
    let mut k: usize = 0;
    while k < buf.len() && buf[k] != 0
        invariant
            k <= buf.len(),
            forall|j: int| 0 <= j < k ==> buf@[j] != 0,
        decreases buf.len() - k,
    {
        k += 1;
    }
    if k == buf.len() {
        proof {
            assert(!exists|k2: int| is_text_end(buf@, k2));
        }
        return Err(Error::utf8());
    }
    proof {
        assert(is_text_end(buf@, k as int));
        let c = choose|k2: int| is_text_end(buf@, k2);
        assert(c == k) by {
            if c < k {
                assert(buf@[c] != 0);
            } else if c > k {
                assert(buf@[k as int] != 0);
            }
        }
    }
    let head = slice_subrange(buf, 0, k);
    assert(head@ == buf@.take(k as int));
    match decode_utf8(head) {
        Ok(s) => Ok(String::from_str(s)),
        Err(e) => Err(Error::from(e)),
    }
}

impl VersionInfo {
    /// Puts together the three decoded strings, or the first error among them.
    pub fn from_texts(firmware: Result<String>, dll: Result<String>, api: Result<String>) -> (r:
        Result<VersionInfo>)
        ensures
            r is Ok <==> firmware is Ok && dll is Ok && api is Ok,
            r matches Ok(v) ==> firmware == Ok::<String, Error>(v.firmware_version)
                && dll == Ok::<String, Error>(v.dll_version)
                && api == Ok::<String, Error>(v.api_version),
            r matches Err(e) ==> (firmware == Err::<String, Error>(e)) || (firmware is Ok
                && dll == Err::<String, Error>(e)) || (firmware is Ok && dll is Ok && api
                == Err::<String, Error>(e)),
    {
        let firmware_version = match firmware {
            Ok(s) => s,
            Err(e) => return Err(e),
        };
        let dll_version = match dll {
            Ok(s) => s,
            Err(e) => return Err(e),
        };
        let api_version = match api {
            Ok(s) => s,
            Err(e) => return Err(e),
        };
        Ok(VersionInfo { firmware_version, dll_version, api_version })
    }

    /// The driver answered a read-version call with `status` and the three
    /// buffers. A nonzero status is returned as is, before any buffer is read.
    pub fn from_reply(status: i32, firmware: &[u8], dll: &[u8], api: &[u8]) -> (r: Result<
        VersionInfo,
    >)
        ensures
            status != 0 ==> (r matches Err(e) && e.spec_kind() == ErrorKind::Code(status)),
            status == 0 ==> (r is Ok <==> buffer_text(firmware@) is Some && buffer_text(dll@) is Some
                && buffer_text(api@) is Some),
            status == 0 ==> (r matches Err(e) ==> e.spec_kind() == ErrorKind::Utf8),
            r matches Ok(v) ==> status == 0
                && buffer_text(firmware@) == Some(v.firmware_version@)
                && buffer_text(dll@) == Some(v.dll_version@)
                && buffer_text(api@) == Some(v.api_version@),
    {
        if let Err(e) = Error::check(status) {
            return Err(e);
        }
        let f = buffer_string(firmware);
        let d = buffer_string(dll);
        let a = buffer_string(api);
        VersionInfo::from_texts(f, d, a)
    }
}

} // verus!
