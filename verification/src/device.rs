//! The device handle guard and the read-only accessors built on it.
//!
//! A `SwitchtecDevice` owns exactly one open device session.  It is created
//! by classifying a successful boundary open call and destroyed by giving the
//! raw handle back, once, for the close call that releases the session.  The
//! guard is never duplicated, only moved, so at most one owner exists at a
//! time and a double release cannot be written.

use vstd::prelude::*;
use vstd::utf8::decode_utf8;
use vstd::utf8::valid_utf8;

use crate::error::translate_last_error;
use crate::error::translated_kind;
use crate::error::translated_message;
use crate::error::DeviceError;
use crate::error::ErrorKind;
use crate::marshal::buf_to_string;
use crate::marshal::cstr_to_string;
use crate::marshal::null_prefix;
use crate::marshal::CStrBytes;

verus! {

/// An open device session on a PCIe switch.
///
/// The wrapped value is the boundary library's opaque handle reference,
/// carried as a plain machine word; it is never null while the guard lives.
/// The guard has no clone or copy, so ownership can only be transferred,
/// and `into_raw` consumes it, so the session can be released at most once.
#[derive(Debug)]
pub struct SwitchtecDevice {
    raw: usize,
}

impl SwitchtecDevice {
    /// The raw handle value this guard owns.
    pub closed spec fn raw_id(self) -> usize {
        self.raw
    }

    /// A live guard always refers to a real session: its handle value is
    /// never the null reference.
    #[verifier::type_invariant]
    closed spec fn wf(self) -> bool {
        self.raw != 0
    }

    /// Encode a caller-supplied path for the boundary open call.  A path
    /// with an embedded null byte is rejected here, before any boundary call
    /// is made; otherwise the terminator byte the boundary library expects
    /// is appended.
    pub fn encode_path(path: &[u8]) -> (r: Result<Vec<u8>, DeviceError>)
        ensures
            (forall|i: int| 0 <= i < path@.len() ==> path@[i] != 0) <==> r is Ok,
            r matches Ok(v) ==> v@ == path@ + seq![0u8],
            r matches Err(e) ==> e.kind == ErrorKind::InvalidData && e.message@
                == "path contains an embedded null byte"@,
    {
        let mut v: Vec<u8> = Vec::new();
        let mut i: usize = 0;
        while i < path.len()
            invariant
                i <= path@.len(),
                v@ == path@.take(i as int),
                forall|j: int| 0 <= j < i ==> path@[j] != 0,
            decreases path@.len() - i,
        {
            let b = path[i];
            if b == 0 {
                return Err(
                    DeviceError::new(
                        ErrorKind::InvalidData,
                        "path contains an embedded null byte".to_owned(),
                    ),
                );
            }
            v.push(b);
            i = i + 1;
            proof {
                assert(v@ =~= path@.take(i as int));
            }
        }
        v.push(0);
        proof {
            assert(v@ =~= path@ + seq![0u8]);
        }
        Ok(v)
    }

    /// Classify the result of the boundary open call: a null handle
    /// reference means the device could not be located or accessed, resolved
    /// against the last-error indicator read immediately after the call;
    /// any other reference becomes a guard that owns the new session.
    ///
    /// Success depends on the returned reference alone: this layer keeps no
    /// open count, so opening, closing and opening again succeed
    /// independently.
    pub fn open(raw: usize, indicator: &CStrBytes) -> (r: Result<SwitchtecDevice, DeviceError>)
        ensures
            raw != 0 <==> r is Ok,
            r matches Ok(d) ==> d.raw_id() == raw,
            r matches Err(e) ==> e.kind == translated_kind(ErrorKind::NotFound, *indicator)
                && e.message@ == translated_message(*indicator),
    {
        if raw == 0 {
            Err(translate_last_error(ErrorKind::NotFound, indicator))
        } else {
            Ok(SwitchtecDevice { raw })
        }
    }

    /// Read-only access to the raw handle value, for issuing boundary calls;
    /// ownership of the session stays with the guard.
    pub fn raw(&self) -> (r: usize)
        ensures
            r == self.raw_id(),
            r != 0,
    {
        proof {
            use_type_invariant(&*self);
        }
        self.raw
    }

    /// Give the raw handle value back and consume the guard, for the one
    /// close call that releases the session.  Because the guard is consumed,
    /// no second release can follow.
    pub fn into_raw(self) -> (r: usize)
        ensures
            r == self.raw_id(),
            r != 0,
    {
        proof {
            use_type_invariant(&self);
        }
        self.raw
    }

    /// Resolve the result of the boundary name call.  That call hands back a
    /// foreign string with the device name; a null reference here is a
    /// failure of the call itself, and anything else must marshal as text.
    pub fn name(&self, device_name: &CStrBytes) -> (r: Result<String, DeviceError>)
        ensures
            device_name.is_null() ==> (r matches Err(e) && e.kind == ErrorKind::InvalidData
                && e.message@ == "no device name returned"@),
            !device_name.is_null() && valid_utf8(device_name.byte_seq()) ==> (r matches Ok(s)
                && s@ == decode_utf8(device_name.byte_seq())),
            !device_name.is_null() && !valid_utf8(device_name.byte_seq()) ==> (r matches Err(e)
                && e.kind == ErrorKind::InvalidData && e.message@
                == "foreign string is not valid text"@),
    {
        match device_name {
            CStrBytes::Null => Err(
                DeviceError::new(ErrorKind::InvalidData, "no device name returned".to_owned()),
            ),
            CStrBytes::Bytes(_) => cstr_to_string(device_name),
        }
    }

    /// Resolve the result of the boundary firmware-version call.  That call
    /// fills a caller-provided fixed buffer and reports a byte length: a
    /// negative length is a failure, resolved against the last-error
    /// indicator read immediately after the call; otherwise the buffer is
    /// marshaled as null-padded text.
    pub fn firmware_version(&self, len: i32, buf: &[u8], indicator: &CStrBytes) -> (r: Result<
        String,
        DeviceError,
    >)
        ensures
            len < 0 ==> (r matches Err(e) && e.kind == translated_kind(
                ErrorKind::OperationFailed,
                *indicator,
            ) && e.message@ == translated_message(*indicator)),
            len >= 0 && valid_utf8(null_prefix(buf@)) ==> (r matches Ok(s) && s@ == decode_utf8(
                null_prefix(buf@),
            )),
            len >= 0 && !valid_utf8(null_prefix(buf@)) ==> (r matches Err(e) && e.kind
                == ErrorKind::InvalidData && e.message@ == "buffer bytes are not valid text"@),
    {
        if len < 0 {
            Err(translate_last_error(ErrorKind::OperationFailed, indicator))
        } else {
            buf_to_string(buf)
        }
    }
}

} // verus!
