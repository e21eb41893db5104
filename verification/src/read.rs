//! Whole-buffer read operations, available on every byte source.

use vstd::prelude::*;
use vstd::utf8::decode_utf8;
use vstd::utf8::valid_utf8;

use crate::codec::string_from_utf8;
use crate::codec::string_chars;
use crate::lines::spec_lines;
use crate::source::ByteSource;
use crate::source::ReadError;

verus! {

/// Four derived read operations over any byte source: read everything and
/// hand it back as text, as characters, as lines, or as raw bytes.
///
/// Every operation consumes the source to its end. The three decoding
/// operations fail with `ReadError::Decode` exactly when the collected
/// bytes are not valid UTF-8; every operation fails with `ReadError::Io`
/// only when the source itself failed, which a reliable source never does.
pub trait SimpleIO: ByteSource {
    /// All remaining bytes, decoded as UTF-8 text.
    fn read_string(&mut self) -> (r: Result<String, ReadError>)
        ensures
            r matches Ok(s) ==> valid_utf8(old(self).remaining()) && s@ == decode_utf8(
                old(self).remaining(),
            ) && final(self).remaining() == Seq::<u8>::empty(),
            r matches Err(e) ==> (e == ReadError::Io && !old(self).reliable()) || (e
                == ReadError::Decode && !valid_utf8(old(self).remaining())),
    ;

    /// All remaining bytes, decoded as UTF-8 and split into characters.
    fn read_chars(&mut self) -> (r: Result<Vec<char>, ReadError>)
        ensures
            r matches Ok(v) ==> valid_utf8(old(self).remaining()) && v@ == decode_utf8(
                old(self).remaining(),
            ) && final(self).remaining() == Seq::<u8>::empty(),
            r matches Err(e) ==> (e == ReadError::Io && !old(self).reliable()) || (e
                == ReadError::Decode && !valid_utf8(old(self).remaining())),
    ;

    /// All remaining bytes, decoded as UTF-8 and split into lines, with
    /// terminators stripped and no empty line after a final terminator.
    fn read_lines(&mut self) -> (r: Result<Vec<String>, ReadError>)
        ensures
            r matches Ok(v) ==> valid_utf8(old(self).remaining()) && v@.map_values(
                |t: String| t@,
            ) == spec_lines(decode_utf8(old(self).remaining())) && final(self).remaining() == Seq::<
                u8,
            >::empty(),
            r matches Err(e) ==> (e == ReadError::Io && !old(self).reliable()) || (e
                == ReadError::Decode && !valid_utf8(old(self).remaining())),
    ;

    /// All remaining bytes, exactly as the source holds them; never a
    /// decode failure.
    fn read_vec(&mut self) -> (r: Result<Vec<u8>, ReadError>)
        ensures
            r matches Ok(v) ==> v@ == old(self).remaining() && final(self).remaining() == Seq::<
                u8,
            >::empty(),
            r matches Err(e) ==> e == ReadError::Io && !old(self).reliable(),
    ;
}

impl<T: ByteSource> SimpleIO for T {
    fn read_string(&mut self) -> (r: Result<String, ReadError>) {
        match self.read_rest() {
            Ok(bytes) => string_from_utf8(bytes),
            Err(e) => Err(e),
        }
    }

    fn read_chars(&mut self) -> (r: Result<Vec<char>, ReadError>) {
        match self.read_rest() {
            Ok(bytes) => match string_from_utf8(bytes) {
                Ok(s) => Ok(string_chars(s.as_str())),
                Err(e) => Err(e),
            },
            Err(e) => Err(e),
        }
    }

    fn read_lines(&mut self) -> (r: Result<Vec<String>, ReadError>) {
        match self.read_rest() {
            Ok(bytes) => match string_from_utf8(bytes) {
                Ok(s) => Ok(crate::lines::split_lines(s.as_str())),
                Err(e) => Err(e),
            },
            Err(e) => Err(e),
        }
    }

    fn read_vec(&mut self) -> (r: Result<Vec<u8>, ReadError>) {
        self.read_rest()
    }
}

} // verus!
