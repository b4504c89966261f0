//! The conversion methods, given once for every type.

use vstd::prelude::*;
use vstd::utf8::valid_utf8;
use serde::de::DeserializeOwned;
use serde::Serialize;
use crate::error::{ErrInto, Error};

verus! {

/// What a call has put onto a sink that held `before` and now holds `after`:
/// the bytes behind those that it held.
pub open spec fn appended(before: Seq<u8>, after: Seq<u8>) -> Seq<u8> {
    after.subrange(before.len() as int, after.len() as int)
}

/// Calls `serde_json::to_string`: the compact JSON text of `value`.
///
/// Nothing is claimed of the outcome: the text, and whether there is one, is
/// up to the `Serialize` impl of `T`.
#[verifier::external_body]
fn encode_compact<T: ?Sized + Serialize>(value: &T) -> (r: Result<String, serde_json::Error>) {
    serde_json::to_string(value)
}

/// Calls `serde_json::to_string_pretty`: the JSON text of `value`, indented
/// by two spaces, one field to a line.
///
/// Nothing is claimed of the outcome: the text, and whether there is one, is
/// up to the `Serialize` impl of `T`.
#[verifier::external_body]
fn encode_pretty<T: ?Sized + Serialize>(value: &T) -> (r: Result<String, serde_json::Error>) {
    serde_json::to_string_pretty(value)
}

/// Calls `serde_json::to_writer` with a byte vector as the writer.
///
/// Claimed: the bytes that were in `sink` stay, in place, at its front. The
/// serializer reaches its writer through `std::io::Write` alone, which a
/// `Vec<u8>` implements by appending. Claimed too: what is appended is valid
/// UTF-8, also when the call fails; `serde_json` documents that it feeds
/// its writer valid UTF-8 only. Which text that is, and whether the call
/// succeeds, is up to the `Serialize` impl of `T`.
#[verifier::external_body]
fn encode_onto<T: ?Sized + Serialize>(sink: &mut Vec<u8>, value: &T) -> (r: Result<
    (),
    serde_json::Error,
>)
    ensures
        old(sink)@.is_prefix_of(final(sink)@),
        valid_utf8(appended(old(sink)@, final(sink)@)),
{
    serde_json::to_writer(sink, value)
}

/// Calls `serde_json::from_str` on the text that `text` refers to.
///
/// Nothing is claimed of the outcome: it is up to the `Deserialize` impl of
/// `T`.
#[verifier::external_body]
fn decode_text<T: DeserializeOwned, S: AsRef<str>>(text: S) -> (r: Result<T, serde_json::Error>) {
    serde_json::from_str(text.as_ref())
}

/// Calls `serde_json::from_reader` with a byte slice as the reader.
///
/// Nothing is claimed of the outcome: it is up to the `Deserialize` impl of
/// `T`.
#[verifier::external_body]
fn decode_bytes<T: DeserializeOwned>(source: &[u8]) -> (r: Result<T, serde_json::Error>) {
    serde_json::from_reader(source)
}

/// Methods to serialize to or deserialize from json.
///
/// Every type has them; each method asks of `Self` what it needs from
/// `serde`. A conversion is all or nothing, and when it fails the failure is
/// structural: none of these methods touches a stream, so none reports a
/// failure of the transport.
pub trait Json: Sized {
    /// Convert a serializable object to a compact JSON string.
    fn to_json(&self) -> (r: Result<String, Error>) where Self: Serialize
        ensures
            r matches Err(e) ==> e is Json,
    ;

    /// Convert a serializable object to a pretty formatted JSON string.
    fn to_json_pretty(&self) -> (r: Result<String, Error>) where Self: Serialize
        ensures
            r matches Err(e) ==> e is Json,
    ;

    /// Write a serializable object, as compact JSON, onto the end of `w`.
    ///
    /// What `w` held before stays at its front, and what is put behind it
    /// is valid UTF-8, also when the call fails: what was written up to the
    /// failure is not taken back.
    fn to_json_writer(&self, w: &mut Vec<u8>) -> (r: Result<(), Error>) where Self: Serialize
        ensures
            old(w)@.is_prefix_of(final(w)@),
            valid_utf8(appended(old(w)@, final(w)@)),
            r matches Err(e) ==> e is Json,
    ;

    /// Convert a JSON string to a deserializable object.
    fn from_json<S>(s: S) -> (r: Result<Self, Error>) where
        Self: DeserializeOwned,
        S: AsRef<str>,
        ensures
            r matches Err(e) ==> e is Json,
    ;

    /// Read a deserializable object from all the bytes of `r`.
    fn from_json_reader(r: &[u8]) -> (res: Result<Self, Error>) where Self: DeserializeOwned
        ensures
            res matches Err(e) ==> e is Json,
    ;
}

impl<T> Json for T {
    fn to_json(&self) -> (r: Result<String, Error>) where Self: Serialize {
        encode_compact(self).err_into()
    }

    fn to_json_pretty(&self) -> (r: Result<String, Error>) where Self: Serialize {
        encode_pretty(self).err_into()
    }

    fn to_json_writer(&self, w: &mut Vec<u8>) -> (r: Result<(), Error>) where Self: Serialize {
        encode_onto(w, self).err_into()
    }

    fn from_json<S>(s: S) -> (r: Result<Self, Error>) where
        Self: DeserializeOwned,
        S: AsRef<str>,
    {
        decode_text(s).err_into()
    }

    fn from_json_reader(r: &[u8]) -> (res: Result<Self, Error>) where Self: DeserializeOwned {
        decode_bytes(r).err_into()
    }
}

} // verus!
