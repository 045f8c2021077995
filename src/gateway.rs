use vstd::prelude::*;
use vstd::utf8::{valid_utf8, decode_utf8, encode_utf8};
use vstd::slice::slice_to_vec;
use crate::status::{KeychainStatus, NativeFailure, status_of};
use crate::error::{CredentialError, ErrorKind};

verus! {

/// What a native call that returns nothing reported: success, or the
/// failure's status code.
pub open spec fn done_view(r: Result<(), NativeFailure>) -> Result<(), i32> {
    match r {
        Ok(()) => Ok(()),
        Err(f) => Err(f.code),
    }
}

/// What a native read reported: the stored bytes, or the failure's status
/// code.
pub open spec fn read_view(r: Result<Vec<u8>, NativeFailure>) -> Result<Seq<u8>, i32> {
    match r {
        Ok(bytes) => Ok(bytes@),
        Err(f) => Err(f.code),
    }
}

/// A gateway answer with each error reduced to its kind.
pub open spec fn unit_answer(r: Result<(), CredentialError>) -> Result<(), ErrorKind> {
    match r {
        Ok(()) => Ok(()),
        Err(e) => Err(e.kind),
    }
}

/// A fetched secret as characters, with each error reduced to its kind.
pub open spec fn get_answer(r: Result<Option<String>, CredentialError>) -> Result<
    Option<Seq<char>>,
    ErrorKind,
> {
    match r {
        Ok(Some(s)) => Ok(Some(s@)),
        Ok(None) => Ok(None),
        Err(e) => Err(e.kind),
    }
}

/// The answer of Store, given what the native write reported.
pub open spec fn store_outcome(write: Result<(), i32>) -> Result<(), ErrorKind> {
    match write {
        Ok(()) => Ok(()),
        Err(_) => Err(ErrorKind::StoreFailed),
    }
}

/// The answer of Get, given what the native read reported: a missing item is
/// an empty answer, bytes are decoded as UTF-8 text.
pub open spec fn get_outcome(read: Result<Seq<u8>, i32>) -> Result<Option<Seq<char>>, ErrorKind> {
    match read {
        Ok(bytes) => if valid_utf8(bytes) {
            Ok(Some(decode_utf8(bytes)))
        } else {
            Err(ErrorKind::InvalidEncoding)
        },
        Err(code) => if status_of(code) is ItemNotFound {
            Ok(None)
        } else {
            Err(ErrorKind::RetrieveFailed)
        },
    }
}

/// The answer of Delete, given what the native delete reported: a missing
/// item counts as deleted.
pub open spec fn delete_outcome(removal: Result<(), i32>) -> Result<(), ErrorKind> {
    match removal {
        Ok(()) => Ok(()),
        Err(code) => if status_of(code) is ItemNotFound {
            Ok(())
        } else {
            Err(ErrorKind::DeleteFailed)
        },
    }
}

/// Relies on String::from_utf8: it succeeds exactly on valid UTF-8, and the
/// string then holds the characters those bytes encode. On failure, the
/// error's text is returned.
#[verifier::external_body]
fn text_from_bytes(bytes: Vec<u8>) -> (r: Result<String, String>)
    ensures
        r is Ok <==> valid_utf8(bytes@),
        r matches Ok(s) ==> s@ == decode_utf8(bytes@),
{
    match String::from_utf8(bytes) {
        Ok(s) => Ok(s),
        Err(e) => Err(format!("{e}")),
    }
}

/// The bytes that a secret is written to the store as: its UTF-8 encoding.
pub fn secret_bytes(secret: &str) -> (r: Vec<u8>)
    ensures
        r@ == encode_utf8(secret@),
{
    slice_to_vec(secret.as_bytes())
}

/// Turns the outcome of the native write that Store makes (after clearing
/// any earlier entry) into the gateway's answer.
pub fn finish_store(write: Result<(), NativeFailure>) -> (r: Result<(), CredentialError>)
    ensures
        unit_answer(r) == store_outcome(done_view(write)),
        r matches Err(e) ==> write matches Err(f) && e.detail@ == f.description@,
{
    match write {
        Ok(()) => Ok(()),
        Err(f) => Err(CredentialError { kind: ErrorKind::StoreFailed, detail: f.description }),
    }
}

/// Turns the outcome of the native read that Get makes into the gateway's
/// answer.
pub fn finish_get(read: Result<Vec<u8>, NativeFailure>) -> (r: Result<
    Option<String>,
    CredentialError,
>)
    ensures
        get_answer(r) == get_outcome(read_view(read)),
        r is Err && r->Err_0.kind is RetrieveFailed ==> read is Err
            && r->Err_0.detail@ == read->Err_0.description@,
{
    match read {
        Ok(bytes) => match text_from_bytes(bytes) {
            Ok(s) => Ok(Some(s)),
            Err(why) => Err(CredentialError { kind: ErrorKind::InvalidEncoding, detail: why }),
        },
        Err(f) => match f.status() {
            KeychainStatus::ItemNotFound => Ok(None),
            KeychainStatus::Other(_) => Err(
                CredentialError { kind: ErrorKind::RetrieveFailed, detail: f.description },
            ),
        },
    }
}

/// Turns the outcome of the native delete that Delete makes into the
/// gateway's answer.
pub fn finish_delete(removal: Result<(), NativeFailure>) -> (r: Result<(), CredentialError>)
    ensures
        unit_answer(r) == delete_outcome(done_view(removal)),
        r matches Err(e) ==> removal matches Err(f) && e.detail@ == f.description@,
{
    match removal {
        Ok(()) => Ok(()),
        Err(f) => match f.status() {
            KeychainStatus::ItemNotFound => Ok(()),
            KeychainStatus::Other(_) => Err(
                CredentialError { kind: ErrorKind::DeleteFailed, detail: f.description },
            ),
        },
    }
}

} // verus!
