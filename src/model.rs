//! The platform credential store as a map from (service, account) to the
//! stored bytes, with its native operations as it documents them: a read or
//! a delete of a missing item reports "item not found", and a write over an
//! existing item reports a duplicate and changes nothing. Over this model the
//! gateway's operations are composed from the same outcome functions that
//! the executable code is proved against, and their laws are proved.
use vstd::prelude::*;
use vstd::utf8::{valid_utf8, decode_utf8, encode_utf8, encode_utf8_decode_utf8};
use crate::status::{ITEM_NOT_FOUND, DUPLICATE_ITEM};
use crate::error::ErrorKind;
use crate::gateway::{store_outcome, get_outcome, delete_outcome};

verus! {

/// The contents of the store: the secret bytes kept under each
/// (service, account) pair. A map holds at most one secret per pair.
pub type Entries = Map<(Seq<char>, Seq<char>), Seq<u8>>;

/// The native read.
pub open spec fn native_get(e: Entries, key: (Seq<char>, Seq<char>)) -> Result<Seq<u8>, i32> {
    if e.contains_key(key) {
        Ok(e[key])
    } else {
        Err(ITEM_NOT_FOUND)
    }
}

/// The native delete: the new contents and what it reported.
pub open spec fn native_delete(e: Entries, key: (Seq<char>, Seq<char>)) -> (Entries, Result<(), i32>) {
    if e.contains_key(key) {
        (e.remove(key), Ok(()))
    } else {
        (e, Err(ITEM_NOT_FOUND))
    }
}

/// The native write, which refuses to replace an existing item: the new
/// contents and what it reported.
pub open spec fn native_set(e: Entries, key: (Seq<char>, Seq<char>), bytes: Seq<u8>) -> (
    Entries,
    Result<(), i32>,
) {
    if e.contains_key(key) {
        (e, Err(DUPLICATE_ITEM))
    } else {
        (e.insert(key, bytes), Ok(()))
    }
}

/// Store: clear the key whatever that reports, then write the secret's
/// UTF-8 bytes.
pub open spec fn store_model(e: Entries, key: (Seq<char>, Seq<char>), secret: Seq<char>) -> (
    Entries,
    Result<(), ErrorKind>,
) {
    let cleared = native_delete(e, key).0;
    let written = native_set(cleared, key, encode_utf8(secret));
    (written.0, store_outcome(written.1))
}

/// Get: read the key and decode what was read.
pub open spec fn get_model(e: Entries, key: (Seq<char>, Seq<char>)) -> Result<
    Option<Seq<char>>,
    ErrorKind,
> {
    get_outcome(native_get(e, key))
}

/// Delete: remove the key, a missing item counting as removed.
pub open spec fn delete_model(e: Entries, key: (Seq<char>, Seq<char>)) -> (
    Entries,
    Result<(), ErrorKind>,
) {
    let removed = native_delete(e, key);
    (removed.0, delete_outcome(removed.1))
}

/// Storing twice under one key succeeds, and afterwards only the second
/// secret is kept and read back.
pub proof fn lemma_store_overwrites(
    e: Entries,
    service: Seq<char>,
    account: Seq<char>,
    first: Seq<char>,
    second: Seq<char>,
)
    ensures
        ({
            let key = (service, account);
            let after = store_model(store_model(e, key, first).0, key, second);
            &&& after.1 == Ok::<(), ErrorKind>(())
            &&& after.0[key] == encode_utf8(second)
            &&& get_model(after.0, key) == Ok::<Option<Seq<char>>, ErrorKind>(Some(second))
        }),
{
    encode_utf8_decode_utf8(second);
    vstd::utf8::encode_utf8_valid_utf8(second);
}

/// Get after Store returns exactly the stored secret.
pub proof fn lemma_get_after_store(
    e: Entries,
    service: Seq<char>,
    account: Seq<char>,
    secret: Seq<char>,
)
    ensures
        store_model(e, (service, account), secret).1 == Ok::<(), ErrorKind>(()),
        get_model(store_model(e, (service, account), secret).0, (service, account)) == Ok::<
            Option<Seq<char>>,
            ErrorKind,
        >(Some(secret)),
{
    encode_utf8_decode_utf8(secret);
    vstd::utf8::encode_utf8_valid_utf8(secret);
}

/// Get on a key that holds nothing is an empty answer, not an error.
pub proof fn lemma_get_absent(e: Entries, service: Seq<char>, account: Seq<char>)
    requires
        !e.contains_key((service, account)),
    ensures
        get_model(e, (service, account)) == Ok::<Option<Seq<char>>, ErrorKind>(None),
{
}

/// Delete on a key that holds nothing succeeds and changes nothing.
pub proof fn lemma_delete_absent(e: Entries, service: Seq<char>, account: Seq<char>)
    requires
        !e.contains_key((service, account)),
    ensures
        delete_model(e, (service, account)) == (e, Ok::<(), ErrorKind>(())),
{
}

/// Get after Delete is an empty answer.
pub proof fn lemma_get_after_delete(e: Entries, service: Seq<char>, account: Seq<char>)
    ensures
        delete_model(e, (service, account)).1 == Ok::<(), ErrorKind>(()),
        get_model(delete_model(e, (service, account)).0, (service, account)) == Ok::<
            Option<Seq<char>>,
            ErrorKind,
        >(None),
{
}

/// Bytes that are not valid UTF-8, written under a key, are read back as an
/// encoding error: neither an empty answer nor a failed read.
pub proof fn lemma_get_invalid_text(
    e: Entries,
    service: Seq<char>,
    account: Seq<char>,
    bytes: Seq<u8>,
)
    requires
        !valid_utf8(bytes),
    ensures
        ({
            let key = (service, account);
            let written = native_set(native_delete(e, key).0, key, bytes);
            &&& written.1 == Ok::<(), i32>(())
            &&& get_model(written.0, key) == Err::<Option<Seq<char>>, ErrorKind>(
                ErrorKind::InvalidEncoding,
            )
        }),
{
}

} // verus!
