//! Listing the databases of a deployment: the two result modes, and the
//! extraction of names from the server's database documents.

use vstd::prelude::*;

use crate::bson_frame::document_frame_ok;
use crate::error::{is_invalid_response, DriverError};

verus! {

/// Result mode: full database specifications.
pub struct ListSpecifications;

/// Result mode: database names only.
pub struct ListNames;

/// The string value of field `key` of the framed document `doc`; `None`
/// when the field is absent, unreadable or not a string.
pub uninterp spec fn str_field_of(doc: Seq<u8>, key: Seq<char>) -> Option<Seq<char>>;

/// `bson::RawDocument::get_str` on a framed document.
#[verifier::external_body]
fn str_field(doc: &[u8], key: &str) -> (r: Option<String>)
    requires
        document_frame_ok(doc@),
    ensures
        match str_field_of(doc@, key@) {
            Some(s) => r matches Some(t) && t@ == s,
            None => r is None,
        },
{
    match bson::RawDocument::from_bytes(doc) {
        Ok(d) => match d.get_str(key) {
            Ok(s) => Some(s.to_string()),
            Err(_) => None,
        },
        Err(_) => None,
    }
}

/// The message of a database document without a name.
pub open spec fn missing_name_message() -> Seq<char> {
    "Expected \"name\" field in server response, but it was not found"@
}

/// Every document of `docs` has a string `name`.
pub open spec fn all_named(docs: Seq<Vec<u8>>) -> bool {
    forall|i: int| 0 <= i < docs.len() ==> (#[trigger] str_field_of(docs[i]@, "name"@)) is Some
}

/// The names of the database documents `databases`, in order; an
/// invalid-response error when one of them has no string `name`.
pub fn database_names(databases: &Vec<Vec<u8>>) -> (r: Result<Vec<String>, DriverError>)
    requires
        forall|i: int| 0 <= i < databases@.len() ==> document_frame_ok(#[trigger] databases@[i]@),
    ensures
        r is Ok <==> all_named(databases@),
        r matches Ok(names) ==> names@.len() == databases@.len() && forall|i: int|
            0 <= i < names@.len() ==> str_field_of(databases@[i]@, "name"@) == Some(#[trigger] names@[i]@),
        r matches Err(e) ==> is_invalid_response(e, missing_name_message()),
{
    let mut names: Vec<String> = Vec::new();
    let mut i: usize = 0;
    while i < databases.len()
        invariant
            i <= databases@.len(),
            names@.len() == i,
            forall|j: int| 0 <= j < databases@.len() ==> document_frame_ok(#[trigger] databases@[j]@),
            forall|j: int| 0 <= j < i ==> str_field_of(databases@[j]@, "name"@) == Some(#[trigger] names@[j]@),
        decreases databases@.len() - i,
    {
        match str_field(databases[i].as_slice(), "name") {
            Some(n) => {
                names.push(n);
            },
            None => {
                return Err(DriverError::invalid_response_str(
                    "Expected \"name\" field in server response, but it was not found",
                ));
            },
        }
        i = i + 1;
    }
    proof {
        assert forall|j: int| 0 <= j < databases@.len() implies (#[trigger] str_field_of(databases@[j]@, "name"@)) is Some by {
            assert(str_field_of(databases@[j]@, "name"@) == Some(names@[j]@));
        }
    }
    Ok(names)
}

} // verus!
