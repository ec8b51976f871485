//! Reading a JSON response body: its transaction IDs, and the value or error it carries.

use vstd::prelude::*;
use crate::errors::ASCOMError;
use crate::image_array::ImageArray;
use crate::image_bytes::ResponseTransaction;
use crate::image_json::{keys_of, parse_image_json, spec_parse_image_json, values_of, ImageJsonError, JsonNode};
use crate::text::same_text;

verus! {

/// The transaction ID fields of a response body.
#[derive(Debug, Clone, Copy, PartialEq, Eq, Structural)]
pub enum TransactionField {
    /// `"ClientTransactionID"`.
    ClientTransactionId,
    /// `"ServerTransactionID"`.
    ServerTransactionId,
}

/// Why the transaction IDs of a response body could not be read.
#[derive(Debug, Clone, Copy, PartialEq, Eq, Structural)]
pub enum TransactionFieldError {
    /// The field occurs a second time.
    DuplicateField(TransactionField),
    /// The field holds neither `null` nor a non-zero 32-bit unsigned number.
    InvalidValue(TransactionField),
}

/// The transaction ID a JSON value stands for: none for `null`, the number for an integer
/// in `1..=u32::MAX`, and nothing for any other value.
pub open spec fn id_value(n: JsonNode) -> Option<Option<u32>> {
    match n {
        JsonNode::Null => Some(None),
        JsonNode::Integer(v) => if 1 <= v <= u32::MAX {
            Some(Some(v as u32))
        } else {
            None
        },
        _ => None,
    }
}

/// The transaction field that `key` names, if any.
pub open spec fn transaction_field(key: Seq<char>) -> Option<TransactionField> {
    if key == "ClientTransactionID"@ {
        Some(TransactionField::ClientTransactionId)
    } else if key == "ServerTransactionID"@ {
        Some(TransactionField::ServerTransactionId)
    } else {
        None
    }
}

/// The transaction IDs read from the fields of a body in order, each as "not met yet" or
/// the ID met; the first field that fails decides the error.
pub open spec fn read_ids(keys: Seq<Seq<char>>, values: Seq<JsonNode>) -> Result<
    (Option<Option<u32>>, Option<Option<u32>>),
    TransactionFieldError,
>
    decreases keys.len(),
{
    if keys.len() == 0 {
        Ok((None, None))
    } else {
        let last = (keys.len() - 1) as int;
        match read_ids(keys.drop_last(), values.take(last)) {
            Err(e) => Err(e),
            Ok((client, server)) => match transaction_field(keys[last]) {
                None => Ok((client, server)),
                Some(f) => {
                    let seen = match f {
                        TransactionField::ClientTransactionId => client,
                        TransactionField::ServerTransactionId => server,
                    };
                    if seen is Some {
                        Err(TransactionFieldError::DuplicateField(f))
                    } else {
                        match id_value(values[last]) {
                            None => Err(TransactionFieldError::InvalidValue(f)),
                            Some(id) => match f {
                                TransactionField::ClientTransactionId => Ok((Some(id), server)),
                                TransactionField::ServerTransactionId => Ok((client, Some(id))),
                            },
                        }
                    }
                },
            },
        }
    }
}

/// The transaction IDs of a response body with the given fields; a missing field is no ID.
pub open spec fn spec_response_transaction(keys: Seq<Seq<char>>, values: Seq<JsonNode>) -> Result<
    ResponseTransaction,
    TransactionFieldError,
> {
    match read_ids(keys, values) {
        Err(e) => Err(e),
        Ok((client, server)) => Ok(
            ResponseTransaction {
                client_transaction_id: match client {
                    Some(id) => id,
                    None => None,
                },
                server_transaction_id: match server {
                    Some(id) => id,
                    None => None,
                },
            },
        ),
    }
}

proof fn lemma_read_ids_error(keys: Seq<Seq<char>>, values: Seq<JsonNode>, j: int, n: int)
    requires
        keys.len() == values.len(),
        0 <= j <= n <= keys.len(),
        read_ids(keys.take(j), values.take(j)) is Err,
    ensures
        read_ids(keys.take(n), values.take(n)) == read_ids(keys.take(j), values.take(j)),
    decreases n - j,
{
    if n > j {
        lemma_read_ids_error(keys, values, j, n - 1);
        assert(keys.take(n).drop_last() =~= keys.take(n - 1));
        assert(values.take(n).take(n - 1) =~= values.take(n - 1));
    }
}

fn field_of_key(key: &String) -> (r: Option<TransactionField>)
    ensures
        r == transaction_field(key@),
{
    if same_text(key.as_str(), "ClientTransactionID") {
        Some(TransactionField::ClientTransactionId)
    } else if same_text(key.as_str(), "ServerTransactionID") {
        Some(TransactionField::ServerTransactionId)
    } else {
        None
    }
}

fn id_of(n: &JsonNode) -> (r: Option<Option<u32>>)
    ensures
        r == id_value(*n),
{
    match n {
        JsonNode::Null => Some(None),
        JsonNode::Integer(v) => {
            if 1 <= *v && *v <= u32::MAX as i128 {
                Some(Some(*v as u32))
            } else {
                None
            }
        },
        _ => None,
    }
}

/// Reads the transaction IDs (`ClientTransactionID`, `ServerTransactionID`) of a response
/// body from its fields, in the order they appear; all other fields are skipped.
pub fn response_transaction(fields: &Vec<(String, JsonNode)>) -> (r: Result<ResponseTransaction, TransactionFieldError>)
    ensures
        r == spec_response_transaction(keys_of(fields@), values_of(fields@)),
{
    let ghost keys = keys_of(fields@);
    let ghost values = values_of(fields@);
    let mut client: Option<Option<u32>> = None;
    let mut server: Option<Option<u32>> = None;
    let mut k: usize = 0;
    assert(keys.take(0) =~= Seq::<Seq<char>>::empty());
    while k < fields.len()
        invariant
            k <= fields@.len(),
            keys == keys_of(fields@),
            values == values_of(fields@),
            read_ids(keys.take(k as int), values.take(k as int)) == Ok::<
                (Option<Option<u32>>, Option<Option<u32>>),
                TransactionFieldError,
            >((client, server)),
        decreases fields@.len() - k,
    {
        let ghost kt = keys.take(k + 1);
        let ghost vt = values.take(k + 1);
        assert(kt.drop_last() =~= keys.take(k as int));
        assert(vt.take(k as int) =~= values.take(k as int));
        assert(kt[k as int] == fields@[k as int].0@);
        assert(vt[k as int] == fields@[k as int].1);
        match field_of_key(&fields[k].0) {
            None => {},
            Some(f) => {
                let seen = match f {
                    TransactionField::ClientTransactionId => client,
                    TransactionField::ServerTransactionId => server,
                };
                if seen.is_some() {
                    proof {
                        lemma_read_ids_error(keys, values, k + 1, fields@.len() as int);
                        assert(keys.take(fields@.len() as int) =~= keys);
                        assert(values.take(fields@.len() as int) =~= values);
                    }
                    return Err(TransactionFieldError::DuplicateField(f));
                }
                match id_of(&fields[k].1) {
                    None => {
                        proof {
                            lemma_read_ids_error(keys, values, k + 1, fields@.len() as int);
                            assert(keys.take(fields@.len() as int) =~= keys);
                            assert(values.take(fields@.len() as int) =~= values);
                        }
                        return Err(TransactionFieldError::InvalidValue(f));
                    },
                    Some(id) => match f {
                        TransactionField::ClientTransactionId => {
                            client = Some(id);
                        },
                        TransactionField::ServerTransactionId => {
                            server = Some(id);
                        },
                    },
                }
            },
        }
        k = k + 1;
    }
    assert(keys.take(fields@.len() as int) =~= keys);
    assert(values.take(fields@.len() as int) =~= values);
    Ok(
        ResponseTransaction {
            client_transaction_id: match client {
                Some(id) => id,
                None => None,
            },
            server_transaction_id: match server {
                Some(id) => id,
                None => None,
            },
        },
    )
}

/// The result a JSON response body carries, given the error its `ErrorNumber` and
/// `ErrorMessage` stand for and the outcome of reading its value: for success (code `0`)
/// the value, or the reason it could not be read; for any other code, the error (the value
/// is then not looked at).
pub fn response_result<T, E>(error: ASCOMError, value: Result<T, E>) -> (r: Result<Result<T, ASCOMError>, E>)
    ensures
        error.code@ == 0 ==> match value {
            Ok(v) => r matches Ok(Ok(x)) && x == v,
            Err(e) => r matches Err(x) && x == e,
        },
        error.code@ != 0 ==> (r matches Ok(Err(x)) && x == error),
{
    if error.code.raw() == 0 {
        match value {
            Ok(v) => Ok(Ok(v)),
            Err(e) => Err(e),
        }
    } else {
        Ok(Err(error))
    }
}

/// The image result a JSON response body carries: for success (code `0`) the image its
/// fields describe, or why they describe none; for any other code, the error.
pub fn json_image_result(error: ASCOMError, fields: &Vec<(String, JsonNode)>) -> (r: Result<
    Result<ImageArray, ASCOMError>,
    ImageJsonError,
>)
    ensures
        error.code@ == 0 ==> match spec_parse_image_json(keys_of(fields@), values_of(fields@)) {
            Ok(m) => r matches Ok(Ok(img)) && img@ == m,
            Err(e) => r matches Err(x) && x == e,
        },
        error.code@ != 0 ==> (r matches Ok(Err(x)) && x == error),
{
    if error.code.raw() == 0 {
        match parse_image_json(fields) {
            Ok(img) => Ok(Ok(img)),
            Err(e) => Err(e),
        }
    } else {
        Ok(Err(error))
    }
}

/// The transaction IDs of a response are keyed `ClientTransactionID` and
/// `ServerTransactionID`; every other key is no transaction field.
pub proof fn lemma_transaction_field_keys(key: Seq<char>)
    ensures
        transaction_field("ClientTransactionID"@) == Some(TransactionField::ClientTransactionId),
        transaction_field("ServerTransactionID"@) == Some(TransactionField::ServerTransactionId),
        (key != "ClientTransactionID"@ && key != "ServerTransactionID"@) ==> transaction_field(key) is None,
{
    reveal_strlit("ClientTransactionID");
    reveal_strlit("ServerTransactionID");
    assert("ClientTransactionID"@[0] != "ServerTransactionID"@[0]);
}

} // verus!
