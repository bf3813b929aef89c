//! The envelope around every response of the service, the list wrapper, and the
//! decoding of a response body into a typed result.

use crate::errors::{make_error, status_error, NuclinoError};
use crate::json::{
    array_member, as_opt_text, as_text, get, get_member, json_error,
    opt_text_member, parse_json, parsed_json, seq_decodable, seq_decodes, text_member, FromJson,
    JsonValue,
};
use crate::json::as_uuid;
use crate::types::{opt_view, page_id, page_title, Page};
use vstd::prelude::*;
use vstd::string::*;

verus! {

/// The envelope around every response: a status (`success`, `fail` or `error`),
/// an optional message, and an optional payload.
#[derive(Debug, Clone)]
pub struct Response<T> {
    pub status: String,
    pub message: Option<String>,
    pub data: Option<T>,
}

/// The message of an envelope, or the empty text where it has none.
pub open spec fn message_text(m: Option<String>) -> Seq<char> {
    match m {
        Some(s) => s@,
        None => Seq::empty(),
    }
}

/// What is shared by all responses of the service.
pub trait ResponseInfo {
    type D;

    /// The status the response reports.
    spec fn status_spec(&self) -> Seq<char>;

    /// The message the response carries, empty where it has none.
    spec fn message_spec(&self) -> Seq<char>;

    /// The payload the response carries.
    spec fn data_spec(&self) -> Option<Self::D>;

    /// This response's error message, empty where it has none.
    fn message(&self) -> (r: String)
        ensures
            r@ == self.message_spec(),
    ;

    /// Whether the request succeeded.
    fn is_success(&self) -> (r: bool)
        ensures
            r <==> self.status_spec() == "success"@,
    ;

    /// Whether the response reports an error on the service's side.
    fn is_server_error(&self) -> (r: bool)
        ensures
            r <==> self.status_spec() == "error"@,
    ;

    /// Whether the response reports an error in the client's request.
    fn is_client_error(&self) -> (r: bool)
        ensures
            r <==> self.status_spec() == "fail"@,
    ;

    /// The payload of this response, if there is one.
    fn data(&self) -> (r: Option<&Self::D>)
        ensures
            r matches Some(x) ==> self.data_spec() == Some(*x),
            r is None <==> self.data_spec() is None,
    ;
}

impl<T> ResponseInfo for Response<T> {
    type D = T;

    open spec fn status_spec(&self) -> Seq<char> {
        self.status@
    }

    open spec fn message_spec(&self) -> Seq<char> {
        message_text(self.message)
    }

    open spec fn data_spec(&self) -> Option<T> {
        self.data
    }

    fn message(&self) -> (r: String) {
        match &self.message {
            Some(m) => m.clone(),
            None => String::new(),
        }
    }

    fn is_success(&self) -> (r: bool) {
        self.status == String::from_str("success")
    }

    fn is_server_error(&self) -> (r: bool) {
        self.status == String::from_str("error")
    }

    fn is_client_error(&self) -> (r: bool) {
        self.status == String::from_str("fail")
    }

    fn data(&self) -> (r: Option<&T>) {
        match &self.data {
            Some(d) => Some(d),
            None => None,
        }
    }
}

/// The `data` member of an envelope holds a payload: it is there and not `null`.
pub open spec fn has_payload(v: JsonValue) -> bool {
    get(v, "data"@) matches Some(d) && !(d is Null)
}

impl<T: FromJson> FromJson for Response<T> {
    /// `status` is a string, `message` a string or absent or null, and `data`
    /// a payload of the expected shape or absent or null.
    open spec fn json_decodable(v: JsonValue) -> bool {
        &&& as_text(get(v, "status"@)) is Some
        &&& as_opt_text(get(v, "message"@)) is Some
        &&& has_payload(v) ==> T::json_decodable(get(v, "data"@)->0)
    }

    open spec fn json_decodes(v: JsonValue, r: Response<T>) -> bool {
        &&& as_text(get(v, "status"@)) == Some(r.status@)
        &&& as_opt_text(get(v, "message"@)) == Some(opt_view(r.message))
        &&& if has_payload(v) {
            r.data matches Some(x) && T::json_decodes(get(v, "data"@)->0, x)
        } else {
            r.data is None
        }
    }

    fn from_json(v: &JsonValue) -> (r: Result<Response<T>, NuclinoError>) {
        let status = match text_member(v, "status") {
            Some(x) => x,
            None => {
                return Err(json_error("invalid field: status"));
            },
        };
        let message = match opt_text_member(v, "message") {
            Some(x) => x,
            None => {
                return Err(json_error("invalid field: message"));
            },
        };
        let data = match get_member(v, "data") {
            None => None,
            Some(JsonValue::Null) => None,
            Some(d) => match T::from_json(d) {
                Ok(x) => Some(x),
                Err(e) => {
                    return Err(e);
                },
            },
        };
        Ok(Response { status, message, data })
    }
}

/// What a response with HTTP status `http_status` and envelope `r` comes to:
/// the payload where the envelope reports success and has one.
pub open spec fn envelope_outcome<T>(
    http_status: u16,
    r: Response<T>,
    out: Result<T, NuclinoError>,
) -> bool {
    if r.status@ == "success"@ {
        match r.data {
            Some(d) => out == Ok::<T, NuclinoError>(d),
            None => out == Err::<T, NuclinoError>(NuclinoError::NoDataReturned),
        }
    } else {
        out matches Err(e) && status_error(e, http_status, message_text(r.message))
    }
}

impl<T: FromJson> Response<T> {
    /// Reads an envelope with a payload of type `T` from JSON text.
    pub fn from_text(body: &str) -> (r: Result<Response<T>, NuclinoError>)
        ensures
            r is Ok <==> (parsed_json(body@) matches Some(v) && Response::<T>::json_decodable(v)),
            r matches Ok(x) ==> Response::<T>::json_decodes(parsed_json(body@)->0, x),
            r matches Err(e) ==> e is JsonError,
    {
        match parse_json(body) {
            Ok(v) => Response::<T>::from_json(&v),
            Err(msg) => Err(NuclinoError::JsonError(msg)),
        }
    }
}

impl<T> Response<T> {
    /// The payload where the envelope reports success and carries one;
    /// `NoDataReturned` where it reports success without one; otherwise the error
    /// that the HTTP status maps to, with the envelope's message.
    pub fn into_result(self, http_status: u16) -> (r: Result<T, NuclinoError>)
        ensures
            envelope_outcome(http_status, self, r),
    {
        if self.status == String::from_str("success") {
            match self.data {
                Some(d) => Ok(d),
                None => Err(NuclinoError::NoDataReturned),
            }
        } else {
            let message = match self.message {
                Some(m) => m,
                None => String::new(),
            };
            Err(make_error(http_status, message))
        }
    }
}

/// What decoding the response body `body`, received with HTTP status
/// `http_status`, comes to: a JSON error where the body is not an envelope with a
/// payload of the expected shape; otherwise the outcome of the envelope.
pub open spec fn response_outcome<T: FromJson>(
    http_status: u16,
    body: Seq<char>,
    out: Result<T, NuclinoError>,
) -> bool {
    match parsed_json(body) {
        None => out matches Err(e) && e is JsonError,
        Some(v) => if !Response::<T>::json_decodable(v) {
            out matches Err(e) && e is JsonError
        } else if as_text(get(v, "status"@)) == Some("success"@) {
            if has_payload(v) {
                out matches Ok(x) && T::json_decodes(get(v, "data"@)->0, x)
            } else {
                out == Err::<T, NuclinoError>(NuclinoError::NoDataReturned)
            }
        } else {
            out matches Err(e) && status_error(
                e,
                http_status,
                match as_opt_text(get(v, "message"@)) {
                    Some(Some(m)) => m,
                    _ => Seq::empty(),
                },
            )
        },
    }
}

/// Decodes a response body received with HTTP status `http_status` into its
/// payload, or into the error it reports.
pub fn decode_response<T: FromJson>(http_status: u16, body: &str) -> (r: Result<T, NuclinoError>)
    ensures
        response_outcome::<T>(http_status, body@, r),
{
    match Response::<T>::from_text(body) {
        Ok(envelope) => envelope.into_result(http_status),
        Err(e) => Err(e),
    }
}

/// The wrapper around every list the service returns; the order of the results
/// is the service's.
#[derive(Debug, Clone)]
pub struct List<T> {
    pub results: Vec<T>,
}

impl<T: Clone> List<T> {
    /// The results, in order.
    pub fn slice(&self) -> (r: &[T])
        ensures
            r@ == self.results@,
    {
        self.results.as_slice()
    }

    /// A copy of the results, in order.
    pub fn as_vec(&self) -> (r: Vec<T>)
        ensures
            r@.len() == self.results@.len(),
            forall|i: int| 0 <= i < r@.len() ==> cloned::<T>(self.results@[i], #[trigger] r@[i]),
    {
        self.results.clone()
    }
}

impl<T: FromJson> FromJson for List<T> {
    open spec fn json_decodable(v: JsonValue) -> bool {
        seq_decodable::<T>(get(v, "results"@))
    }

    open spec fn json_decodes(v: JsonValue, r: List<T>) -> bool {
        seq_decodes::<T>(get(v, "results"@), r.results@)
    }

    fn from_json(v: &JsonValue) -> (r: Result<List<T>, NuclinoError>) {
        match array_member::<T>(v, "results") {
            Ok(results) => Ok(List { results }),
            Err(e) => Err(e),
        }
    }
}

/// Decoding a list of pages keeps its length and order; each page has the
/// variant that its `object` member names, and the id and title that its members
/// hold, whichever its variant.
pub proof fn lemma_page_list(v: JsonValue, l: List<Page>)
    requires
        List::<Page>::json_decodes(v, l),
    ensures
        get(v, "results"@) matches Some(JsonValue::Array(a)) && l.results@.len() == a@.len()
            && forall|i: int|
            0 <= i < a@.len() ==> {
                &&& ((#[trigger] l.results@[i]) is Item <==> as_text(get(a@[i], "object"@)) == Some(
                    "item"@,
                ))
                &&& (l.results@[i] is Collection <==> as_text(get(a@[i], "object"@)) == Some(
                    "collection"@,
                ))
                &&& as_uuid(get(a@[i], "id"@)) == Some(page_id(l.results@[i])@)
                &&& as_text(get(a@[i], "title"@)) == Some(page_title(l.results@[i]))
            },
{
    reveal_strlit("item");
    reveal_strlit("collection");
    assert("item"@.len() != "collection"@.len());
}

} // verus!
