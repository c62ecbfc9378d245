//! A typed client for the Datamuse word-lookup API.
//!
//! The library builds the query of a request from chained calls, checks that each
//! parameter is legal for the chosen endpoint and vocabulary, and turns the records
//! of a response into word elements with their decoded metadata.
use reqwest::Error as HttpError;
use serde_json::Error as JsonError;
use vstd::prelude::*;
use vstd::string::StringExecFns;

pub mod request;
pub mod response;
pub mod text;

pub use request::{
    BuilderModel, EndPoint, MetaDataFlag, ParamModel, Parameter, PronunciationFormat, Rejection,
    RelatedType, RelatedTypeHolder, Request, RequestBuilder, RequestModel, Vocabulary,
};
pub use response::{
    decode_word_object, word_obj_to_word_elem, DatamuseWordObject, Definition, PartOfSpeech,
    Response, WordElement,
};

verus! {

/// `reqwest::Error`, the error of the HTTP client, carried as an opaque value.
#[verifier::external_type_specification]
#[verifier::external_body]
pub struct ExHttpError(HttpError);

/// `serde_json::Error`, the error of the JSON decoder, carried as an opaque value.
#[verifier::external_type_specification]
#[verifier::external_body]
pub struct ExJsonError(JsonError);

/// The errors of the library.
#[derive(Debug)]
pub enum Error {
    /// The HTTP client failed to build or send a request, or to read its body.
    ReqwestError(HttpError),
    /// The body of a response is not the expected JSON.
    SerdeError(JsonError),
    /// A parameter that the vocabulary does not support: (vocabulary, parameter).
    VocabularyError((String, String)),
    /// A parameter that the endpoint does not support: (endpoint, parameter).
    EndPointError((String, String)),
}

impl Error {
    /// The refusal of a parameter that this error reports, if it reports one.
    pub open spec fn rejection(&self) -> Option<Rejection> {
        match self {
            Error::VocabularyError((vocabulary, parameter)) => Some(
                Rejection::Vocabulary(vocabulary@, parameter@),
            ),
            Error::EndPointError((endpoint, parameter)) => Some(
                Rejection::EndPoint(endpoint@, parameter@),
            ),
            _ => None,
        }
    }

    /// A sentence that describes the error; an error of the HTTP client or of
    /// the JSON decoder is described as that error describes itself.
    pub fn message(&self) -> (r: String)
        ensures
            self matches Error::VocabularyError((vocabulary, parameter)) ==> r@
                == "Error: The parameter "@ + parameter@ + " is not yet supported for "@
                + vocabulary@,
            self matches Error::EndPointError((endpoint, parameter)) ==> r@
                == "Error: The parameter "@ + parameter@ + " is not supported for "@ + endpoint@,
    {
        match self {
            Error::ReqwestError(e) => e.to_string(),
            Error::SerdeError(e) => e.to_string(),
            Error::VocabularyError((vocabulary, parameter)) => String::from_str(
                "Error: The parameter ",
            ).concat(parameter.as_str()).concat(" is not yet supported for ").concat(
                vocabulary.as_str(),
            ),
            Error::EndPointError((endpoint, parameter)) => String::from_str(
                "Error: The parameter ",
            ).concat(parameter.as_str()).concat(" is not supported for ").concat(
                endpoint.as_str(),
            ),
        }
    }
}

/// A result with the library's error.
pub type Result<T> = core::result::Result<T, Error>;

} // verus!
