//! The errors that the repositories and services answer with.
use vstd::prelude::*;

verus! {

/// An error of a repository or service: a message and the HTTP status code
/// that the caller answers with.
#[derive(Debug)]
pub struct RepositoryError {
    pub message: String,
    pub code: u16,
}

impl View for RepositoryError {
    type V = (Seq<char>, u16);

    open spec fn view(&self) -> (Seq<char>, u16) {
        (self.message@, self.code)
    }
}

impl RepositoryError {
    /// An error with the given message and code.
    pub fn new(message: String, code: u16) -> (res: Self)
        ensures
            res.message == message,
            res.code == code,
    {
        RepositoryError { message, code }
    }
}

/// The result type of the repositories and services.
pub type RepositoryResult<T> = Result<T, RepositoryError>;

/// A result without a value, taken by views.
pub open spec fn unit_view(r: RepositoryResult<()>) -> Result<(), (Seq<char>, u16)> {
    match r {
        Ok(()) => Ok(()),
        Err(e) => Err(e@),
    }
}

/// An error answered with `message` and `code`.
pub fn repo_error(message: &str, code: u16) -> (res: RepositoryError)
    ensures
        res@ == (message@, code),
{
    RepositoryError { message: message.to_owned(), code }
}

/// Errors of the queue producer.
#[derive(Debug)]
pub enum ProducerError {
    /// The broker refused or failed a send; the text is the broker's error.
    Kafka(String),
    /// No topic was set before a send.
    MissingTopic,
}

/// Errors of the full-text search index.
#[derive(Debug)]
pub enum FulltextSearchError {
    /// The search client failed; the text is the client's error.
    ElasticError(String),
    /// Indexing answered with a status other than success.
    IndexingFailed(String),
}

/// Errors of a queue operation taken from a message.
#[derive(Debug)]
pub enum QueueOperationError {
    /// The message was not the JSON of a queue operation.
    JsonError(String),
    /// Indexing the user failed.
    FulltextSearchError(FulltextSearchError),
    /// A `create` operation came without its user.
    MissingUser,
    /// An operation that no handler knows.
    UnknownOperation(String),
}

/// The answer to a text that is not valid base64.
pub open spec fn base64_failure() -> (Seq<char>, u16) {
    ("invalid base64 input"@, 400)
}

/// The answer to a failed encryption or decryption.
pub open spec fn cipher_failure() -> (Seq<char>, u16) {
    ("cipher operation failed"@, 500)
}

/// Maps a base64 decoding error.
pub fn base64_error() -> (res: RepositoryError)
    ensures
        res@ == base64_failure(),
{
    repo_error("invalid base64 input", 400)
}

/// Maps a cipher error.
pub fn cipher_error() -> (res: RepositoryError)
    ensures
        res@ == cipher_failure(),
{
    repo_error("cipher operation failed", 500)
}

/// A result holding a text, taken by views.
pub open spec fn text_result_view(r: RepositoryResult<String>) -> Result<Seq<char>, (Seq<char>, u16)> {
    match r {
        Ok(s) => Ok(s@),
        Err(e) => Err(e@),
    }
}

/// The answer to a failure of the password hasher, or to a stored hash it
/// cannot read.
pub open spec fn hashing_failure() -> (Seq<char>, u16) {
    ("password hashing failed"@, 500)
}

/// Maps a password hashing error.
pub fn hashing_error() -> (res: RepositoryError)
    ensures
        res@ == hashing_failure(),
{
    repo_error("password hashing failed", 500)
}

} // verus!
