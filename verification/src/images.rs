//! The random animal pictures of `/cat` and `/dog`: which address the bot
//! sends, given what the picture services answered.
use vstd::prelude::*;
use vstd::string::StringExecFns;
use crate::ext_url::{parse_url, url_parsed};

verus! {

/// The animal that a picture service shows.
#[derive(Debug, Clone, Copy, PartialEq, Eq, Structural)]
pub enum Animal {
    Cat,
    Dog,
}

/// Why the answer of a picture service gives no picture to send.
#[derive(Debug, Clone, Copy, PartialEq, Eq, Structural)]
pub enum ImageUrlError {
    /// The service answered with no picture at all.
    Empty,
    /// The address of the picture is not a URL.
    Malformed,
}

/// The message shown for an error about a picture of `animal`.
pub open spec fn image_error_text(e: ImageUrlError, animal: Animal) -> Seq<char> {
    match (e, animal) {
        (ImageUrlError::Empty, Animal::Cat) => "Il gatto ricevuto in risposta dall'API non esiste, quindi non è stato possibile riceverlo."@,
        (ImageUrlError::Empty, Animal::Dog) => "Il cane ricevuto in risposta dall'API non esiste, quindi non è stato possibile riceverlo."@,
        (ImageUrlError::Malformed, Animal::Cat) => "L'URL del gatto ricevuto in risposta dall'API è malformato, quindi non è stato possibile riceverlo."@,
        (ImageUrlError::Malformed, Animal::Dog) => "L'URL del cane ricevuto in risposta dall'API è malformato, quindi non è stato possibile riceverlo."@,
    }
}

impl ImageUrlError {
    /// The message shown for the error, about a picture of `animal`.
    pub fn message(&self, animal: Animal) -> (r: &'static str)
        ensures
            r@ == image_error_text(*self, animal),
    {
        match (self, animal) {
            (ImageUrlError::Empty, Animal::Cat) => "Il gatto ricevuto in risposta dall'API non esiste, quindi non è stato possibile riceverlo.",
            (ImageUrlError::Empty, Animal::Dog) => "Il cane ricevuto in risposta dall'API non esiste, quindi non è stato possibile riceverlo.",
            (ImageUrlError::Malformed, Animal::Cat) => "L'URL del gatto ricevuto in risposta dall'API è malformato, quindi non è stato possibile riceverlo.",
            (ImageUrlError::Malformed, Animal::Dog) => "L'URL del cane ricevuto in risposta dall'API è malformato, quindi non è stato possibile riceverlo.",
        }
    }
}

/// The address of a picture, as the URL that the text names.
pub fn image_url(text: &str) -> (r: Result<String, ImageUrlError>)
    ensures
        url_parsed(text@) is None ==> r == Err::<String, ImageUrlError>(ImageUrlError::Malformed),
        url_parsed(text@) matches Some(u) ==> r matches Ok(t) && t@ == u,
{
    match parse_url(text) {
        Some(url) => Ok(url),
        None => Err(ImageUrlError::Malformed),
    }
}

/// The address of the last picture of a list (the one that `/cat` sends), or
/// [`ImageUrlError::Empty`] for an empty list.
pub fn last_image_url(texts: Vec<String>) -> (r: Result<String, ImageUrlError>)
    ensures
        texts@.len() == 0 ==> r == Err::<String, ImageUrlError>(ImageUrlError::Empty),
        texts@.len() > 0 && url_parsed(texts@.last()@) is None ==> r == Err::<String, ImageUrlError>(
            ImageUrlError::Malformed,
        ),
        texts@.len() > 0 ==> (url_parsed(texts@.last()@) matches Some(u) ==> r matches Ok(t) && t@ == u),
{
    let mut texts = texts;
    match texts.pop() {
        None => Err(ImageUrlError::Empty),
        Some(last) => image_url(last.as_str()),
    }
}

} // verus!
