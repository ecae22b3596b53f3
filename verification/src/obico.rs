//! The failure-detection service: where it is asked, and what it answers.

use crate::scalar::Scalar;
use vstd::prelude::*;
use vstd::string::*;

verus! {

/// One suspected failure in a frame.
#[derive(Debug)]
pub struct Detection {
    pub label: String,
    pub confidence: Scalar,
    pub bbox: [Scalar; 4],
}

/// What the service answers about a frame.
#[derive(Debug)]
pub struct DetectionResponse {
    pub detections: Vec<Detection>,
    pub message: Option<String>,
}

/// Why there are no detections.
#[derive(Debug)]
pub enum ObicoError {
    /// The request failed; the text says how.
    Http(String),
    /// The service answered with a message instead of detections.
    Api(String),
}

impl ObicoError {
    /// What the error says.
    pub fn message(&self) -> (r: &str)
        ensures
            r@ == match *self {
                ObicoError::Http(text) => text@,
                ObicoError::Api(text) => text@,
            },
    {
        match self {
            ObicoError::Http(text) => text.as_str(),
            ObicoError::Api(text) => text.as_str(),
        }
    }
}

/// The failure-detection service.
#[derive(Debug)]
pub struct Obico {
    pub detect_url: String,
}

/// The address that asks the service at `api_url` about the image that `image_host` serves.
pub open spec fn detect_url_of(api_url: Seq<char>, image_host: Seq<char>) -> Seq<char> {
    api_url + "/p/?img=http://"@ + image_host + "/snapshot.jpg"@
}

impl Obico {
    /// The service at `api_url`, which fetches the image from `image_host`.
    pub fn new(api_url: &str, image_host: &str) -> (r: Obico)
        ensures
            r.detect_url@ == detect_url_of(api_url@, image_host@),
    {
        let detect_url = api_url.to_owned().concat("/p/?img=http://").concat(image_host).concat(
            "/snapshot.jpg",
        );
        Obico { detect_url }
    }

    /// What an answer comes to: its detections, unless it carries a message, which then is the
    /// error. A request that failed stays an error.
    pub fn detect(
        &self,
        answer: Result<DetectionResponse, String>,
    ) -> (r: Result<DetectionResponse, ObicoError>)
        ensures
            match answer {
                Ok(resp) => match resp.message {
                    Some(msg) => r matches Err(ObicoError::Api(text)) && text@ == msg@,
                    None => r == Ok::<DetectionResponse, ObicoError>(resp),
                },
                Err(e) => r == Err::<DetectionResponse, ObicoError>(ObicoError::Http(e)),
            },
    {
        match answer {
            Ok(resp) => match &resp.message {
                Some(msg) => Err(ObicoError::Api(msg.clone())),
                None => Ok(resp),
            },
            Err(e) => Err(ObicoError::Http(e)),
        }
    }
}

/// The service is asked at its own address, about the image that the given host serves.
pub proof fn law_service_is_told_where_the_image_is(api_url: Seq<char>, image_host: Seq<char>)
    ensures
        detect_url_of(api_url, image_host) == api_url + "/p/?img=http://"@ + image_host
            + "/snapshot.jpg"@,
        api_url.is_prefix_of(detect_url_of(api_url, image_host)),
{
    assert(detect_url_of(api_url, image_host).subrange(0, api_url.len() as int) =~= api_url);
}

} // verus!
