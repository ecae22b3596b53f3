//! The image that the detection service fetches.

use crate::text;
use vstd::prelude::*;
use vstd::string::*;

verus! {

/// Holds the latest image, and answers requests for it.
#[derive(Debug)]
pub struct ImageServer {
    image_data: Option<Vec<u8>>,
}

/// The answer to a request for the image.
#[derive(Debug)]
pub struct ImageResponse {
    /// The HTTP status.
    pub status: u16,
    /// The `Content-Type` and the body, where there is one.
    pub content: Option<(&'static str, Vec<u8>)>,
}

/// The address to listen at for requests to `image_host`: its port, on every interface.
pub open spec fn listen_address(image_host: Seq<char>) -> Seq<char> {
    "0.0.0.0:"@ + text::after_last_of(image_host, ':')
}

impl ImageServer {
    /// The image that is served, if any.
    pub closed spec fn image(self) -> Option<Seq<u8>> {
        match self.image_data {
            Some(data) => Some(data@),
            None => None,
        }
    }

    /// A server without an image.
    pub fn new() -> (r: ImageServer)
        ensures
            r.image() is None,
    {
        ImageServer { image_data: None }
    }

    /// The address to listen at, where `image_host` is written `host:port`.
    pub fn bind_address(image_host: &str) -> (r: String)
        requires
            image_host@.contains(':'),
        ensures
            r@ == listen_address(image_host@),
    {
        "0.0.0.0:".to_owned().concat(text::after_last(image_host, ':'))
    }

    /// Makes `data` the image that is served.
    pub fn set_image(&mut self, data: Vec<u8>)
        ensures
            final(self).image() == Some(data@),
    {
        self.image_data = Some(data);
    }

    /// The answer to a request for the image: the image, or that there is none yet.
    pub fn serve_image(&self) -> (r: ImageResponse)
        ensures
            match self.image() {
                Some(image) => r.status == 200 && (r.content matches Some((kind, body)) && kind@
                    == "image/jpeg"@ && body@ == image),
                None => r.status == 503 && r.content is None,
            },
    {
        match &self.image_data {
            Some(data) => {
                let body: Vec<u8> = data.clone();
                proof {
                    assert(body@ =~= data@);
                }
                ImageResponse { status: 200, content: Some(("image/jpeg", body)) }
            },
            None => ImageResponse { status: 503, content: None },
        }
    }
}

/// The port of an address written `host:port` is what stands behind the last colon, whatever
/// colons the host has in it.
pub proof fn law_port_is_kept(host: Seq<char>, port: Seq<char>)
    requires
        !port.contains(':'),
    ensures
        listen_address(host + seq![':'] + port) == "0.0.0.0:"@ + port,
{
    lemma_after_last(host, port);
}

/// What stands behind the last colon.
proof fn lemma_after_last(host: Seq<char>, port: Seq<char>)
    requires
        !port.contains(':'),
    ensures
        text::after_last_of(host + seq![':'] + port, ':') == port,
    decreases port.len(),
{
    let s = host + seq![':'] + port;
    if port.len() == 0 {
        assert(s.last() == ':');
        assert(port =~= Seq::<char>::empty());
    } else {
        let rest = port.drop_last();
        assert(s.last() == port.last());
        assert(port.contains(port.last()));
        assert(s.drop_last() =~= host + seq![':'] + rest);
        assert forall|c: char| rest.contains(c) implies port.contains(c) by {
            let i = choose|i: int| 0 <= i < rest.len() && rest[i] == c;
            assert(port[i] == c);
        }
        lemma_after_last(host, rest);
        assert(rest.push(port.last()) =~= port);
    }
}

} // verus!
