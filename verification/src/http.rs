//! The fixed confirmation response served to the redirecting browser, and
//! the loopback addresses derived from the chosen port.

use vstd::prelude::*;
use vstd::string::*;
use crate::digits::dec_rep;
use crate::digits::u64_to_dec;

verus! {

/// The confirmation page: tells the user the redirect arrived and asks the
/// browser to close the window.
pub open spec fn confirmation_page_view() -> Seq<char> {
    "<html><body><h1>Authenticated!</h1><p>You can close this window now.</p><script>window.close()</script></body></html>"@
}

/// The confirmation page as a string slice.
pub fn confirmation_page() -> (r: &'static str)
    ensures
        r@ == confirmation_page_view(),
{
    "<html><body><h1>Authenticated!</h1><p>You can close this window now.</p><script>window.close()</script></body></html>"
}

/// A complete HTTP/1.1 200 response carrying `body`, with the given
/// `Content-Length` value and a `Connection: close` header.
pub open spec fn http_response_view(body: Seq<char>, content_length: nat) -> Seq<char> {
    "HTTP/1.1 200 OK\r\nContent-Type: text/html\r\nContent-Length: "@ + dec_rep(content_length)
        + "\r\nConnection: close\r\n\r\n"@ + body
}

/// The response sent for the single accepted connection: the confirmation
/// page with a `Content-Length` equal to its byte length.
pub open spec fn confirmation_response_view() -> Seq<char> {
    http_response_view(
        confirmation_page_view(),
        ("<html><body><h1>Authenticated!</h1><p>You can close this window now.</p><script>window.close()</script></body></html>").len() as nat,
    )
}

/// Builds the 200 response for `body`; `Content-Length` is exactly the
/// body's byte length.
pub fn http_ok_response(body: &str) -> (r: String)
    ensures
        r@ == http_response_view(body@, body.len() as nat),
{
    let n = body.len();
    let mut r = String::from_str(
        "HTTP/1.1 200 OK\r\nContent-Type: text/html\r\nContent-Length: ",
    );
    let num = u64_to_dec(n as u64);
    r.append(num.as_str());
    r.append("\r\nConnection: close\r\n\r\n");
    r.append(body);
    proof {
        assert(r@ =~= http_response_view(body@, body.len() as nat));
    }
    r
}

/// The loopback address a listener for `port` binds to.
pub fn bind_address(port: u16) -> (r: String)
    ensures
        r@ == "127.0.0.1:"@ + dec_rep(port as nat),
{
    let mut r = String::from_str("127.0.0.1:");
    let num = u64_to_dec(port as u64);
    r.append(num.as_str());
    proof {
        assert(r@ =~= "127.0.0.1:"@ + dec_rep(port as nat));
    }
    r
}

/// The canonical callback URL for a listener bound to `port`.
pub fn callback_url(port: u16) -> (r: String)
    ensures
        r@ == "http://127.0.0.1:"@ + dec_rep(port as nat) + "/callback"@,
{
    let mut r = String::from_str("http://127.0.0.1:");
    let num = u64_to_dec(port as u64);
    r.append(num.as_str());
    r.append("/callback");
    proof {
        assert(r@ =~= "http://127.0.0.1:"@ + dec_rep(port as nat) + "/callback"@);
    }
    r
}

} // verus!
