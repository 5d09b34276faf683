//! The email transport client's verified half: constructing the single
//! send request (URL, JSON body bytes) and classifying the outcome of
//! the one network attempt.
//!
//! The network call itself is an unverified edge concern; it receives
//! the finished request bytes and reports back a [`TransportEvent`].
use vstd::prelude::*;
use vstd::string::StringExecFns;
use vstd::string::StringSliceAdditionalSpecFns;
use vstd::utf8::encode_utf8;

use crate::credentials::SecretString;

verus! {

/// One transactional-email sender: the provider's base URL, the
/// process-configured sender address, the credential pair for HTTP
/// basic authentication, and the fixed per-call timeout.
pub struct EmailClient {
    base_url: String,
    sender: String,
    api_token: SecretString,
    secret_token: SecretString,
    timeout_ms: u64,
}

/// A finished send request: where to POST and the JSON body bytes.
/// The credentials are deliberately not part of it; they travel only
/// in the basic-authentication header, never in the body.
pub struct SendEmailRequest {
    pub url: String,
    pub body: Vec<u8>,
}

/// What the single network attempt reported back.
#[derive(Clone, Copy, PartialEq, Eq, Structural, Debug)]
pub enum TransportEvent {
    /// The provider answered with this HTTP status.
    Response(u16),
    /// The fixed client-wide timeout elapsed first.
    TimedOut,
    /// The connection itself failed.
    ConnectionFailed,
}

/// Why a send failed. Exactly one network attempt is made per call;
/// none of these is retried by the client.
#[derive(Clone, Copy, PartialEq, Eq, Structural, Debug)]
pub enum DeliveryError {
    /// The configured timeout elapsed; the provider may or may not have
    /// accepted the message.
    Timeout,
    /// The provider answered with a non-2xx status.
    ProviderRejected(u16),
    /// A connection-level failure before any response.
    TransportFailure,
}

/// The byte of one lowercase hexadecimal digit.
pub open spec fn hex_digit_byte(d: int) -> u8 {
    if d < 10 {
        (0x30 + d) as u8
    } else {
        (0x57 + d) as u8
    }
}

/// How one byte of a string appears inside a JSON string literal:
/// quote and backslash are escaped, control bytes become `\u00..`,
/// everything else (including UTF-8 continuation bytes) passes through.
pub open spec fn escaped_byte(b: u8) -> Seq<u8> {
    if b == 0x22 {
        seq![0x5cu8, 0x22u8]
    } else if b == 0x5c {
        seq![0x5cu8, 0x5cu8]
    } else if b < 0x20 {
        seq![0x5cu8, 0x75u8, 0x30u8, 0x30u8, hex_digit_byte(b as int / 16), hex_digit_byte(b as int % 16)]
    } else {
        seq![b]
    }
}

/// A whole byte string escaped for use inside a JSON string literal.
pub open spec fn json_escaped(s: Seq<u8>) -> Seq<u8>
    decreases s.len(),
{
    if s.len() == 0 {
        Seq::empty()
    } else {
        json_escaped(s.drop_last()) + escaped_byte(s.last())
    }
}

/// The request body: one message, one `From`, one `To`, a subject and
/// both an HTML and a plain-text rendering, in the provider's shape.
pub open spec fn send_body_view(
    sender: Seq<char>,
    recipient: Seq<char>,
    subject: Seq<char>,
    html_content: Seq<char>,
    text_content: Seq<char>,
) -> Seq<u8> {
    ("{\"Messages\":[{\"From\":{\"Email\":\"").spec_bytes() + json_escaped(encode_utf8(sender))
        + ("\",\"Name\":null},\"To\":[{\"Email\":\"").spec_bytes() + json_escaped(
        encode_utf8(recipient),
    ) + ("\",\"Name\":null}],\"Subject\":\"").spec_bytes() + json_escaped(encode_utf8(subject))
        + ("\",\"HTMLPart\":\"").spec_bytes() + json_escaped(encode_utf8(html_content))
        + ("\",\"TextPart\":\"").spec_bytes() + json_escaped(encode_utf8(text_content))
        + ("\"}]}").spec_bytes()
}

/// A 2xx status is success; anything else the provider rejected.
pub open spec fn is_success_status(status: u16) -> bool {
    200 <= status < 300
}

/// The result owed for each possible transport event.
pub open spec fn send_outcome_of(event: TransportEvent) -> Result<(), DeliveryError> {
    match event {
        TransportEvent::Response(status) => if is_success_status(status) {
            Ok(())
        } else {
            Err(DeliveryError::ProviderRejected(status))
        },
        TransportEvent::TimedOut => Err(DeliveryError::Timeout),
        TransportEvent::ConnectionFailed => Err(DeliveryError::TransportFailure),
    }
}

/// Classifies the single network attempt: a 2xx response succeeds, a
/// non-2xx response is a provider rejection, a timeout and a connection
/// failure map to their own errors. Exactly this, if and only if.
pub fn interpret_send_outcome(event: TransportEvent) -> (r: Result<(), DeliveryError>)
    ensures
        r == send_outcome_of(event),
{
    match event {
        TransportEvent::Response(status) => {
            if 200 <= status && status < 300 {
                Ok(())
            } else {
                Err(DeliveryError::ProviderRejected(status))
            }
        },
        TransportEvent::TimedOut => Err(DeliveryError::Timeout),
        TransportEvent::ConnectionFailed => Err(DeliveryError::TransportFailure),
    }
}

fn hex_digit(d: u8) -> (r: u8)
    requires
        d < 16,
    ensures
        r == hex_digit_byte(d as int),
{
    if d < 10 {
        0x30 + d
    } else {
        0x57 + d
    }
}

proof fn lemma_json_escaped_snoc(s: Seq<u8>, b: u8)
    ensures
        json_escaped(s.push(b)) == json_escaped(s) + escaped_byte(b),
{
    assert(s.push(b).drop_last() =~= s);
    assert(s.push(b).last() == b);
}

fn append_bytes(out: &mut Vec<u8>, s: &[u8])
    ensures
        final(out)@ == old(out)@ + s@,
{
    let mut i: usize = 0;
    while i < s.len()
        invariant
            i <= s@.len(),
            out@ == old(out)@ + s@.subrange(0, i as int),
        decreases s@.len() - i,
    {
        out.push(s[i]);
        proof {
            assert(s@.subrange(0, i + 1 as int) =~= s@.subrange(0, i as int).push(s@[i as int]));
        }
        i = i + 1;
    }
    proof {
        assert(s@.subrange(0, s@.len() as int) =~= s@);
    }
}

fn append_json_escaped(out: &mut Vec<u8>, s: &[u8])
    ensures
        final(out)@ == old(out)@ + json_escaped(s@),
{
    let mut i: usize = 0;
    while i < s.len()
        invariant
            i <= s@.len(),
            out@ == old(out)@ + json_escaped(s@.subrange(0, i as int)),
        decreases s@.len() - i,
    {
        let b = s[i];
        if b == 0x22 {
            out.push(0x5c);
            out.push(0x22);
        } else if b == 0x5c {
            out.push(0x5c);
            out.push(0x5c);
        } else if b < 0x20 {
            out.push(0x5c);
            out.push(0x75);
            out.push(0x30);
            out.push(0x30);
            out.push(hex_digit(b / 16));
            out.push(hex_digit(b % 16));
        } else {
            out.push(b);
        }
        proof {
            assert(s@.subrange(0, i + 1 as int) =~= s@.subrange(0, i as int).push(b));
            lemma_json_escaped_snoc(s@.subrange(0, i as int), b);
            assert(out@ =~= old(out)@ + json_escaped(s@.subrange(0, i + 1 as int)));
        }
        i = i + 1;
    }
    proof {
        assert(s@.subrange(0, s@.len() as int) =~= s@);
    }
}

impl EmailClient {
    /// The provider's base URL, as configured.
    pub closed spec fn spec_base_url(&self) -> Seq<char> {
        self.base_url@
    }

    /// The process-configured sender address.
    pub closed spec fn spec_sender(&self) -> Seq<char> {
        self.sender@
    }

    /// The API key, sent as the basic-authentication username.
    pub closed spec fn spec_api_token(&self) -> Seq<char> {
        self.api_token@
    }

    /// The API secret, sent as the basic-authentication password.
    pub closed spec fn spec_secret_token(&self) -> Seq<char> {
        self.secret_token@
    }

    /// The fixed client-wide timeout, covering connection and response.
    pub closed spec fn spec_timeout_ms(&self) -> u64 {
        self.timeout_ms
    }

    /// Builds a client from its configuration.
    pub fn new(
        base_url: String,
        sender: String,
        api_token: SecretString,
        secret_token: SecretString,
        timeout_ms: u64,
    ) -> (r: EmailClient)
        ensures
            r.spec_base_url() == base_url@,
            r.spec_sender() == sender@,
            r.spec_api_token() == api_token@,
            r.spec_secret_token() == secret_token@,
            r.spec_timeout_ms() == timeout_ms,
    {
        EmailClient { base_url, sender, api_token, secret_token, timeout_ms }
    }

    /// The API key, for the basic-authentication header only.
    pub fn api_token(&self) -> (r: &SecretString)
        ensures
            r@ == self.spec_api_token(),
    {
        &self.api_token
    }

    /// The API secret, for the basic-authentication header only.
    pub fn secret_token(&self) -> (r: &SecretString)
        ensures
            r@ == self.spec_secret_token(),
    {
        &self.secret_token
    }

    /// The fixed per-call timeout in milliseconds.
    pub fn timeout_ms(&self) -> (r: u64)
        ensures
            r == self.spec_timeout_ms(),
    {
        self.timeout_ms
    }

    /// Builds the one send request for one message: a POST target of
    /// `<base_url>/send` and a JSON body carrying exactly one message
    /// with one `From` (the configured sender), one `To` (the
    /// recipient), the subject and both content renderings. The
    /// credentials are not an input: the body is a function of the
    /// five addresses and contents alone.
    pub fn build_send_request(
        &self,
        recipient: &str,
        subject: &str,
        html_content: &str,
        text_content: &str,
    ) -> (r: SendEmailRequest)
        ensures
            r.url@ == self.spec_base_url() + "/send"@,
            r.body@ == send_body_view(
                self.spec_sender(),
                recipient@,
                subject@,
                html_content@,
                text_content@,
            ),
    {
        let url = self.base_url.clone().concat("/send");
        let mut body: Vec<u8> = Vec::new();
        append_bytes(&mut body, "{\"Messages\":[{\"From\":{\"Email\":\"".as_bytes());
        append_json_escaped(&mut body, self.sender.as_str().as_bytes());
        append_bytes(&mut body, "\",\"Name\":null},\"To\":[{\"Email\":\"".as_bytes());
        append_json_escaped(&mut body, recipient.as_bytes());
        append_bytes(&mut body, "\",\"Name\":null}],\"Subject\":\"".as_bytes());
        append_json_escaped(&mut body, subject.as_bytes());
        append_bytes(&mut body, "\",\"HTMLPart\":\"".as_bytes());
        append_json_escaped(&mut body, html_content.as_bytes());
        append_bytes(&mut body, "\",\"TextPart\":\"".as_bytes());
        append_json_escaped(&mut body, text_content.as_bytes());
        append_bytes(&mut body, "\"}]}".as_bytes());
        proof {
            assert(body@ =~= send_body_view(
                self.spec_sender(),
                recipient@,
                subject@,
                html_content@,
                text_content@,
            ));
        }
        SendEmailRequest { url, body }
    }
}

} // verus!
