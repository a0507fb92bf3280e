//! The device client: one LG television, its pairing state, and the three
//! control requests the ROAP protocol knows.
//!
//! Each operation yields a [`ControlRequest`] holding the URL and the XML
//! body to POST, stated character for character.  The caller performs the
//! exchange and reads success off the HTTP status code; the television never
//! answers with a body this protocol generation would have us parse.

use crate::numbers::{dec_seq, u32_to_dec};
use vstd::prelude::*;
use vstd::string::StringExecFns;

verus! {

/// The URL of a control endpoint for a given host, port and path.
pub open spec fn url_of(ip: Seq<char>, port: Seq<char>, path: Seq<char>) -> Seq<char> {
    "http://"@ + ip + ":"@ + port + path
}

/// The body asking the television to display its pairing code.
pub open spec fn auth_key_req_body() -> Seq<char> {
    "\n            <?xml version=\"1.0\" encoding=\"utf-8\"?>\n            <auth>\n                <type>AuthKeyReq</type>\n            </auth>"@
}

/// The body submitting the pairing key `key`.
pub open spec fn auth_req_body(key: nat) -> Seq<char> {
    "\n            <?xml version=\"1.0\" encoding=\"utf-8\"?>\n            <auth>\n                <type>AuthReq</type>\n                <value>"@
        + dec_seq(key)
        + "</value>\n            </auth>\n        "@
}

/// The body sending the key code `code`.
pub open spec fn command_req_body(code: nat) -> Seq<char> {
    "\n            <?xml version=\"1.0\" encoding=\"utf-8\"?>\n            <command>\n                <name>HandleKeyInput</name>\n                <value>"@
        + dec_seq(code)
        + "</value>\n            </command>\n        "@
}

/// One HTTP POST for the caller to perform: the URL and the XML body.
/// Every request carries the content type [`content_type`] returns.
pub struct ControlRequest {
    /// Where to POST.
    pub url: String,
    /// The XML document to send.
    pub body: String,
}

/// The content type every control request is posted with.
pub fn content_type() -> (s: &'static str)
    ensures
        s@ == "application/atom+xml"@,
{
    "application/atom+xml"
}

/// Builds `http://{ip}:{port}{path}`.
fn build_url(ip: &str, port: &str, path: &str) -> (r: String)
    ensures
        r@ == url_of(ip@, port@, path@),
{
    let mut s = String::from_str("http://");
    s.append(ip);
    s.append(":");
    s.append(port);
    s.append(path);
    proof {
        assert(s@ =~= url_of(ip@, port@, path@));
    }
    s
}

/// Represents an LG TV supporting 2012-era network controls.
pub struct LGTV {
    /// The TV's IP address or host name.
    pub ip: String,
    /// The TCP port of the control endpoint; `"8080"` unless the caller
    /// changes it.
    pub port: String,
    /// The pairing key most recently handed to [`LGTV::pair_with_key`].
    pub key: u32,
    /// Whether a pairing request was issued.  Set by [`LGTV::pair_with_key`]
    /// as the request is built, before the outcome of the exchange is known:
    /// it records that pairing was attempted, not that the television
    /// accepted the key.
    pub paired: bool,
}

impl LGTV {
    /// Returns an LG TV instance at a particular IP address: unpaired, with
    /// the default port.
    pub fn new(ip: &str) -> (tv: LGTV)
        ensures
            tv.ip@ == ip@,
            tv.port@ == "8080"@,
            tv.key == 0,
            !tv.paired,
    {
        LGTV { ip: String::from_str(ip), port: String::from_str("8080"), key: 0, paired: false }
    }

    /// The request asking the TV to display its pairing code on screen.
    /// Leaves the television's recorded state untouched.
    pub fn display_pair_key(&mut self) -> (req: ControlRequest)
        ensures
            *final(self) == *old(self),
            req.url@ == url_of(old(self).ip@, old(self).port@, "/roap/api/auth"@),
            req.body@ == auth_key_req_body(),
    {
        let url = build_url(self.ip.as_str(), self.port.as_str(), "/roap/api/auth");
        let body = String::from_str(
            "\n            <?xml version=\"1.0\" encoding=\"utf-8\"?>\n            <auth>\n                <type>AuthKeyReq</type>\n            </auth>",
        );
        ControlRequest { url, body }
    }

    /// The request pairing with the TV under the key `key`.
    ///
    /// Records the key and sets the paired flag as the request is built,
    /// whatever status the exchange later returns: the flag means a pairing
    /// attempt was made, and only the HTTP status says whether it succeeded.
    pub fn pair_with_key(&mut self, key: u32) -> (req: ControlRequest)
        ensures
            final(self).ip == old(self).ip,
            final(self).port == old(self).port,
            final(self).key == key,
            final(self).paired,
            req.url@ == url_of(old(self).ip@, old(self).port@, "/roap/api/auth"@),
            req.body@ == auth_req_body(key as nat),
    {
        self.key = key;
        self.paired = true;
        let mut body = String::from_str(
            "\n            <?xml version=\"1.0\" encoding=\"utf-8\"?>\n            <auth>\n                <type>AuthReq</type>\n                <value>",
        );
        let num = u32_to_dec(key);
        body.append(num.as_str());
        body.append("</value>\n            </auth>\n        ");
        proof {
            assert(body@ =~= auth_req_body(key as nat));
        }
        let url = build_url(self.ip.as_str(), self.port.as_str(), "/roap/api/auth");
        ControlRequest { url, body }
    }

    /// The request sending the key code `cmd_code` to the TV.  Leaves the
    /// television's recorded state untouched; whether the caller paired
    /// first is the caller's own responsibility.
    pub fn send_command(&mut self, cmd_code: u32) -> (req: ControlRequest)
        ensures
            *final(self) == *old(self),
            req.url@ == url_of(old(self).ip@, old(self).port@, "/roap/api/command"@),
            req.body@ == command_req_body(cmd_code as nat),
    {
        let mut body = String::from_str(
            "\n            <?xml version=\"1.0\" encoding=\"utf-8\"?>\n            <command>\n                <name>HandleKeyInput</name>\n                <value>",
        );
        let num = u32_to_dec(cmd_code);
        body.append(num.as_str());
        body.append("</value>\n            </command>\n        ");
        proof {
            assert(body@ =~= command_req_body(cmd_code as nat));
        }
        let url = build_url(self.ip.as_str(), self.port.as_str(), "/roap/api/command");
        ControlRequest { url, body }
    }
}

} // verus!
