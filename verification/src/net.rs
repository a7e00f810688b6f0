//! Port liveness probes: which port and path each probe uses, the HTTP
//! request it sends, and how the answer is read. The socket work is done
//! by the caller.
use vstd::prelude::*;
use vstd::string::*;
use crate::config::{CDP_PORT, CDP_PROBE_PATH, MCP_PORT, MCP_PROBE_PATH};
use crate::text::{append_decimal, decimal, starts_with};

verus! {

/// Most bytes of an answer that are read before it is judged.
pub const MAX_ANSWER_BYTES: usize = 512;

/// One of the two published host ports.
#[derive(Debug, Clone, Copy, PartialEq, Eq, Structural)]
pub enum Port {
    /// The kitewright MCP server.
    Mcp,
    /// The CDP chromium console.
    Cdp,
}

impl Port {
    /// The host port number.
    pub open spec fn spec_number(self) -> u16 {
        match self {
            Port::Mcp => MCP_PORT,
            Port::Cdp => CDP_PORT,
        }
    }

    /// The HTTP path the probe asks for.
    pub open spec fn spec_probe_path(self) -> Seq<char> {
        match self {
            Port::Mcp => MCP_PROBE_PATH@,
            Port::Cdp => CDP_PROBE_PATH@,
        }
    }

    /// The host port number.
    pub fn number(self) -> (n: u16)
        ensures
            n == self.spec_number(),
    {
        match self {
            Port::Mcp => MCP_PORT,
            Port::Cdp => CDP_PORT,
        }
    }

    /// The HTTP path the probe asks for.
    pub fn probe_path(self) -> (p: &'static str)
        ensures
            p@ == self.spec_probe_path(),
    {
        match self {
            Port::Mcp => MCP_PROBE_PATH,
            Port::Cdp => CDP_PROBE_PATH,
        }
    }
}

/// `127.0.0.1:<port>`.
pub open spec fn spec_local_address(port: u16) -> Seq<char> {
    "127.0.0.1:"@ + decimal(port as nat)
}

/// The loopback address of `port`.
pub fn local_address(port: u16) -> (a: String)
    ensures
        a@ == spec_local_address(port),
{
    let mut a = String::from_str("127.0.0.1:");
    append_decimal(&mut a, port as u64);
    a
}

/// The probe request: HTTP/1.1 with `Connection: close` (chromium's DevTools
/// server answers HTTP/1.0 requests with an empty response).
pub open spec fn spec_http_request(path: Seq<char>) -> Seq<char> {
    "GET "@ + path + " HTTP/1.1\r\nHost: 127.0.0.1\r\nConnection: close\r\n\r\n"@
}

/// The probe request for `path`.
pub fn http_request(path: &str) -> (r: String)
    ensures
        r@ == spec_http_request(path@),
{
    let mut r = String::from_str("GET ");
    r.append(path);
    r.append(" HTTP/1.1\r\nHost: 127.0.0.1\r\nConnection: close\r\n\r\n");
    r
}

/// `buf` holds the blank line (`\r\n\r\n`) that ends the headers.
pub open spec fn has_header_end(buf: Seq<u8>) -> bool {
    exists|i: int|
        0 <= i && i + 4 <= buf.len() && #[trigger] buf[i] == 13 && buf[i + 1] == 10 && buf[i + 2]
            == 13 && buf[i + 3] == 10
}

/// Whether `buf` holds the blank line that ends the headers.
pub fn found_header_end(buf: &[u8]) -> (b: bool)
    ensures
        b == has_header_end(buf@),
{
    let n = buf.len();
    if n < 4 {
        return false;
    }
    let mut i: usize = 0;
    while i <= n - 4
        invariant
            n == buf@.len(),
            4 <= n,
            i <= n - 3,
            forall|k: int|
                0 <= k < i ==> !(#[trigger] buf@[k] == 13 && buf@[k + 1] == 10 && buf@[k + 2] == 13
                    && buf@[k + 3] == 10),
        decreases n - i,
    {
        if buf[i] == 13 && buf[i + 1] == 10 && buf[i + 2] == 13 && buf[i + 3] == 10 {
            return true;
        }
        i = i + 1;
    }
    false
}

/// The bytes `HTTP/`.
pub open spec fn http_magic() -> Seq<u8> {
    seq![72u8, 84u8, 84u8, 80u8, 47u8]
}

/// Reads the answer of a probed port: bytes come in until the headers end,
/// the peer stops, or 512 bytes are in; any answer that starts with `HTTP/`
/// proves the service (or its proxy) alive, whatever its status code.
pub struct HeaderSniffer {
    got: Vec<u8>,
}

impl HeaderSniffer {
    /// The bytes read so far.
    pub closed spec fn spec_got(&self) -> Seq<u8> {
        self.got@
    }

    /// Nothing read yet.
    pub fn new() -> (s: HeaderSniffer)
        ensures
            s.spec_got() == Seq::<u8>::empty(),
    {
        HeaderSniffer { got: Vec::new() }
    }

    /// Whether another read is worth doing: fewer than 512 bytes are in and
    /// the headers have not ended.
    pub fn wants_more(&self) -> (b: bool)
        ensures
            b == (self.spec_got().len() < MAX_ANSWER_BYTES && !has_header_end(self.spec_got())),
    {
        self.got.len() < MAX_ANSWER_BYTES && !found_header_end(self.got.as_slice())
    }

    /// Takes in the bytes of one read.
    pub fn feed(&mut self, chunk: &[u8])
        ensures
            final(self).spec_got() == old(self).spec_got() + chunk@,
    {
        let mut i: usize = 0;
        let ghost start = self.got@;
        while i < chunk.len()
            invariant
                i <= chunk.len(),
                self.got@ == start + chunk@.subrange(0, i as int),
            decreases chunk.len() - i,
        {
            self.got.push(chunk[i]);
            i = i + 1;
            assert(self.got@ =~= start + chunk@.subrange(0, i as int));
        }
        assert(chunk@.subrange(0, chunk@.len() as int) =~= chunk@);
    }

    /// Whether the answer read so far starts with `HTTP/`.
    pub fn answered(&self) -> (b: bool)
        ensures
            b == starts_with(self.spec_got(), http_magic()),
    {
        let g = &self.got;
        if g.len() < 5 {
            return false;
        }
        let r = g[0] == 72 && g[1] == 84 && g[2] == 84 && g[3] == 80 && g[4] == 47;
        assert(r == (g@.subrange(0, 5) =~= http_magic()));
        r
    }
}

} // verus!
