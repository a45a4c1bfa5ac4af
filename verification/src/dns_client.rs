use vstd::prelude::*;

use crate::addr::{IpAddress, SocketAddress, Interface, bind_address, bind_address_of, duplicate_iface};
use crate::error::Error;
use crate::text::{str_equal, decimal, decimal_text};

verus! {

broadcast use vstd::string::group_string_axioms;

/// The protocol spoken with an upstream DNS server.
#[derive(Clone, Copy, Debug, PartialEq, Eq, Structural)]
pub enum DNSNetMode {
    UDP,
    TCP,
    DoT,
    DoH,
    DHCP,
}

/// The textual name of a mode, as it is displayed and parsed.
pub open spec fn mode_name(m: DNSNetMode) -> Seq<char> {
    match m {
        DNSNetMode::UDP => "UDP"@,
        DNSNetMode::TCP => "TCP"@,
        DNSNetMode::DoT => "DoT"@,
        DNSNetMode::DoH => "DoH"@,
        DNSNetMode::DHCP => "DHCP"@,
    }
}

/// The mode a text names, if it names one: the exact, case-sensitive name.
pub open spec fn parse_mode(s: Seq<char>) -> Option<DNSNetMode> {
    if s == "UDP"@ {
        Some(DNSNetMode::UDP)
    } else if s == "TCP"@ {
        Some(DNSNetMode::TCP)
    } else if s == "DoH"@ {
        Some(DNSNetMode::DoH)
    } else if s == "DoT"@ {
        Some(DNSNetMode::DoT)
    } else if s == "DHCP"@ {
        Some(DNSNetMode::DHCP)
    } else {
        None
    }
}

/// The message of the error returned for a text that names no mode.
pub open spec fn unsupported_protocol_text() -> Seq<char> {
    "unsupported protocol"@
}

impl DNSNetMode {
    /// The name of the mode: "UDP", "TCP", "DoT", "DoH" or "DHCP".
    pub fn to_string(&self) -> (s: String)
        ensures
            s@ == mode_name(*self),
    {
        match self {
            DNSNetMode::UDP => String::from_str("UDP"),
            DNSNetMode::TCP => String::from_str("TCP"),
            DNSNetMode::DoT => String::from_str("DoT"),
            DNSNetMode::DoH => String::from_str("DoH"),
            DNSNetMode::DHCP => String::from_str("DHCP"),
        }
    }

    /// Parses a mode from its exact name; any other text is refused with a
    /// DNS error "unsupported protocol".
    pub fn from_str(s: &str) -> (r: Result<DNSNetMode, Error>)
        ensures
            match parse_mode(s@) {
                Some(m) => r == Ok::<DNSNetMode, Error>(m),
                None => r matches Err(Error::DNSError(msg)) && msg@ == unsupported_protocol_text(),
            },
    {
        if str_equal(s, "UDP") {
            Ok(DNSNetMode::UDP)
        } else if str_equal(s, "TCP") {
            Ok(DNSNetMode::TCP)
        } else if str_equal(s, "DoH") {
            Ok(DNSNetMode::DoH)
        } else if str_equal(s, "DoT") {
            Ok(DNSNetMode::DoT)
        } else if str_equal(s, "DHCP") {
            Ok(DNSNetMode::DHCP)
        } else {
            Err(Error::DNSError(String::from_str("unsupported protocol")))
        }
    }
}

/// Parsing the name of a mode gives that mode back, and a text names a mode
/// exactly when it is that mode's name.
pub proof fn lemma_mode_name_round_trip(m: DNSNetMode, s: Seq<char>)
    ensures
        parse_mode(mode_name(m)) == Some(m),
        parse_mode(s) == Some(m) <==> s == mode_name(m),
{
    reveal_strlit("UDP");
    reveal_strlit("TCP");
    reveal_strlit("DoT");
    reveal_strlit("DoH");
    reveal_strlit("DHCP");
    assert("UDP"@ != "TCP"@ && "UDP"@ != "DoH"@ && "UDP"@ != "DoT"@ && "UDP"@ != "DHCP"@) by {
        assert("UDP"@[0] != "TCP"@[0] && "UDP"@[0] != "DoH"@[0] && "UDP"@[0] != "DoT"@[0]);
    }
    assert("TCP"@ != "DoH"@ && "TCP"@ != "DoT"@ && "TCP"@ != "DHCP"@) by {
        assert("TCP"@[0] != "DoH"@[0] && "TCP"@[0] != "DoT"@[0] && "TCP"@[0] != "DHCP"@[0]);
    }
    assert("DoH"@ != "DoT"@ && "DoH"@ != "DHCP"@) by {
        assert("DoH"@[2] != "DoT"@[2] && "DoH"@.len() != "DHCP"@.len());
    }
    assert("DoT"@ != "DHCP"@) by {
        assert("DoT"@.len() != "DHCP"@.len());
    }
}

/// Options for an upstream DNS client: the server's host (a name or an
/// address), its port, the protocol, the interface to bind to, and an optional
/// resolver of type `R` used to turn a host name into an address.
#[derive(Clone)]
pub struct Opts<R> {
    pub r: Option<R>,
    pub host: String,
    pub port: u16,
    pub net: DNSNetMode,
    pub iface: Option<Interface>,
}

/// Where and how to reach an upstream server once its address is known.
#[derive(Debug, PartialEq, Eq)]
pub enum DnsConfig {
    Udp(SocketAddress, Option<Interface>),
    Tcp(SocketAddress, Option<Interface>),
    /// DNS over TLS, with the name the server's certificate is checked against.
    Tls(SocketAddress, String, Option<Interface>),
    /// DNS over HTTPS, with the name the server's certificate is checked against.
    Https(SocketAddress, String, Option<Interface>),
}

impl DnsConfig {
    /// The server address of the configuration.
    pub open spec fn server(self) -> SocketAddress {
        match self {
            DnsConfig::Udp(a, _) => a,
            DnsConfig::Tcp(a, _) => a,
            DnsConfig::Tls(a, _, _) => a,
            DnsConfig::Https(a, _, _) => a,
        }
    }

    /// The interface of the configuration.
    pub open spec fn iface(self) -> Option<Interface> {
        match self {
            DnsConfig::Udp(_, i) => i,
            DnsConfig::Tcp(_, i) => i,
            DnsConfig::Tls(_, _, i) => i,
            DnsConfig::Https(_, _, i) => i,
        }
    }
}

/// The configuration for a protocol other than DHCP, a server address, the
/// host name given in the options and an interface: UDP and TCP carry the
/// address and interface, DoT and DoH carry the host name as well.
pub open spec fn config_spec(
    net: DNSNetMode,
    server: SocketAddress,
    host: Seq<char>,
    iface: Option<Interface>,
    cfg: DnsConfig,
) -> bool {
    match net {
        DNSNetMode::UDP => cfg == DnsConfig::Udp(server, iface),
        DNSNetMode::TCP => cfg == DnsConfig::Tcp(server, iface),
        DNSNetMode::DoT => cfg matches DnsConfig::Tls(a, h, i) && a == server && h@ == host && i == iface,
        DNSNetMode::DoH => cfg matches DnsConfig::Https(a, h, i) && a == server && h@ == host && i == iface,
        DNSNetMode::DHCP => false,
    }
}

/// Builds the configuration for a protocol other than DHCP from the options
/// and the server's address.
pub fn dns_config<R>(opts: &Opts<R>, ip: IpAddress) -> (cfg: DnsConfig)
    requires
        opts.net != DNSNetMode::DHCP,
    ensures
        config_spec(opts.net, SocketAddress { ip, port: opts.port }, opts.host@, opts.iface, cfg),
{
    let server = SocketAddress { ip, port: opts.port };
    let iface = duplicate_iface(&opts.iface);
    match opts.net {
        DNSNetMode::UDP => DnsConfig::Udp(server, iface),
        DNSNetMode::TCP => DnsConfig::Tcp(server, iface),
        DNSNetMode::DoT => DnsConfig::Tls(server, opts.host.clone(), iface),
        _ => DnsConfig::Https(server, opts.host.clone(), iface),
    }
}

/// What to do next while setting up a client.
#[derive(Debug, PartialEq, Eq)]
pub enum ConnectStep {
    /// Use a DHCP-provided client for this interface name.
    Dhcp(String),
    /// Ask the resolver of the options for the address of this host.
    Resolve(String),
    /// Read this host as an IP address.
    ParseHost(String),
    /// Open a connection as configured.
    Connect(DnsConfig),
    /// Give up with this error.
    Fail(Error),
}

/// The first step of setting up a client: DHCP needs no address; otherwise
/// the host is resolved when the options carry a resolver and read as an IP
/// address when they do not.
pub fn connect_start<R>(opts: &Opts<R>) -> (step: ConnectStep)
    ensures
        opts.net == DNSNetMode::DHCP ==> (step matches ConnectStep::Dhcp(h) && h@ == opts.host@),
        opts.net != DNSNetMode::DHCP && opts.r is Some ==> (step matches ConnectStep::Resolve(h)
            && h@ == opts.host@),
        opts.net != DNSNetMode::DHCP && opts.r is None ==> (step matches ConnectStep::ParseHost(h)
            && h@ == opts.host@),
{
    match opts.net {
        DNSNetMode::DHCP => ConnectStep::Dhcp(opts.host.clone()),
        _ => {
            if opts.r.is_some() {
                ConnectStep::Resolve(opts.host.clone())
            } else {
                ConnectStep::ParseHost(opts.host.clone())
            }
        },
    }
}

/// The step after the resolver answered: a failure of the resolver is
/// reported as "resolve hostname failure: " and its message, an answer without
/// address as the invalid configuration "can't resolve default DNS: " and the
/// host, and an address leads to a connection to it on the configured port.
pub fn connect_after_resolve<R>(opts: &Opts<R>, answer: Result<Option<IpAddress>, String>) -> (step:
    ConnectStep)
    requires
        opts.net != DNSNetMode::DHCP,
    ensures
        match answer {
            Err(x) => step matches ConnectStep::Fail(Error::Other(m)) && m@ == "resolve hostname failure: "@
                + x@,
            Ok(None) => step matches ConnectStep::Fail(Error::InvalidConfig(m)) && m@
                == "can't resolve default DNS: "@ + opts.host@,
            Ok(Some(ip)) => step matches ConnectStep::Connect(cfg) && config_spec(
                opts.net,
                SocketAddress { ip, port: opts.port },
                opts.host@,
                opts.iface,
                cfg,
            ),
        },
{
    match answer {
        Err(x) => {
            let mut m = String::from_str("resolve hostname failure: ");
            m.append(x.as_str());
            ConnectStep::Fail(Error::Other(m))
        },
        Ok(None) => {
            let mut m = String::from_str("can't resolve default DNS: ");
            m.append(opts.host.as_str());
            ConnectStep::Fail(Error::InvalidConfig(m))
        },
        Ok(Some(ip)) => ConnectStep::Connect(dns_config(opts, ip)),
    }
}

/// The step after reading the host as an IP address: a host that is no
/// address is reported as the DNS error "resolve DNS hostname error: ", the
/// reader's message, ", " and the host; an address leads to a connection to it
/// on the configured port.
pub fn connect_after_parse<R>(opts: &Opts<R>, parsed: Result<IpAddress, String>) -> (step: ConnectStep)
    requires
        opts.net != DNSNetMode::DHCP,
    ensures
        match parsed {
            Err(x) => step matches ConnectStep::Fail(Error::DNSError(m)) && m@
                == "resolve DNS hostname error: "@ + x@ + ", "@ + opts.host@,
            Ok(ip) => step matches ConnectStep::Connect(cfg) && config_spec(
                opts.net,
                SocketAddress { ip, port: opts.port },
                opts.host@,
                opts.iface,
                cfg,
            ),
        },
{
    match parsed {
        Err(x) => {
            let mut m = String::from_str("resolve DNS hostname error: ");
            m.append(x.as_str());
            m.append(", ");
            m.append(opts.host.as_str());
            ConnectStep::Fail(Error::DNSError(m))
        },
        Ok(ip) => ConnectStep::Connect(dns_config(opts, ip)),
    }
}

/// The identity of a client: the mode's name, "#", the host, ":" and the port
/// in decimal.
pub open spec fn client_id_spec(net: DNSNetMode, host: Seq<char>, port: u16) -> Seq<char> {
    mode_name(net) + "#"@ + host + ":"@ + decimal(port as nat)
}

/// Computes the identity of a client, as in "UDP#1.1.1.1:53".
pub fn client_id(net: DNSNetMode, host: &str, port: u16) -> (s: String)
    ensures
        s@ == client_id_spec(net, host@, port),
{
    let mut s = net.to_string();
    s.append("#");
    s.append(host);
    s.append(":");
    let p = decimal_text(port as u64);
    s.append(p.as_str());
    s
}

/// The kind of stream a client opens.
#[derive(Clone, Copy, Debug, PartialEq, Eq, Structural)]
pub enum Transport {
    Udp,
    Tcp,
    Tls,
    Https,
}

/// How to open the stream to an upstream server.
#[derive(Debug, PartialEq, Eq)]
pub struct StreamPlan {
    pub transport: Transport,
    /// The server to connect to.
    pub server: SocketAddress,
    /// The local address to bind to, if any.
    pub bind: Option<SocketAddress>,
    /// The request timeout in seconds, where the stream is given one.
    pub timeout_secs: Option<u64>,
    /// The ALPN protocol offered in the TLS handshake.
    pub alpn: Option<String>,
    /// The name the server's certificate is checked against.
    pub server_name: Option<String>,
    /// Whether the certificate's host name is not to be checked, because the
    /// configured host is the server's address itself.
    pub skip_hostname_check: bool,
}

/// The timeout, in seconds, of UDP, TCP and TLS requests.
pub const REQUEST_TIMEOUT_SECS: u64 = 5;

/// The plan for a configuration, given the server's address as text:
/// UDP, TCP and TLS streams time out after [`REQUEST_TIMEOUT_SECS`] seconds,
/// HTTPS streams keep the client's default; TLS offers ALPN "dot" and HTTPS
/// "h2", both checking the configured host name, except that HTTPS skips the
/// host-name check when that name is the server's address text; every stream
/// binds to the interface's address when it names one.
pub open spec fn stream_plan_spec(cfg: DnsConfig, ip_text: Seq<char>, p: StreamPlan) -> bool {
    &&& p.server == cfg.server()
    &&& p.bind == bind_address(cfg.iface())
    &&& match cfg {
        DnsConfig::Udp(_, _) => {
            &&& p.transport == Transport::Udp
            &&& p.timeout_secs == Some(REQUEST_TIMEOUT_SECS)
            &&& p.alpn is None
            &&& p.server_name is None
            &&& !p.skip_hostname_check
        },
        DnsConfig::Tcp(_, _) => {
            &&& p.transport == Transport::Tcp
            &&& p.timeout_secs == Some(REQUEST_TIMEOUT_SECS)
            &&& p.alpn is None
            &&& p.server_name is None
            &&& !p.skip_hostname_check
        },
        DnsConfig::Tls(_, host, _) => {
            &&& p.transport == Transport::Tls
            &&& p.timeout_secs == Some(REQUEST_TIMEOUT_SECS)
            &&& p.alpn matches Some(a) && a@ == "dot"@
            &&& p.server_name matches Some(n) && n@ == host@
            &&& !p.skip_hostname_check
        },
        DnsConfig::Https(_, host, _) => {
            &&& p.transport == Transport::Https
            &&& p.timeout_secs is None
            &&& p.alpn matches Some(a) && a@ == "h2"@
            &&& p.server_name matches Some(n) && n@ == host@
            &&& p.skip_hostname_check == (host@ == ip_text)
        },
    }
}

/// Plans the stream for a configuration; `ip_text` is the server's address
/// written as text.
pub fn stream_plan(cfg: &DnsConfig, ip_text: &str) -> (p: StreamPlan)
    ensures
        stream_plan_spec(*cfg, ip_text@, p),
{
    match cfg {
        DnsConfig::Udp(addr, iface) => StreamPlan {
            transport: Transport::Udp,
            server: *addr,
            bind: bind_address_of(iface),
            timeout_secs: Some(REQUEST_TIMEOUT_SECS),
            alpn: None,
            server_name: None,
            skip_hostname_check: false,
        },
        DnsConfig::Tcp(addr, iface) => StreamPlan {
            transport: Transport::Tcp,
            server: *addr,
            bind: bind_address_of(iface),
            timeout_secs: Some(REQUEST_TIMEOUT_SECS),
            alpn: None,
            server_name: None,
            skip_hostname_check: false,
        },
        DnsConfig::Tls(addr, host, iface) => StreamPlan {
            transport: Transport::Tls,
            server: *addr,
            bind: bind_address_of(iface),
            timeout_secs: Some(REQUEST_TIMEOUT_SECS),
            alpn: Some(String::from_str("dot")),
            server_name: Some(host.clone()),
            skip_hostname_check: false,
        },
        DnsConfig::Https(addr, host, iface) => StreamPlan {
            transport: Transport::Https,
            server: *addr,
            bind: bind_address_of(iface),
            timeout_secs: None,
            alpn: Some(String::from_str("h2")),
            server_name: Some(host.clone()),
            skip_hostname_check: str_equal(host.as_str(), ip_text),
        },
    }
}

/// A client reaches the server it was configured for: the stream planned for
/// the configuration built from a mode other than DHCP, a server address, a
/// host name and an interface connects to that address, binds as the
/// interface says, checks certificates against the host name exactly for DoT
/// and DoH, and skips the host-name check only for DoH whose host name is the
/// server's address text.
pub proof fn lemma_plan_follows_options(
    net: DNSNetMode,
    server: SocketAddress,
    host: Seq<char>,
    iface: Option<Interface>,
    cfg: DnsConfig,
    ip_text: Seq<char>,
    p: StreamPlan,
)
    requires
        config_spec(net, server, host, iface, cfg),
        stream_plan_spec(cfg, ip_text, p),
    ensures
        p.server == server,
        p.bind == bind_address(iface),
        (net == DNSNetMode::DoT || net == DNSNetMode::DoH) == (p.server_name matches Some(n) && n@ == host),
        p.skip_hostname_check == (net == DNSNetMode::DoH && host == ip_text),
        (p.transport == Transport::Udp) == (net == DNSNetMode::UDP),
        (p.transport == Transport::Tcp) == (net == DNSNetMode::TCP),
        (p.transport == Transport::Tls) == (net == DNSNetMode::DoT),
        (p.transport == Transport::Https) == (net == DNSNetMode::DoH),
{
}

/// Requests time out after five seconds over UDP, TCP and TLS, and keep the
/// HTTP client's own default over HTTPS; TLS offers the ALPN protocol "dot"
/// and HTTPS "h2", and the plain transports offer none.
pub proof fn lemma_plan_timeouts_and_alpn(
    net: DNSNetMode,
    server: SocketAddress,
    host: Seq<char>,
    iface: Option<Interface>,
    cfg: DnsConfig,
    ip_text: Seq<char>,
    p: StreamPlan,
)
    requires
        config_spec(net, server, host, iface, cfg),
        stream_plan_spec(cfg, ip_text, p),
    ensures
        net == DNSNetMode::DoH ==> p.timeout_secs is None,
        net != DNSNetMode::DoH ==> p.timeout_secs == Some(5u64),
        net == DNSNetMode::DoT ==> (p.alpn matches Some(a) && a@ == seq!['d', 'o', 't']),
        net == DNSNetMode::DoH ==> (p.alpn matches Some(a) && a@ == seq!['h', '2']),
        (net == DNSNetMode::UDP || net == DNSNetMode::TCP) ==> p.alpn is None,
{
    reveal_strlit("dot");
    reveal_strlit("h2");
}

/// The state of the task that drives a client's connection.
#[derive(Clone, Copy, Debug, PartialEq, Eq, Structural)]
pub enum BackgroundTask {
    /// No task was ever started.
    Missing,
    Running,
    /// The task ended, most likely because the connection closed.
    Finished,
}

/// What to do before sending a query.
#[derive(Clone, Copy, Debug, PartialEq, Eq, Structural)]
pub struct ExchangePlan {
    /// Open a new connection (and start its task) before sending.
    pub reconnect: bool,
    /// The identifier given to the query.
    pub request_id: u16,
}

/// Plans a query with the given identifier: a new connection is opened
/// exactly when the connection's task has finished.
pub fn plan_exchange_with_id(bg: BackgroundTask, request_id: u16) -> (p: ExchangePlan)
    requires
        bg != BackgroundTask::Missing,
    ensures
        p.reconnect == (bg == BackgroundTask::Finished),
        p.request_id == request_id,
{
    ExchangePlan { reconnect: bg == BackgroundTask::Finished, request_id }
}

/// Draws a uniformly random query identifier by `rand::random::<u16>`.
/// Nothing is stated of the value.
#[verifier::external_body]
fn random_request_id() -> u16 {
    rand::random::<u16>()
}

/// Plans a query with a fresh random identifier: a new connection is opened
/// exactly when the connection's task has finished.
pub fn plan_exchange(bg: BackgroundTask) -> (p: ExchangePlan)
    requires
        bg != BackgroundTask::Missing,
    ensures
        p.reconnect == (bg == BackgroundTask::Finished),
{
    let id = random_request_id();
    plan_exchange_with_id(bg, id)
}

} // verus!
