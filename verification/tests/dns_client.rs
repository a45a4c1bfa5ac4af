use clash_lib::addr::{Interface, IpAddress, SocketAddress};
use clash_lib::dns_client::{
    client_id, connect_after_parse, connect_after_resolve, connect_start, dns_config, plan_exchange,
    plan_exchange_with_id, stream_plan, BackgroundTask, ConnectStep, DNSNetMode, DnsConfig, Opts,
    Transport, REQUEST_TIMEOUT_SECS,
};
use clash_lib::error::Error;

const ALL: [DNSNetMode; 5] = [
    DNSNetMode::UDP,
    DNSNetMode::TCP,
    DNSNetMode::DoT,
    DNSNetMode::DoH,
    DNSNetMode::DHCP,
];

fn opts(net: DNSNetMode, host: &str, resolver: bool) -> Opts<()> {
    Opts {
        r: if resolver { Some(()) } else { None },
        host: host.to_string(),
        port: 53,
        net,
        iface: None,
    }
}

const ONE: IpAddress = IpAddress::V4(0x0101_0101);

#[test]
fn mode_names() {
    assert_eq!(DNSNetMode::UDP.to_string(), "UDP");
    assert_eq!(DNSNetMode::TCP.to_string(), "TCP");
    assert_eq!(DNSNetMode::DoT.to_string(), "DoT");
    assert_eq!(DNSNetMode::DoH.to_string(), "DoH");
    assert_eq!(DNSNetMode::DHCP.to_string(), "DHCP");
}

#[test]
fn mode_parse_each_name() {
    assert_eq!(DNSNetMode::from_str("UDP"), Ok(DNSNetMode::UDP));
    assert_eq!(DNSNetMode::from_str("TCP"), Ok(DNSNetMode::TCP));
    assert_eq!(DNSNetMode::from_str("DoT"), Ok(DNSNetMode::DoT));
    assert_eq!(DNSNetMode::from_str("DoH"), Ok(DNSNetMode::DoH));
    assert_eq!(DNSNetMode::from_str("DHCP"), Ok(DNSNetMode::DHCP));
}

#[test]
fn mode_parse_refuses_other_text() {
    for s in ["udp", "", "DOH", "UDP ", "https", "DoQ"] {
        assert_eq!(
            DNSNetMode::from_str(s),
            Err(Error::DNSError("unsupported protocol".to_string()))
        );
    }
}

#[test]
fn mode_name_round_trip() {
    for m in ALL {
        assert_eq!(DNSNetMode::from_str(&m.to_string()), Ok(m));
    }
}

#[test]
fn start_by_mode_and_resolver() {
    assert_eq!(
        connect_start(&opts(DNSNetMode::DHCP, "eth0", true)),
        ConnectStep::Dhcp("eth0".to_string())
    );
    assert_eq!(
        connect_start(&opts(DNSNetMode::UDP, "dns.google", true)),
        ConnectStep::Resolve("dns.google".to_string())
    );
    assert_eq!(
        connect_start(&opts(DNSNetMode::DoH, "1.1.1.1", false)),
        ConnectStep::ParseHost("1.1.1.1".to_string())
    );
}

#[test]
fn resolve_failures() {
    let o = opts(DNSNetMode::UDP, "dns.google", true);
    assert_eq!(
        connect_after_resolve(&o, Err("timed out".to_string())),
        ConnectStep::Fail(Error::Other("resolve hostname failure: timed out".to_string()))
    );
    assert_eq!(
        connect_after_resolve(&o, Ok(None)),
        ConnectStep::Fail(Error::InvalidConfig(
            "can't resolve default DNS: dns.google".to_string()
        ))
    );
}

#[test]
fn resolved_address_is_used_with_port() {
    let o = opts(DNSNetMode::TCP, "dns.google", true);
    let ip = IpAddress::V4(0x0808_0808);
    assert_eq!(
        connect_after_resolve(&o, Ok(Some(ip))),
        ConnectStep::Connect(DnsConfig::Tcp(SocketAddress { ip, port: 53 }, None))
    );
}

#[test]
fn parse_failure_message() {
    let o = opts(DNSNetMode::UDP, "not-an-ip", false);
    assert_eq!(
        connect_after_parse(&o, Err("invalid IP address syntax".to_string())),
        ConnectStep::Fail(Error::DNSError(
            "resolve DNS hostname error: invalid IP address syntax, not-an-ip".to_string()
        ))
    );
    let o = opts(DNSNetMode::DoT, "1.1.1.1", false);
    assert_eq!(
        connect_after_parse(&o, Ok(ONE)),
        ConnectStep::Connect(DnsConfig::Tls(
            SocketAddress { ip: ONE, port: 53 },
            "1.1.1.1".to_string(),
            None
        ))
    );
}

#[test]
fn config_per_mode() {
    let mut o = opts(DNSNetMode::UDP, "cloudflare-dns.com", false);
    o.port = 853;
    o.iface = Some(Interface::Name("eth0".to_string()));
    let server = SocketAddress { ip: ONE, port: 853 };
    let iface = Some(Interface::Name("eth0".to_string()));
    assert_eq!(dns_config(&o, ONE), DnsConfig::Udp(server, iface.clone()));
    o.net = DNSNetMode::TCP;
    assert_eq!(dns_config(&o, ONE), DnsConfig::Tcp(server, iface.clone()));
    o.net = DNSNetMode::DoT;
    assert_eq!(
        dns_config(&o, ONE),
        DnsConfig::Tls(server, "cloudflare-dns.com".to_string(), iface.clone())
    );
    o.net = DNSNetMode::DoH;
    assert_eq!(
        dns_config(&o, ONE),
        DnsConfig::Https(server, "cloudflare-dns.com".to_string(), iface)
    );
}

#[test]
fn stream_plans() {
    let server = SocketAddress { ip: ONE, port: 53 };
    let local = IpAddress::V4(0x0a00_0002);
    let bound = Some(Interface::IpAddr(local));

    let p = stream_plan(&DnsConfig::Udp(server, bound.clone()), "1.1.1.1");
    assert_eq!(p.transport, Transport::Udp);
    assert_eq!(p.server, server);
    assert_eq!(p.bind, Some(SocketAddress { ip: local, port: 0 }));
    assert_eq!(p.timeout_secs, Some(REQUEST_TIMEOUT_SECS));
    assert_eq!(p.timeout_secs, Some(5));
    assert_eq!(p.alpn, None);
    assert_eq!(p.server_name, None);
    assert!(!p.skip_hostname_check);

    let p = stream_plan(&DnsConfig::Tcp(server, Some(Interface::Name("eth0".to_string()))), "1.1.1.1");
    assert_eq!(p.transport, Transport::Tcp);
    assert_eq!(p.bind, None);

    let p = stream_plan(&DnsConfig::Tls(server, "one.one.one.one".to_string(), None), "1.1.1.1");
    assert_eq!(p.transport, Transport::Tls);
    assert_eq!(p.alpn, Some("dot".to_string()));
    assert_eq!(p.server_name, Some("one.one.one.one".to_string()));
    assert_eq!(p.timeout_secs, Some(5));
    assert!(!p.skip_hostname_check);

    let p = stream_plan(&DnsConfig::Https(server, "1.1.1.1".to_string(), bound), "1.1.1.1");
    assert_eq!(p.transport, Transport::Https);
    assert_eq!(p.alpn, Some("h2".to_string()));
    assert_eq!(p.timeout_secs, None);
    assert_eq!(p.bind, Some(SocketAddress { ip: local, port: 0 }));
    assert!(p.skip_hostname_check);

    let p = stream_plan(&DnsConfig::Https(server, "cloudflare-dns.com".to_string(), None), "1.1.1.1");
    assert!(!p.skip_hostname_check);
    assert_eq!(p.server_name, Some("cloudflare-dns.com".to_string()));
}

#[test]
fn client_identity() {
    assert_eq!(client_id(DNSNetMode::UDP, "1.1.1.1", 53), "UDP#1.1.1.1:53");
    assert_eq!(client_id(DNSNetMode::DoH, "dns.google", 443), "DoH#dns.google:443");
    assert_eq!(client_id(DNSNetMode::TCP, "h", 0), "TCP#h:0");
    assert_eq!(client_id(DNSNetMode::DoT, "h", 65535), "DoT#h:65535");
    assert_eq!(client_id(DNSNetMode::DHCP, "eth0", 10), "DHCP#eth0:10");
}

#[test]
fn exchange_reconnects_only_after_the_task_ended() {
    let p = plan_exchange_with_id(BackgroundTask::Running, 7);
    assert!(!p.reconnect);
    assert_eq!(p.request_id, 7);
    let p = plan_exchange_with_id(BackgroundTask::Finished, 65535);
    assert!(p.reconnect);
    assert_eq!(p.request_id, 65535);
    assert!(!plan_exchange(BackgroundTask::Running).reconnect);
    assert!(plan_exchange(BackgroundTask::Finished).reconnect);
}
