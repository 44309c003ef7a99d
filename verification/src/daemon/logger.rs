//! Routing of the daemon's log records: records of the networking stack go
//! to their own file, so that they do not drown the daemon's own.

use vstd::prelude::*;
use crate::text::{chars_of, has_prefix, push_char, same_chars, starts_with};

verus! {

/// Targets of the networking stack and the crates it is built on.
pub open spec fn network_targets() -> Seq<Seq<char>> {
    seq![
        "iroh"@, "iroh_base"@, "iroh_dns"@, "iroh_relay"@, "n0"@, "n0_future"@, "n0_watcher"@,
        "noq"@, "noq_udp"@, "portmapper"@, "igd_next"@, "netwatch"@, "netlink_packet_route"@,
        "quinn"@, "hickory"@, "hickory_proto"@, "hickory_resolver"@, "reqwest"@, "rustls"@,
        "rustls_webpki"@, "tokio_rustls"@,
    ]
}

/// Whether a log target is one of those crates or a module inside one.
pub open spec fn is_network_target(target: Seq<char>) -> bool {
    exists|i: int| 0 <= i < network_targets().len() && (target == #[trigger] network_targets()[i]
        || starts_with(target, network_targets()[i] + "::"@))
}

/// Law: the networking stack's records are routed to their own file. The
/// crates of iroh and of what it is built on (its relay, DNS and discovery
/// crates, the QUIC stack, port mapping, DNS resolution, HTTP and TLS) are
/// all network targets.
pub proof fn lemma_network_crates()
    ensures
        is_network_target("iroh"@),
        is_network_target("iroh_base"@),
        is_network_target("iroh_dns"@),
        is_network_target("iroh_relay"@),
        is_network_target("n0"@),
        is_network_target("n0_future"@),
        is_network_target("n0_watcher"@),
        is_network_target("noq"@),
        is_network_target("noq_udp"@),
        is_network_target("portmapper"@),
        is_network_target("igd_next"@),
        is_network_target("netwatch"@),
        is_network_target("netlink_packet_route"@),
        is_network_target("quinn"@),
        is_network_target("hickory"@),
        is_network_target("hickory_proto"@),
        is_network_target("hickory_resolver"@),
        is_network_target("reqwest"@),
        is_network_target("rustls"@),
        is_network_target("rustls_webpki"@),
        is_network_target("tokio_rustls"@),
{
    assert(network_targets()[0] == "iroh"@);
    assert(network_targets()[1] == "iroh_base"@);
    assert(network_targets()[2] == "iroh_dns"@);
    assert(network_targets()[3] == "iroh_relay"@);
    assert(network_targets()[4] == "n0"@);
    assert(network_targets()[5] == "n0_future"@);
    assert(network_targets()[6] == "n0_watcher"@);
    assert(network_targets()[7] == "noq"@);
    assert(network_targets()[8] == "noq_udp"@);
    assert(network_targets()[9] == "portmapper"@);
    assert(network_targets()[10] == "igd_next"@);
    assert(network_targets()[11] == "netwatch"@);
    assert(network_targets()[12] == "netlink_packet_route"@);
    assert(network_targets()[13] == "quinn"@);
    assert(network_targets()[14] == "hickory"@);
    assert(network_targets()[15] == "hickory_proto"@);
    assert(network_targets()[16] == "hickory_resolver"@);
    assert(network_targets()[17] == "reqwest"@);
    assert(network_targets()[18] == "rustls"@);
    assert(network_targets()[19] == "rustls_webpki"@);
    assert(network_targets()[20] == "tokio_rustls"@);
}

/// Law: every module inside a network crate is a network target too.
pub proof fn lemma_network_modules(name: Seq<char>, rest: Seq<char>)
    requires
        is_network_target(name),
    ensures
        is_network_target(name + "::"@ + rest),
{
    let i = choose|i: int| 0 <= i < network_targets().len() && (name == #[trigger] network_targets()[i]
        || starts_with(name, network_targets()[i] + "::"@));
    let n = network_targets()[i];
    let t = name + "::"@ + rest;
    if name == n {
        assert(t.take((n + "::"@).len() as int) =~= n + "::"@);
    } else {
        assert(t.take((n + "::"@).len() as int) =~= name.take((n + "::"@).len() as int));
    }
    assert(starts_with(t, n + "::"@));
}

/// Whether a log target belongs to the networking stack.
pub fn is_iroh_target(target: &str) -> (r: bool)
    ensures
        r == is_network_target(target@),
{
    let names: Vec<&str> = vec![
        "iroh", "iroh_base", "iroh_dns", "iroh_relay", "n0", "n0_future", "n0_watcher",
        "noq", "noq_udp", "portmapper", "igd_next", "netwatch", "netlink_packet_route",
        "quinn", "hickory", "hickory_proto", "hickory_resolver", "reqwest", "rustls",
        "rustls_webpki", "tokio_rustls",
    ];
    assert(names@.map_values(|s: &str| s@) =~= network_targets());
    let t = chars_of(target);
    let sep = chars_of("::");
    proof { reveal_strlit("::"); }
    let mut i: usize = 0;
    while i < names.len()
        invariant
            i <= names@.len(),
            names@.map_values(|s: &str| s@) == network_targets(),
            t@ == target@,
            sep@ == "::"@,
            sep@.len() == 2,
            forall|j: int| 0 <= j < i ==> !(t@ == #[trigger] network_targets()[j]
                || starts_with(t@, network_targets()[j] + "::"@)),
        decreases names@.len() - i,
    {
        let name = chars_of(names[i]);
        assert(name@ == network_targets()[i as int]);
        if same_chars(t.as_slice(), name.as_slice()) {
            return true;
        }
        let mut with_sep = name.clone();
        with_sep.push(sep[0]);
        with_sep.push(sep[1]);
        assert(with_sep@ =~= network_targets()[i as int] + "::"@);
        if has_prefix(t.as_slice(), with_sep.as_slice()) {
            return true;
        }
        i = i + 1;
    }
    false
}

/// Whether a log record comes from the networking stack, by its target or
/// else by its module path.
pub fn is_iroh_record(target: &str, module: Option<&str>) -> (r: bool)
    ensures
        r == (is_network_target(target@) || (module matches Some(m) && is_network_target(m@))),
{
    if is_iroh_target(target) {
        return true;
    }
    match module {
        Some(m) => is_iroh_target(m),
        None => false,
    }
}

/// The daemon's log specification: `info` for every crate, and the chosen
/// level for the daemon's own crate, whose name has `_` for `-`.
pub open spec fn log_spec(package: Seq<char>, level: Seq<char>) -> Seq<char> {
    "info,"@ + package.map_values(|c: char| if c == '-' { '_' } else { c }) + seq!['='] + level
}

/// The daemon's log specification for the package `package` and `level`.
pub fn daemon_log_spec(package: &str, level: &str) -> (r: String)
    ensures
        r@ == log_spec(package@, level@),
{
    let cs = chars_of(package);
    let mut r = String::from_str("info,");
    let ghost head = r@;
    let mut i: usize = 0;
    while i < cs.len()
        invariant
            i <= cs@.len(),
            cs@ == package@,
            r@ == head + package@.take(i as int).map_values(|c: char| if c == '-' { '_' } else { c }),
        decreases cs@.len() - i,
    {
        let c = cs[i];
        push_char(&mut r, if c == '-' { '_' } else { c });
        assert(package@.take(i + 1).map_values(|c: char| if c == '-' { '_' } else { c })
            =~= package@.take(i as int).map_values(|c: char| if c == '-' { '_' } else { c }).push(if c == '-' { '_' } else { c }));
        i = i + 1;
    }
    assert(package@.take(i as int) =~= package@);
    push_char(&mut r, '=');
    r.append(level);
    assert(r@ =~= log_spec(package@, level@));
    r
}

} // verus!
