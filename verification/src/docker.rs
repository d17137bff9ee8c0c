//! Subnet and port allocation, name formatting, and the network/container
//! specifications handed to the engine-facing shell.
use vstd::prelude::*;
use vstd::pervasive::VecAdditionalExecFns;
use vstd::string::StringExecFns;

use crate::error::Error;
use crate::text::{
    clone_string_vec, spec_all_digits, spec_dec, spec_digit_val, spec_digits_val, spec_is_digit,
    u32_string,
};

verus! {

/// How many ports the allocator scans, starting at the base port.
pub const PORT_WINDOW: usize = 99;

/// An image reference from the service configuration: name and tag.
pub struct DockerConfig {
    pub image: String,
    pub tag: String,
}

/// Static addressing for one service on the environment's network.
pub struct NetworkConfig {
    pub addr_base: String,
    pub addr_suffix: u16,
    pub id: Option<String>,
}

/// One internal-to-external port mapping from the service configuration.
pub struct PortMapEntry {
    pub internal: String,
    pub external: Option<String>,
}

/// One service of an environment, as configured.
pub struct ServiceConfig {
    pub service: String,
    pub docker: DockerConfig,
    pub network: NetworkConfig,
    pub envs: Option<Vec<String>>,
    pub ports: Option<Vec<PortMapEntry>>,
}

/// Format a fully qualified image reference: `<registry>/<name>:<tag>`.
pub fn format_image(registry: &str, name: &str, tag: &str) -> (r: String)
    ensures
        r@ == registry@ + "/"@ + name@ + ":"@ + tag@,
{
    let mut s = String::new();
    s.append(registry);
    s.append("/");
    s.append(name);
    s.append(":");
    s.append(tag);
    proof {
        assert(s@ =~= registry@ + "/"@ + name@ + ":"@ + tag@);
    }
    s
}

/// Format a container name: `<environment>_<service>`.
pub fn format_container(name: &str, env: &str) -> (r: String)
    ensures
        r@ == env@ + "_"@ + name@,
{
    let mut s = String::new();
    s.append(env);
    s.append("_");
    s.append(name);
    proof {
        assert(s@ =~= env@ + "_"@ + name@);
    }
    s
}

/// Format an environment's network name: `<environment>_default`.
pub fn format_network(env: &str) -> (r: String)
    ensures
        r@ == env@ + "_default"@,
{
    let mut s = String::new();
    s.append(env);
    s.append("_default");
    proof {
        assert(s@ =~= env@ + "_default"@);
    }
    s
}

/// Port `base + i` is the first free port of the scan when every port below it
/// is occupied and it is itself free. The base port itself does not count: the
/// scan expects it occupied.
pub open spec fn spec_port_found(free: Seq<bool>, i: int) -> bool {
    &&& 1 <= i < free.len()
    &&& free[i]
    &&& forall|j: int| 0 <= j < i ==> !free[j]
}

/// The scan fails when the base port is free or the whole window is occupied.
pub open spec fn spec_port_scan_failed(free: Seq<bool>) -> bool {
    free[0] || forall|j: int| 0 <= j < free.len() ==> !free[j]
}

/// Choose the first free port at or above the base, from the outcome of
/// probing the window `base..base + PORT_WINDOW`: `free[i]` says whether port
/// `base + i` could be bound.
///
/// A free base port and an exhausted window both yield `PortRangeExhausted`:
/// the scan derives the answer from the last occupied port before the first
/// free one, and a window with no such port gives it nothing to go by.
pub fn get_available_port(base: u16, free: &Vec<bool>) -> (r: Result<u16, Error>)
    requires
        free@.len() == PORT_WINDOW,
        base + PORT_WINDOW <= u16::MAX,
    ensures
        match r {
            Ok(p) => exists|i: int| spec_port_found(free@, i) && p == base + i,
            Err(e) => e == Error::PortRangeExhausted && spec_port_scan_failed(free@),
        },
{
    let mut i: usize = 0;
    while i < PORT_WINDOW
        invariant
            free@.len() == PORT_WINDOW,
            base + PORT_WINDOW <= u16::MAX,
            0 <= i <= PORT_WINDOW,
            forall|j: int| 0 <= j < i ==> !free@[j],
        decreases PORT_WINDOW - i,
    {
        if free[i] {
            if i == 0 {
                return Err(Error::PortRangeExhausted);
            }
            let p: u16 = base + (i as u16);
            proof {
                assert(spec_port_found(free@, i as int));
            }
            return Ok(p);
        }
        i = i + 1;
    }
    Err(Error::PortRangeExhausted)
}

/// What octet a subnet string names: `"172.<N>.0.0/16"` yields `N` when the
/// middle is all digits and fits a `u16`; anything else yields nothing.
pub open spec fn spec_parse_octet(s: Seq<char>) -> Option<u16> {
    if s.len() >= 12 {
        let mid = s.subrange(4, s.len() - 7);
        if s.subrange(0, 4) == "172."@ && s.subrange(s.len() - 7, s.len() as int) == ".0.0/16"@
            && spec_all_digits(mid) && spec_digits_val(mid) <= 65535 {
            Some(spec_digits_val(mid) as u16)
        } else {
            None
        }
    } else {
        None
    }
}

/// Parse the second octet out of a subnet string of the form `172.N.0.0/16`.
pub fn parse_octet(s: &str) -> (r: Option<u16>)
    ensures
        r == spec_parse_octet(s@),
{
    proof {
        reveal_strlit("172.");
        reveal_strlit(".0.0/16");
    }
    let n = s.unicode_len();
    if n < 12 {
        return None;
    }
    let prefix = "172.";
    let mut i: usize = 0;
    while i < 4
        invariant
            s@.len() == n,
            12 <= n,
            0 <= i <= 4,
            prefix@ == "172."@,
            prefix@.len() == 4,
            forall|j: int| 0 <= j < i ==> s@[j] == prefix@[j],
        decreases 4 - i,
    {
        if s.get_char(i) != prefix.get_char(i) {
            proof {
                reveal_strlit("172.");
                assert(s@.subrange(0, 4)[i as int] != "172."@[i as int]);
            }
            return None;
        }
        i = i + 1;
    }
    proof {
        assert(s@.subrange(0, 4) =~= "172."@);
    }
    let suffix = ".0.0/16";
    let mut i: usize = 0;
    while i < 7
        invariant
            s@.len() == n,
            12 <= n,
            0 <= i <= 7,
            suffix@ == ".0.0/16"@,
            suffix@.len() == 7,
            forall|j: int| 0 <= j < i ==> s@[n - 7 + j] == suffix@[j],
        decreases 7 - i,
    {
        if s.get_char(n - 7 + i) != suffix.get_char(i) {
            proof {
                reveal_strlit(".0.0/16");
                assert(s@.subrange(n - 7, n as int)[i as int] != ".0.0/16"@[i as int]);
            }
            return None;
        }
        i = i + 1;
    }
    proof {
        assert(s@.subrange(n - 7, n as int) =~= ".0.0/16"@);
    }
    let mut val: u32 = 0;
    let mut too_big: bool = false;
    let mut i: usize = 4;
    while i < n - 7
        invariant
            s@.len() == n,
            12 <= n,
            4 <= i <= n - 7,
            spec_all_digits(s@.subrange(4, i as int)),
            !too_big ==> val == spec_digits_val(s@.subrange(4, i as int)) && val <= 65535,
            too_big ==> spec_digits_val(s@.subrange(4, i as int)) > 65535,
        decreases n - i,
    {
        let c = s.get_char(i);
        let cv = c as u32;
        if cv < 48 || cv > 57 {
            proof {
                assert(s@.subrange(4, n - 7)[i - 4] == s@[i as int]);
                assert(!spec_is_digit(s@[i as int]));
            }
            return None;
        }
        let d = cv - 48;
        proof {
            let pref = s@.subrange(4, i as int);
            let ext = s@.subrange(4, i + 1);
            assert(ext.drop_last() =~= pref);
            assert(ext.last() == s@[i as int]);
            assert(spec_digits_val(ext) == spec_digits_val(pref) * 10 + spec_digit_val(
                s@[i as int],
            ));
            assert(spec_all_digits(ext));
        }
        if too_big {
            // The value already exceeds the range; further digits keep it there.
        } else {
            let grown = val * 10 + d;
            if grown > 65535 {
                too_big = true;
                val = 0;
            } else {
                val = grown;
            }
        }
        i = i + 1;
    }
    if too_big {
        return None;
    }
    proof {
        assert(s@.subrange(4, n - 7) == s@.subrange(4, (n - 7) as int));
    }
    Some(val as u16)
}

/// The set of octets named by a list of parsed values.
pub open spec fn spec_octet_set(ids: Seq<u16>) -> Set<int> {
    Set::new(
        |v: int| 0 <= v < 65536 && exists|k: int| 0 <= k < ids.len() && ids[k] as int == v,
    )
}

/// `m` is the smallest member of the set.
pub open spec fn spec_is_min(s: Set<int>, m: int) -> bool {
    s.contains(m) && forall|v: int| s.contains(v) ==> m <= v
}

/// `c` is the first value at or above `m` that the set does not hold.
pub open spec fn spec_next_free(s: Set<int>, m: int, c: int) -> bool {
    &&& m <= c
    &&& !s.contains(c)
    &&& forall|v: int| m <= v < c ==> s.contains(v)
}

/// Choose the next usable octet: the smallest value at or above the smallest
/// occupied octet that no existing network uses.
pub fn next_octet(ids: &Vec<u16>) -> (r: Result<u32, Error>)
    ensures
        match r {
            Ok(c) => ids@.len() > 0 && exists|m: int|
                spec_is_min(spec_octet_set(ids@), m) && spec_next_free(
                    spec_octet_set(ids@),
                    m,
                    c as int,
                ),
            Err(e) => e == Error::NoBaselineNetwork && ids@.len() == 0,
        },
{
    if ids.len() == 0 {
        return Err(Error::NoBaselineNetwork);
    }
    let mut present: Vec<bool> = Vec::new();
    while present.len() < 65536
        invariant
            present@.len() <= 65536,
            forall|w: int| 0 <= w < present@.len() ==> !present@[w],
        decreases 65536 - present@.len(),
    {
        present.push(false);
    }
    let mut j: usize = 0;
    while j < ids.len()
        invariant
            present@.len() == 65536,
            0 <= j <= ids@.len(),
            forall|v: int|
                0 <= v < 65536 ==> (present@[v] <==> exists|k: int|
                    0 <= k < j && ids@[k] as int == v),
        decreases ids@.len() - j,
    {
        let idx = ids[j] as usize;
        present.set(idx, true);
        proof {
            assert forall|v: int| 0 <= v < 65536 implies (present@[v] <==> exists|k: int|
                0 <= k < j + 1 && ids@[k] as int == v) by {
                if v == idx {
                    assert(0 <= j < j + 1 && ids@[j as int] as int == v);
                } else {
                    assert(present@[v] <==> exists|k: int| 0 <= k < j && ids@[k] as int == v);
                    if exists|k: int| 0 <= k < j + 1 && ids@[k] as int == v {
                        let k = choose|k: int| 0 <= k < j + 1 && ids@[k] as int == v;
                        assert(k < j);
                    }
                }
            }
        }
        j = j + 1;
    }
    let ghost occupied = spec_octet_set(ids@);
    proof {
        assert forall|v: int| 0 <= v < 65536 implies (present@[v] <==> occupied.contains(v)) by {}
    }
    let mut m: usize = 0;
    while m < 65536 && !present[m]
        invariant
            present@.len() == 65536,
            0 <= m <= 65536,
            forall|w: int| 0 <= w < m ==> !present@[w],
        decreases 65536 - m,
    {
        m = m + 1;
    }
    if m == 65536 {
        proof {
            assert(present@[ids@[0] as int]);
            assert(false);
        }
        return Err(Error::NoBaselineNetwork);
    }
    proof {
        assert(spec_is_min(occupied, m as int));
    }
    let mut c: usize = m;
    while c < 65536 && present[c]
        invariant
            present@.len() == 65536,
            m <= c <= 65536,
            forall|w: int| m <= w < c ==> present@[w],
        decreases 65536 - c,
    {
        c = c + 1;
    }
    proof {
        assert(spec_next_free(occupied, m as int, c as int));
    }
    Ok(c as u32)
}

/// The octets in use among a list of subnet strings, as far as they parse.
pub open spec fn spec_subnet_octets(ss: Seq<String>) -> Set<int> {
    Set::new(
        |v: int| 0 <= v < 65536 && exists|k: int|
            0 <= k < ss.len() && spec_parse_octet(ss[k]@) == Some(v as u16),
    )
}

/// Given the subnets of the existing container networks, choose the next
/// usable `172.<octet>` base: the smallest octet at or above the smallest one
/// in use that no existing network uses.
pub fn get_network_base(subnets: &Vec<String>) -> (r: Result<String, Error>)
    ensures
        match r {
            Ok(s) => exists|m: int, c: int|
                spec_is_min(spec_subnet_octets(subnets@), m) && spec_next_free(
                    spec_subnet_octets(subnets@),
                    m,
                    c,
                ) && s@ == "172."@ + spec_dec(c as nat),
            Err(e) => e == Error::NoBaselineNetwork && forall|v: int|
                !spec_subnet_octets(subnets@).contains(v),
        },
{
    let ghost target = spec_subnet_octets(subnets@);
    let mut ids: Vec<u16> = Vec::new();
    let mut k: usize = 0;
    while k < subnets.len()
        invariant
            0 <= k <= subnets@.len(),
            forall|v: int|
                spec_octet_set(ids@).contains(v) <==> (0 <= v < 65536 && exists|kk: int|
                    0 <= kk < k && spec_parse_octet(subnets@[kk]@) == Some(v as u16)),
        decreases subnets@.len() - k,
    {
        let parsed = parse_octet(subnets[k].as_str());
        match parsed {
            Some(v) => {
                let ghost before = ids@;
                ids.push(v);
                proof {
                    assert forall|w: int| spec_octet_set(ids@).contains(w) <==> (0 <= w < 65536
                        && exists|kk: int|
                        0 <= kk < k + 1 && spec_parse_octet(subnets@[kk]@) == Some(
                            w as u16,
                        )) by {
                        if spec_octet_set(ids@).contains(w) {
                            let p = choose|p: int| 0 <= p < ids@.len() && ids@[p] as int == w;
                            if p < before.len() {
                                assert(spec_octet_set(before).contains(w));
                            } else {
                                assert(ids@[p] == v);
                                assert(spec_parse_octet(subnets@[k as int]@) == Some(w as u16));
                            }
                        }
                        if 0 <= w < 65536 && exists|kk: int|
                            0 <= kk < k + 1 && spec_parse_octet(subnets@[kk]@) == Some(w as u16) {
                            let kk = choose|kk: int|
                                0 <= kk < k + 1 && spec_parse_octet(subnets@[kk]@) == Some(
                                    w as u16,
                                );
                            if kk < k {
                                assert(spec_octet_set(before).contains(w));
                                let p = choose|p: int|
                                    0 <= p < before.len() && before[p] as int == w;
                                assert(ids@[p] as int == w);
                            } else {
                                assert(v as int == w);
                                assert(ids@[before.len() as int] as int == w);
                            }
                        }
                    }
                }
            },
            None => {
                proof {
                    assert forall|w: int| spec_octet_set(ids@).contains(w) <==> (0 <= w < 65536
                        && exists|kk: int|
                        0 <= kk < k + 1 && spec_parse_octet(subnets@[kk]@) == Some(
                            w as u16,
                        )) by {
                        if 0 <= w < 65536 && exists|kk: int|
                            0 <= kk < k + 1 && spec_parse_octet(subnets@[kk]@) == Some(w as u16) {
                            let kk = choose|kk: int|
                                0 <= kk < k + 1 && spec_parse_octet(subnets@[kk]@) == Some(
                                    w as u16,
                                );
                            assert(kk < k);
                        }
                    }
                }
            },
        }
        k = k + 1;
    }
    proof {
        assert(spec_octet_set(ids@) =~= target);
    }
    match next_octet(&ids) {
        Ok(c) => {
            let mut s = String::from_str("172.");
            s.append(u32_string(c).as_str());
            proof {
                assert(s@ =~= "172."@ + spec_dec(c as nat));
            }
            Ok(s)
        },
        Err(_) => {
            proof {
                assert forall|v: int| !target.contains(v) by {
                    if target.contains(v) {
                        assert(spec_octet_set(ids@).contains(v));
                    }
                }
            }
            Err(Error::NoBaselineNetwork)
        },
    }
}

/// One label on the environment's network.
pub struct LabelPair {
    pub key: String,
    pub value: String,
}

/// Everything the engine needs to create the environment's bridge network.
pub struct NetworkSpec {
    pub name: String,
    pub driver: String,
    pub subnet: String,
    pub gateway: String,
    pub ipam_driver: String,
    pub labels: Vec<LabelPair>,
}

/// One host-port binding of a container port.
pub struct PortBindingSpec {
    pub container_port: String,
    pub host_ip: String,
    pub host_port: String,
}

/// Everything the engine needs to create one service's container.
pub struct ContainerSpec {
    pub name: String,
    pub image: String,
    pub network_name: String,
    pub network_id: String,
    pub alias: String,
    pub gateway: String,
    pub ip_address: String,
    pub ip_prefix_len: u8,
    pub env: Option<Vec<String>>,
    pub port_bindings: Option<Vec<PortBindingSpec>>,
    pub exposed_ports: Option<Vec<String>>,
}

/// The registry host used to qualify image references, or its default.
pub fn registry_http_addr(configured: Option<String>) -> (r: String)
    ensures
        match configured {
            Some(a) => r@ == a@,
            None => r@ == "localhost:5000"@,
        },
{
    match configured {
        Some(a) => a,
        None => String::from_str("localhost:5000"),
    }
}

/// Whether this service takes the environment's ingress port binding.
pub fn is_ingress_service(svc: &ServiceConfig) -> (b: bool)
    ensures
        b == (svc.service@ == "nginx"@),
{
    svc.service.eq(&String::from_str("nginx"))
}

/// The network specification for an environment on a subnet base: name
/// `<environment>_default`, subnet `<base>.0.0/16`, gateway `<base>.0.1`, and
/// the identifying labels.
pub open spec fn spec_network_spec_ok(r: NetworkSpec, env_name: Seq<char>, base: Seq<char>) -> bool {
    &&& r.name@ == env_name + "_default"@
    &&& r.driver@ == "bridge"@
    &&& r.subnet@ == base + ".0.0/16"@
    &&& r.gateway@ == base + ".0.1"@
    &&& r.ipam_driver@ == "default"@
    &&& r.labels@.len() == 3
    &&& r.labels@[0].key@ == "nidavellir.network"@ && r.labels@[0].value@ == "default"@
    &&& r.labels@[1].key@ == "nidavellir.version"@ && r.labels@[1].value@ == "0.4.2"@
    &&& r.labels@[2].key@ == "nidavellir.environment"@ && r.labels@[2].value@ == env_name
}

/// Build the specification of the environment's bridge network.
pub fn build_network_spec(env_name: &str, base: &str) -> (r: NetworkSpec)
    ensures
        spec_network_spec_ok(r, env_name@, base@),
{
    let mut subnet = String::from_str(base);
    subnet.append(".0.0/16");
    let mut gateway = String::from_str(base);
    gateway.append(".0.1");
    let mut labels: Vec<LabelPair> = Vec::new();
    labels.push(
        LabelPair {
            key: String::from_str("nidavellir.network"),
            value: String::from_str("default"),
        },
    );
    labels.push(
        LabelPair {
            key: String::from_str("nidavellir.version"),
            value: String::from_str("0.4.2"),
        },
    );
    labels.push(
        LabelPair {
            key: String::from_str("nidavellir.environment"),
            value: String::from_str(env_name),
        },
    );
    NetworkSpec {
        name: format_network(env_name),
        driver: String::from_str("bridge"),
        subnet,
        gateway,
        ipam_driver: String::from_str("default"),
        labels,
    }
}

/// The `(container port, host port)` pairs a list of bindings holds, in order.
pub open spec fn spec_bindings_view(b: Seq<PortBindingSpec>) -> Seq<(Seq<char>, Seq<char>)> {
    Seq::new(b.len(), |j: int| (b[j].container_port@, b[j].host_port@))
}

/// The port bindings a list of port-map entries asks for, in order: one per
/// entry with an external port, as `(container port, host port)`.
pub open spec fn spec_bindings_of(ports: Seq<PortMapEntry>) -> Seq<(Seq<char>, Seq<char>)>
    decreases ports.len(),
{
    if ports.len() == 0 {
        Seq::empty()
    } else {
        let rest = spec_bindings_of(ports.drop_last());
        match ports.last().external {
            Some(e) => rest.push((ports.last().internal@ + "/tcp"@, e@)),
            None => rest,
        }
    }
}

/// The container specification for one service: name, image, static address
/// on the environment's network, environment variables, and — when the
/// service carries the ingress — the binding of container port 80 to the
/// allocated host port, in place of the configured port map.
pub open spec fn spec_container_spec_ok(
    r: ContainerSpec,
    env_name: Seq<char>,
    svc: ServiceConfig,
    network_id: Seq<char>,
    registry: Seq<char>,
    ingress_port: Option<u16>,
) -> bool {
    &&& r.name@ == env_name + "_"@ + svc.service@
    &&& r.image@ == registry + "/"@ + svc.docker.image@ + ":"@ + svc.docker.tag@
    &&& r.network_name@ == env_name + "_default"@
    &&& r.network_id@ == network_id
    &&& r.alias@ == svc.service@
    &&& r.gateway@ == svc.network.addr_base@ + ".0.1"@
    &&& r.ip_address@ == svc.network.addr_base@ + ".0."@ + spec_dec(svc.network.addr_suffix as nat)
    &&& r.ip_prefix_len == 8
    &&& match svc.envs {
        Some(v) => r.env matches Some(w) && w@ == v@,
        None => r.env is None,
    }
    &&& match ingress_port {
        Some(p) => {
            &&& r.port_bindings matches Some(b) && b@.len() == 1 && b@[0].container_port@
                == "80/tcp"@ && b@[0].host_ip@ == "0.0.0.0"@ && b@[0].host_port@ == spec_dec(
                p as nat,
            )
            &&& r.exposed_ports matches Some(x) && x@.len() == 1 && x@[0]@ == "80/tcp"@
        },
        None => match svc.ports {
            Some(ports) => {
                &&& r.port_bindings matches Some(b) && spec_bindings_view(b@)
                    == spec_bindings_of(ports@) && (forall|i: int|
                    0 <= i < b@.len() ==> #[trigger] b@[i].host_ip@ == "0.0.0.0"@)
                &&& r.exposed_ports matches Some(x) && x@.len() == ports@.len() && (forall|i: int|
                    0 <= i < x@.len() ==> #[trigger] x@[i]@ == ports@[i].internal@ + "/tcp"@)
            },
            None => r.port_bindings is None && r.exposed_ports is None,
        },
    }
}

/// Build the specification of one service's container.
pub fn build_container_spec(
    env_name: &str,
    svc: &ServiceConfig,
    network_id: &str,
    registry: &str,
    ingress_port: Option<u16>,
) -> (r: ContainerSpec)
    ensures
        spec_container_spec_ok(r, env_name@, *svc, network_id@, registry@, ingress_port),
{
    let mut ip_address = String::from_str(svc.network.addr_base.as_str());
    ip_address.append(".0.");
    ip_address.append(u32_string(svc.network.addr_suffix as u32).as_str());
    proof {
        assert(ip_address@ =~= svc.network.addr_base@ + ".0."@ + spec_dec(
            svc.network.addr_suffix as nat,
        ));
    }
    let mut gateway = String::from_str(svc.network.addr_base.as_str());
    gateway.append(".0.1");
    let env: Option<Vec<String>> = match &svc.envs {
        Some(v) => Some(clone_string_vec(v)),
        None => None,
    };
    let (port_bindings, exposed_ports): (Option<Vec<PortBindingSpec>>, Option<Vec<String>>) =
        match ingress_port {
        Some(p) => {
            let mut binds: Vec<PortBindingSpec> = Vec::new();
            binds.push(
                PortBindingSpec {
                    container_port: String::from_str("80/tcp"),
                    host_ip: String::from_str("0.0.0.0"),
                    host_port: u32_string(p as u32),
                },
            );
            let mut exposed: Vec<String> = Vec::new();
            exposed.push(String::from_str("80/tcp"));
            (Some(binds), Some(exposed))
        },
        None => match &svc.ports {
            Some(ports) => {
                let mut binds: Vec<PortBindingSpec> = Vec::new();
                let mut exposed: Vec<String> = Vec::new();
                let mut i: usize = 0;
                while i < ports.len()
                    invariant
                        0 <= i <= ports@.len(),
                        spec_bindings_view(binds@) =~= spec_bindings_of(
                            ports@.subrange(0, i as int),
                        ),
                        forall|j: int|
                            0 <= j < binds@.len() ==> #[trigger] binds@[j].host_ip@ == "0.0.0.0"@,
                        exposed@.len() == i,
                        forall|j: int|
                            0 <= j < i ==> #[trigger] exposed@[j]@ == ports@[j].internal@
                                + "/tcp"@,
                    decreases ports@.len() - i,
                {
                    let mut cport = String::from_str(ports[i].internal.as_str());
                    cport.append("/tcp");
                    exposed.push(cport);
                    match &ports[i].external {
                        Some(ext) => {
                            let mut cport2 = String::from_str(ports[i].internal.as_str());
                            cport2.append("/tcp");
                            binds.push(
                                PortBindingSpec {
                                    container_port: cport2,
                                    host_ip: String::from_str("0.0.0.0"),
                                    host_port: ext.clone(),
                                },
                            );
                        },
                        None => {},
                    }
                    proof {
                        let pre = ports@.subrange(0, i as int);
                        let ext = ports@.subrange(0, i + 1);
                        assert(ext.drop_last() =~= pre);
                        assert(ext.last() == ports@[i as int]);
                        assert(spec_bindings_view(binds@) =~= spec_bindings_of(ext));
                    }
                    i = i + 1;
                }
                proof {
                    assert(ports@.subrange(0, ports@.len() as int) =~= ports@);
                }
                (Some(binds), Some(exposed))
            },
            None => (None, None),
        },
    };
    let r = ContainerSpec {
        name: format_container(svc.service.as_str(), env_name),
        image: format_image(registry, svc.docker.image.as_str(), svc.docker.tag.as_str()),
        network_name: format_network(env_name),
        network_id: String::from_str(network_id),
        alias: svc.service.clone(),
        gateway,
        ip_address,
        ip_prefix_len: 8,
        env,
        port_bindings,
        exposed_ports,
    };
    r
}

} // verus!
