use vstd::prelude::*;

verus! {

/// Prefix length given to an IPv4 address by classful inference: class A
/// gets 8 bits, class B 16, class C 24, and anything above is a host route.
pub open spec fn class_prefix_len(addr: [u8; 4]) -> u8 {
    let first = addr[0];
    if first < 128 {
        8
    } else if first < 192 {
        16
    } else if first < 224 {
        24
    } else {
        32
    }
}

/// Computes the classful prefix length of an IPv4 address.
pub fn infer_prefix_len(addr: [u8; 4]) -> (r: u8)
    ensures
        r == class_prefix_len(addr),
{
    let first = addr[0];
    if first < 128 {
        8
    } else if first < 192 {
        16
    } else if first < 224 {
        24
    } else {
        32
    }
}

/// Device name requested when the configuration names none.
pub open spec fn default_name() -> Seq<char> {
    "netsim"@
}

/// The device name that a configuration requests.
pub open spec fn effective_name(c: IfaceConfig) -> Seq<char> {
    match c.name {
        Some(n) => n,
        None => default_name(),
    }
}

/// What an interface builder holds: the requested name, if any, and the
/// IPv4 address with its prefix length, if any.
pub ghost struct IfaceConfig {
    pub name: Option<Seq<char>>,
    pub ipv4: Option<([u8; 4], u8)>,
}

/// Configuration of a virtual IP interface, inert until it is realised on a
/// machine.
pub struct IpIfaceBuilder {
    name_opt: Option<String>,
    ipv4_addr_subnet_opt: Option<([u8; 4], u8)>,
}

impl View for IpIfaceBuilder {
    type V = IfaceConfig;

    closed spec fn view(&self) -> IfaceConfig {
        IfaceConfig {
            name: match self.name_opt {
                Some(s) => Some(s@),
                None => None,
            },
            ipv4: self.ipv4_addr_subnet_opt,
        }
    }
}

impl IpIfaceBuilder {
    /// A configuration with no name override and no address.
    pub fn new() -> (r: IpIfaceBuilder)
        ensures
            r@.name == None::<Seq<char>>,
            r@.ipv4 == None::<([u8; 4], u8)>,
    {
        IpIfaceBuilder { name_opt: None, ipv4_addr_subnet_opt: None }
    }

    /// Requests a device name; the kernel may hand back another one.
    pub fn name(self, name: String) -> (r: IpIfaceBuilder)
        ensures
            r@.name == Some(name@),
            r@.ipv4 == self@.ipv4,
    {
        IpIfaceBuilder { name_opt: Some(name), ipv4_addr_subnet_opt: self.ipv4_addr_subnet_opt }
    }

    /// Assigns an IPv4 address, with the prefix length inferred from its class.
    pub fn ipv4_addr(self, ipv4_addr: [u8; 4]) -> (r: IpIfaceBuilder)
        ensures
            r@.name == self@.name,
            r@.ipv4 == Some((ipv4_addr, class_prefix_len(ipv4_addr))),
    {
        let subnet_mask_bits = infer_prefix_len(ipv4_addr);
        IpIfaceBuilder {
            name_opt: self.name_opt,
            ipv4_addr_subnet_opt: Some((ipv4_addr, subnet_mask_bits)),
        }
    }

    /// The device name to request: the configured one, else "netsim".
    pub fn requested_name(&self) -> (r: &str)
        ensures
            r@ == effective_name(self@),
    {
        match &self.name_opt {
            Some(name) => name.as_str(),
            None => "netsim",
        }
    }

    /// The address and prefix length to assign, if any.
    pub fn ipv4_config(&self) -> (r: Option<([u8; 4], u8)>)
        ensures
            r == self@.ipv4,
    {
        self.ipv4_addr_subnet_opt
    }
}

} // verus!
