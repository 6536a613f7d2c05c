//! The port classifier: parses a modem's raw port descriptors
//! (`"<name> (<kind>)"`) into typed ports and extracts the single
//! network-capable port name.

use vstd::prelude::*;
use vstd::string::StrSliceExecFns;
use crate::strutil::{skip_spaces, token_end, str_eq, scan_skip_spaces, scan_token_end};

verus! {

/// How a modem port is classified: network-capable (`Net`), a control
/// channel (`Mbim`), or anything else (`Unknown`). Unrecognized kind
/// tokens classify as `Unknown` rather than failing.
#[derive(Debug, Clone, Copy, PartialEq, Eq, Structural)]
pub enum DeviceType {
    Net,
    Mbim,
    Unknown,
}

/// A parsed modem port: its device name and its classification.
#[derive(Debug, Clone, PartialEq, Eq)]
pub struct Port {
    pub name: String,
    pub device_type: DeviceType,
}

/// An ordered list of a modem's parsed ports.
#[derive(Debug, Clone, PartialEq, Eq)]
pub struct PortList {
    pub ports: Vec<Port>,
}

/// Start of the first token of a descriptor.
pub open spec fn tok1_start(s: Seq<char>) -> int {
    skip_spaces(s, 0)
}

/// End of the first token of a descriptor.
pub open spec fn tok1_end(s: Seq<char>) -> int {
    token_end(s, tok1_start(s))
}

/// Start of the second token of a descriptor.
pub open spec fn tok2_start(s: Seq<char>) -> int {
    skip_spaces(s, tok1_end(s))
}

/// End of the second token of a descriptor.
pub open spec fn tok2_end(s: Seq<char>) -> int {
    token_end(s, tok2_start(s))
}

/// A descriptor is well-formed when it holds at least two
/// whitespace-separated tokens.
pub open spec fn spec_port_valid(s: Seq<char>) -> bool {
    tok1_start(s) < tok1_end(s) && tok2_start(s) < tok2_end(s)
}

/// The name carried by a descriptor: its first token.
pub open spec fn spec_port_name(s: Seq<char>) -> Seq<char> {
    s.subrange(tok1_start(s), tok1_end(s))
}

/// The classification of a kind token.
pub open spec fn spec_classify(kind: Seq<char>) -> DeviceType {
    if kind == "(net)"@ {
        DeviceType::Net
    } else if kind == "(mbim)"@ {
        DeviceType::Mbim
    } else {
        DeviceType::Unknown
    }
}

/// The classification carried by a descriptor: that of its second token.
pub open spec fn spec_port_kind(s: Seq<char>) -> DeviceType {
    spec_classify(s.subrange(tok2_start(s), tok2_end(s)))
}

/// Every descriptor of the list is well-formed.
pub open spec fn spec_ports_valid(raw: Seq<String>) -> bool {
    forall|i: int| 0 <= i < raw.len() ==> spec_port_valid(#[trigger] raw[i]@)
}

/// `ports` is the classification of the raw descriptor list `raw`.
pub open spec fn spec_ports_parsed(raw: Seq<String>, ports: Seq<Port>) -> bool {
    &&& ports.len() == raw.len()
    &&& forall|i: int|
        0 <= i < raw.len() ==> (#[trigger] ports[i]).name@ == spec_port_name(raw[i]@)
            && ports[i].device_type == spec_port_kind(raw[i]@)
}

impl DeviceType {
    /// Classifies one kind token.
    pub fn classify(kind: &str) -> (r: DeviceType)
        ensures
            r == spec_classify(kind@),
    {
        if str_eq(kind, "(net)") {
            DeviceType::Net
        } else if str_eq(kind, "(mbim)") {
            DeviceType::Mbim
        } else {
            DeviceType::Unknown
        }
    }
}

impl Port {
    /// Parses one two-token descriptor; `None` when the descriptor does
    /// not hold two tokens.
    pub fn parse(s: &str) -> (r: Option<Port>)
        ensures
            r is Some == spec_port_valid(s@),
            r matches Some(p) ==> p.name@ == spec_port_name(s@) && p.device_type
                == spec_port_kind(s@),
    {
        let a = scan_skip_spaces(s, 0);
        let b = scan_token_end(s, a);
        let c = scan_skip_spaces(s, b);
        let d = scan_token_end(s, c);
        if a < b && c < d {
            let name = s.substring_char(a, b).to_owned();
            let kind = s.substring_char(c, d);
            Some(Port { name, device_type: DeviceType::classify(kind) })
        } else {
            None
        }
    }
}

/// Classifies a raw descriptor list; `None` when any descriptor is
/// malformed (not two tokens).
pub fn classify_ports(raw: &Vec<String>) -> (r: Option<PortList>)
    ensures
        r is Some == spec_ports_valid(raw@),
        r matches Some(pl) ==> spec_ports_parsed(raw@, pl.ports@),
{
    let mut ports: Vec<Port> = Vec::new();
    let mut i: usize = 0;
    while i < raw.len()
        invariant
            i <= raw@.len(),
            ports@.len() == i,
            forall|k: int|
                0 <= k < i ==> spec_port_valid(#[trigger] raw@[k]@) && ports@[k].name@
                    == spec_port_name(raw@[k]@) && ports@[k].device_type == spec_port_kind(
                    raw@[k]@,
                ),
        decreases raw@.len() - i,
    {
        match Port::parse(raw[i].as_str()) {
            Some(p) => {
                ports.push(p);
            },
            None => {
                assert(!spec_port_valid(raw@[i as int]@));
                return None;
            },
        }
        i = i + 1;
    }
    Some(PortList { ports })
}

impl PortList {
    /// Classifies a raw descriptor list whose descriptors are known to be
    /// well-formed.
    pub fn from_vec_string(ports: &Vec<String>) -> (r: PortList)
        requires
            spec_ports_valid(ports@),
        ensures
            spec_ports_parsed(ports@, r.ports@),
    {
        match classify_ports(ports) {
            Some(pl) => pl,
            None => {
                assert(false);
                PortList { ports: Vec::new() }
            },
        }
    }

    /// The name of the first network-capable port, or empty if none.
    pub fn get_net_name(&self) -> (r: String)
        ensures
            r@ == spec_net_name(self.ports@),
    {
        let mut i: usize = 0;
        proof {
            assert(self.ports@.skip(0) =~= self.ports@);
        }
        while i < self.ports.len()
            invariant
                i <= self.ports@.len(),
                spec_net_name(self.ports@) == spec_net_name(self.ports@.skip(i as int)),
                forall|k: int| 0 <= k < i ==> self.ports@[k].device_type != DeviceType::Net,
            decreases self.ports@.len() - i,
        {
            proof {
                assert(self.ports@.skip(i as int)[0] == self.ports@[i as int]);
            }
            if self.ports[i].device_type == DeviceType::Net {
                return self.ports[i].name.clone();
            }
            proof {
                assert(self.ports@.skip(i as int).drop_first() =~= self.ports@.skip(i + 1));
            }
            i = i + 1;
        }
        proof {
            assert(self.ports@.skip(i as int) =~= Seq::<Port>::empty());
        }
        String::new()
    }

    /// The name of the first control-channel port, or empty if none.
    pub fn get_dev_name(&self) -> (r: String)
        ensures
            r@ == spec_dev_name(self.ports@),
    {
        let mut i: usize = 0;
        proof {
            assert(self.ports@.skip(0) =~= self.ports@);
        }
        while i < self.ports.len()
            invariant
                i <= self.ports@.len(),
                spec_dev_name(self.ports@) == spec_dev_name(self.ports@.skip(i as int)),
                forall|k: int| 0 <= k < i ==> self.ports@[k].device_type != DeviceType::Mbim,
            decreases self.ports@.len() - i,
        {
            proof {
                assert(self.ports@.skip(i as int)[0] == self.ports@[i as int]);
            }
            if self.ports[i].device_type == DeviceType::Mbim {
                return self.ports[i].name.clone();
            }
            proof {
                assert(self.ports@.skip(i as int).drop_first() =~= self.ports@.skip(i + 1));
            }
            i = i + 1;
        }
        proof {
            assert(self.ports@.skip(i as int) =~= Seq::<Port>::empty());
        }
        String::new()
    }
}

/// The name of the first `Net` port of the list, or empty if none.
pub open spec fn spec_net_name(ports: Seq<Port>) -> Seq<char>
    decreases ports.len(),
{
    if ports.len() == 0 {
        Seq::empty()
    } else if ports[0].device_type == DeviceType::Net {
        ports[0].name@
    } else {
        spec_net_name(ports.drop_first())
    }
}

/// The name of the first `Mbim` port of the list, or empty if none.
pub open spec fn spec_dev_name(ports: Seq<Port>) -> Seq<char>
    decreases ports.len(),
{
    if ports.len() == 0 {
        Seq::empty()
    } else if ports[0].device_type == DeviceType::Mbim {
        ports[0].name@
    } else {
        spec_dev_name(ports.drop_first())
    }
}

/// The name of the first raw descriptor classified `Net`, or empty if
/// none: `spec_net_name` stated directly over the raw descriptor list.
pub open spec fn spec_net_name_of_raw(raw: Seq<String>) -> Seq<char>
    decreases raw.len(),
{
    if raw.len() == 0 {
        Seq::empty()
    } else if spec_port_kind(raw[0]@) == DeviceType::Net {
        spec_port_name(raw[0]@)
    } else {
        spec_net_name_of_raw(raw.drop_first())
    }
}

/// Law: classification commutes with net-name extraction — the name
/// extracted from the parsed ports is the name extracted from the raw
/// descriptors.
pub proof fn lemma_parsed_net_name(raw: Seq<String>, ports: Seq<Port>)
    requires
        spec_ports_parsed(raw, ports),
    ensures
        spec_net_name(ports) == spec_net_name_of_raw(raw),
    decreases raw.len(),
{
    if raw.len() > 0 {
        assert(ports[0].device_type == spec_port_kind(raw[0]@));
        if spec_port_kind(raw[0]@) == DeviceType::Net {
        } else {
            assert forall|i: int|
                0 <= i < raw.drop_first().len() implies (#[trigger] ports.drop_first()[i]).name@
                == spec_port_name(raw.drop_first()[i]@) && ports.drop_first()[i].device_type
                == spec_port_kind(raw.drop_first()[i]@) by {
                assert(ports.drop_first()[i] == ports[i + 1]);
                assert(raw.drop_first()[i] == raw[i + 1]);
            }
            lemma_parsed_net_name(raw.drop_first(), ports.drop_first());
        }
    }
}

/// The name of the first raw descriptor classified `Mbim`, or empty if
/// none: `spec_dev_name` stated directly over the raw descriptor list.
pub open spec fn spec_dev_name_of_raw(raw: Seq<String>) -> Seq<char>
    decreases raw.len(),
{
    if raw.len() == 0 {
        Seq::empty()
    } else if spec_port_kind(raw[0]@) == DeviceType::Mbim {
        spec_port_name(raw[0]@)
    } else {
        spec_dev_name_of_raw(raw.drop_first())
    }
}

/// Law: classification commutes with control-channel-name extraction.
pub proof fn lemma_parsed_dev_name(raw: Seq<String>, ports: Seq<Port>)
    requires
        spec_ports_parsed(raw, ports),
    ensures
        spec_dev_name(ports) == spec_dev_name_of_raw(raw),
    decreases raw.len(),
{
    if raw.len() > 0 {
        assert(ports[0].device_type == spec_port_kind(raw[0]@));
        if spec_port_kind(raw[0]@) == DeviceType::Mbim {
        } else {
            assert forall|i: int|
                0 <= i < raw.drop_first().len() implies (#[trigger] ports.drop_first()[i]).name@
                == spec_port_name(raw.drop_first()[i]@) && ports.drop_first()[i].device_type
                == spec_port_kind(raw.drop_first()[i]@) by {
                assert(ports.drop_first()[i] == ports[i + 1]);
                assert(raw.drop_first()[i] == raw[i + 1]);
            }
            lemma_parsed_dev_name(raw.drop_first(), ports.drop_first());
        }
    }
}

/// Law: a raw descriptor list with no entry classified `Net` yields the
/// empty name.
pub proof fn lemma_raw_net_name_absent(raw: Seq<String>)
    requires
        forall|i: int| 0 <= i < raw.len() ==> spec_port_kind(#[trigger] raw[i]@) != DeviceType::Net,
    ensures
        spec_net_name_of_raw(raw) == Seq::<char>::empty(),
    decreases raw.len(),
{
    if raw.len() > 0 {
        assert(forall|i: int|
            0 <= i < raw.drop_first().len() ==> spec_port_kind(#[trigger] raw.drop_first()[i]@)
                != DeviceType::Net);
        lemma_raw_net_name_absent(raw.drop_first());
    }
}

/// Law: a port list with no network-capable entry yields the empty name.
pub proof fn lemma_net_name_absent(ports: Seq<Port>)
    requires
        forall|i: int| 0 <= i < ports.len() ==> (#[trigger] ports[i]).device_type != DeviceType::Net,
    ensures
        spec_net_name(ports) == Seq::<char>::empty(),
    decreases ports.len(),
{
    if ports.len() > 0 {
        assert(forall|i: int|
            0 <= i < ports.drop_first().len() ==> (#[trigger] ports.drop_first()[i]).device_type
                != DeviceType::Net);
        lemma_net_name_absent(ports.drop_first());
    }
}

/// Law: a port list with exactly one network-capable entry yields that
/// entry's name, regardless of its position in the list.
pub proof fn lemma_net_name_unique(ports: Seq<Port>, i: int)
    requires
        0 <= i < ports.len(),
        ports[i].device_type == DeviceType::Net,
        forall|j: int|
            0 <= j < ports.len() && j != i ==> (#[trigger] ports[j]).device_type != DeviceType::Net,
    ensures
        spec_net_name(ports) == ports[i].name@,
    decreases ports.len(),
{
    if i == 0 {
    } else {
        assert(forall|j: int|
            0 <= j < ports.drop_first().len() && j != i - 1 ==> (#[trigger] ports.drop_first()[j]).device_type
                != DeviceType::Net);
        assert(ports.drop_first()[i - 1] == ports[i]);
        lemma_net_name_unique(ports.drop_first(), i - 1);
    }
}

/// Law: when every port name is non-empty (as is the case for parsed
/// descriptors), the extracted net name is empty exactly when the list
/// holds no network-capable port.
pub proof fn lemma_net_name_empty_iff(ports: Seq<Port>)
    requires
        forall|i: int| 0 <= i < ports.len() ==> (#[trigger] ports[i]).name@.len() > 0,
    ensures
        spec_net_name(ports).len() == 0 <==> forall|i: int|
            0 <= i < ports.len() ==> (#[trigger] ports[i]).device_type != DeviceType::Net,
    decreases ports.len(),
{
    if ports.len() > 0 {
        assert(forall|i: int|
            0 <= i < ports.drop_first().len() ==> (#[trigger] ports.drop_first()[i]).name@.len()
                > 0);
        lemma_net_name_empty_iff(ports.drop_first());
        if ports[0].device_type != DeviceType::Net {
            assert(forall|i: int|
                1 <= i < ports.len() ==> ports.drop_first()[i - 1] == #[trigger] ports[i]);
        }
    }
}

/// Law: a well-formed descriptor's name token is non-empty.
pub proof fn lemma_parsed_names_nonempty(raw: Seq<String>, ports: Seq<Port>)
    requires
        spec_ports_valid(raw),
        spec_ports_parsed(raw, ports),
    ensures
        forall|i: int| 0 <= i < ports.len() ==> (#[trigger] ports[i]).name@.len() > 0,
{
    assert forall|i: int| 0 <= i < ports.len() implies (#[trigger] ports[i]).name@.len() > 0 by {
        assert(spec_port_valid(raw[i]@));
        assert(ports[i].name@ == spec_port_name(raw[i]@));
    }
}

} // verus!
