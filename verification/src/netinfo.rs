//! What the system monitor shows about the network and the machine, as far
//! as it is computed from text that the caller has collected.

use crate::scan::{
    contains, field, field_of, find_char, index_of, last_index_of, lemma_last_index_of, lines,
    lines_from, occurs_at, occurs_in, rfind_char, same_text, starts_with, trim, trimmed,
};
use crate::text::{decimal, digits};
use vstd::prelude::*;
use vstd::string::{StrSliceExecFns, StringExecFns};

verus! {

/// The network part of the monitor's screen.
#[derive(Clone, Debug)]
pub struct NetworkData {
    pub isp: String,
    pub ipv4: String,
    pub ipv6: String,
    pub ipv6_support: bool,
    pub dns: String,
    pub location: String,
    /// The lookup is still under way.
    pub loading: bool,
}

/// The network part as plain values.
pub struct NetworkView {
    pub isp: Seq<char>,
    pub ipv4: Seq<char>,
    pub ipv6: Seq<char>,
    pub ipv6_support: bool,
    pub dns: Seq<char>,
    pub location: Seq<char>,
    pub loading: bool,
}

impl View for NetworkData {
    type V = NetworkView;

    open spec fn view(&self) -> NetworkView {
        NetworkView {
            isp: self.isp@,
            ipv4: self.ipv4@,
            ipv6: self.ipv6@,
            ipv6_support: self.ipv6_support,
            dns: self.dns@,
            location: self.location@,
            loading: self.loading,
        }
    }
}

impl NetworkView {
    /// What is shown until the first lookup ends.
    pub open spec fn loading() -> NetworkView {
        NetworkView {
            isp: "Loading..."@,
            ipv4: "Loading..."@,
            ipv6: "Loading..."@,
            ipv6_support: false,
            dns: "Loading..."@,
            location: "Loading..."@,
            loading: true,
        }
    }
}

impl Default for NetworkData {
    fn default() -> (r: NetworkData)
        ensures
            r@ == NetworkView::loading(),
    {
        NetworkData {
            isp: String::from_str("Loading..."),
            ipv4: String::from_str("Loading..."),
            ipv6: String::from_str("Loading..."),
            ipv6_support: false,
            dns: String::from_str("Loading..."),
            location: String::from_str("Loading..."),
            loading: true,
        }
    }
}

/// What the address lookup came to.
#[derive(Clone, Debug)]
pub enum Lookup {
    /// The service answered. Each field is what the answer holds under that
    /// name, if it holds a text there.
    Answer {
        org: Option<String>,
        ip: Option<String>,
        city: Option<String>,
        region: Option<String>,
        country: Option<String>,
    },
    /// The service answered with something that could not be read.
    Unreadable,
    /// The service could not be reached.
    Unreachable,
}

/// The text of a field, or `fallback` where it is missing.
pub open spec fn or_text(field: Option<String>, fallback: Seq<char>) -> Seq<char> {
    match field {
        Some(s) => s@,
        None => fallback,
    }
}

/// Country, region and city in one line, or a word for "unknown" where
/// all three are missing.
pub open spec fn location_text(
    country: Option<String>,
    region: Option<String>,
    city: Option<String>,
) -> Seq<char> {
    let joined = trimmed(
        or_text(country, Seq::empty()) + " "@ + or_text(region, Seq::empty()) + " "@ + or_text(
            city,
            Seq::empty(),
        ),
    );
    if joined.len() == 0 {
        "未知"@
    } else {
        joined
    }
}

/// The network part after a lookup.
pub open spec fn looked_up(
    lookup: Lookup,
    ipv6_support: bool,
    ipv6: Seq<char>,
    dns: Seq<char>,
) -> NetworkView {
    let shown_ipv6 = if ipv6_support {
        ipv6
    } else {
        "Loading..."@
    };
    let shown_dns = if dns.len() == 0 {
        "未知"@
    } else {
        dns
    };
    match lookup {
        Lookup::Answer { org, ip, city, region, country } => NetworkView {
            isp: or_text(org, "未知"@),
            ipv4: or_text(ip, "未知"@),
            ipv6: shown_ipv6,
            ipv6_support,
            dns: shown_dns,
            location: location_text(country, region, city),
            loading: false,
        },
        Lookup::Unreadable => NetworkView {
            isp: "获取失败"@,
            ipv4: "获取失败"@,
            ipv6: shown_ipv6,
            ipv6_support,
            dns: shown_dns,
            location: "获取失败"@,
            loading: false,
        },
        Lookup::Unreachable => NetworkView {
            isp: "网络错误"@,
            ipv4: "网络错误"@,
            ipv6: shown_ipv6,
            ipv6_support,
            dns: shown_dns,
            location: "网络错误"@,
            loading: false,
        },
    }
}

fn text_or(field: &Option<String>, fallback: &str) -> (r: String)
    ensures
        r@ == or_text(*field, fallback@),
{
    match field {
        Some(s) => s.clone(),
        None => String::from_str(fallback),
    }
}

impl NetworkData {
    /// Fills the network part from what was found out. `ipv6` is looked at
    /// only where the machine supports IPv6.
    pub fn from_lookup(lookup: &Lookup, ipv6_support: bool, ipv6: &str, dns: &str) -> (r:
        NetworkData)
        ensures
            r@ == looked_up(*lookup, ipv6_support, ipv6@, dns@),
    {
        let shown_ipv6 = if ipv6_support {
            String::from_str(ipv6)
        } else {
            String::from_str("Loading...")
        };
        let shown_dns = if dns.unicode_len() == 0 {
            String::from_str("未知")
        } else {
            String::from_str(dns)
        };
        match lookup {
            Lookup::Answer { org, ip, city, region, country } => {
                let mut joined = text_or(country, "");
                joined.append(" ");
                joined.append(text_or(region, "").as_str());
                joined.append(" ");
                joined.append(text_or(city, "").as_str());
                proof {
                    reveal_strlit("");
                    assert(""@ =~= Seq::<char>::empty());
                }
                let place: &str = trim(joined.as_str());
                let location = if place.unicode_len() == 0 {
                    String::from_str("未知")
                } else {
                    String::from_str(place)
                };
                NetworkData {
                    isp: text_or(org, "未知"),
                    ipv4: text_or(ip, "未知"),
                    ipv6: shown_ipv6,
                    ipv6_support,
                    dns: shown_dns,
                    location,
                    loading: false,
                }
            },
            Lookup::Unreadable => NetworkData {
                isp: String::from_str("获取失败"),
                ipv4: String::from_str("获取失败"),
                ipv6: shown_ipv6,
                ipv6_support,
                dns: shown_dns,
                location: String::from_str("获取失败"),
                loading: false,
            },
            Lookup::Unreachable => NetworkData {
                isp: String::from_str("网络错误"),
                ipv4: String::from_str("网络错误"),
                ipv6: shown_ipv6,
                ipv6_support,
                dns: shown_dns,
                location: String::from_str("网络错误"),
                loading: false,
            },
        }
    }
}

/// The server named by the first `nameserver` line that names one; empty
/// where there is none.
pub open spec fn nameserver_in(lines: Seq<Seq<char>>) -> Seq<char>
    decreases lines.len(),
{
    if lines.len() == 0 {
        Seq::empty()
    } else if occurs_at(lines[0], "nameserver"@, 0) && field_of(lines[0], 1) is Some {
        field_of(lines[0], 1)->0
    } else {
        nameserver_in(lines.drop_first())
    }
}

/// Finds the DNS server in the text of a resolver configuration.
pub fn first_nameserver(content: &str) -> (r: String)
    ensures
        r@ == nameserver_in(lines_from(content@, 0)),
{
    let rows = lines(content);
    let ghost texts = lines_from(content@, 0);
    let mut i: usize = 0;
    proof {
        assert(texts.skip(0) =~= texts);
    }
    while i < rows.len()
        invariant
            i <= rows.len(),
            texts == lines_from(content@, 0),
            rows@.len() == texts.len(),
            forall|k: int| 0 <= k < rows@.len() ==> (#[trigger] rows@[k])@ == texts[k],
            nameserver_in(texts.skip(i as int)) == nameserver_in(texts),
        decreases rows.len() - i,
    {
        let line: &str = rows[i].as_str();
        proof {
            let rest = texts.skip(i as int);
            assert(rows@[i as int]@ == texts[i as int]);
            assert(rest[0] == line@);
            assert(rest.drop_first() =~= texts.skip(i + 1));
        }
        if starts_with(line, "nameserver") {
            match field(line, 1) {
                Some(server) => {
                    assert(nameserver_in(texts.skip(i as int)) == server@);
                    return String::from_str(server);
                },
                None => {},
            }
        }
        i = i + 1;
    }
    proof {
        assert(texts.skip(rows.len() as int) =~= Seq::<Seq<char>>::empty());
    }
    String::new()
}

/// An uptime in words: days, hours and minutes, with the leading parts
/// left out while they are zero.
pub open spec fn uptime_text(secs: nat) -> Seq<char> {
    let days = secs / 86400;
    let hours = (secs % 86400) / 3600;
    let minutes = (secs % 3600) / 60;
    if days > 0 {
        digits(days) + "天 "@ + digits(hours) + "时 "@ + digits(minutes) + "分"@
    } else if hours > 0 {
        digits(hours) + "时 "@ + digits(minutes) + "分"@
    } else {
        digits(minutes) + "分钟"@
    }
}

/// Words an uptime given in seconds.
pub fn format_uptime(uptime_secs: u64) -> (r: String)
    ensures
        r@ == uptime_text(uptime_secs as nat),
{
    let days: u64 = uptime_secs / 86400;
    let hours: u64 = (uptime_secs % 86400) / 3600;
    let minutes: u64 = (uptime_secs % 3600) / 60;
    if days > 0 {
        let mut s = decimal(days as u128);
        s.append("天 ");
        s.append(decimal(hours as u128).as_str());
        s.append("时 ");
        s.append(decimal(minutes as u128).as_str());
        s.append("分");
        s
    } else if hours > 0 {
        let mut s = decimal(hours as u128);
        s.append("时 ");
        s.append(decimal(minutes as u128).as_str());
        s.append("分");
        s
    } else {
        let mut s = decimal(minutes as u128);
        s.append("分钟");
        s
    }
}

/// What a key press asks of the monitor.
#[derive(Debug, Clone, Copy, PartialEq, Eq, Structural)]
pub enum MonitorCommand {
    Quit,
    Refresh,
    Stay,
}

/// `q`, `Q`, Enter and Ctrl-C leave the monitor; `r` and `R` refresh it.
/// Ctrl-C counts only where `c` comes with the control key.
pub open spec fn monitor_command_of(c: Option<char>, enter: bool, control: bool) -> MonitorCommand {
    if enter {
        MonitorCommand::Quit
    } else {
        match c {
            Some(ch) => if ch == 'q' || ch == 'Q' {
                MonitorCommand::Quit
            } else if ch == 'r' || ch == 'R' {
                MonitorCommand::Refresh
            } else if ch == 'c' && control {
                MonitorCommand::Quit
            } else {
                MonitorCommand::Stay
            },
            None => MonitorCommand::Stay,
        }
    }
}

/// Reads a key press of the monitor: the character of the key if it has
/// one, whether it is Enter, and whether the control key is held.
pub fn monitor_command(c: Option<char>, enter: bool, control: bool) -> (r: MonitorCommand)
    ensures
        r == monitor_command_of(c, enter, control),
{
    if enter {
        return MonitorCommand::Quit;
    }
    match c {
        Some(ch) => {
            if ch == 'q' || ch == 'Q' {
                MonitorCommand::Quit
            } else if ch == 'r' || ch == 'R' {
                MonitorCommand::Refresh
            } else if ch == 'c' && control {
                MonitorCommand::Quit
            } else {
                MonitorCommand::Stay
            }
        },
        None => MonitorCommand::Stay,
    }
}

/// The address on the first line of `ip -6 addr` that shows a global
/// address: the second field of the line, up to its `/`.
pub open spec fn global_address_in(lines: Seq<Seq<char>>) -> Option<Seq<char>>
    decreases lines.len(),
{
    if lines.len() == 0 {
        None
    } else if occurs_in(lines[0], "inet6"@) && !occurs_in(lines[0], "fe80"@) && field_of(
        lines[0],
        1,
    ) is Some {
        let addr = field_of(lines[0], 1)->0;
        Some(addr.take(index_of(addr, '/', 0)))
    } else {
        global_address_in(lines.drop_first())
    }
}

/// Whether a text looks like an IPv6 address: without the spaces at its
/// ends it is not empty and holds a colon.
pub open spec fn address_like(text: Seq<char>) -> bool {
    trimmed(text).len() > 0 && occurs_in(trimmed(text), ":"@)
}

/// Tells whether a text looks like an IPv6 address.
pub fn looks_like_ipv6(text: &str) -> (r: bool)
    ensures
        r == address_like(text@),
{
    let address: &str = trim(text);
    address.unicode_len() > 0 && contains(address, ":")
}

/// The public IPv6 address: what the lookup service printed, if that looks
/// like an address; else the first global address of a local interface;
/// else a note that there is none. `None` stands for a command that could
/// not be run.
pub open spec fn ipv6_text(service: Option<Seq<char>>, interfaces: Option<Seq<char>>) -> Seq<char> {
    if service is Some && address_like(service->0) {
        trimmed(service->0)
    } else if interfaces is Some && global_address_in(lines_from(interfaces->0, 0)) is Some {
        global_address_in(lines_from(interfaces->0, 0))->0
    } else {
        "无公网IPv6"@
    }
}

fn global_address(output: &str) -> (r: Option<String>)
    ensures
        r is Some <==> global_address_in(lines_from(output@, 0)) is Some,
        r is Some ==> r->0@ == global_address_in(lines_from(output@, 0))->0,
{
    let rows = lines(output);
    let ghost texts = lines_from(output@, 0);
    let mut i: usize = 0;
    proof {
        assert(texts.skip(0) =~= texts);
    }
    while i < rows.len()
        invariant
            i <= rows.len(),
            texts == lines_from(output@, 0),
            rows@.len() == texts.len(),
            forall|k: int| 0 <= k < rows@.len() ==> (#[trigger] rows@[k])@ == texts[k],
            global_address_in(texts.skip(i as int)) == global_address_in(texts),
        decreases rows.len() - i,
    {
        let line: &str = rows[i].as_str();
        proof {
            let rest = texts.skip(i as int);
            assert(rows@[i as int]@ == texts[i as int]);
            assert(rest[0] == line@);
            assert(rest.drop_first() =~= texts.skip(i + 1));
        }
        if contains(line, "inet6") && !contains(line, "fe80") {
            match field(line, 1) {
                Some(addr) => {
                    let slash: usize = find_char(addr, '/', 0);
                    let host: &str = addr.substring_char(0, slash);
                    assert(host@ =~= addr@.take(slash as int));
                    assert(global_address_in(texts.skip(i as int)) == Some(host@));
                    return Some(String::from_str(host));
                },
                None => {},
            }
        }
        i = i + 1;
    }
    proof {
        assert(texts.skip(rows.len() as int) =~= Seq::<Seq<char>>::empty());
    }
    None
}

/// Picks the public IPv6 address from what the lookup service and the
/// interface listing printed.
pub fn pick_ipv6(service: Option<&str>, interfaces: Option<&str>) -> (r: String)
    ensures
        r@ == ipv6_text(
            match service {
                Some(s) => Some(s@),
                None => None,
            },
            match interfaces {
                Some(s) => Some(s@),
                None => None,
            },
        ),
{
    match service {
        Some(printed) => {
            if looks_like_ipv6(printed) {
                return String::from_str(trim(printed));
            }
        },
        None => {},
    }
    match interfaces {
        Some(listing) => match global_address(listing) {
            Some(address) => {
                return address;
            },
            None => {},
        },
        None => {},
    }
    String::from_str("无公网IPv6")
}

/// Whether the machine supports IPv6: the kernel says so, or else the
/// first of the two interface listings that could be made shows an IPv6
/// address.
pub open spec fn ipv6_supported_by(
    kernel: bool,
    ip_listing: Option<Seq<char>>,
    ifconfig_listing: Option<Seq<char>>,
) -> bool {
    if kernel {
        true
    } else if ip_listing is Some {
        occurs_in(ip_listing->0, "inet6"@)
    } else if ifconfig_listing is Some {
        occurs_in(ifconfig_listing->0, "inet6"@)
    } else {
        false
    }
}

/// Tells whether the machine supports IPv6. `None` stands for a listing that could not be made.
pub fn ipv6_supported(kernel: bool, ip_listing: Option<&str>, ifconfig_listing: Option<&str>) -> (r:
    bool)
    ensures
        r == ipv6_supported_by(
            kernel,
            match ip_listing {
                Some(s) => Some(s@),
                None => None,
            },
            match ifconfig_listing {
                Some(s) => Some(s@),
                None => None,
            },
        ),
{
    if kernel {
        return true;
    }
    match ip_listing {
        Some(listing) => contains(listing, "inet6"),
        None => match ifconfig_listing {
            Some(listing) => contains(listing, "inet6"),
            None => false,
        },
    }
}

/// The first of `keywords` that stands in `content`.
pub open spec fn first_keyword_in(content: Seq<char>, keywords: Seq<Seq<char>>) -> Option<
    Seq<char>,
>
    decreases keywords.len(),
{
    if keywords.len() == 0 {
        None
    } else if occurs_in(content, keywords[0]) {
        Some(keywords[0])
    } else {
        first_keyword_in(content, keywords.drop_first())
    }
}

/// Names that give a hypervisor away in the product name of the machine.
pub open spec fn product_keywords() -> Seq<Seq<char>> {
    seq!["VMware"@, "VirtualBox"@, "QEMU"@, "KVM"@, "Bochs"@, "Parallels"@, "BHYVE"@]
}

/// Names that give a hypervisor away in the vendor of the machine.
pub open spec fn vendor_keywords() -> Seq<Seq<char>> {
    seq![
        "VMware"@,
        "Oracle Corporation"@,
        "QEMU"@,
        "Red Hat"@,
        "Microsoft"@,
        "Xen"@,
        "Parallels"@,
        "BHYVE"@,
    ]
}

/// Names that give a hypervisor away in the list of SCSI devices.
pub open spec fn scsi_keywords() -> Seq<Seq<char>> {
    seq!["VMware"@, "Virtual"@, "QEMU"@, "KVM"@, "Xen"@]
}

/// What a source says about the hypervisor: nothing where it could not be
/// read.
pub open spec fn hint_in(content: Option<Seq<char>>, keywords: Seq<Seq<char>>) -> Option<
    Seq<char>,
> {
    match content {
        Some(c) => first_keyword_in(c, keywords),
        None => None,
    }
}

/// The kind of virtual machine: the first hint among product name, vendor
/// and SCSI devices; else what the detection tool printed, unless that is
/// nothing or `none`; else a note that the machine is physical or unknown.
pub open spec fn vm_type_text(
    product: Option<Seq<char>>,
    vendor: Option<Seq<char>>,
    scsi: Option<Seq<char>>,
    detected: Option<Seq<char>>,
) -> Seq<char> {
    if hint_in(product, product_keywords()) is Some {
        hint_in(product, product_keywords())->0
    } else if hint_in(vendor, vendor_keywords()) is Some {
        hint_in(vendor, vendor_keywords())->0
    } else if hint_in(scsi, scsi_keywords()) is Some {
        hint_in(scsi, scsi_keywords())->0
    } else if detected is Some && trimmed(detected->0).len() > 0 && trimmed(detected->0)
        != "none"@ {
        trimmed(detected->0)
    } else {
        "Physical/Unknown"@
    }
}

fn first_keyword(content: &str, keywords: &Vec<&'static str>) -> (r: Option<&'static str>)
    ensures
        r is Some <==> first_keyword_in(content@, keywords@.map_values(|k: &'static str| k@))
            is Some,
        r is Some ==> r->0@ == first_keyword_in(
            content@,
            keywords@.map_values(|k: &'static str| k@),
        )->0,
{
    let ghost words = keywords@.map_values(|k: &'static str| k@);
    let mut i: usize = 0;
    proof {
        assert(words.skip(0) =~= words);
    }
    while i < keywords.len()
        invariant
            i <= keywords.len(),
            words == keywords@.map_values(|k: &'static str| k@),
            first_keyword_in(content@, words.skip(i as int)) == first_keyword_in(content@, words),
        decreases keywords.len() - i,
    {
        proof {
            let rest = words.skip(i as int);
            assert(rest[0] == keywords@[i as int]@);
            assert(rest.drop_first() =~= words.skip(i + 1));
        }
        if contains(content, keywords[i]) {
            return Some(keywords[i]);
        }
        i = i + 1;
    }
    proof {
        assert(words.skip(keywords.len() as int) =~= Seq::<Seq<char>>::empty());
    }
    None
}

fn hint(content: Option<&str>, keywords: &Vec<&'static str>) -> (r: Option<&'static str>)
    ensures
        r is Some <==> hint_in(
            match content {
                Some(c) => Some(c@),
                None => None,
            },
            keywords@.map_values(|k: &'static str| k@),
        ) is Some,
        r is Some ==> r->0@ == hint_in(
            match content {
                Some(c) => Some(c@),
                None => None,
            },
            keywords@.map_values(|k: &'static str| k@),
        )->0,
{
    match content {
        Some(c) => first_keyword(c, keywords),
        None => None,
    }
}

/// Names the kind of virtual machine from the texts of the three sources
/// and the output of the detection tool. `None` stands for a source that
/// could not be read, and for a tool that did not succeed.
pub fn vm_type(
    product: Option<&str>,
    vendor: Option<&str>,
    scsi: Option<&str>,
    detected: Option<&str>,
) -> (r: String)
    ensures
        r@ == vm_type_text(
            match product {
                Some(s) => Some(s@),
                None => None,
            },
            match vendor {
                Some(s) => Some(s@),
                None => None,
            },
            match scsi {
                Some(s) => Some(s@),
                None => None,
            },
            match detected {
                Some(s) => Some(s@),
                None => None,
            },
        ),
{
    let product_words: Vec<&'static str> = vec![
        "VMware",
        "VirtualBox",
        "QEMU",
        "KVM",
        "Bochs",
        "Parallels",
        "BHYVE",
    ];
    let vendor_words: Vec<&'static str> = vec![
        "VMware",
        "Oracle Corporation",
        "QEMU",
        "Red Hat",
        "Microsoft",
        "Xen",
        "Parallels",
        "BHYVE",
    ];
    let scsi_words: Vec<&'static str> = vec!["VMware", "Virtual", "QEMU", "KVM", "Xen"];
    proof {
        assert(product_words@.map_values(|k: &'static str| k@) =~= product_keywords());
        assert(vendor_words@.map_values(|k: &'static str| k@) =~= vendor_keywords());
        assert(scsi_words@.map_values(|k: &'static str| k@) =~= scsi_keywords());
    }
    match hint(product, &product_words) {
        Some(word) => {
            return String::from_str(word);
        },
        None => {},
    }
    match hint(vendor, &vendor_words) {
        Some(word) => {
            return String::from_str(word);
        },
        None => {},
    }
    match hint(scsi, &scsi_words) {
        Some(word) => {
            return String::from_str(word);
        },
        None => {},
    }
    match detected {
        Some(printed) => {
            let kind: &str = trim(printed);
            if kind.unicode_len() > 0 && !same_text(kind, "none") {
                return String::from_str(kind);
            }
        },
        None => {},
    }
    String::from_str("Physical/Unknown")
}

/// What the monitor shows for a feature of the processor.
pub open spec fn support_text(supported: bool) -> Seq<char> {
    if supported {
        "✔ Enabled"@
    } else {
        "❌ Disabled"@
    }
}

/// Whether the processor has AES instructions: a search of the processor
/// description found `aes`, or else the description itself, where it could
/// be read, holds the word.
pub open spec fn aes_supported(search_hit: bool, description: Option<Seq<char>>) -> bool {
    search_hit || (description is Some && occurs_in(description->0, "aes"@))
}

/// The line of the monitor on AES instructions.
pub fn aes_support(search_hit: bool, description: Option<&str>) -> (r: &'static str)
    ensures
        r@ == support_text(
            aes_supported(
                search_hit,
                match description {
                    Some(s) => Some(s@),
                    None => None,
                },
            ),
        ),
{
    let found: bool = search_hit || match description {
        Some(text) => contains(text, "aes"),
        None => false,
    };
    support_label(found)
}

/// The words for a feature that is there or is not.
pub fn support_label(supported: bool) -> (r: &'static str)
    ensures
        r@ == support_text(supported),
{
    if supported {
        "✔ Enabled"
    } else {
        "❌ Disabled"
    }
}

/// Whether the network part shows an IPv6 address: the machine supports
/// IPv6 and the address is a real one, not a note.
pub open spec fn shows_ipv6(data: NetworkView) -> bool {
    data.ipv6_support && data.ipv6.len() > 0 && data.ipv6 != "Loading..."@ && data.ipv6
        != "无公网IPv6"@
}

impl NetworkData {
    /// Whether there is an IPv6 address to show.
    pub fn has_public_ipv6(&self) -> (r: bool)
        ensures
            r == shows_ipv6(self@),
    {
        self.ipv6_support && self.ipv6.as_str().unicode_len() > 0 && !same_text(
            self.ipv6.as_str(),
            "Loading...",
        ) && !same_text(self.ipv6.as_str(), "无公网IPv6")
    }
}

/// What is shown for a command's output: the output without the spaces at
/// its ends, or a word for "unknown" where the command printed no text or
/// could not be run.
pub open spec fn shown_output(output: Option<Seq<char>>) -> Seq<char> {
    match output {
        Some(text) => trimmed(text),
        None => "未知"@,
    }
}

/// Words the output of a command for the screen.
pub fn output_or_unknown(output: Option<&str>) -> (r: String)
    ensures
        r@ == shown_output(
            match output {
                Some(s) => Some(s@),
                None => None,
            },
        ),
{
    match output {
        Some(text) => String::from_str(trim(text)),
        None => String::from_str("未知"),
    }
}

/// A text, or a word for "unknown" where it is empty.
pub fn text_or_unknown(text: &str) -> (r: String)
    ensures
        r@ == (if text@.len() == 0 {
            "未知"@
        } else {
            text@
        }),
{
    if text.unicode_len() == 0 {
        String::from_str("未知")
    } else {
        String::from_str(text)
    }
}

/// The name of a shell: what follows the last `/` of its path, or the whole
/// path where it has none.
pub open spec fn shell_name_of(path: Seq<char>) -> Seq<char> {
    path.skip(last_index_of(path, '/') + 1)
}

/// Names a shell by the last part of its path.
pub fn shell_name(path: &str) -> (r: String)
    ensures
        r@ == shell_name_of(path@),
{
    let len: usize = path.unicode_len();
    let start: usize = match rfind_char(path, '/') {
        Some(at) => at + 1,
        None => 0,
    };
    let name: &str = path.substring_char(start, len);
    proof {
        lemma_last_index_of(path@, '/');
        assert(name@ =~= path@.skip(start as int));
    }
    String::from_str(name)
}

} // verus!
