//! Reading the output of `ss` and `netstat`, and wording what a command
//! did.

use crate::portmgr::{lowercase_of, to_lowercase, PortManager, PortView};
use crate::scan::{
    contains, field, field_of, last_index_of, lines, lines_from, occurs_in, rfind_char, trim,
    trimmed,
};
use crate::text::{decimal, digits};
use vstd::prelude::*;
use vstd::string::{StrSliceExecFns, StringExecFns};

verus! {

/// What follows the last `:` of an address; `None` where it has none.
pub open spec fn port_of_address(addr: Seq<char>) -> Option<Seq<char>> {
    if last_index_of(addr, ':') >= 0 {
        Some(addr.skip(last_index_of(addr, ':') + 1))
    } else {
        None
    }
}

/// The entry for a socket that `ss` lists with local address `addr` and
/// protocol `protocol`: `port/protocol`, unless the port is missing or `*`.
pub open spec fn ss_entry_text(protocol: Seq<char>, addr: Seq<char>) -> Option<Seq<char>> {
    match port_of_address(addr) {
        Some(port) => if port.len() > 0 && port != "*"@ {
            Some(port + "/"@ + protocol)
        } else {
            None
        },
        None => None,
    }
}

/// The entry for one line of `ss -tuln`: the first field is the protocol,
/// the fifth the local address.
pub open spec fn ss_line_text(line: Seq<char>) -> Option<Seq<char>> {
    if field_of(line, 4) is Some && field_of(line, 0) is Some {
        ss_entry_text(lowercase_of(field_of(line, 0)->0), field_of(line, 4)->0)
    } else {
        None
    }
}

/// The entry for one line of `netstat -tuln`: the fourth field is the local
/// address; the protocol is `tcp` where the line says so, else `udp`.
pub open spec fn netstat_line_text(line: Seq<char>) -> Option<Seq<char>> {
    if field_of(line, 3) is Some {
        match port_of_address(field_of(line, 3)->0) {
            Some(port) => Some(
                port + "/"@ + if occurs_in(line, "tcp"@) {
                    "tcp"@
                } else {
                    "udp"@
                },
            ),
            None => None,
        }
    } else {
        None
    }
}

fn port_after_colon(addr: &str) -> (r: Option<&str>)
    ensures
        r is Some <==> port_of_address(addr@) is Some,
        r is Some ==> r->0@ == port_of_address(addr@)->0,
{
    match rfind_char(addr, ':') {
        Some(at) => {
            let len: usize = addr.unicode_len();
            let port: &str = addr.substring_char(at + 1, len);
            assert(port@ =~= addr@.skip(at + 1));
            Some(port)
        },
        None => None,
    }
}

/// Builds the entry for a socket from its protocol, already in lower case,
/// and its local address.
pub fn ss_entry(protocol: &str, addr: &str) -> (r: Option<String>)
    ensures
        r is Some <==> ss_entry_text(protocol@, addr@) is Some,
        r is Some ==> r->0@ == ss_entry_text(protocol@, addr@)->0,
{
    match port_after_colon(addr) {
        Some(port) => {
            proof {
                reveal_strlit("*");
            }
            let len: usize = port.unicode_len();
            if len == 0 || (len == 1 && port.get_char(0) == '*') {
                assert(len == 1 && port@[0] == '*' ==> port@ =~= "*"@);
                None
            } else {
                assert(port@ != "*"@);
                let mut s: String = port.to_owned();
                s.append("/");
                s.append(protocol);
                Some(s)
            }
        },
        None => None,
    }
}

impl PortManager {
    /// Reads one line of `ss -tuln`.
    pub fn extract_port_from_ss(&self, line: &str) -> (r: Option<String>)
        ensures
            r is Some <==> ss_line_text(line@) is Some,
            r is Some ==> r->0@ == ss_line_text(line@)->0,
    {
        match field(line, 4) {
            Some(addr) => match field(line, 0) {
                Some(first) => {
                    let protocol: String = to_lowercase(first);
                    ss_entry(protocol.as_str(), addr)
                },
                None => None,
            },
            None => None,
        }
    }

    /// Reads one line of `netstat -tuln`.
    pub fn extract_port_from_netstat(&self, line: &str) -> (r: Option<String>)
        ensures
            r is Some <==> netstat_line_text(line@) is Some,
            r is Some ==> r->0@ == netstat_line_text(line@)->0,
    {
        match field(line, 3) {
            Some(addr) => match port_after_colon(addr) {
                Some(port) => {
                    let mut s: String = port.to_owned();
                    s.append("/");
                    if contains(line, "tcp") {
                        s.append("tcp");
                    } else {
                        s.append("udp");
                    }
                    Some(s)
                },
                None => None,
            },
            None => None,
        }
    }
}

/// The entries of the lines that have one, in the order of the lines.
pub open spec fn ss_entries(lines: Seq<Seq<char>>) -> Seq<Seq<char>>
    decreases lines.len(),
{
    if lines.len() == 0 {
        Seq::empty()
    } else {
        match ss_line_text(lines.last()) {
            Some(entry) => ss_entries(lines.drop_last()).push(entry),
            None => ss_entries(lines.drop_last()),
        }
    }
}

/// Whether a line of `netstat` describes a listening socket: it says
/// `LISTEN`, or it is about udp.
pub open spec fn netstat_listens(line: Seq<char>) -> bool {
    occurs_in(line, "LISTEN"@) || occurs_in(line, "udp"@)
}

/// The entries of the listening lines that have one.
pub open spec fn netstat_entries(lines: Seq<Seq<char>>) -> Seq<Seq<char>>
    decreases lines.len(),
{
    if lines.len() == 0 {
        Seq::empty()
    } else if netstat_listens(lines.last()) && netstat_line_text(lines.last()) is Some {
        netstat_entries(lines.drop_last()).push(netstat_line_text(lines.last())->0)
    } else {
        netstat_entries(lines.drop_last())
    }
}

/// Each entry on a line of its own, indented by two spaces.
pub open spec fn bullets(entries: Seq<Seq<char>>) -> Seq<char>
    decreases entries.len(),
{
    if entries.len() == 0 {
        Seq::empty()
    } else {
        bullets(entries.drop_last()) + "  "@ + entries.last() + "\n"@
    }
}

/// How many entries of `ss` are shown before the rest is only counted.
pub const SHOWN_PORTS: usize = 10;

/// The lines below the header line.
pub open spec fn below_header(lines: Seq<Seq<char>>) -> Seq<Seq<char>> {
    if lines.len() == 0 {
        lines
    } else {
        lines.skip(1)
    }
}

/// The report on the output of `ss -tuln`: a heading, then the first ten
/// entries and a count of the others, or a line that says there are none.
/// The first line of the output is its header and is skipped.
pub open spec fn ss_report(output: Seq<char>) -> Seq<char> {
    let entries = ss_entries(below_header(lines_from(output, 0)));
    "监听端口:\n"@ + if entries.len() == 0 {
        "无监听端口\n"@
    } else if entries.len() <= SHOWN_PORTS {
        bullets(entries)
    } else {
        bullets(entries.take(SHOWN_PORTS as int)) + "  ... 还有 "@ + digits(
            (entries.len() - SHOWN_PORTS) as nat,
        ) + " 个端口\n"@
    }
}

/// The report on the output of `netstat -tuln`.
pub open spec fn netstat_report(output: Seq<char>) -> Seq<char> {
    "监听端口:\n"@ + bullets(netstat_entries(lines_from(output, 0)))
}

/// What a listing of the ports came to.
#[derive(Debug, Clone, PartialEq, Eq)]
pub enum PortListing {
    /// `ss -tuln` ran; this is what it printed.
    Ss(String),
    /// `ss` could not be run, `netstat -tuln` could; this is what it
    /// printed.
    Netstat(String),
    /// Neither could be run.
    Unavailable,
}

/// The status line for a listing: the report without the spaces at its
/// ends.
pub open spec fn listing_message(listing: PortListing) -> Seq<char> {
    match listing {
        PortListing::Ss(output) => trimmed(ss_report(output@)),
        PortListing::Netstat(output) => trimmed(netstat_report(output@)),
        PortListing::Unavailable => "无法获取端口信息"@,
    }
}

fn append_bullet(out: &mut String, entry: &str)
    ensures
        final(out)@ == old(out)@ + "  "@ + entry@ + "\n"@,
{
    out.append("  ");
    out.append(entry);
    out.append("\n");
}

fn collect_ss(pm: &PortManager, rows: &Vec<String>) -> (r: Vec<String>)
    ensures
        r@.len() == ss_entries(below_header(rows@.map_values(|l: String| l@))).len(),
        forall|i: int|
            0 <= i < r@.len() ==> (#[trigger] r@[i])@ == ss_entries(
                below_header(rows@.map_values(|l: String| l@)),
            )[i],
{
    let ghost texts = below_header(rows@.map_values(|l: String| l@));
    let mut out: Vec<String> = Vec::new();
    if rows.len() == 0 {
        return out;
    }
    let mut i: usize = 1;
    proof {
        assert(texts.take(0) =~= Seq::<Seq<char>>::empty());
    }
    while i < rows.len()
        invariant
            1 <= i <= rows.len(),
            texts == below_header(rows@.map_values(|l: String| l@)),
            out@.len() == ss_entries(texts.take(i - 1)).len(),
            forall|k: int|
                0 <= k < out@.len() ==> (#[trigger] out@[k])@ == ss_entries(texts.take(i - 1))[k],
        decreases rows.len() - i,
    {
        let found = pm.extract_port_from_ss(rows[i].as_str());
        proof {
            let upto = texts.take(i as int);
            assert(upto.drop_last() =~= texts.take(i - 1));
            assert(upto.last() == rows@[i as int]@);
        }
        match found {
            Some(entry) => {
                out.push(entry);
            },
            None => {},
        }
        i = i + 1;
    }
    proof {
        assert(texts.take(rows.len() - 1) =~= texts);
    }
    out
}

fn collect_netstat(pm: &PortManager, rows: &Vec<String>) -> (r: Vec<String>)
    ensures
        r@.len() == netstat_entries(rows@.map_values(|l: String| l@)).len(),
        forall|i: int|
            0 <= i < r@.len() ==> (#[trigger] r@[i])@ == netstat_entries(
                rows@.map_values(|l: String| l@),
            )[i],
{
    let ghost texts = rows@.map_values(|l: String| l@);
    let mut out: Vec<String> = Vec::new();
    let mut i: usize = 0;
    proof {
        assert(texts.take(0) =~= Seq::<Seq<char>>::empty());
    }
    while i < rows.len()
        invariant
            i <= rows.len(),
            texts == rows@.map_values(|l: String| l@),
            out@.len() == netstat_entries(texts.take(i as int)).len(),
            forall|k: int|
                0 <= k < out@.len() ==> (#[trigger] out@[k])@ == netstat_entries(
                    texts.take(i as int),
                )[k],
        decreases rows.len() - i,
    {
        let line: &str = rows[i].as_str();
        proof {
            let upto = texts.take(i + 1);
            assert(upto.drop_last() =~= texts.take(i as int));
            assert(upto.last() == line@);
        }
        if contains(line, "LISTEN") || contains(line, "udp") {
            match pm.extract_port_from_netstat(line) {
                Some(entry) => {
                    out.push(entry);
                },
                None => {},
            }
        }
        i = i + 1;
    }
    proof {
        assert(texts.take(rows.len() as int) =~= texts);
    }
    out
}

fn append_bullets(out: &mut String, entries: &Vec<String>, count: usize)
    requires
        count <= entries@.len(),
    ensures
        final(out)@ == old(out)@ + bullets(entries@.map_values(|e: String| e@).take(count as int)),
{
    let ghost texts = entries@.map_values(|e: String| e@);
    let ghost start = out@;
    let mut i: usize = 0;
    proof {
        assert(texts.take(0) =~= Seq::<Seq<char>>::empty());
        assert(start + bullets(texts.take(0)) =~= start);
    }
    while i < count
        invariant
            i <= count <= entries@.len(),
            texts == entries@.map_values(|e: String| e@),
            out@ == start + bullets(texts.take(i as int)),
        decreases count - i,
    {
        append_bullet(out, entries[i].as_str());
        proof {
            let upto = texts.take(i + 1);
            assert(upto.drop_last() =~= texts.take(i as int));
            assert(upto.last() == entries@[i as int]@);
            assert(out@ =~= start + bullets(upto));
        }
        i = i + 1;
    }
}

proof fn lemma_same_entries(a: Seq<Seq<char>>, b: Seq<Seq<char>>)
    requires
        a.len() == b.len(),
        forall|i: int| 0 <= i < a.len() ==> a[i] == b[i],
    ensures
        a == b,
{
    assert(a =~= b);
}

impl PortManager {
    /// Puts the listening ports, as `listing` gives them, on the status
    /// line.
    pub fn list_ports(&mut self, listing: &PortListing)
        ensures
            final(self)@ == (PortView { message: listing_message(*listing), ..old(self)@ }),
    {
        let mut result = String::new();
        match listing {
            PortListing::Ss(output) => {
                let rows = lines(output.as_str());
                let entries = collect_ss(self, &rows);
                proof {
                    lemma_same_entries(rows@.map_values(|l: String| l@), lines_from(output@, 0));
                    lemma_same_entries(
                        entries@.map_values(|e: String| e@),
                        ss_entries(below_header(lines_from(output@, 0))),
                    );
                }
                result.append("监听端口:\n");
                if entries.len() == 0 {
                    result.append("无监听端口\n");
                } else if entries.len() <= SHOWN_PORTS {
                    append_bullets(&mut result, &entries, entries.len());
                    proof {
                        let texts = entries@.map_values(|e: String| e@);
                        assert(texts.take(entries.len() as int) =~= texts);
                    }
                } else {
                    append_bullets(&mut result, &entries, SHOWN_PORTS);
                    result.append("  ... 还有 ");
                    result.append(decimal((entries.len() - SHOWN_PORTS) as u128).as_str());
                    result.append(" 个端口\n");
                }
                assert(result@ =~= ss_report(output@));
                self.message = trim(result.as_str()).to_owned();
            },
            PortListing::Netstat(output) => {
                let rows = lines(output.as_str());
                let entries = collect_netstat(self, &rows);
                proof {
                    lemma_same_entries(rows@.map_values(|l: String| l@), lines_from(output@, 0));
                    lemma_same_entries(
                        entries@.map_values(|e: String| e@),
                        netstat_entries(lines_from(output@, 0)),
                    );
                    let texts = entries@.map_values(|e: String| e@);
                    assert(texts.take(entries.len() as int) =~= texts);
                }
                result.append("监听端口:\n");
                append_bullets(&mut result, &entries, entries.len());
                assert(result@ =~= netstat_report(output@));
                self.message = trim(result.as_str()).to_owned();
            },
            PortListing::Unavailable => {
                self.message = String::from_str("无法获取端口信息");
            },
        }
    }
}

/// How a command ended.
#[derive(Debug, Clone, PartialEq, Eq)]
pub enum CommandOutcome {
    /// It ran and exited with success; this is its standard output.
    Succeeded { stdout: String },
    /// It ran and exited with failure; this is its standard error.
    Failed { stderr: String },
    /// It could not be started; this is why.
    NotStarted { reason: String },
}

/// The status line for a command that was run with `sudo`.
pub open spec fn outcome_message(outcome: CommandOutcome) -> Seq<char> {
    match outcome {
        CommandOutcome::Succeeded { stdout } => if trimmed(stdout@).len() == 0 {
            "成功: 操作已完成"@
        } else {
            "成功: "@ + trimmed(stdout@)
        },
        CommandOutcome::Failed { stderr } => if occurs_in(stderr@, "password"@) || occurs_in(
            stderr@,
            "sudo"@,
        ) {
            "错误: 需要 sudo 权限，请在终端中运行"@
        } else {
            "错误: "@ + trimmed(stderr@)
        },
        CommandOutcome::NotStarted { reason } => "执行失败: "@ + reason@,
    }
}

/// Words what a command did.
pub fn describe_outcome(outcome: &CommandOutcome) -> (r: String)
    ensures
        r@ == outcome_message(*outcome),
{
    match outcome {
        CommandOutcome::Succeeded { stdout } => {
            let out: &str = trim(stdout.as_str());
            if out.unicode_len() == 0 {
                String::from_str("成功: 操作已完成")
            } else {
                let mut s = String::from_str("成功: ");
                s.append(out);
                s
            }
        },
        CommandOutcome::Failed { stderr } => {
            if contains(stderr.as_str(), "password") || contains(stderr.as_str(), "sudo") {
                String::from_str("错误: 需要 sudo 权限，请在终端中运行")
            } else {
                let mut s = String::from_str("错误: ");
                s.append(trim(stderr.as_str()));
                s
            }
        },
        CommandOutcome::NotStarted { reason } => {
            let mut s = String::from_str("执行失败: ");
            s.append(reason.as_str());
            s
        },
    }
}

/// How the status line is coloured.
#[derive(Debug, Clone, Copy, PartialEq, Eq, Structural)]
pub enum Tone {
    Good,
    Bad,
    Neutral,
}

/// A message that speaks of success is good news, one that speaks of an
/// error or a failure is bad news.
pub open spec fn tone_of(message: Seq<char>) -> Tone {
    if occurs_in(message, "成功"@) {
        Tone::Good
    } else if occurs_in(message, "错误"@) || occurs_in(message, "失败"@) {
        Tone::Bad
    } else {
        Tone::Neutral
    }
}

impl PortManager {
    /// The tone of the status line.
    pub fn message_tone(&self) -> (r: Tone)
        ensures
            r == tone_of(self@.message),
    {
        let message: &str = self.message.as_str();
        if contains(message, "成功") {
            Tone::Good
        } else if contains(message, "错误") || contains(message, "失败") {
            Tone::Bad
        } else {
            Tone::Neutral
        }
    }
}

} // verus!
