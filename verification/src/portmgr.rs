//! The firewall-port helper: its input state machine, the parsing of what
//! the user typed, and the commands and messages that follow.
//!
//! Commands are run by the caller; this module only says which.

use crate::keys::Key;
use crate::scan::{
    find_char, index_of, number_value, parse_number, same_text, trim, trimmed, NumberError,
};
use crate::text::push_char;
use vstd::prelude::*;
use vstd::string::{StrSliceExecFns, StringExecFns};

verus! {

/// What the pending input is for.
#[derive(Debug, Clone, Copy, PartialEq, Eq, Structural)]
pub enum PendingAction {
    OpenPort,
    ClosePort,
}

#[derive(Debug, Clone, Copy, PartialEq, Eq, Structural)]
pub enum InputMode {
    /// Keys move the selection.
    Normal,
    /// Keys edit the input line.
    Input,
}

/// What the caller is to do after a key press.
#[derive(Debug, Clone, PartialEq, Eq)]
pub enum PortRequest {
    Nothing,
    /// List the listening ports and report them.
    ListPorts,
    /// Open or close the port described by `port_info` and report the
    /// result.
    Apply { action: PendingAction, port_info: String },
}

/// The state of the helper's screen.
pub struct PortManager {
    /// Selected menu entry, `0..=3`.
    pub selected: usize,
    /// Status line.
    pub message: String,
    pub input_mode: InputMode,
    pub input_buffer: String,
    pub show_input: bool,
    pub input_prompt: String,
    pub pending_action: Option<PendingAction>,
    pub should_exit: bool,
}

/// The state of the screen as plain values.
pub struct PortView {
    pub selected: usize,
    pub message: Seq<char>,
    pub input_mode: InputMode,
    pub input_buffer: Seq<char>,
    pub show_input: bool,
    pub input_prompt: Seq<char>,
    pub pending_action: Option<PendingAction>,
    pub should_exit: bool,
}

impl View for PortManager {
    type V = PortView;

    open spec fn view(&self) -> PortView {
        PortView {
            selected: self.selected,
            message: self.message@,
            input_mode: self.input_mode,
            input_buffer: self.input_buffer@,
            show_input: self.show_input,
            input_prompt: self.input_prompt@,
            pending_action: self.pending_action,
            should_exit: self.should_exit,
        }
    }
}

/// A request with its text as plain characters.
pub enum RequestView {
    Nothing,
    ListPorts,
    Apply { action: PendingAction, port_info: Seq<char> },
}

impl View for PortRequest {
    type V = RequestView;

    open spec fn view(&self) -> RequestView {
        match *self {
            PortRequest::Nothing => RequestView::Nothing,
            PortRequest::ListPorts => RequestView::ListPorts,
            PortRequest::Apply { action, port_info } => RequestView::Apply {
                action,
                port_info: port_info@,
            },
        }
    }
}

/// Index of the last menu entry.
pub const LAST_ENTRY: usize = 3;

impl PortView {
    /// The screen before any key was pressed.
    pub open spec fn initial() -> PortView {
        PortView {
            selected: 0,
            message: "使用 ↑↓ 选择，Enter 确认，q 退出"@,
            input_mode: InputMode::Normal,
            input_buffer: Seq::empty(),
            show_input: false,
            input_prompt: Seq::empty(),
            pending_action: None,
            should_exit: false,
        }
    }

    /// Leaves the input line: back to the menu, nothing pending.
    pub open spec fn cancelled(self) -> PortView {
        PortView {
            input_mode: InputMode::Normal,
            show_input: false,
            input_buffer: Seq::empty(),
            pending_action: None,
            ..self
        }
    }

    /// Opens the input line for `action`.
    pub open spec fn asking(self, action: PendingAction) -> PortView {
        PortView {
            pending_action: Some(action),
            input_mode: InputMode::Input,
            show_input: true,
            input_buffer: Seq::empty(),
            input_prompt: "端口号 (如: 8080 或 8080/tcp)"@,
            ..self
        }
    }

    /// State and request after the selected entry is confirmed.
    pub open spec fn selected_entry(self) -> (PortView, RequestView) {
        if self.selected == 0 {
            (self.asking(PendingAction::OpenPort), RequestView::Nothing)
        } else if self.selected == 1 {
            (self.asking(PendingAction::ClosePort), RequestView::Nothing)
        } else if self.selected == 2 {
            (self, RequestView::ListPorts)
        } else if self.selected == 3 {
            (PortView { should_exit: true, ..self }, RequestView::Nothing)
        } else {
            (self, RequestView::Nothing)
        }
    }

    /// State and request after the input line is confirmed: the trimmed
    /// input goes out with the pending action; an empty input is answered
    /// at once. Either way the input line closes.
    pub open spec fn submitted(self) -> (PortView, RequestView) {
        match self.pending_action {
            Some(action) => if trimmed(self.input_buffer).len() > 0 {
                (
                    self.cancelled(),
                    RequestView::Apply { action, port_info: trimmed(self.input_buffer) },
                )
            } else {
                (
                    PortView { message: "错误: 请输入端口号"@, ..self }.cancelled(),
                    RequestView::Nothing,
                )
            },
            None => (self.cancelled(), RequestView::Nothing),
        }
    }

    /// With `selected` set to `entry`.
    pub open spec fn at(self, entry: usize) -> PortView {
        PortView { selected: entry, ..self }
    }

    /// State and request after a key press.
    pub open spec fn pressed(self, key: Key) -> (PortView, RequestView) {
        match self.input_mode {
            InputMode::Normal => match key {
                Key::Char('q') | Key::Esc => (
                    PortView { should_exit: true, ..self },
                    RequestView::Nothing,
                ),
                Key::Up => (
                    if self.selected > 0 {
                        self.at((self.selected - 1) as usize)
                    } else {
                        self
                    },
                    RequestView::Nothing,
                ),
                Key::Down => (
                    if self.selected < LAST_ENTRY {
                        self.at((self.selected + 1) as usize)
                    } else {
                        self
                    },
                    RequestView::Nothing,
                ),
                Key::Enter => self.selected_entry(),
                Key::Char('1') => self.at(0).selected_entry(),
                Key::Char('2') => self.at(1).selected_entry(),
                Key::Char('3') => self.at(2).selected_entry(),
                Key::Char('4') => self.at(3).selected_entry(),
                _ => (self, RequestView::Nothing),
            },
            InputMode::Input => match key {
                Key::Enter => self.submitted(),
                Key::Char(c) => (
                    PortView { input_buffer: self.input_buffer.push(c), ..self },
                    RequestView::Nothing,
                ),
                Key::Backspace => (
                    PortView {
                        input_buffer: if self.input_buffer.len() > 0 {
                            self.input_buffer.drop_last()
                        } else {
                            self.input_buffer
                        },
                        ..self
                    },
                    RequestView::Nothing,
                ),
                Key::Esc => (self.cancelled(), RequestView::Nothing),
                _ => (self, RequestView::Nothing),
            },
        }
    }
}

impl Default for PortManager {
    fn default() -> (r: PortManager)
        ensures
            r@ == PortView::initial(),
    {
        PortManager {
            selected: 0,
            message: String::from_str("使用 ↑↓ 选择，Enter 确认，q 退出"),
            input_mode: InputMode::Normal,
            input_buffer: String::new(),
            show_input: false,
            input_prompt: String::new(),
            pending_action: None,
            should_exit: false,
        }
    }
}

impl PortManager {
    /// Acts on the selected menu entry.
    pub fn handle_selection(&mut self) -> (r: PortRequest)
        ensures
            (final(self)@, r@) == old(self)@.selected_entry(),
    {
        if self.selected == 0 {
            self.start_port_action(PendingAction::OpenPort);
            PortRequest::Nothing
        } else if self.selected == 1 {
            self.start_port_action(PendingAction::ClosePort);
            PortRequest::Nothing
        } else if self.selected == 2 {
            PortRequest::ListPorts
        } else if self.selected == 3 {
            self.should_exit = true;
            PortRequest::Nothing
        } else {
            PortRequest::Nothing
        }
    }

    /// Opens the input line for `action`.
    pub fn start_port_action(&mut self, action: PendingAction)
        ensures
            final(self)@ == old(self)@.asking(action),
    {
        self.pending_action = Some(action);
        self.input_mode = InputMode::Input;
        self.show_input = true;
        self.input_buffer = String::new();
        self.input_prompt = String::from_str("端口号 (如: 8080 或 8080/tcp)");
    }

    /// Confirms the input line.
    pub fn handle_input(&mut self) -> (r: PortRequest)
        ensures
            (final(self)@, r@) == old(self)@.submitted(),
    {
        let mut request = PortRequest::Nothing;
        match self.pending_action {
            Some(action) => {
                let port_info: &str = trim(self.input_buffer.as_str());
                if port_info.unicode_len() > 0 {
                    request = PortRequest::Apply { action, port_info: port_info.to_owned() };
                } else {
                    self.message = String::from_str("错误: 请输入端口号");
                }
            },
            None => {},
        }
        self.cancel_input();
        request
    }

    /// Leaves the input line.
    pub fn cancel_input(&mut self)
        ensures
            final(self)@ == old(self)@.cancelled(),
    {
        self.input_mode = InputMode::Normal;
        self.show_input = false;
        self.input_buffer = String::new();
        self.pending_action = None;
    }

    /// Puts the result of a request on the status line.
    pub fn report(&mut self, message: String)
        ensures
            final(self)@ == (PortView { message: message@, ..old(self)@ }),
    {
        self.message = message;
    }

    /// Acts on a key press.
    pub fn on_key(&mut self, key: Key) -> (r: PortRequest)
        ensures
            (final(self)@, r@) == old(self)@.pressed(key),
    {
        match self.input_mode {
            InputMode::Normal => match key {
                Key::Esc => {
                    self.should_exit = true;
                    PortRequest::Nothing
                },
                Key::Up => {
                    if self.selected > 0 {
                        self.selected = self.selected - 1;
                    }
                    PortRequest::Nothing
                },
                Key::Down => {
                    if self.selected < LAST_ENTRY {
                        self.selected = self.selected + 1;
                    }
                    PortRequest::Nothing
                },
                Key::Enter => self.handle_selection(),
                Key::Char(c) => {
                    if c == 'q' {
                        self.should_exit = true;
                        PortRequest::Nothing
                    } else if c == '1' {
                        self.selected = 0;
                        self.handle_selection()
                    } else if c == '2' {
                        self.selected = 1;
                        self.handle_selection()
                    } else if c == '3' {
                        self.selected = 2;
                        self.handle_selection()
                    } else if c == '4' {
                        self.selected = 3;
                        self.handle_selection()
                    } else {
                        PortRequest::Nothing
                    }
                },
                _ => PortRequest::Nothing,
            },
            InputMode::Input => match key {
                Key::Enter => self.handle_input(),
                Key::Char(c) => {
                    push_char(&mut self.input_buffer, c);
                    PortRequest::Nothing
                },
                Key::Backspace => {
                    let len: usize = self.input_buffer.as_str().unicode_len();
                    if len > 0 {
                        let kept = self.input_buffer.as_str().substring_char(0, len - 1).to_owned();
                        assert(kept@ =~= self.input_buffer@.drop_last());
                        self.input_buffer = kept;
                    }
                    PortRequest::Nothing
                },
                Key::Esc => {
                    self.cancel_input();
                    PortRequest::Nothing
                },
                _ => PortRequest::Nothing,
            },
        }
    }
}

/// The lower-case form of a text, as `str::to_lowercase` of the standard
/// library gives it.
pub uninterp spec fn lowercase_of(s: Seq<char>) -> Seq<char>;

/// `str::to_lowercase`: the result is a function of the text alone, and it
/// is given the name [`lowercase_of`].
#[verifier::external_body]
pub(crate) fn to_lowercase(s: &str) -> (r: String)
    ensures
        r@ == lowercase_of(s@),
{
    s.to_lowercase()
}

/// The port number a text denotes: decimal digits, with an optional `+` in
/// front, and no more than 65535.
pub open spec fn port_value(s: Seq<char>) -> Result<int, NumberError> {
    number_value(s, 65535)
}

/// Reads a port number.
pub fn check_port(port: &str) -> (r: Result<u16, NumberError>)
    ensures
        r is Ok <==> port_value(port@) is Ok,
        r is Ok ==> r->Ok_0 == port_value(port@)->Ok_0,
        r is Err ==> r->Err_0 == port_value(port@)->Err_0,
{
    match parse_number(port, 65535) {
        Ok(v) => Ok(v as u16),
        Err(e) => Err(e),
    }
}

/// A tool that can change the firewall.
#[derive(Debug, Clone, Copy, PartialEq, Eq, Structural)]
pub enum FirewallTool {
    Ufw,
    FirewallCmd,
    Iptables,
}

impl FirewallTool {
    /// The program of each tool.
    pub open spec fn program_text(self) -> Seq<char> {
        match self {
            FirewallTool::Ufw => "ufw"@,
            FirewallTool::FirewallCmd => "firewall-cmd"@,
            FirewallTool::Iptables => "iptables"@,
        }
    }

    /// Name of the program to look for.
    pub fn program(&self) -> (r: &'static str)
        ensures
            r@ == self.program_text(),
    {
        match self {
            FirewallTool::Ufw => "ufw",
            FirewallTool::FirewallCmd => "firewall-cmd",
            FirewallTool::Iptables => "iptables",
        }
    }

    /// The tools in the order of preference: the first that is installed is
    /// used.
    pub fn preference() -> (r: Vec<FirewallTool>)
        ensures
            r@ == seq![FirewallTool::Ufw, FirewallTool::FirewallCmd, FirewallTool::Iptables],
    {
        vec![FirewallTool::Ufw, FirewallTool::FirewallCmd, FirewallTool::Iptables]
    }
}

/// What to do about a port: run a shell command, or say why not.
#[derive(Debug, Clone, PartialEq, Eq)]
pub enum PortPlan {
    Run(String),
    Say(String),
}

/// A plan with its text as plain characters.
pub enum PlanView {
    Run(Seq<char>),
    Say(Seq<char>),
}

impl View for PortPlan {
    type V = PlanView;

    open spec fn view(&self) -> PlanView {
        match *self {
            PortPlan::Run(cmd) => PlanView::Run(cmd@),
            PortPlan::Say(msg) => PlanView::Say(msg@),
        }
    }
}

/// What the user typed before the first `/`, or all of it.
pub open spec fn port_part(info: Seq<char>) -> Seq<char> {
    info.take(index_of(info, '/', 0))
}

/// What the user typed between the first `/` and the second, if there is a
/// first.
pub open spec fn protocol_part(info: Seq<char>) -> Seq<char> {
    let rest = info.skip(index_of(info, '/', 0) + 1);
    rest.take(index_of(rest, '/', 0))
}

/// Port and protocol of what the user typed: `8080/TCP` is `8080` and
/// `tcp`; without a `/` the protocol is `tcp`.
pub open spec fn port_and_protocol(info: Seq<char>) -> (Seq<char>, Seq<char>) {
    if index_of(info, '/', 0) < info.len() {
        (port_part(info), lowercase_of(protocol_part(info)))
    } else {
        (info, "tcp"@)
    }
}

/// The shell command that opens or closes `port` for `protocol` with
/// `tool`. With iptables every protocol but `tcp` counts as `udp`.
pub open spec fn command_text(
    action: PendingAction,
    tool: FirewallTool,
    port: Seq<char>,
    protocol: Seq<char>,
) -> Seq<char> {
    match (tool, action) {
        (FirewallTool::Ufw, PendingAction::OpenPort) => "ufw allow "@ + port + "/"@ + protocol,
        (FirewallTool::Ufw, PendingAction::ClosePort) => "ufw delete allow "@ + port + "/"@
            + protocol,
        (FirewallTool::FirewallCmd, PendingAction::OpenPort) => "firewall-cmd --permanent --add-port="@
            + port + "/"@ + protocol + " && firewall-cmd --reload"@,
        (
            FirewallTool::FirewallCmd,
            PendingAction::ClosePort,
        ) => "firewall-cmd --permanent --remove-port="@ + port + "/"@ + protocol
            + " && firewall-cmd --reload"@,
        (FirewallTool::Iptables, PendingAction::OpenPort) => if protocol == "tcp"@ {
            "iptables -I INPUT -p tcp -m tcp --dport "@ + port + " -j ACCEPT"@
        } else {
            "iptables -I INPUT -p udp -m udp --dport "@ + port + " -j ACCEPT"@
        },
        (FirewallTool::Iptables, PendingAction::ClosePort) => if protocol == "tcp"@ {
            "iptables -D INPUT -p tcp -m tcp --dport "@ + port + " -j ACCEPT"@
        } else {
            "iptables -D INPUT -p udp -m udp --dport "@ + port + " -j ACCEPT"@
        },
    }
}

/// What is said when no firewall tool is installed.
pub open spec fn no_tool_text(action: PendingAction) -> Seq<char> {
    match action {
        PendingAction::OpenPort => "错误: 未找到防火墙工具 (需要 ufw, firewall-cmd 或 iptables)"@,
        PendingAction::ClosePort => "错误: 未找到防火墙工具"@,
    }
}

/// The plan for a port and a protocol that have been told apart: a port
/// that is no number is refused before any tool is looked at.
pub open spec fn plan_for(
    action: PendingAction,
    port: Seq<char>,
    protocol: Seq<char>,
    tool: Option<FirewallTool>,
) -> PlanView {
    match port_value(port) {
        Err(e) => PlanView::Say("错误: 无效端口号 - "@ + e.text()),
        Ok(_) => match tool {
            None => PlanView::Say(no_tool_text(action)),
            Some(t) => PlanView::Run(command_text(action, t, port, protocol)),
        },
    }
}

/// Builds the shell command for `tool`.
pub fn command_for(action: PendingAction, tool: FirewallTool, port: &str, protocol: &str) -> (r:
    String)
    ensures
        r@ == command_text(action, tool, port@, protocol@),
{
    let mut s: String;
    match tool {
        FirewallTool::Ufw => {
            s = match action {
                PendingAction::OpenPort => String::from_str("ufw allow "),
                PendingAction::ClosePort => String::from_str("ufw delete allow "),
            };
            s.append(port);
            s.append("/");
            s.append(protocol);
        },
        FirewallTool::FirewallCmd => {
            s = match action {
                PendingAction::OpenPort => String::from_str("firewall-cmd --permanent --add-port="),
                PendingAction::ClosePort => String::from_str(
                    "firewall-cmd --permanent --remove-port=",
                ),
            };
            s.append(port);
            s.append("/");
            s.append(protocol);
            s.append(" && firewall-cmd --reload");
        },
        FirewallTool::Iptables => {
            let tcp: bool = same_text(protocol, "tcp");
            s = match action {
                PendingAction::OpenPort => if tcp {
                    String::from_str("iptables -I INPUT -p tcp -m tcp --dport ")
                } else {
                    String::from_str("iptables -I INPUT -p udp -m udp --dport ")
                },
                PendingAction::ClosePort => if tcp {
                    String::from_str("iptables -D INPUT -p tcp -m tcp --dport ")
                } else {
                    String::from_str("iptables -D INPUT -p udp -m udp --dport ")
                },
            };
            s.append(port);
            s.append(" -j ACCEPT");
        },
    }
    s
}

/// Decides what to do about a port and a protocol that have been told
/// apart.
pub fn plan_port(
    action: PendingAction,
    port: &str,
    protocol: &str,
    tool: Option<FirewallTool>,
) -> (r: PortPlan)
    ensures
        r@ == plan_for(action, port@, protocol@, tool),
{
    match check_port(port) {
        Err(e) => {
            let mut msg = String::from_str("错误: 无效端口号 - ");
            msg.append(e.describe());
            PortPlan::Say(msg)
        },
        Ok(_) => match tool {
            None => match action {
                PendingAction::OpenPort => PortPlan::Say(
                    String::from_str("错误: 未找到防火墙工具 (需要 ufw, firewall-cmd 或 iptables)"),
                ),
                PendingAction::ClosePort => PortPlan::Say(String::from_str("错误: 未找到防火墙工具")),
            },
            Some(t) => PortPlan::Run(command_for(action, t, port, protocol)),
        },
    }
}

impl PortManager {
    /// Tells port and protocol apart.
    pub fn parse_port_info(&self, port_info: &str) -> (r: (String, String))
        ensures
            (r.0@, r.1@) == port_and_protocol(port_info@),
    {
        let len: usize = port_info.unicode_len();
        let slash: usize = find_char(port_info, '/', 0);
        if slash < len {
            let rest: &str = port_info.substring_char(slash + 1, len);
            let second: usize = find_char(rest, '/', 0);
            let port: &str = port_info.substring_char(0, slash);
            let protocol: &str = rest.substring_char(0, second);
            proof {
                assert(rest@ =~= port_info@.skip(slash + 1));
                assert(port@ =~= port_part(port_info@));
                assert(protocol@ =~= protocol_part(port_info@));
            }
            (port.to_owned(), to_lowercase(protocol))
        } else {
            (port_info.to_owned(), String::from_str("tcp"))
        }
    }

    /// Plans the opening of the port that `port_info` describes. `tool` is
    /// the first firewall tool found on the machine, if any.
    pub fn open_port(&self, port_info: &str, tool: Option<FirewallTool>) -> (r: PortPlan)
        ensures
            r@ == plan_for(
                PendingAction::OpenPort,
                port_and_protocol(port_info@).0,
                port_and_protocol(port_info@).1,
                tool,
            ),
    {
        let (port, protocol) = self.parse_port_info(port_info);
        plan_port(PendingAction::OpenPort, port.as_str(), protocol.as_str(), tool)
    }

    /// Plans the closing of the port that `port_info` describes.
    pub fn close_port(&self, port_info: &str, tool: Option<FirewallTool>) -> (r: PortPlan)
        ensures
            r@ == plan_for(
                PendingAction::ClosePort,
                port_and_protocol(port_info@).0,
                port_and_protocol(port_info@).1,
                tool,
            ),
    {
        let (port, protocol) = self.parse_port_info(port_info);
        plan_port(PendingAction::ClosePort, port.as_str(), protocol.as_str(), tool)
    }
}

} // verus!
