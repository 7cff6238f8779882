//! The life of the three machines of a test run in the cloud: what is asked
//! of the control plane, in which order, and what is made of its answers.
//!
//! The machines are known by their roles alone. A run of `spawn_vms` or of
//! `clean_environment` is a sequence of actions; the caller performs each and
//! reports what came of it, and is told the next. Runs are assumed not to
//! overlap: nothing here guards against a second party that provisions in
//! the same project at the same time.

use crate::config::OpenStackConfig;
use crate::text;
use crate::utility::{next_step, retry, Retry};
use ::openstack::ErrorKind as Api;
use vstd::prelude::*;
use vstd::string::*;
use vstd::utf8::{decode_utf8, valid_utf8};

verus! {

/// The size of each machine's boot volume.
pub const VM_VOLUME_SIZE_GB: u32 = 20;

/// The pause before a floating IP is looked for, and between two looks.
pub const RETRY_DELAY_MILLIS: u64 = 500;

/// How often the look for a floating IP is repeated.
pub const MAX_RETRIES: usize = 10;

/// The role of a machine in the test topology, which is also its name.
#[derive(Debug, Clone, Copy, PartialEq, Eq, Structural)]
pub enum Role {
    Pktgen,
    Fwd,
    Pcap,
}

/// A port of the private test networks.
#[derive(Debug, Clone, Copy, PartialEq, Eq, Structural)]
pub enum Port {
    Pktgen,
    FwdIn,
    FwdOut,
    Pcap,
}

impl Role {
    /// The name of the machine.
    pub open spec fn spec_name(self) -> Seq<char> {
        match self {
            Role::Pktgen => "pktgen"@,
            Role::Fwd => "fwd"@,
            Role::Pcap => "pcap"@,
        }
    }

    /// The place of the role in the order in which machines are made.
    pub open spec fn index(self) -> int {
        match self {
            Role::Pktgen => 0,
            Role::Fwd => 1,
            Role::Pcap => 2,
        }
    }

    /// The role that follows in that order.
    pub open spec fn spec_following(self) -> Option<Role> {
        match self {
            Role::Pktgen => Some(Role::Fwd),
            Role::Fwd => Some(Role::Pcap),
            Role::Pcap => None,
        }
    }

    /// The name of the machine.
    pub fn name(self) -> (r: &'static str)
        ensures
            r@ == self.spec_name(),
    {
        match self {
            Role::Pktgen => "pktgen",
            Role::Fwd => "fwd",
            Role::Pcap => "pcap",
        }
    }

    /// The role that follows in the order in which machines are made.
    pub fn following(self) -> (r: Option<Role>)
        ensures
            r == self.spec_following(),
    {
        match self {
            Role::Pktgen => Some(Role::Fwd),
            Role::Fwd => Some(Role::Pcap),
            Role::Pcap => None,
        }
    }
}

impl Port {
    /// The name of the port.
    pub open spec fn spec_name(self) -> Seq<char> {
        match self {
            Port::Pktgen => "pktgen"@,
            Port::FwdIn => "fwd-in"@,
            Port::FwdOut => "fwd-out"@,
            Port::Pcap => "pcap"@,
        }
    }

    /// The machine that the port is attached to.
    pub open spec fn spec_server(self) -> Role {
        match self {
            Port::Pktgen => Role::Pktgen,
            Port::FwdIn => Role::Fwd,
            Port::FwdOut => Role::Fwd,
            Port::Pcap => Role::Pcap,
        }
    }

    /// The port that is attached next.
    pub open spec fn spec_following(self) -> Option<Port> {
        match self {
            Port::Pktgen => Some(Port::FwdIn),
            Port::FwdIn => Some(Port::FwdOut),
            Port::FwdOut => Some(Port::Pcap),
            Port::Pcap => None,
        }
    }

    /// The name of the port.
    pub fn name(self) -> (r: &'static str)
        ensures
            r@ == self.spec_name(),
    {
        match self {
            Port::Pktgen => "pktgen",
            Port::FwdIn => "fwd-in",
            Port::FwdOut => "fwd-out",
            Port::Pcap => "pcap",
        }
    }

    /// The machine that the port is attached to.
    pub fn server(self) -> (r: Role)
        ensures
            r == self.spec_server(),
    {
        match self {
            Port::Pktgen => Role::Pktgen,
            Port::FwdIn => Role::Fwd,
            Port::FwdOut => Role::Fwd,
            Port::Pcap => Role::Pcap,
        }
    }

    /// The port that is attached next.
    pub fn following(self) -> (r: Option<Port>)
        ensures
            r == self.spec_following(),
    {
        match self {
            Port::Pktgen => Some(Port::FwdIn),
            Port::FwdIn => Some(Port::FwdOut),
            Port::FwdOut => Some(Port::Pcap),
            Port::Pcap => None,
        }
    }
}

/// The kind of a failure, as the client of the control plane tells them
/// apart.
#[derive(Debug, Clone, Copy, PartialEq, Eq, Structural)]
pub enum ErrorKind {
    AuthenticationFailed,
    AccessDenied,
    ResourceNotFound,
    TooManyItems,
    EndpointNotFound,
    /// What was given cannot be used. The manager reports so where an event
    /// does not answer the action that was under way.
    InvalidInput,
    IncompatibleApiVersion,
    Conflict,
    /// The control plane did not do in time what was asked of it.
    OperationTimedOut,
    OperationFailed,
    ProtocolError,
    /// The control plane, or its command-line tool, answered what cannot be
    /// used.
    InvalidResponse,
    InternalServerError,
    InvalidConfig,
}

/// A failure of the control plane: its kind, and what is said of it beyond
/// the kind.
#[derive(Debug)]
pub struct Error {
    pub kind: ErrorKind,
    pub message: String,
}

/// A failure as plain text.
pub struct ErrorView {
    pub kind: ErrorKind,
    pub message: Seq<char>,
}

impl View for Error {
    type V = ErrorView;

    open spec fn view(&self) -> ErrorView {
        ErrorView { kind: self.kind, message: self.message@ }
    }
}

impl ErrorKind {
    /// The kind in the words of the control plane's client.
    pub open spec fn spec_description(self) -> Seq<char> {
        match self {
            ErrorKind::AuthenticationFailed => "Failed to authenticate"@,
            ErrorKind::AccessDenied => "Access to the resource is denied"@,
            ErrorKind::ResourceNotFound => "Requested resource was not found"@,
            ErrorKind::TooManyItems => "Request returned too many items"@,
            ErrorKind::EndpointNotFound => "Requested endpoint was not found"@,
            ErrorKind::InvalidInput => "Input value(s) are invalid or missing"@,
            ErrorKind::IncompatibleApiVersion => "Incompatible or unsupported API version"@,
            ErrorKind::Conflict => "Requested cannot be fulfilled due to a conflict"@,
            ErrorKind::OperationTimedOut => "Time out reached while waiting for the operation"@,
            ErrorKind::OperationFailed => "Requested operation has failed"@,
            ErrorKind::ProtocolError => "Error when accessing the server"@,
            ErrorKind::InvalidResponse => "Received invalid response"@,
            ErrorKind::InternalServerError => "Internal server error or bad gateway"@,
            ErrorKind::InvalidConfig => "configuration file cannot be found or is invalid"@,
        }
    }

    /// The kind in words.
    pub fn description(self) -> (r: &'static str)
        ensures
            r@ == self.spec_description(),
    {
        self.described()
    }

    /// `ErrorKind::description` of the control plane's client, on its kind
    /// of the same name: the client's short words for the kind.
    #[verifier::external_body]
    fn described(self) -> (r: &'static str)
        ensures
            r@ == self.spec_description(),
    {
        (match self {
            Self::AuthenticationFailed => Api::AuthenticationFailed, Self::AccessDenied => Api::AccessDenied,
            Self::ResourceNotFound => Api::ResourceNotFound, Self::TooManyItems => Api::TooManyItems,
            Self::EndpointNotFound => Api::EndpointNotFound, Self::InvalidInput => Api::InvalidInput,
            Self::IncompatibleApiVersion => Api::IncompatibleApiVersion, Self::Conflict => Api::Conflict,
            Self::OperationTimedOut => Api::OperationTimedOut, Self::OperationFailed => Api::OperationFailed,
            Self::ProtocolError => Api::ProtocolError, Self::InvalidResponse => Api::InvalidResponse,
            Self::InternalServerError => Api::InternalServerError, Self::InvalidConfig => Api::InvalidConfig,
        }).description()
    }
}

/// An error in words: its kind, a colon and its message.
pub open spec fn error_text(e: ErrorView) -> Seq<char> {
    e.kind.spec_description() + ": "@ + e.message
}

impl Error {
    /// The error in words.
    pub fn message(&self) -> (r: String)
        ensures
            r@ == error_text(self@),
    {
        String::from_str(self.kind.description()).concat(": ").concat(self.message.as_str())
    }
}

/// What a run is for.
#[derive(Debug, Clone, Copy, PartialEq, Eq, Structural)]
pub enum Goal {
    /// Remove the three machines and whatever nobody uses.
    Clean,
    /// The same, and then make the three machines anew.
    Spawn,
}

/// The action that is under way.
#[derive(Debug, Clone, Copy, PartialEq, Eq, Structural)]
pub enum Stage {
    /// No run is under way.
    Idle,
    DeletingServer(Role),
    ListingVolumes,
    /// Deleting the unused volume with this place in the list.
    DeletingVolume(usize),
    DeletingFloatingIps,
    CreatingServer(Role),
    Associating(Role),
    /// The pause before the first look for the floating IP.
    Settling(Role),
    /// The look for the floating IP with this number, the first being 1.
    Confirming(Role, usize),
    /// The pause after the look with this number.
    Pausing(Role, usize),
    AddingPort(Port),
}

/// What the caller is to do next, or how the run ended.
#[derive(Debug)]
pub enum Action {
    /// Delete the machine of this role and wait until it is gone. That
    /// there is none is to be reported as `Event::NotFound`.
    DeleteServer(Role),
    /// List the volumes that are attached to nothing, with the command-line
    /// tool.
    ListUnusedVolumes,
    /// Delete the volume with this id, with the command-line tool.
    DeleteVolume(String),
    /// Delete every floating IP that is associated with nothing.
    DeleteUnusedFloatingIps,
    /// Boot the machine of this role from a new boot volume, on the public
    /// network and with the configured key pair, and wait until it is up.
    CreateServer(Role),
    /// Create a floating IP and associate it with the machine's public port.
    AssociateFloatingIp(Role),
    /// Wait this many milliseconds.
    Sleep(u64),
    /// Read the machine's state anew and report its floating IP.
    RefreshServer(Role),
    /// Attach the port to its machine, with the command-line tool.
    AddPort(Port),
    /// The run ended: the environment is clean.
    Cleaned,
    /// The run ended: the three machines are up, at these addresses, in the
    /// order pktgen, fwd, pcap.
    Spawned(String, String, String),
    /// The run ended with a failure.
    Failed(Error),
}

/// An action as plain text.
pub enum ActionView {
    DeleteServer(Role),
    ListUnusedVolumes,
    DeleteVolume(Seq<char>),
    DeleteUnusedFloatingIps,
    CreateServer(Role),
    AssociateFloatingIp(Role),
    Sleep(u64),
    RefreshServer(Role),
    AddPort(Port),
    Cleaned,
    Spawned(Seq<char>, Seq<char>, Seq<char>),
    Failed(ErrorView),
}

impl View for Action {
    type V = ActionView;

    open spec fn view(&self) -> ActionView {
        match *self {
            Action::DeleteServer(role) => ActionView::DeleteServer(role),
            Action::ListUnusedVolumes => ActionView::ListUnusedVolumes,
            Action::DeleteVolume(id) => ActionView::DeleteVolume(id@),
            Action::DeleteUnusedFloatingIps => ActionView::DeleteUnusedFloatingIps,
            Action::CreateServer(role) => ActionView::CreateServer(role),
            Action::AssociateFloatingIp(role) => ActionView::AssociateFloatingIp(role),
            Action::Sleep(millis) => ActionView::Sleep(millis),
            Action::RefreshServer(role) => ActionView::RefreshServer(role),
            Action::AddPort(port) => ActionView::AddPort(port),
            Action::Cleaned => ActionView::Cleaned,
            Action::Spawned(a, b, c) => ActionView::Spawned(a@, b@, c@),
            Action::Failed(e) => ActionView::Failed(e@),
        }
    }
}

/// What came of an action.
#[derive(Debug)]
pub enum Event {
    /// The action was done.
    Done,
    /// The machine that was to be deleted does not exist.
    NotFound,
    /// The machine's state was read: its floating IP, if it has one.
    Address(Option<String>),
    /// The command-line tool ran: whether it ended with status 0, what it
    /// printed, and all of its outcome as text.
    Cli { success: bool, stdout: Vec<u8>, report: String },
    /// The control plane could not be asked, or refused.
    Failed(Error),
}

/// An event as plain text.
pub enum EventView {
    Done,
    NotFound,
    Address(Option<Seq<char>>),
    Cli { success: bool, stdout: Seq<u8>, report: Seq<char> },
    Failed(ErrorView),
}

impl View for Event {
    type V = EventView;

    open spec fn view(&self) -> EventView {
        match *self {
            Event::Done => EventView::Done,
            Event::NotFound => EventView::NotFound,
            Event::Address(None) => EventView::Address(None),
            Event::Address(Some(ip)) => EventView::Address(Some(ip@)),
            Event::Cli { success, stdout, report } => EventView::Cli {
                success,
                stdout: stdout@,
                report: report@,
            },
            Event::Failed(e) => EventView::Failed(e@),
        }
    }
}

/// A run as far as its course depends on it.
pub struct Run {
    pub goal: Goal,
    pub stage: Stage,
    /// The unused volumes that were listed.
    pub volumes: Seq<Seq<char>>,
    /// The addresses of the machines that are up, in the order of the roles.
    pub addresses: Seq<Seq<char>>,
}

impl Run {
    /// What a run can be: the stage tells how many machines are up, which
    /// volume is being deleted and how many looks were taken.
    pub open spec fn wf(self) -> bool {
        match self.stage {
            Stage::DeletingVolume(i) => i < self.volumes.len(),
            Stage::CreatingServer(role) => self.addresses.len() == role.index(),
            Stage::Associating(role) => self.addresses.len() == role.index(),
            Stage::Settling(role) => self.addresses.len() == role.index(),
            Stage::Confirming(role, look) => self.addresses.len() == role.index() && 1 <= look
                <= MAX_RETRIES + 1,
            Stage::Pausing(role, look) => self.addresses.len() == role.index() && 1 <= look
                <= MAX_RETRIES,
            Stage::AddingPort(_) => self.addresses.len() == 3,
            _ => true,
        }
    }

    /// The run at another stage.
    pub open spec fn at(self, stage: Stage) -> Run {
        Run { stage, ..self }
    }

    /// The run ends with this failure.
    pub open spec fn fail(self, kind: ErrorKind, message: Seq<char>) -> (Run, ActionView) {
        (self.at(Stage::Idle), ActionView::Failed(ErrorView { kind, message }))
    }

    /// What was reported does not answer the action under way.
    pub open spec fn stray(self) -> (Run, ActionView) {
        self.fail(ErrorKind::InvalidInput, "event does not answer the action under way"@)
    }

    /// The command-line tool failed.
    pub open spec fn cli_failed(self, report: Seq<char>) -> (Run, ActionView) {
        self.fail(ErrorKind::InvalidResponse, "openstack cli failed: "@ + report)
    }

    /// After the machines are gone, the unused volumes are listed.
    pub open spec fn after_servers(self) -> (Run, ActionView) {
        (self.at(Stage::ListingVolumes), ActionView::ListUnusedVolumes)
    }

    /// After the volumes, the unused floating IPs are deleted.
    pub open spec fn after_volumes(self) -> (Run, ActionView) {
        (self.at(Stage::DeletingFloatingIps), ActionView::DeleteUnusedFloatingIps)
    }

    /// After the cleaning the run is over, or the first machine is made.
    pub open spec fn after_cleaning(self) -> (Run, ActionView) {
        match self.goal {
            Goal::Clean => (self.at(Stage::Idle), ActionView::Cleaned),
            Goal::Spawn => (
                Run { stage: Stage::CreatingServer(Role::Pktgen), addresses: Seq::empty(), ..self },
                ActionView::CreateServer(Role::Pktgen),
            ),
        }
    }

    /// After a machine's address is known the next machine is made, and after
    /// the last the ports are attached.
    pub open spec fn after_address(self, role: Role, ip: Seq<char>) -> (Run, ActionView) {
        let run = Run { addresses: self.addresses.push(ip), ..self };
        match role.spec_following() {
            Some(next) => (run.at(Stage::CreatingServer(next)), ActionView::CreateServer(next)),
            None => (run.at(Stage::AddingPort(Port::Pktgen)), ActionView::AddPort(Port::Pktgen)),
        }
    }

    /// After a look that found no address, or failed with `e`, the look is
    /// repeated after a pause, until the retries are used up.
    pub open spec fn after_failed_look(self, role: Role, look: usize, e: ErrorView) -> (
        Run,
        ActionView,
    ) {
        match next_step(MAX_RETRIES, look, true) {
            Retry::Again => (
                self.at(Stage::Pausing(role, look)),
                ActionView::Sleep(RETRY_DELAY_MILLIS),
            ),
            Retry::Finish => (self.at(Stage::Idle), ActionView::Failed(e)),
        }
    }

    /// The course of a run: where it stands after `event` answered the action
    /// that was under way, and what is to be done next.
    pub open spec fn step(self, event: EventView) -> (Run, ActionView) {
        match (self.stage, event) {
            (_, EventView::Failed(e)) => match self.stage {
                Stage::Idle => self.stray(),
                Stage::Confirming(role, look) => self.after_failed_look(role, look, e),
                _ => (self.at(Stage::Idle), ActionView::Failed(e)),
            },
            (Stage::DeletingServer(role), EventView::Done)
            | (Stage::DeletingServer(role), EventView::NotFound) => match role.spec_following() {
                Some(next) => (
                    self.at(Stage::DeletingServer(next)),
                    ActionView::DeleteServer(next),
                ),
                None => self.after_servers(),
            },
            (Stage::ListingVolumes, EventView::Cli { success, stdout, report }) => if !success {
                self.cli_failed(report)
            } else if !valid_utf8(stdout) {
                self.fail(ErrorKind::InvalidResponse, "openstack cli: failed to parse output"@)
            } else {
                let volumes = text::lines_of(decode_utf8(stdout));
                let run = Run { volumes, ..self };
                if volumes.len() == 0 {
                    run.after_volumes()
                } else {
                    (run.at(Stage::DeletingVolume(0)), ActionView::DeleteVolume(volumes[0]))
                }
            },
            (Stage::DeletingVolume(i), EventView::Cli { success, stdout, report }) => if !success {
                self.cli_failed(report)
            } else if i + 1 < self.volumes.len() {
                (
                    self.at(Stage::DeletingVolume((i + 1) as usize)),
                    ActionView::DeleteVolume(self.volumes[i + 1]),
                )
            } else {
                self.after_volumes()
            },
            (Stage::DeletingFloatingIps, EventView::Done) => self.after_cleaning(),
            (Stage::CreatingServer(role), EventView::Done) => (
                self.at(Stage::Associating(role)),
                ActionView::AssociateFloatingIp(role),
            ),
            (Stage::Associating(role), EventView::Done) => (
                self.at(Stage::Settling(role)),
                ActionView::Sleep(RETRY_DELAY_MILLIS),
            ),
            (Stage::Settling(role), EventView::Done) => (
                self.at(Stage::Confirming(role, 1)),
                ActionView::RefreshServer(role),
            ),
            (Stage::Confirming(role, look), EventView::Address(Some(ip))) => self.after_address(
                role,
                ip,
            ),
            (Stage::Confirming(role, look), EventView::Address(None)) => self.after_failed_look(
                role,
                look,
                ErrorView {
                    kind: ErrorKind::OperationTimedOut,
                    message: "ip association timed out"@,
                },
            ),
            (Stage::Pausing(role, look), EventView::Done) => (
                self.at(Stage::Confirming(role, (look + 1) as usize)),
                ActionView::RefreshServer(role),
            ),
            (Stage::AddingPort(port), EventView::Cli { success, stdout, report }) => if !success {
                self.cli_failed(report)
            } else {
                match port.spec_following() {
                    Some(next) => (self.at(Stage::AddingPort(next)), ActionView::AddPort(next)),
                    None => (
                        Run { stage: Stage::Idle, addresses: Seq::empty(), ..self },
                        ActionView::Spawned(
                            self.addresses[0],
                            self.addresses[1],
                            self.addresses[2],
                        ),
                    ),
                }
            },
            _ => self.stray(),
        }
    }
}

/// The first action of every run: the machine of the first role is deleted.
pub open spec fn begun(goal: Goal) -> (Run, ActionView) {
    (
        Run {
            goal,
            stage: Stage::DeletingServer(Role::Pktgen),
            volumes: Seq::empty(),
            addresses: Seq::empty(),
        },
        ActionView::DeleteServer(Role::Pktgen),
    )
}

/// The manager of the three machines.
pub struct OpenStack {
    config: OpenStackConfig,
    goal: Goal,
    stage: Stage,
    volumes: Vec<String>,
    addresses: Vec<String>,
}

/// One call of the command-line tool: the variables of its environment and
/// its arguments.
pub struct CliCall {
    pub env: Vec<(&'static str, String)>,
    pub args: Vec<String>,
}

/// The arguments by which the command-line tool performs an action; none
/// for an action that is not its business.
pub open spec fn cli_arguments(action: ActionView) -> Seq<Seq<char>> {
    match action {
        ActionView::ListUnusedVolumes => seq![
            "volume"@,
            "list"@,
            "-f"@,
            "value"@,
            "--status"@,
            "available"@,
            "-c"@,
            "ID"@,
        ],
        ActionView::DeleteVolume(id) => seq!["volume"@, "delete"@, id],
        ActionView::AddPort(port) => seq![
            "server"@,
            "add"@,
            "port"@,
            port.spec_server().spec_name(),
            port.spec_name(),
        ],
        _ => Seq::empty(),
    }
}

/// The environment of the command-line tool: the credentials and the scope
/// that the control plane is asked with.
pub open spec fn cli_environment(config: OpenStackConfig) -> Seq<(Seq<char>, Seq<char>)> {
    seq![
        ("OS_IDENTITY_API_VERSION"@, "3"@),
        ("OS_AUTH_URL"@, config.auth_url@),
        ("OS_USERNAME"@, config.user_name@),
        ("OS_USER_DOMAIN_NAME"@, config.user_domain@),
        ("OS_PASSWORD"@, config.password@),
        ("OS_PROJECT_NAME"@, config.project_name@),
        ("OS_PROJECT_DOMAIN_NAME"@, config.project_domain@),
    ]
}

fn failed(kind: ErrorKind, message: String) -> (r: Action)
    ensures
        r@ == ActionView::Failed(ErrorView { kind, message: message@ }),
{
    Action::Failed(Error { kind, message })
}

impl OpenStack {
    /// The run that is under way, or that ended last.
    pub closed spec fn run(&self) -> Run {
        Run {
            goal: self.goal,
            stage: self.stage,
            volumes: self.volumes.deep_view(),
            addresses: self.addresses.deep_view(),
        }
    }

    /// The settings that the manager was made with.
    pub closed spec fn settings(&self) -> OpenStackConfig {
        self.config
    }

    /// The settings that the manager was made with.
    pub fn config(&self) -> (r: &OpenStackConfig)
        ensures
            *r == self.settings(),
    {
        &self.config
    }

    /// A manager with these settings, with no run under way.
    pub fn new(config: OpenStackConfig) -> (r: OpenStack)
        ensures
            r.settings() == config,
            r.run().stage == Stage::Idle,
            r.run().wf(),
    {
        OpenStack {
            config,
            goal: Goal::Clean,
            stage: Stage::Idle,
            volumes: Vec::new(),
            addresses: Vec::new(),
        }
    }

    fn begin(&mut self, goal: Goal) -> (r: Action)
        ensures
            (final(self).run(), r@) == begun(goal),
            final(self).settings() == old(self).settings(),
    {
        self.goal = goal;
        self.stage = Stage::DeletingServer(Role::Pktgen);
        self.volumes = Vec::new();
        self.addresses = Vec::new();
        proof {
            assert(self.volumes.deep_view() =~= Seq::<Seq<char>>::empty());
            assert(self.addresses.deep_view() =~= Seq::<Seq<char>>::empty());
        }
        Action::DeleteServer(Role::Pktgen)
    }

    /// Begins the run that makes the three machines: first all that
    /// `clean_environment` does, then for each role a machine with its
    /// floating IP, and at last the ports of the test networks. It ends
    /// with `Action::Spawned` or `Action::Failed`. A run that was under way
    /// is given up.
    pub fn spawn_vms(&mut self) -> (r: Action)
        ensures
            (final(self).run(), r@) == begun(Goal::Spawn),
            final(self).run().wf(),
            final(self).settings() == old(self).settings(),
    {
        self.begin(Goal::Spawn)
    }

    /// Begins the run that removes the three machines, every volume that is
    /// attached to nothing and every floating IP that is associated with
    /// nothing. It ends with `Action::Cleaned` or `Action::Failed`. A run
    /// that was under way is given up.
    pub fn clean_environment(&mut self) -> (r: Action)
        ensures
            (final(self).run(), r@) == begun(Goal::Clean),
            final(self).run().wf(),
            final(self).settings() == old(self).settings(),
    {
        self.begin(Goal::Clean)
    }

    fn fail(&mut self, kind: ErrorKind, message: &str) -> (r: Action)
        ensures
            (final(self).run(), r@) == old(self).run().fail(kind, message@),
            final(self).settings() == old(self).settings(),
    {
        self.stage = Stage::Idle;
        failed(kind, String::from_str(message))
    }

    fn stray(&mut self) -> (r: Action)
        ensures
            (final(self).run(), r@) == old(self).run().stray(),
            final(self).settings() == old(self).settings(),
    {
        self.fail(ErrorKind::InvalidInput, "event does not answer the action under way")
    }

    fn cli_failed(&mut self, report: String) -> (r: Action)
        ensures
            (final(self).run(), r@) == old(self).run().cli_failed(report@),
            final(self).settings() == old(self).settings(),
    {
        self.stage = Stage::Idle;
        failed(
            ErrorKind::InvalidResponse,
            String::from_str("openstack cli failed: ").concat(report.as_str()),
        )
    }

    fn after_volumes(&mut self) -> (r: Action)
        ensures
            (final(self).run(), r@) == old(self).run().after_volumes(),
            final(self).settings() == old(self).settings(),
    {
        self.stage = Stage::DeletingFloatingIps;
        Action::DeleteUnusedFloatingIps
    }

    fn delete_listed(&mut self, i: usize) -> (r: Action)
        requires
            i < old(self).volumes.len(),
        ensures
            final(self).run() == old(self).run().at(Stage::DeletingVolume(i)),
            r@ == ActionView::DeleteVolume(old(self).run().volumes[i as int]),
            final(self).settings() == old(self).settings(),
    {
        self.stage = Stage::DeletingVolume(i);
        Action::DeleteVolume(self.volumes[i].clone())
    }

    fn after_failed_look(&mut self, role: Role, look: usize, e: Error) -> (r: Action)
        ensures
            (final(self).run(), r@) == old(self).run().after_failed_look(role, look, e@),
            final(self).settings() == old(self).settings(),
    {
        match retry(MAX_RETRIES, look, true) {
            Retry::Again => {
                self.stage = Stage::Pausing(role, look);
                Action::Sleep(RETRY_DELAY_MILLIS)
            },
            Retry::Finish => {
                self.stage = Stage::Idle;
                Action::Failed(e)
            },
        }
    }

    fn after_address(&mut self, role: Role, ip: String) -> (r: Action)
        ensures
            (final(self).run(), r@) == old(self).run().after_address(role, ip@),
            final(self).settings() == old(self).settings(),
    {
        self.addresses.push(ip);
        proof {
            assert(self.addresses.deep_view() =~= old(self).addresses.deep_view().push(ip@));
        }
        match role.following() {
            Some(next) => {
                self.stage = Stage::CreatingServer(next);
                Action::CreateServer(next)
            },
            None => {
                self.stage = Stage::AddingPort(Port::Pktgen);
                Action::AddPort(Port::Pktgen)
            },
        }
    }

    fn listed(&mut self, success: bool, stdout: Vec<u8>, report: String) -> (r: Action)
        ensures
            (final(self).run(), r@) == old(self).run().at(Stage::ListingVolumes).step(
                EventView::Cli { success, stdout: stdout@, report: report@ },
            ),
            final(self).settings() == old(self).settings(),
    {
        self.stage = Stage::ListingVolumes;
        if !success {
            return self.cli_failed(report);
        }
        match text::from_utf8(stdout) {
            None => self.fail(ErrorKind::InvalidResponse, "openstack cli: failed to parse output"),
            Some(listing) => {
                self.volumes = text::lines(listing.as_str());
                if self.volumes.len() == 0 {
                    self.after_volumes()
                } else {
                    self.delete_listed(0)
                }
            },
        }
    }

    fn spawned(&mut self) -> (r: Action)
        requires
            old(self).addresses.len() == 3,
        ensures
            final(self).run() == (Run {
                stage: Stage::Idle,
                addresses: Seq::empty(),
                ..old(self).run()
            }),
            r@ == ActionView::Spawned(
                old(self).run().addresses[0],
                old(self).run().addresses[1],
                old(self).run().addresses[2],
            ),
            final(self).settings() == old(self).settings(),
    {
        self.stage = Stage::Idle;
        let ip_pcap = self.addresses.pop().unwrap();
        let ip_fwd = self.addresses.pop().unwrap();
        let ip_pktgen = self.addresses.pop().unwrap();
        proof {
            assert(self.addresses.deep_view() =~= Seq::<Seq<char>>::empty());
            assert(old(self).addresses.deep_view()[0] == ip_pktgen@);
            assert(old(self).addresses.deep_view()[1] == ip_fwd@);
            assert(old(self).addresses.deep_view()[2] == ip_pcap@);
        }
        Action::Spawned(ip_pktgen, ip_fwd, ip_pcap)
    }

    /// Takes what came of the action that was under way and tells the next.
    /// A report that does not answer that action ends the run with a
    /// failure, as does a report while no run is under way.
    pub fn next(&mut self, event: Event) -> (r: Action)
        requires
            old(self).run().wf(),
        ensures
            (final(self).run(), r@) == old(self).run().step(event@),
            final(self).run().wf(),
            final(self).settings() == old(self).settings(),
    {
        let stage = self.stage;
        proof {
            assert(self.volumes.deep_view().len() == self.volumes.len());
            assert(self.addresses.deep_view().len() == self.addresses.len());
        }
        match event {
            Event::Failed(e) => match stage {
                Stage::Idle => self.stray(),
                Stage::Confirming(role, look) => self.after_failed_look(role, look, e),
                _ => {
                    self.stage = Stage::Idle;
                    Action::Failed(e)
                },
            },
            Event::Done => match stage {
                Stage::DeletingServer(role) => self.after_server(role),
                Stage::DeletingFloatingIps => match self.goal {
                    Goal::Clean => {
                        self.stage = Stage::Idle;
                        Action::Cleaned
                    },
                    Goal::Spawn => {
                        self.addresses = Vec::new();
                        proof {
                            assert(self.addresses.deep_view() =~= Seq::<Seq<char>>::empty());
                        }
                        self.stage = Stage::CreatingServer(Role::Pktgen);
                        Action::CreateServer(Role::Pktgen)
                    },
                },
                Stage::CreatingServer(role) => {
                    self.stage = Stage::Associating(role);
                    Action::AssociateFloatingIp(role)
                },
                Stage::Associating(role) => {
                    self.stage = Stage::Settling(role);
                    Action::Sleep(RETRY_DELAY_MILLIS)
                },
                Stage::Settling(role) => {
                    self.stage = Stage::Confirming(role, 1);
                    Action::RefreshServer(role)
                },
                Stage::Pausing(role, look) => {
                    self.stage = Stage::Confirming(role, look + 1);
                    Action::RefreshServer(role)
                },
                _ => self.stray(),
            },
            Event::NotFound => match stage {
                Stage::DeletingServer(role) => self.after_server(role),
                _ => self.stray(),
            },
            Event::Address(found) => match stage {
                Stage::Confirming(role, look) => match found {
                    Some(ip) => self.after_address(role, ip),
                    None => self.after_failed_look(
                        role,
                        look,
                        Error {
                            kind: ErrorKind::OperationTimedOut,
                            message: String::from_str("ip association timed out"),
                        },
                    ),
                },
                _ => self.stray(),
            },
            Event::Cli { success, stdout, report } => match stage {
                Stage::ListingVolumes => self.listed(success, stdout, report),
                Stage::DeletingVolume(i) => if !success {
                    self.cli_failed(report)
                } else if i + 1 < self.volumes.len() {
                    self.delete_listed(i + 1)
                } else {
                    self.after_volumes()
                },
                Stage::AddingPort(port) => if !success {
                    self.cli_failed(report)
                } else {
                    match port.following() {
                        Some(next) => {
                            self.stage = Stage::AddingPort(next);
                            Action::AddPort(next)
                        },
                        None => self.spawned(),
                    }
                },
                _ => self.stray(),
            },
        }
    }

    fn after_server(&mut self, role: Role) -> (r: Action)
        ensures
            (final(self).run(), r@) == old(self).run().at(Stage::DeletingServer(role)).step(
                EventView::Done,
            ),
            final(self).settings() == old(self).settings(),
    {
        match role.following() {
            Some(next) => {
                self.stage = Stage::DeletingServer(next);
                Action::DeleteServer(next)
            },
            None => {
                self.stage = Stage::ListingVolumes;
                Action::ListUnusedVolumes
            },
        }
    }

    /// How the command-line tool is called for an action that is its
    /// business: with the credentials and the scope of the settings in its
    /// environment.
    pub fn wrap_openstack_cli(&self, action: &Action) -> (r: Option<CliCall>)
        ensures
            r is Some <==> (action@ is ListUnusedVolumes || action@ is DeleteVolume
                || action@ is AddPort),
            r is Some ==> r->0.args.deep_view() == cli_arguments(action@),
            r is Some ==> r->0.env.deep_view() == cli_environment(self.settings()),
    {
        let args = match action {
            Action::ListUnusedVolumes => Self::get_unused_volumes(),
            Action::DeleteVolume(id) => Self::delete_volume(id.as_str()),
            Action::AddPort(port) => Self::add_port_to_vm(port.server().name(), port.name()),
            _ => {
                return None;
            },
        };
        let env = vec![
            ("OS_IDENTITY_API_VERSION", String::from_str("3")),
            ("OS_AUTH_URL", self.config.auth_url.clone()),
            ("OS_USERNAME", self.config.user_name.clone()),
            ("OS_USER_DOMAIN_NAME", self.config.user_domain.clone()),
            ("OS_PASSWORD", self.config.password.clone()),
            ("OS_PROJECT_NAME", self.config.project_name.clone()),
            ("OS_PROJECT_DOMAIN_NAME", self.config.project_domain.clone()),
        ];
        proof {
            assert(env.deep_view() =~= cli_environment(self.config));
        }
        Some(CliCall { env, args })
    }

    /// The arguments that list the ids of the volumes that nothing uses.
    pub fn get_unused_volumes() -> (r: Vec<String>)
        ensures
            r.deep_view() == cli_arguments(ActionView::ListUnusedVolumes),
    {
        let r = vec![
            String::from_str("volume"),
            String::from_str("list"),
            String::from_str("-f"),
            String::from_str("value"),
            String::from_str("--status"),
            String::from_str("available"),
            String::from_str("-c"),
            String::from_str("ID"),
        ];
        proof {
            assert(r.deep_view() =~= cli_arguments(ActionView::ListUnusedVolumes));
        }
        r
    }

    /// The arguments that delete a volume.
    pub fn delete_volume(id: &str) -> (r: Vec<String>)
        ensures
            r.deep_view() == cli_arguments(ActionView::DeleteVolume(id@)),
    {
        let r = vec![String::from_str("volume"), String::from_str("delete"), String::from_str(id)];
        proof {
            assert(r.deep_view() =~= cli_arguments(ActionView::DeleteVolume(id@)));
        }
        r
    }

    /// The arguments that attach a port to a machine.
    pub fn add_port_to_vm(server: &str, port: &str) -> (r: Vec<String>)
        ensures
            r.deep_view() == seq!["server"@, "add"@, "port"@, server@, port@],
    {
        let r = vec![
            String::from_str("server"),
            String::from_str("add"),
            String::from_str("port"),
            String::from_str(server),
            String::from_str(port),
        ];
        proof {
            assert(r.deep_view() =~= seq!["server"@, "add"@, "port"@, server@, port@]);
        }
        r
    }
}

/// A floating IP that is not there at the last look that the retries allow
/// ends the run with a timeout; at every earlier look the run pauses and
/// looks again. No run takes more than `MAX_RETRIES + 1` looks at one
/// machine.
pub proof fn lemma_unconfirmed_address_times_out(run: Run, role: Role, look: usize)
    requires
        run.wf(),
        run.stage == Stage::Confirming(role, look),
    ensures
        look <= MAX_RETRIES ==> run.step(EventView::Address(None)) == (
            run.at(Stage::Pausing(role, look)),
            ActionView::Sleep(RETRY_DELAY_MILLIS),
        ),
        look <= MAX_RETRIES ==> run.at(Stage::Pausing(role, look)).step(EventView::Done) == (
            run.at(Stage::Confirming(role, (look + 1) as usize)),
            ActionView::RefreshServer(role),
        ),
        look > MAX_RETRIES ==> run.step(EventView::Address(None)) == (
            run.at(Stage::Idle),
            ActionView::Failed(
                ErrorView {
                    kind: ErrorKind::OperationTimedOut,
                    message: "ip association timed out"@,
                },
            ),
        ),
        look <= MAX_RETRIES + 1,
{
}

/// Every step keeps a run well formed, and a run that ended stays ended:
/// once idle, it asks for nothing more.
pub proof fn lemma_step_keeps_run(run: Run, event: EventView)
    requires
        run.wf(),
    ensures
        run.step(event).0.wf(),
        run.step(event).0.goal == run.goal,
        run.stage == Stage::Idle ==> run.step(event).0.stage == Stage::Idle && run.step(
            event,
        ).1 is Failed,
        (run.step(event).1 is Failed || run.step(event).1 is Cleaned || run.step(
            event,
        ).1 is Spawned) <==> run.step(event).0.stage == Stage::Idle,
{
}

/// A machine is made only after every machine of the old run was asked to
/// be deleted, and only in a run that is to spawn: the step that asks for a
/// machine comes from the stage that deletes the floating IPs, which follows
/// the deletion of the machines, or from the look that found the address of
/// the machine before it.
pub proof fn lemma_machines_follow_cleaning(run: Run, event: EventView, role: Role)
    requires
        run.wf(),
        run.step(event).1 == ActionView::CreateServer(role),
    ensures
        run.goal == Goal::Spawn || run.stage is Confirming,
        run.stage == Stage::DeletingFloatingIps || run.stage is Confirming,
        run.stage == Stage::DeletingFloatingIps ==> role == Role::Pktgen,
        run.stage is Confirming ==> run.stage->Confirming_0.spec_following() == Some(role),
        run.step(event).0.addresses.len() == role.index(),
{
}

/// Where a run stands after some events, each of which answered the action
/// that the one before it led to.
pub open spec fn run_on(goal: Goal, events: Seq<EventView>) -> Run
    decreases events.len(),
{
    if events.len() == 0 {
        begun(goal).0
    } else {
        run_on(goal, events.drop_last()).step(events.last()).0
    }
}

/// The actions that a run asked for, from its first to the one that the
/// last of the events led to.
pub open spec fn told(goal: Goal, events: Seq<EventView>) -> Seq<ActionView>
    decreases events.len(),
{
    if events.len() == 0 {
        seq![begun(goal).1]
    } else {
        told(goal, events.drop_last()).push(run_on(goal, events.drop_last()).step(events.last()).1)
    }
}

/// The machine of `role` was asked to be deleted among the first `until` of
/// `actions`.
pub open spec fn deleted_before(actions: Seq<ActionView>, role: Role, until: int) -> bool {
    exists|j: int| 0 <= j < until && j < actions.len() && actions[j] == ActionView::DeleteServer(role)
}

/// The stage lies behind the deletion of the machines.
pub open spec fn past_servers(stage: Stage) -> bool {
    !(stage is Idle) && !(stage is DeletingServer)
}

/// No machine is made under a name that is still taken: whenever a run asks
/// for a machine, it has asked before for the machine of each role to be
/// deleted, and it has gone on only after each was gone or found absent.
/// This holds of every run, whatever came of any action.
pub proof fn lemma_machine_is_made_after_removal(goal: Goal, events: Seq<EventView>)
    ensures
        run_on(goal, events).wf(),
        told(goal, events).len() == events.len() + 1,
        forall|k: int, role: Role|
            0 <= k < told(goal, events).len() && told(goal, events)[k] is CreateServer
                ==> #[trigger] deleted_before(told(goal, events), role, k),
        past_servers(run_on(goal, events).stage) ==> forall|role: Role| #[trigger]
            deleted_before(told(goal, events), role, told(goal, events).len() as int),
        run_on(goal, events).stage is DeletingServer ==> forall|role: Role|
            role.index() <= run_on(goal, events).stage->DeletingServer_0.index()
                ==> #[trigger] deleted_before(
                told(goal, events),
                role,
                told(goal, events).len() as int,
            ),
    decreases events.len(),
{
    let all = told(goal, events);
    if events.len() == 0 {
        assert(all[0] == ActionView::DeleteServer(Role::Pktgen));
        assert(deleted_before(all, Role::Pktgen, all.len() as int));
    } else {
        let front = events.drop_last();
        lemma_machine_is_made_after_removal(goal, front);
        let before = run_on(goal, front);
        let after = run_on(goal, events);
        let heard = told(goal, front);
        let last = heard.len() as int;
        lemma_step_keeps_run(before, events.last());
        assert(all == heard.push(before.step(events.last()).1));
        assert forall|role: Role, until: int|
            deleted_before(heard, role, until) implies #[trigger] deleted_before(all, role, until) by {
            let j = choose|j: int|
                0 <= j < until && j < heard.len() && heard[j] == ActionView::DeleteServer(role);
            assert(all[j] == heard[j]);
        }
        assert forall|k: int, role: Role| 0 <= k < all.len() && all[k] is CreateServer implies 
            #[trigger] deleted_before(all, role, k) by {
            if k < last {
                assert(all[k] == heard[k]);
                assert(deleted_before(heard, role, k));
            } else {
                assert(past_servers(before.stage));
                assert(deleted_before(heard, role, last));
            }
        }
        if past_servers(after.stage) {
            assert forall|role: Role| #[trigger] deleted_before(all, role, all.len() as int) by {
                if past_servers(before.stage) {
                    assert(deleted_before(heard, role, last));
                    assert(deleted_before(all, role, last));
                    let j = choose|j: int|
                        0 <= j < last && j < all.len() && all[j] == ActionView::DeleteServer(role);
                    assert(0 <= j < all.len() && all[j] == ActionView::DeleteServer(role));
                } else {
                    assert(before.stage == Stage::DeletingServer(Role::Pcap));
                    assert(role.index() <= Role::Pcap.index());
                    assert(deleted_before(heard, role, last));
                    assert(deleted_before(all, role, last));
                    let j = choose|j: int|
                        0 <= j < last && j < all.len() && all[j] == ActionView::DeleteServer(role);
                    assert(0 <= j < all.len() && all[j] == ActionView::DeleteServer(role));
                }
            }
        }
        if after.stage is DeletingServer {
            let now = after.stage->DeletingServer_0;
            assert forall|role: Role| role.index() <= now.index() implies #[trigger] deleted_before(
                all,
                role,
                all.len() as int,
            ) by {
                assert(before.stage is DeletingServer);
                let was = before.stage->DeletingServer_0;
                if role.index() <= was.index() {
                    assert(deleted_before(heard, role, last));
                    assert(deleted_before(all, role, last));
                    let j = choose|j: int|
                        0 <= j < last && j < all.len() && all[j] == ActionView::DeleteServer(role);
                    assert(0 <= j < all.len() && all[j] == ActionView::DeleteServer(role));
                } else {
                    assert(all[last] == ActionView::DeleteServer(role));
                }
            }
        }
    }
}

} // verus!
