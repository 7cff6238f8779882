//! The worker: what becomes of a job, and the course of one test run from
//! the repository's settings to the report.

use crate::config::{OpenStackConfig, Repository, RepositoryConfig, TestConfig};
use crate::openstack;
use crate::openstack::{OpenStack, Role};
use crate::pcap_tester;
use crate::publisher::{format_log, log_text};
use crate::remote;
use crate::remote::{Log, Remote, Transcript};
use crate::text;
use crate::utility::{next_step, retry, Retry};
use chrono::{DateTime, SecondsFormat, Utc};
use std::collections::VecDeque;
use std::time::SystemTime;
use vstd::prelude::*;
use vstd::string::*;

verus! {

/// The file that the capture is written to on the capturing host.
pub const PCAP_FILE: &'static str = "capture.pcap";

/// How long the capture is waited for before it is cancelled.
pub const PCAP_TIMEOUT_MILLIS: u64 = 15000;

/// The pause between two looks at the capture.
pub const PCAP_POLL_MILLIS: u64 = 200;

/// How often the connection to a fresh host is tried again.
pub const SSH_MAX_RETRIES: usize = 10;

/// The pause between two tries.
pub const SSH_RETRY_DELAY_MILLIS: u64 = 5000;

/// Why a test run has no good end.
#[derive(Debug)]
pub enum TestError {
    /// The repository's settings could not be fetched.
    FetchRepositoryConfig { source: String },
    /// The repository's settings could not be understood.
    ConfigError { source: String },
    /// No session could be opened with the host of this role.
    ConnectVm { vm: &'static str, source: remote::Error },
    /// The cloud failed while machines were made or removed.
    OpenStackError { source: openstack::Error },
    /// The transcripts or the capture could not be stored.
    SaveTestOutput { source: String },
    /// The test itself failed; what the hosts printed is kept.
    PerformTest { source: PerformTestError, test_output: TestOutput },
}

/// Why the test itself failed.
#[derive(Debug)]
pub enum PerformTestError {
    PrepareVm { source: remote::Error },
    ThreadPanicked,
    RemoteError { source: remote::Error },
    TestPcap { source: pcap_tester::Error },
}

/// What the worker is asked to do.
#[derive(Debug)]
pub enum Job {
    TestPullRequest {
        repository: Repository,
        fork_user: String,
        fork_branch: String,
        pull_request_id: u64,
    },
    TestBranch { repository: Repository, branch: String },
    Ping { repository: Repository, issue_id: u64 },
}

/// The three sessions of a run, and the capture once it was fetched.
pub struct TestContext {
    pub vm_pktgen: Remote,
    pub vm_fwd: Remote,
    pub vm_pcap: Remote,
    pub pcap: Option<Vec<u8>>,
}

/// What is kept of a run: the transcript of each host, and the names of the
/// files that hold the transcripts and the capture.
#[derive(Debug)]
pub struct TestOutput {
    pub log_pktgen: Log,
    pub log_fwd: Log,
    pub log_pcap: Log,
    pub log_file: String,
    pub pcap_file: Option<String>,
}

/// What the worker answers to a job.
#[derive(Debug)]
pub struct Report {
    pub repository: Repository,
    pub content: ReportContent,
}

/// What a report says.
#[derive(Debug)]
pub enum ReportContent {
    Pong { issue_id: u64 },
    TestResult { result: Result<TestOutput, TestError>, test_target: TestTarget },
}

/// What was tested.
#[derive(Debug)]
pub enum TestTarget {
    PullRequest(u64),
    Branch(String),
}

/// The output of a run as plain text.
pub struct TestOutputView {
    pub log_pktgen: Transcript,
    pub log_fwd: Transcript,
    pub log_pcap: Transcript,
    pub log_file: Seq<char>,
    pub pcap_file: Option<Seq<char>>,
}

impl View for TestOutput {
    type V = TestOutputView;

    open spec fn view(&self) -> TestOutputView {
        TestOutputView {
            log_pktgen: self.log_pktgen.deep_view(),
            log_fwd: self.log_fwd.deep_view(),
            log_pcap: self.log_pcap.deep_view(),
            log_file: self.log_file@,
            pcap_file: match self.pcap_file {
                Some(name) => Some(name@),
                None => None,
            },
        }
    }
}

/// A failure of the test as plain text.
pub enum PerformTestErrorView {
    PrepareVm { source: remote::ErrorView },
    ThreadPanicked,
    RemoteError { source: remote::ErrorView },
    TestPcap { source: pcap_tester::ErrorView },
}

impl View for PerformTestError {
    type V = PerformTestErrorView;

    open spec fn view(&self) -> PerformTestErrorView {
        match *self {
            PerformTestError::PrepareVm { source } => PerformTestErrorView::PrepareVm {
                source: source@,
            },
            PerformTestError::ThreadPanicked => PerformTestErrorView::ThreadPanicked,
            PerformTestError::RemoteError { source } => PerformTestErrorView::RemoteError {
                source: source@,
            },
            PerformTestError::TestPcap { source } => PerformTestErrorView::TestPcap {
                source: source@,
            },
        }
    }
}

/// A failure of a run as plain text.
pub enum TestErrorView {
    FetchRepositoryConfig { source: Seq<char> },
    ConfigError { source: Seq<char> },
    ConnectVm { vm: Seq<char>, source: remote::ErrorView },
    OpenStackError { source: openstack::ErrorView },
    SaveTestOutput { source: Seq<char> },
    PerformTest { source: PerformTestErrorView, test_output: TestOutputView },
}

impl View for TestError {
    type V = TestErrorView;

    open spec fn view(&self) -> TestErrorView {
        match *self {
            TestError::FetchRepositoryConfig { source } => TestErrorView::FetchRepositoryConfig {
                source: source@,
            },
            TestError::ConfigError { source } => TestErrorView::ConfigError { source: source@ },
            TestError::ConnectVm { vm, source } => TestErrorView::ConnectVm {
                vm: vm@,
                source: source@,
            },
            TestError::OpenStackError { source } => TestErrorView::OpenStackError {
                source: source@,
            },
            TestError::SaveTestOutput { source } => TestErrorView::SaveTestOutput {
                source: source@,
            },
            TestError::PerformTest { source, test_output } => TestErrorView::PerformTest {
                source: source@,
                test_output: test_output@,
            },
        }
    }
}

/// The view of a run's result.
pub open spec fn result_view(r: Result<TestOutput, TestError>) -> Result<
    TestOutputView,
    TestErrorView,
> {
    match r {
        Ok(output) => Ok(output@),
        Err(e) => Err(e@),
    }
}

/// Whether `text` words a failure of the test.
pub open spec fn perform_error_text(e: PerformTestErrorView, text: Seq<char>) -> bool {
    match e {
        PerformTestErrorView::PrepareVm { source } => text == "Failed to prepare a VM: "@
            + remote::error_text(source),
        PerformTestErrorView::ThreadPanicked => text
            == "A thread panicked during VM preparation"@,
        PerformTestErrorView::RemoteError { source } => text == "An error occurred on a VM: "@
            + remote::error_text(source),
        PerformTestErrorView::TestPcap { source } => exists|words: Seq<char>|
            pcap_tester::worded(source, words) && text == "pcap test error: "@ + words,
    }
}

/// Whether `text` words a failure of a run.
pub open spec fn test_error_text(e: TestErrorView, text: Seq<char>) -> bool {
    match e {
        TestErrorView::FetchRepositoryConfig { source } => text == "Failed to fetch CI config: "@
            + source,
        TestErrorView::ConfigError { source } => text == "Failed to parse CI config: "@ + source,
        TestErrorView::ConnectVm { vm, source } => text == "Failed to connect to VM "@ + vm
            + " ("@ + remote::error_text(source) + ")"@,
        TestErrorView::OpenStackError { source } => text == "An OpenStack error occurred: "@
            + openstack::error_text(source),
        TestErrorView::SaveTestOutput { source } => text == "Failed to save test output: "@
            + source,
        TestErrorView::PerformTest { source, .. } => exists|words: Seq<char>|
            perform_error_text(source, words) && text
                == "An error occured while performing tests: "@ + words,
    }
}

impl PerformTestError {
    /// The failure in words.
    pub fn message(&self) -> (r: String)
        ensures
            perform_error_text(self@, r@),
    {
        match self {
            PerformTestError::PrepareVm { source } => String::from_str(
                "Failed to prepare a VM: ",
            ).concat(source.message().as_str()),
            PerformTestError::ThreadPanicked => String::from_str(
                "A thread panicked during VM preparation",
            ),
            PerformTestError::RemoteError { source } => String::from_str(
                "An error occurred on a VM: ",
            ).concat(source.message().as_str()),
            PerformTestError::TestPcap { source } => String::from_str("pcap test error: ").concat(
                source.message().as_str(),
            ),
        }
    }
}

impl TestError {
    /// The failure in words.
    pub fn message(&self) -> (r: String)
        ensures
            test_error_text(self@, r@),
    {
        match self {
            TestError::FetchRepositoryConfig { source } => String::from_str(
                "Failed to fetch CI config: ",
            ).concat(source.as_str()),
            TestError::ConfigError { source } => String::from_str(
                "Failed to parse CI config: ",
            ).concat(source.as_str()),
            TestError::ConnectVm { vm, source } => String::from_str(
                "Failed to connect to VM ",
            ).concat(vm).concat(" (").concat(source.message().as_str()).concat(")"),
            TestError::OpenStackError { source } => String::from_str(
                "An OpenStack error occurred: ",
            ).concat(source.message().as_str()),
            TestError::SaveTestOutput { source } => String::from_str(
                "Failed to save test output: ",
            ).concat(source.as_str()),
            TestError::PerformTest { source, .. } => String::from_str(
                "An error occured while performing tests: ",
            ).concat(source.message().as_str()),
        }
    }
}

/// One step of the preparation of a host.
#[derive(Debug)]
pub enum Step {
    /// Run this command and wait for its end.
    Command(String),
    /// Copy a local file to the host, with this mode.
    Upload { local: &'static str, remote: &'static str, mode: i32 },
}

/// A step as plain text.
pub enum StepView {
    Command(Seq<char>),
    Upload { local: Seq<char>, remote: Seq<char>, mode: i32 },
}

impl View for Step {
    type V = StepView;

    open spec fn view(&self) -> StepView {
        match *self {
            Step::Command(command) => StepView::Command(command@),
            Step::Upload { local, remote, mode } => StepView::Upload {
                local: local@,
                remote: remote@,
                mode,
            },
        }
    }
}

/// The views of some steps.
pub open spec fn steps_view(steps: Seq<Step>) -> Seq<StepView> {
    steps.map_values(|step: Step| step@)
}

/// A repository as `user/name`.
pub open spec fn full_name(repository: Repository) -> Seq<char> {
    repository.user@ + seq!['/'] + repository.name@
}

/// Where a repository says how it is to be tested.
pub open spec fn config_url(repository: Repository, branch: Seq<char>) -> Seq<char> {
    "https://raw.githubusercontent.com/"@ + full_name(repository) + "/"@ + branch
        + "/ixy-ci.toml"@
}

/// The command that fetches a branch of a repository with its submodules.
pub open spec fn clone_command(repository: Repository, branch: Seq<char>) -> Seq<char> {
    "git clone https://github.com/"@ + full_name(repository) + " --branch "@ + branch
        + " --single-branch --recurse-submodules"@
}

/// A build step, run inside the fetched repository.
pub open spec fn build_command(repository: Repository, step: Seq<char>) -> Seq<char> {
    "cd "@ + repository.name@ + " && "@ + step
}

/// The build steps of a repository, as commands.
pub open spec fn build_commands(repository: Repository, setup: Seq<Seq<char>>) -> Seq<StepView> {
    setup.map_values(|step: Seq<char>| StepView::Command(build_command(repository, step)))
}

/// What is done on each host before a test: the packages are brought up
/// to date, git is installed, the repository is fetched and built step by
/// step, and the helper that cancels commands is installed.
pub open spec fn preparation(
    repository: Repository,
    branch: Seq<char>,
    setup: Seq<Seq<char>>,
) -> Seq<StepView> {
    seq![
        StepView::Command("sudo apt update"@),
        StepView::Command("sudo apt install -y git"@),
        StepView::Command(clone_command(repository, branch)),
    ] + build_commands(repository, setup) + seq![
        StepView::Upload { local: "runner-bin"@, remote: "runner"@, mode: 0o777 },
        StepView::Command("sudo mv runner /usr/bin/runner"@),
    ]
}

/// The host at `at` is the first whose preparation failed.
pub open spec fn first_failure(results: Seq<Option<Result<(), remote::Error>>>, at: int) -> bool {
    &&& 0 <= at < results.len()
    &&& results[at] is Some
    &&& results[at]->0 is Err
    &&& forall|i: int| 0 <= i < at ==> results[i] is Some && results[i]->0 is Ok
}

/// What became of the preparation of the hosts, from what became of each,
/// in the order of the hosts: `None` stands for a preparation that broke
/// off without a result. One such makes the whole a panic; else the first
/// failure counts.
pub open spec fn prepared(results: Seq<Option<Result<(), remote::Error>>>) -> Result<
    (),
    PerformTestErrorView,
> {
    if exists|i: int| 0 <= i < results.len() && results[i] is None {
        Err(PerformTestErrorView::ThreadPanicked)
    } else if exists|at: int| first_failure(results, at) {
        let at = choose|at: int| first_failure(results, at);
        Err(PerformTestErrorView::PrepareVm { source: results[at]->0->Err_0@ })
    } else {
        Ok(())
    }
}

/// The shell assignments under which the three commands of a test run.
pub open spec fn environment(test: TestConfig, repository: Repository) -> Seq<char> {
    "PCI_ADDR_PKTGEN="@ + test.pci_addresses.pktgen@ + "; PCI_ADDR_FWD_SRC="@
        + test.pci_addresses.fwd_src@ + "; PCI_ADDR_FWD_DST="@ + test.pci_addresses.fwd_dst@
        + "; PCI_ADDR_PCAP="@ + test.pci_addresses.pcap@ + "; PCAP_OUT="@ + PCAP_FILE@
        + "; PCAP_N="@ + text::decimal(test.packets as nat) + "; cd "@ + repository.name@
}

/// The command of a role, as the repository gives it.
pub open spec fn configured_command(config: RepositoryConfig, role: Role) -> Seq<char> {
    match role {
        Role::Pktgen => config.pktgen@,
        Role::Fwd => config.fwd@,
        Role::Pcap => config.pcap@,
    }
}

/// Where the capture lies on the capturing host.
pub open spec fn capture_path(login: Seq<char>, repository: Repository) -> Seq<char> {
    "/home/"@ + login + "/"@ + repository.name@ + "/"@ + PCAP_FILE@
}

/// The name under which the output of a run is stored, without its ending.
pub open spec fn output_name(repository: Repository, branch: Seq<char>, stamp: Seq<char>) -> Seq<
    char,
> {
    repository.user@ + "__"@ + repository.name@ + "__"@ + branch + "__"@ + stamp
}

/// `DateTime::<Utc>::from` on what `SystemTime::now` gives, and
/// `DateTime::to_rfc3339_opts`: the time of the call in UTC, to the second,
/// as RFC 3339 writes it with a `Z`. A clock that stands before 1970 is read
/// like any other. Nothing is promised of a clock.
#[verifier::external_body]
fn utc_timestamp() -> String {
    DateTime::<Utc>::from(SystemTime::now()).to_rfc3339_opts(SecondsFormat::Secs, true)
}

/// Where the settings of a repository are fetched from.
pub fn fetch_repo_config(repository: &Repository, branch: &str) -> (r: String)
    ensures
        r@ == config_url(*repository, branch@),
{
    String::from_str("https://raw.githubusercontent.com/").concat(
        repository.to_text().as_str(),
    ).concat("/").concat(branch).concat("/ixy-ci.toml")
}

/// The steps that prepare a host for a test.
pub fn prepare_vms(setup: &Vec<String>, repository: &Repository, branch: &str) -> (r: Vec<Step>)
    ensures
        steps_view(r@) == preparation(*repository, branch@, setup.deep_view()),
{
    let clone = String::from_str("git clone https://github.com/").concat(
        repository.to_text().as_str(),
    ).concat(" --branch ").concat(branch).concat(" --single-branch --recurse-submodules");
    let mut steps = vec![
        Step::Command(String::from_str("sudo apt update")),
        Step::Command(String::from_str("sudo apt install -y git")),
        Step::Command(clone),
    ];
    let ghost head = steps_view(steps@);
    let mut i: usize = 0;
    while i < setup.len()
        invariant
            i <= setup.len(),
            steps_view(steps@) == head + build_commands(*repository, setup.deep_view().take(i as int)),
        decreases setup.len() - i,
    {
        let command = String::from_str("cd ").concat(repository.name.as_str()).concat(
            " && ",
        ).concat(setup[i].as_str());
        let ghost before = steps@;
        steps.push(Step::Command(command));
        proof {
            assert(setup.deep_view()[i as int] == setup[i as int]@);
            assert(steps_view(steps@) =~= steps_view(before).push(StepView::Command(command@)));
            assert(build_commands(*repository, setup.deep_view().take(i + 1))
                =~= build_commands(*repository, setup.deep_view().take(i as int)).push(
                StepView::Command(command@),
            ));
            assert(steps_view(steps@) =~= head + build_commands(
                *repository,
                setup.deep_view().take(i + 1),
            ));
        }
        i += 1;
    }
    let ghost built = steps@;
    steps.push(Step::Upload { local: "runner-bin", remote: "runner", mode: 0o777 });
    steps.push(Step::Command(String::from_str("sudo mv runner /usr/bin/runner")));
    proof {
        assert(setup.deep_view().take(i as int) == setup.deep_view());
        assert(head =~= seq![
            StepView::Command("sudo apt update"@),
            StepView::Command("sudo apt install -y git"@),
            StepView::Command(clone_command(*repository, branch@)),
        ]);
        assert(steps_view(steps@) =~= steps_view(built) + seq![
            StepView::Upload { local: "runner-bin"@, remote: "runner"@, mode: 0o777 },
            StepView::Command("sudo mv runner /usr/bin/runner"@),
        ]);
    }
    steps
}

/// Makes one result of the preparations of the hosts.
pub fn join_prepared(results: Vec<Option<Result<(), remote::Error>>>) -> (r: Result<
    (),
    PerformTestError,
>)
    ensures
        match r {
            Ok(()) => prepared(results@) is Ok,
            Err(e) => prepared(results@) == Err::<(), PerformTestErrorView>(e@),
        },
{
    let ghost given = results@;
    let mut rest = results;
    let ghost mut found: int = 0;
    let mut failure: Option<remote::Error> = None;
    while rest.len() > 0
        invariant
            given == results@,
            given.len() >= rest.len(),
            rest@ == given.skip(given.len() - rest.len()),
            forall|i: int| 0 <= i < given.len() - rest.len() ==> given[i] is Some,
            match failure {
                None => forall|i: int|
                    0 <= i < given.len() - rest.len() ==> given[i] is Some && given[i]->0 is Ok,
                Some(e) => found < given.len() - rest.len() && first_failure(given, found)
                    && given[found] == Some(Err::<(), remote::Error>(e)),
            },
        decreases rest.len(),
    {
        let ghost at = given.len() - rest.len();
        let head = rest.remove(0);
        proof {
            assert(rest@ =~= given.skip(at + 1));
            assert(head == given[at]);
        }
        match head {
            None => {
                return Err(PerformTestError::ThreadPanicked);
            },
            Some(Ok(())) => {},
            Some(Err(e)) => {
                if failure.is_none() {
                    proof {
                        found = at;
                    }
                    failure = Some(e);
                }
            },
        }
    }
    match failure {
        Some(source) => {
            proof {
                let at = choose|at: int| first_failure(given, at);
                if at < found {
                    assert(given[at]->0 is Ok);
                }
                if found < at {
                    assert(given[found]->0 is Ok);
                }
            }
            Err(PerformTestError::PrepareVm { source })
        },
        None => {
            proof {
                assert forall|at: int| !first_failure(given, at) by {
                    if 0 <= at < given.len() {
                        assert(given[at]->0 is Ok);
                    }
                }
            }
            Ok(())
        },
    }
}

/// What the worker does with a job.
#[derive(Debug)]
pub enum Plan {
    /// Answer at once.
    Report(Report),
    /// Test a branch of `test_repository`, and report to `repository` on
    /// `test_target`.
    Test { repository: Repository, test_repository: Repository, branch: String, test_target: TestTarget },
}

/// A bounded queue of jobs between those who ask and the worker. A job
/// that finds the queue full is handed back, not kept. The bound is exact:
/// it holds for all who offer jobs together, and none of them has a place of
/// their own beyond it.
pub struct JobQueue {
    capacity: usize,
    pending: VecDeque<Job>,
    connected: bool,
}

/// Why a job was not taken.
#[derive(Debug)]
pub enum TrySendError {
    /// The queue holds as many jobs as it may: the job is dropped.
    Full(Job),
    /// The worker is gone.
    Disconnected(Job),
}

impl TrySendError {
    /// Whether the job was refused because the queue was full.
    pub fn is_full(&self) -> (r: bool)
        ensures
            r == (self is Full),
    {
        match self {
            TrySendError::Full(_) => true,
            TrySendError::Disconnected(_) => false,
        }
    }

    /// Whether the job was refused because the worker is gone.
    pub fn is_disconnected(&self) -> (r: bool)
        ensures
            r == (self is Disconnected),
    {
        match self {
            TrySendError::Full(_) => false,
            TrySendError::Disconnected(_) => true,
        }
    }
}

impl JobQueue {
    /// How many jobs may wait.
    pub closed spec fn capacity(&self) -> nat {
        self.capacity as nat
    }

    /// The jobs that wait, the oldest first.
    pub closed spec fn pending(&self) -> Seq<Job> {
        self.pending@
    }

    /// Whether the worker still takes jobs.
    pub closed spec fn connected(&self) -> bool {
        self.connected
    }

    /// No more jobs wait than may.
    pub closed spec fn wf(&self) -> bool {
        self.pending@.len() <= self.capacity
    }

    /// An empty queue in which `capacity` jobs may wait.
    pub fn new(capacity: usize) -> (r: JobQueue)
        ensures
            r.wf(),
            r.capacity() == capacity,
            r.pending() == Seq::<Job>::empty(),
            r.connected(),
    {
        JobQueue { capacity, pending: VecDeque::new(), connected: true }
    }

    /// Whether the worker still takes jobs.
    pub fn is_connected(&self) -> (r: bool)
        ensures
            r == self.connected(),
    {
        self.connected
    }

    /// Offers a job and returns at once. The job is taken, behind those
    /// that wait, where the worker is there and fewer jobs wait than may;
    /// else it is handed back and the queue is as it was.
    pub fn try_send(&mut self, job: Job) -> (r: Result<(), TrySendError>)
        ensures
            old(self).wf() ==> final(self).wf(),
            final(self).capacity() == old(self).capacity(),
            final(self).connected() == old(self).connected(),
            !old(self).connected() ==> r == Err::<(), TrySendError>(TrySendError::Disconnected(job))
                && final(self).pending() == old(self).pending(),
            old(self).connected() && old(self).pending().len() >= old(self).capacity() ==> r
                == Err::<(), TrySendError>(TrySendError::Full(job)) && final(self).pending()
                == old(self).pending(),
            old(self).connected() && old(self).pending().len() < old(self).capacity() ==> r is Ok
                && final(self).pending() == old(self).pending().push(job),
    {
        if !self.connected {
            Err(TrySendError::Disconnected(job))
        } else if self.pending.len() >= self.capacity {
            Err(TrySendError::Full(job))
        } else {
            self.pending.push_back(job);
            Ok(())
        }
    }

    /// Takes the job that waited longest, if one waits.
    pub fn next(&mut self) -> (r: Option<Job>)
        ensures
            old(self).wf() ==> final(self).wf(),
            final(self).capacity() == old(self).capacity(),
            final(self).connected() == old(self).connected(),
            old(self).pending().len() == 0 ==> r is None && final(self).pending()
                == old(self).pending(),
            old(self).pending().len() > 0 ==> r == Some(old(self).pending()[0])
                && final(self).pending() == old(self).pending().drop_first(),
    {
        let r = self.pending.pop_front();
        proof {
            if old(self).pending@.len() > 0 {
                assert(self.pending@ =~= old(self).pending@.drop_first());
            }
        }
        r
    }

    /// The worker leaves: no job is taken from now on.
    pub fn disconnect(&mut self)
        ensures
            final(self).wf() == old(self).wf(),
            final(self).capacity() == old(self).capacity(),
            final(self).pending() == old(self).pending(),
            !final(self).connected(),
    {
        self.connected = false;
    }
}

/// The jobs that wait after `job` was offered to a queue of this capacity
/// whose worker is there.
pub open spec fn offered(capacity: nat, pending: Seq<Job>, job: Job) -> Seq<Job> {
    if pending.len() < capacity {
        pending.push(job)
    } else {
        pending
    }
}

/// The jobs that wait after each of `jobs` was offered in turn.
pub open spec fn offered_all(capacity: nat, pending: Seq<Job>, jobs: Seq<Job>) -> Seq<Job>
    decreases jobs.len(),
{
    if jobs.len() == 0 {
        pending
    } else {
        offered(capacity, offered_all(capacity, pending, jobs.drop_last()), jobs.last())
    }
}

/// An empty queue takes as many jobs as its capacity says, in their order,
/// and drops every job that is offered beyond that. Once the oldest job was
/// taken out of the full queue, the next job that is offered is taken.
pub proof fn lemma_queue_admits_capacity(capacity: nat, jobs: Seq<Job>, late: Job)
    ensures
        jobs.len() <= capacity ==> offered_all(capacity, Seq::empty(), jobs) == jobs,
        jobs.len() >= capacity ==> offered_all(capacity, Seq::empty(), jobs) == jobs.take(
            capacity as int,
        ),
        jobs.len() >= capacity ==> offered(
            capacity,
            offered_all(capacity, Seq::empty(), jobs),
            late,
        ) == jobs.take(capacity as int),
        jobs.len() >= capacity > 0 ==> offered(
            capacity,
            offered_all(capacity, Seq::empty(), jobs).drop_first(),
            late,
        ) == jobs.take(capacity as int).drop_first().push(late),
    decreases jobs.len(),
{
    if jobs.len() == 0 {
        assert(jobs.take(0) =~= jobs);
    } else {
        let front = jobs.drop_last();
        lemma_queue_admits_capacity(capacity, front, late);
        if jobs.len() <= capacity {
            assert(front.push(jobs.last()) =~= jobs);
        } else {
            assert(front.take(capacity as int) =~= jobs.take(capacity as int));
        }
    }
}

/// The worker.
pub struct Worker {
    log_directory: String,
    openstack: OpenStack,
    test_config: TestConfig,
}

/// What a look at the capture leads to.
#[derive(Debug, Clone, Copy, PartialEq, Eq, Structural)]
pub enum Poll {
    /// The capture still runs and its time is not up: pause, then look again.
    Wait,
    /// The capture ended, or its time is up: go on to the cancellations.
    Proceed,
}

/// The capture is waited for while it runs, until its time is up.
pub open spec fn polled(running: bool, elapsed_millis: u64) -> Poll {
    if running && elapsed_millis < PCAP_TIMEOUT_MILLIS {
        Poll::Wait
    } else {
        Poll::Proceed
    }
}

/// What is done with a job. A ping is answered at once. A branch is tested
/// as it is named. A pull request is tested on its fork: the repository of
/// the same name under the fork's user, on the fork's branch; the report
/// goes to the repository that the pull request was made to.
pub open spec fn planned(job: Job, plan: Plan) -> bool {
    match job {
        Job::Ping { repository, issue_id } => plan == Plan::Report(
            Report { repository, content: ReportContent::Pong { issue_id } },
        ),
        Job::TestBranch { repository, branch } => match plan {
            Plan::Test { repository: to, test_repository, branch: tested, test_target } => {
                &&& to == repository
                &&& test_repository@ == repository@
                &&& tested@ == branch@
                &&& test_target == TestTarget::Branch(branch)
            },
            Plan::Report(_) => false,
        },
        Job::TestPullRequest { repository, fork_user, fork_branch, pull_request_id } => match plan {
            Plan::Test { repository: to, test_repository, branch: tested, test_target } => {
                &&& to == repository
                &&& test_repository.user == fork_user
                &&& test_repository.name@ == repository.name@
                &&& tested == fork_branch
                &&& test_target == TestTarget::PullRequest(pull_request_id)
            },
            Plan::Report(_) => false,
        },
    }
}

impl Worker {
    /// The settings of the test.
    pub closed spec fn test_config(&self) -> TestConfig {
        self.test_config
    }

    /// The directory that the output of the runs is stored in.
    pub closed spec fn log_directory(&self) -> Seq<char> {
        self.log_directory@
    }

    /// The manager of the machines.
    pub closed spec fn cloud(&self) -> OpenStack {
        self.openstack
    }

    /// A worker, and the queue through which it is given its jobs.
    pub fn new(
        job_queue_size: usize,
        log_directory: String,
        openstack: OpenStackConfig,
        test_config: TestConfig,
    ) -> (r: (Worker, JobQueue))
        ensures
            r.0.test_config() == test_config,
            r.0.log_directory() == log_directory@,
            r.0.cloud().settings() == openstack,
            r.0.cloud().run().stage == openstack::Stage::Idle,
            r.1.wf(),
            r.1.capacity() == job_queue_size,
            r.1.pending() == Seq::<Job>::empty(),
            r.1.connected(),
    {
        (
            Worker { log_directory, openstack: OpenStack::new(openstack), test_config },
            JobQueue::new(job_queue_size),
        )
    }

    /// The manager of the machines, to run it.
    pub fn openstack(&mut self) -> (r: &mut OpenStack)
        ensures
            *r == old(self).cloud(),
            final(self).cloud() == *final(r),
            final(self).test_config() == old(self).test_config(),
            final(self).log_directory() == old(self).log_directory(),
    {
        &mut self.openstack
    }

    /// How many test packets a capture must hold.
    pub fn packets(&self) -> (r: usize)
        ensures
            r == self.test_config().packets,
    {
        self.test_config.packets
    }

    /// Decides what is done with a job.
    pub fn run(&self, job: Job) -> (r: Plan)
        ensures
            planned(job, r),
    {
        match job {
            Job::Ping { repository, issue_id } => Plan::Report(
                Report { repository, content: ReportContent::Pong { issue_id } },
            ),
            Job::TestBranch { repository, branch } => {
                let test_repository = Repository {
                    user: repository.user.clone(),
                    name: repository.name.clone(),
                };
                let tested = branch.clone();
                Plan::Test {
                    repository,
                    test_repository,
                    branch: tested,
                    test_target: TestTarget::Branch(branch),
                }
            },
            Job::TestPullRequest { repository, fork_user, fork_branch, pull_request_id } => {
                let test_repository = Repository { user: fork_user, name: repository.name.clone() };
                Plan::Test {
                    repository,
                    test_repository,
                    branch: fork_branch,
                    test_target: TestTarget::PullRequest(pull_request_id),
                }
            },
        }
    }

    /// The report on a test.
    pub fn report(
        repository: Repository,
        test_target: TestTarget,
        result: Result<TestOutput, TestError>,
    ) -> (r: Report)
        ensures
            r.repository == repository,
            r.content == (ReportContent::TestResult { result, test_target }),
    {
        Report { repository, content: ReportContent::TestResult { result, test_target } }
    }

    /// The shell assignments under which the three commands of a test run:
    /// the PCI addresses, the capture's file and packet count, and the
    /// change into the repository.
    pub fn environment(&self, repository: &Repository) -> (r: String)
        ensures
            r@ == environment(self.test_config(), *repository),
    {
        let addresses = &self.test_config.pci_addresses;
        String::from_str("PCI_ADDR_PKTGEN=").concat(addresses.pktgen.as_str()).concat(
            "; PCI_ADDR_FWD_SRC=",
        ).concat(addresses.fwd_src.as_str()).concat("; PCI_ADDR_FWD_DST=").concat(
            addresses.fwd_dst.as_str(),
        ).concat("; PCI_ADDR_PCAP=").concat(addresses.pcap.as_str()).concat("; PCAP_OUT=").concat(
            PCAP_FILE,
        ).concat("; PCAP_N=").concat(
            text::to_decimal(self.test_config.packets as u64).as_str(),
        ).concat("; cd ").concat(repository.name.as_str())
    }

    /// The command of a role in a test: the repository's, with elevated
    /// privileges.
    pub fn command(config: &RepositoryConfig, role: Role) -> (r: String)
        ensures
            r@ == "sudo "@ + configured_command(*config, role),
    {
        let configured = match role {
            Role::Pktgen => config.pktgen.as_str(),
            Role::Fwd => config.fwd.as_str(),
            Role::Pcap => config.pcap.as_str(),
        };
        String::from_str("sudo ").concat(configured)
    }

    /// Where the capture lies on the capturing host.
    pub fn capture_path(&self, repository: &Repository) -> (r: String)
        ensures
            r@ == capture_path(self.cloud().settings().ssh_login@, *repository),
    {
        String::from_str("/home/").concat(self.openstack.config().ssh_login.as_str()).concat(
            "/",
        ).concat(repository.name.as_str()).concat("/").concat(PCAP_FILE)
    }

    /// Decides after a look at the capture whether to look again.
    pub fn poll(running: bool, elapsed_millis: u64) -> (r: Poll)
        ensures
            r == polled(running, elapsed_millis),
    {
        if running && elapsed_millis < PCAP_TIMEOUT_MILLIS {
            Poll::Wait
        } else {
            Poll::Proceed
        }
    }

    /// The name under which the output of a run is stored, for a run that
    /// ended at the time that `stamp` tells.
    pub fn output_name(repository: &Repository, branch: &str, stamp: &str) -> (r: String)
        ensures
            r@ == output_name(*repository, branch@, stamp@),
    {
        String::from_str(repository.user.as_str()).concat("__").concat(
            repository.name.as_str(),
        ).concat("__").concat(branch).concat("__").concat(stamp)
    }

    /// The name under which the output of a run that ends now is stored:
    /// owner, repository and branch, and the time in UTC to the second.
    pub fn output_name_now(repository: &Repository, branch: &str) -> (r: String)
        ensures
            exists|stamp: Seq<char>| r@ == output_name(*repository, branch@, stamp),
    {
        let stamp = utc_timestamp();
        Self::output_name(repository, branch, stamp.as_str())
    }

    /// Ends the three sessions and makes the output of a run: the
    /// transcripts, the name of the file for them and, where a capture was
    /// fetched, the name of the file for it. The capture is handed back to be
    /// written as it is; what the file for the transcripts holds is
    /// `log_file_text` of the output.
    pub fn save_test_output(file_name: &str, context: TestContext) -> (r: (
        TestOutput,
        Option<Vec<u8>>,
    ))
        ensures
            r.0@ == (TestOutputView {
                log_pktgen: context.vm_pktgen.transcript(),
                log_fwd: context.vm_fwd.transcript(),
                log_pcap: context.vm_pcap.transcript(),
                log_file: file_name@ + ".log"@,
                pcap_file: if context.pcap is Some {
                    Some(file_name@ + ".pcap"@)
                } else {
                    None
                },
            }),
            r.1 == context.pcap,
    {
        let pcap_file = match &context.pcap {
            Some(_) => Some(String::from_str(file_name).concat(".pcap")),
            None => None,
        };
        (
            TestOutput {
                log_pktgen: context.vm_pktgen.into_log(),
                log_fwd: context.vm_fwd.into_log(),
                log_pcap: context.vm_pcap.into_log(),
                log_file: String::from_str(file_name).concat(".log"),
                pcap_file,
            },
            context.pcap,
        )
    }

    /// What became of the output of a run: it is the run's output where its
    /// files could be written; where not, that is a failure of its own.
    pub fn saved(test_output: TestOutput, written: Result<(), String>) -> (r: Result<
        TestOutput,
        TestError,
    >)
        ensures
            match written {
                Ok(_) => r == Ok::<TestOutput, TestError>(test_output),
                Err(source) => r == Err::<TestOutput, TestError>(
                    TestError::SaveTestOutput { source },
                ),
            },
    {
        match written {
            Ok(_) => Ok(test_output),
            Err(source) => Err(TestError::SaveTestOutput { source }),
        }
    }
}

/// What the file for the transcripts of a run holds: the transcript of each
/// host as a block under the host's name, in the order pktgen, fwd, pcap,
/// each followed by a line feed.
pub open spec fn log_file(test_output: TestOutputView) -> Seq<char> {
    log_text("pktgen"@, test_output.log_pktgen) + "\n"@ + log_text("fwd"@, test_output.log_fwd)
        + "\n"@ + log_text("pcap"@, test_output.log_pcap) + "\n"@
}

/// The text of the file that holds the transcripts of a run.
pub fn log_file_text(test_output: &TestOutput) -> (r: String)
    ensures
        r@ == log_text("pktgen"@, test_output@.log_pktgen) + "\n"@ + log_text(
            "fwd"@,
            test_output@.log_fwd,
        ) + "\n"@ + log_text("pcap"@, test_output@.log_pcap) + "\n"@,
        r@ == log_file(test_output@),
{
    format_log("pktgen", &test_output.log_pktgen).concat("\n").concat(
        format_log("fwd", &test_output.log_fwd).as_str(),
    ).concat("\n").concat(format_log("pcap", &test_output.log_pcap).as_str()).concat("\n")
}

/// Where a test run stands: the action that is under way.
#[derive(Debug, Clone, Copy, PartialEq, Eq, Structural)]
pub enum Stage {
    FetchingConfig,
    Spawning,
    /// The try with this number, the first being 1, to open a session.
    Connecting(Role, usize),
    /// The pause after the try with this number.
    ConnectPause(Role, usize),
    Preparing,
    Starting(Role),
    Polling,
    PollPause,
    Cancelling(Role),
    Downloading,
    Saving,
    Cleaning,
    Finished,
}

/// What is to be done next in a test run.
#[derive(Debug, Clone, Copy, PartialEq, Eq, Structural)]
pub enum Command {
    /// Fetch the repository's settings and read them.
    FetchConfig,
    /// Have the three machines made.
    SpawnVms,
    /// Open a session with the host of this role.
    Connect(Role),
    /// Wait this many milliseconds.
    Sleep(u64),
    /// Prepare the three hosts, all at once.
    PrepareVms,
    /// Start the command of this role, as one that can be cancelled.
    Start(Role),
    /// Look whether the capture still runs.
    Probe,
    /// Cancel the command of this role.
    Cancel(Role),
    /// Fetch the capture from the capturing host.
    Download,
    /// End the sessions and store what they printed, and the capture.
    Save,
    /// Have the three machines removed.
    CleanEnvironment,
    /// The run is over: report its result.
    Report,
}

/// What came of an action.
#[derive(Debug)]
pub enum Event {
    Config(Result<(), TestError>),
    Spawned(Result<(), openstack::Error>),
    Connected(Result<(), remote::Error>),
    /// The pause is over.
    Slept,
    /// What came of the preparation of each host, in the order pktgen, fwd,
    /// pcap; `None` for one that broke off without a result.
    Prepared(Vec<Option<Result<(), remote::Error>>>),
    Started(Result<(), remote::Error>),
    /// Whether the capture still runs, and the time since the first look.
    Probed { running: bool, elapsed_millis: u64 },
    Cancelled(Result<(), remote::Error>),
    Downloaded(Result<Vec<u8>, remote::Error>),
    Saved(Result<TestOutput, TestError>),
    Cleaned(Result<(), openstack::Error>),
}

/// An event as far as the course of a run depends on it. A failure is
/// `Some`, a success `None`.
pub enum EventView {
    Config(Option<TestErrorView>),
    Spawned(Option<openstack::ErrorView>),
    Connected(Option<remote::ErrorView>),
    Slept,
    Prepared(Option<PerformTestErrorView>),
    Started(Option<remote::ErrorView>),
    Probed { running: bool, elapsed_millis: u64 },
    Cancelled(Option<remote::ErrorView>),
    Downloaded(Result<Seq<u8>, remote::ErrorView>),
    Saved(Result<TestOutputView, TestErrorView>),
    Cleaned(Option<openstack::ErrorView>),
}

/// The failure of a remote exchange, if it has one.
pub open spec fn remote_failure<T>(r: Result<T, remote::Error>) -> Option<remote::ErrorView> {
    match r {
        Ok(_) => None,
        Err(e) => Some(e@),
    }
}

/// The failure of the cloud, if it has one.
pub open spec fn cloud_failure(r: Result<(), openstack::Error>) -> Option<openstack::ErrorView> {
    match r {
        Ok(_) => None,
        Err(e) => Some(e@),
    }
}

impl View for Event {
    type V = EventView;

    open spec fn view(&self) -> EventView {
        match *self {
            Event::Config(r) => EventView::Config(
                match r {
                    Ok(_) => None,
                    Err(e) => Some(e@),
                },
            ),
            Event::Spawned(r) => EventView::Spawned(cloud_failure(r)),
            Event::Connected(r) => EventView::Connected(remote_failure(r)),
            Event::Slept => EventView::Slept,
            Event::Prepared(results) => EventView::Prepared(
                match prepared(results@) {
                    Ok(_) => None,
                    Err(e) => Some(e),
                },
            ),
            Event::Started(r) => EventView::Started(remote_failure(r)),
            Event::Probed { running, elapsed_millis } => EventView::Probed {
                running,
                elapsed_millis,
            },
            Event::Cancelled(r) => EventView::Cancelled(remote_failure(r)),
            Event::Downloaded(r) => EventView::Downloaded(
                match r {
                    Ok(bytes) => Ok(bytes@),
                    Err(e) => Err(e@),
                },
            ),
            Event::Saved(r) => EventView::Saved(result_view(r)),
            Event::Cleaned(r) => EventView::Cleaned(cloud_failure(r)),
        }
    }
}

/// The role whose command is started, and cancelled, after that of `role`:
/// the capture comes first, the generator last.
pub open spec fn started_after(role: Role) -> Option<Role> {
    match role {
        Role::Pcap => Some(Role::Fwd),
        Role::Fwd => Some(Role::Pktgen),
        Role::Pktgen => None,
    }
}

impl Stage {
    /// The action that is under way at a stage.
    pub open spec fn command(self) -> Command {
        match self {
            Stage::FetchingConfig => Command::FetchConfig,
            Stage::Spawning => Command::SpawnVms,
            Stage::Connecting(role, _) => Command::Connect(role),
            Stage::ConnectPause(_, _) => Command::Sleep(SSH_RETRY_DELAY_MILLIS),
            Stage::Preparing => Command::PrepareVms,
            Stage::Starting(role) => Command::Start(role),
            Stage::Polling => Command::Probe,
            Stage::PollPause => Command::Sleep(PCAP_POLL_MILLIS),
            Stage::Cancelling(role) => Command::Cancel(role),
            Stage::Downloading => Command::Download,
            Stage::Saving => Command::Save,
            Stage::Cleaning => Command::CleanEnvironment,
            Stage::Finished => Command::Report,
        }
    }
}

/// A test run as far as its course depends on it.
pub struct Course {
    pub stage: Stage,
    /// How many test packets the capture must hold.
    pub packets: usize,
    /// Why the test failed, once it has.
    pub failure: Option<PerformTestErrorView>,
    /// The capture, once it was fetched.
    pub capture: Option<Seq<u8>>,
    /// The result of the run, once it is known.
    pub result: Option<Result<TestOutputView, TestErrorView>>,
}

impl Course {
    /// What a run can be: the tries are counted within their bound, and a
    /// run that is cleaning up or over has its result.
    pub open spec fn wf(self) -> bool {
        match self.stage {
            Stage::Connecting(_, tries) => 1 <= tries <= SSH_MAX_RETRIES + 1,
            Stage::ConnectPause(_, tries) => 1 <= tries <= SSH_MAX_RETRIES,
            Stage::Cleaning => self.result is Some,
            Stage::Finished => self.result is Some,
            _ => true,
        }
    }

    /// The run at another stage.
    pub open spec fn at(self, stage: Stage) -> Course {
        Course { stage, ..self }
    }

    /// The run goes on to the teardown with this result.
    pub open spec fn clean_up(self, result: Result<TestOutputView, TestErrorView>) -> Course {
        Course { stage: Stage::Cleaning, result: Some(result), ..self }
    }

    /// The test failed: what follows of it is left out and the output is
    /// stored. A failure that was noted before stays the cause.
    pub open spec fn fail(self, failure: PerformTestErrorView) -> Course {
        Course { stage: Stage::Saving, ..self.note(Some(failure)) }
    }

    /// Notes a failure, unless one was noted before.
    pub open spec fn note(self, failure: Option<PerformTestErrorView>) -> Course {
        if self.failure is None {
            Course { failure, ..self }
        } else {
            self
        }
    }

    /// The result of a run whose output was stored: the output, or the
    /// failure of the test together with the output.
    pub open spec fn concluded(self, output: TestOutputView) -> Result<
        TestOutputView,
        TestErrorView,
    > {
        match self.failure {
            None => Ok(output),
            Some(source) => Err(TestErrorView::PerformTest { source, test_output: output }),
        }
    }

    /// Where the run stands after `event` answered the action that was
    /// under way. An event that does not answer it changes nothing.
    pub open spec fn step(self, event: EventView) -> Course {
        match (self.stage, event) {
            (Stage::FetchingConfig, EventView::Config(None)) => self.at(Stage::Spawning),
            (Stage::FetchingConfig, EventView::Config(Some(e))) => Course {
                stage: Stage::Finished,
                result: Some(Err(e)),
                ..self
            },
            (Stage::Spawning, EventView::Spawned(None)) => self.at(
                Stage::Connecting(Role::Pktgen, 1),
            ),
            (Stage::Spawning, EventView::Spawned(Some(source))) => self.clean_up(
                Err(TestErrorView::OpenStackError { source }),
            ),
            (Stage::Connecting(role, tries), EventView::Connected(None)) => match 
                role.spec_following() {
                Some(next) => self.at(Stage::Connecting(next, 1)),
                None => self.at(Stage::Preparing),
            },
            (Stage::Connecting(role, tries), EventView::Connected(Some(source))) => match next_step(
                SSH_MAX_RETRIES,
                tries,
                true,
            ) {
                Retry::Again => self.at(Stage::ConnectPause(role, tries)),
                Retry::Finish => self.clean_up(
                    Err(TestErrorView::ConnectVm { vm: role.spec_name(), source }),
                ),
            },
            (Stage::ConnectPause(role, tries), EventView::Slept) => self.at(
                Stage::Connecting(role, (tries + 1) as usize),
            ),
            (Stage::Preparing, EventView::Prepared(None)) => self.at(Stage::Starting(Role::Pcap)),
            (Stage::Preparing, EventView::Prepared(Some(failure))) => self.fail(failure),
            (Stage::Starting(role), EventView::Started(None)) => match started_after(role) {
                Some(next) => self.at(Stage::Starting(next)),
                None => self.at(Stage::Polling),
            },
            (Stage::Starting(role), EventView::Started(Some(source))) => self.fail(
                PerformTestErrorView::RemoteError { source },
            ),
            (Stage::Polling, EventView::Probed { running, elapsed_millis }) => match polled(
                running,
                elapsed_millis,
            ) {
                Poll::Wait => self.at(Stage::PollPause),
                Poll::Proceed => self.at(Stage::Cancelling(Role::Pcap)),
            },
            (Stage::PollPause, EventView::Slept) => self.at(Stage::Polling),
            (Stage::Cancelling(role), EventView::Cancelled(outcome)) => {
                let noted = self.note(
                    match outcome {
                        Some(source) => Some(PerformTestErrorView::RemoteError { source }),
                        None => None,
                    },
                );
                match started_after(role) {
                    Some(next) => noted.at(Stage::Cancelling(next)),
                    None => if noted.failure is None {
                        noted.at(Stage::Downloading)
                    } else {
                        noted.at(Stage::Saving)
                    },
                }
            },
            (Stage::Downloading, EventView::Downloaded(Err(source))) => self.fail(
                PerformTestErrorView::RemoteError { source },
            ),
            (Stage::Downloading, EventView::Downloaded(Ok(bytes))) => Course {
                stage: Stage::Saving,
                capture: Some(bytes),
                ..self.note(
                    match pcap_tester::verdict(bytes, self.packets) {
                        Ok(_) => None,
                        Err(source) => Some(PerformTestErrorView::TestPcap { source }),
                    },
                )
            },
            (Stage::Saving, EventView::Saved(Ok(output))) => Course {
                failure: None,
                ..self.clean_up(self.concluded(output))
            },
            (Stage::Saving, EventView::Saved(Err(e))) => self.clean_up(Err(e)),
            (Stage::Cleaning, EventView::Cleaned(None)) => self.at(Stage::Finished),
            (Stage::Cleaning, EventView::Cleaned(Some(source))) => Course {
                stage: Stage::Finished,
                result: Some(Err(TestErrorView::OpenStackError { source })),
                ..self
            },
            _ => self,
        }
    }
}

/// A run at its beginning.
pub open spec fn begun(packets: usize) -> Course {
    Course { stage: Stage::FetchingConfig, packets, failure: None, capture: None, result: None }
}

/// One test run.
pub struct TestRun {
    stage: Stage,
    packets: usize,
    failure: Option<PerformTestError>,
    capture: Option<Vec<u8>>,
    result: Option<Result<TestOutput, TestError>>,
}

impl Stage {
    /// The action that is under way.
    pub fn under_way(self) -> (r: Command)
        ensures
            r == self.command(),
    {
        match self {
            Stage::FetchingConfig => Command::FetchConfig,
            Stage::Spawning => Command::SpawnVms,
            Stage::Connecting(role, _) => Command::Connect(role),
            Stage::ConnectPause(_, _) => Command::Sleep(SSH_RETRY_DELAY_MILLIS),
            Stage::Preparing => Command::PrepareVms,
            Stage::Starting(role) => Command::Start(role),
            Stage::Polling => Command::Probe,
            Stage::PollPause => Command::Sleep(PCAP_POLL_MILLIS),
            Stage::Cancelling(role) => Command::Cancel(role),
            Stage::Downloading => Command::Download,
            Stage::Saving => Command::Save,
            Stage::Cleaning => Command::CleanEnvironment,
            Stage::Finished => Command::Report,
        }
    }
}

fn next_started(role: Role) -> (r: Option<Role>)
    ensures
        r == started_after(role),
{
    match role {
        Role::Pcap => Some(Role::Fwd),
        Role::Fwd => Some(Role::Pktgen),
        Role::Pktgen => None,
    }
}

impl TestRun {
    /// The run as far as its course depends on it.
    pub closed spec fn course(&self) -> Course {
        Course {
            stage: self.stage,
            packets: self.packets,
            failure: match self.failure {
                Some(failure) => Some(failure@),
                None => None,
            },
            capture: match self.capture {
                Some(bytes) => Some(bytes@),
                None => None,
            },
            result: match self.result {
                Some(result) => Some(result_view(result)),
                None => None,
            },
        }
    }

    fn note(&mut self, failure: PerformTestError)
        ensures
            final(self).course() == old(self).course().note(Some(failure@)),
    {
        if self.failure.is_none() {
            self.failure = Some(failure);
        }
    }

    fn fail(&mut self, failure: PerformTestError)
        ensures
            final(self).course() == old(self).course().fail(failure@),
    {
        self.note(failure);
        self.stage = Stage::Saving;
    }

    fn clean_up(&mut self, result: Result<TestOutput, TestError>)
        ensures
            final(self).course() == old(self).course().clean_up(result_view(result)),
    {
        self.result = Some(result);
        self.stage = Stage::Cleaning;
    }

    /// The action that is under way.
    pub fn command(&self) -> (r: Command)
        ensures
            r == self.course().stage.command(),
    {
        self.stage.under_way()
    }

    /// The capture, once it was fetched.
    pub fn capture(&self) -> (r: Option<&Vec<u8>>)
        ensures
            match r {
                Some(bytes) => self.course().capture == Some(bytes@),
                None => self.course().capture is None,
            },
    {
        self.capture.as_ref()
    }

    /// Takes what came of the action that was under way and tells the
    /// next. An event that does not answer that action changes nothing,
    /// and the action is told again: no stray event makes a run skip its
    /// teardown.
    pub fn next(&mut self, event: Event) -> (r: Command)
        requires
            old(self).course().wf(),
        ensures
            final(self).course() == old(self).course().step(event@),
            final(self).course().wf(),
            r == final(self).course().stage.command(),
    {
        let stage = self.stage;
        match (stage, event) {
            (Stage::FetchingConfig, Event::Config(Ok(_))) => {
                self.stage = Stage::Spawning;
            },
            (Stage::FetchingConfig, Event::Config(Err(e))) => {
                self.result = Some(Err(e));
                self.stage = Stage::Finished;
            },
            (Stage::Spawning, Event::Spawned(Ok(_))) => {
                self.stage = Stage::Connecting(Role::Pktgen, 1);
            },
            (Stage::Spawning, Event::Spawned(Err(source))) => {
                self.clean_up(Err(TestError::OpenStackError { source }));
            },
            (Stage::Connecting(role, tries), Event::Connected(Ok(_))) => {
                match role.following() {
                    Some(next) => {
                        self.stage = Stage::Connecting(next, 1);
                    },
                    None => {
                        self.stage = Stage::Preparing;
                    },
                }
            },
            (Stage::Connecting(role, tries), Event::Connected(Err(source))) => {
                match retry(SSH_MAX_RETRIES, tries, true) {
                    Retry::Again => {
                        self.stage = Stage::ConnectPause(role, tries);
                    },
                    Retry::Finish => {
                        self.clean_up(Err(TestError::ConnectVm { vm: role.name(), source }));
                    },
                }
            },
            (Stage::ConnectPause(role, tries), Event::Slept) => {
                self.stage = Stage::Connecting(role, tries + 1);
            },
            (Stage::Preparing, Event::Prepared(results)) => {
                match join_prepared(results) {
                    Ok(_) => {
                        self.stage = Stage::Starting(Role::Pcap);
                    },
                    Err(failure) => {
                        self.fail(failure);
                    },
                }
            },
            (Stage::Starting(role), Event::Started(Ok(_))) => {
                match next_started(role) {
                    Some(next) => {
                        self.stage = Stage::Starting(next);
                    },
                    None => {
                        self.stage = Stage::Polling;
                    },
                }
            },
            (Stage::Starting(role), Event::Started(Err(source))) => {
                self.fail(PerformTestError::RemoteError { source });
            },
            (Stage::Polling, Event::Probed { running, elapsed_millis }) => {
                match Worker::poll(running, elapsed_millis) {
                    Poll::Wait => {
                        self.stage = Stage::PollPause;
                    },
                    Poll::Proceed => {
                        self.stage = Stage::Cancelling(Role::Pcap);
                    },
                }
            },
            (Stage::PollPause, Event::Slept) => {
                self.stage = Stage::Polling;
            },
            (Stage::Cancelling(role), Event::Cancelled(outcome)) => {
                match outcome {
                    Err(source) => {
                        self.note(PerformTestError::RemoteError { source });
                    },
                    Ok(_) => {},
                }
                match next_started(role) {
                    Some(next) => {
                        self.stage = Stage::Cancelling(next);
                    },
                    None => {
                        if self.failure.is_none() {
                            self.stage = Stage::Downloading;
                        } else {
                            self.stage = Stage::Saving;
                        }
                    },
                }
            },
            (Stage::Downloading, Event::Downloaded(Err(source))) => {
                self.fail(PerformTestError::RemoteError { source });
            },
            (Stage::Downloading, Event::Downloaded(Ok(bytes))) => {
                match pcap_tester::test_pcap(bytes.as_slice(), self.packets) {
                    Ok(_) => {},
                    Err(source) => {
                        self.note(PerformTestError::TestPcap { source });
                    },
                }
                self.capture = Some(bytes);
                self.stage = Stage::Saving;
            },
            (Stage::Saving, Event::Saved(Ok(test_output))) => {
                let result = match self.failure.take() {
                    None => Ok(test_output),
                    Some(source) => Err(TestError::PerformTest { source, test_output }),
                };
                self.result = Some(result);
                self.stage = Stage::Cleaning;
            },
            (Stage::Saving, Event::Saved(Err(e))) => {
                self.clean_up(Err(e));
            },
            (Stage::Cleaning, Event::Cleaned(Ok(_))) => {
                self.stage = Stage::Finished;
            },
            (Stage::Cleaning, Event::Cleaned(Err(source))) => {
                self.result = Some(Err(TestError::OpenStackError { source }));
                self.stage = Stage::Finished;
            },
            _ => {},
        }
        self.stage.under_way()
    }

    /// The result of a run that is over; of any other run, nothing.
    pub fn finish(self) -> (r: Option<Result<TestOutput, TestError>>)
        ensures
            self.course().stage == Stage::Finished ==> (match r {
                Some(result) => self.course().result == Some(result_view(result)),
                None => self.course().result is None,
            }),
            self.course().stage != Stage::Finished ==> r is None,
    {
        match self.stage {
            Stage::Finished => self.result,
            _ => None,
        }
    }
}

impl Worker {
    /// Begins a test run: the repository's settings are fetched first.
    pub fn test_repository(&self) -> (r: (TestRun, Command))
        ensures
            r.0.course() == begun(self.test_config().packets),
            r.0.course().wf(),
            r.1 == Command::FetchConfig,
    {
        (
            TestRun {
                stage: Stage::FetchingConfig,
                packets: self.test_config.packets,
                failure: None,
                capture: None,
                result: None,
            },
            Command::FetchConfig,
        )
    }
}

/// Where a run stands after some events, each of which answered the action
/// that the one before it led to.
pub open spec fn run_on(course: Course, events: Seq<EventView>) -> Course
    decreases events.len(),
{
    if events.len() == 0 {
        course
    } else {
        run_on(course, events.drop_last()).step(events.last())
    }
}

/// The actions that a run was told, from its first to the one that the last
/// of the events led to.
pub open spec fn told(course: Course, events: Seq<EventView>) -> Seq<Command>
    decreases events.len(),
{
    if events.len() == 0 {
        seq![course.stage.command()]
    } else {
        told(course, events.drop_last()).push(run_on(course, events).stage.command())
    }
}

/// Every step keeps a run well formed. A run is over only after its
/// settings could not be had, when no machine was made, or after the
/// teardown; and the teardown follows the making of the machines, a session
/// that could not be opened, or the storing of the output.
pub proof fn lemma_step_keeps_course(course: Course, event: EventView)
    requires
        course.wf(),
    ensures
        course.step(event).wf(),
        course.step(event).packets == course.packets,
        course.step(event).stage == Stage::Finished ==> course.stage == Stage::FetchingConfig
            || course.stage == Stage::Cleaning || course.stage == Stage::Finished,
        course.stage == Stage::FetchingConfig && course.step(event).stage == Stage::Finished
            ==> event is Config && event->Config_0 is Some && course.step(event).result == Some(
            Err::<TestOutputView, TestErrorView>(event->Config_0->0),
        ),
        course.step(event).stage == Stage::Cleaning ==> course.stage == Stage::Spawning
            || course.stage is Connecting || course.stage == Stage::Saving || course.stage
            == Stage::Cleaning,
        course.stage == Stage::Finished ==> course.step(event) == course,
{
}

/// Where the machines could not be made, no session is opened: the run goes
/// to the teardown with the cloud's failure as its result. A session is
/// opened only after the machines were made, or after another try.
pub proof fn lemma_no_session_without_machines(course: Course, event: EventView)
    requires
        course.wf(),
    ensures
        course.stage == Stage::Spawning && event is Spawned && event->Spawned_0 is Some
            ==> course.step(event) == course.clean_up(
            Err(TestErrorView::OpenStackError { source: event->Spawned_0->0 }),
        ) && course.step(event).stage.command() == Command::CleanEnvironment,
        course.step(event).stage.command() is Connect ==> (course.stage == Stage::Spawning
            && event == EventView::Spawned(None)) || course.stage is Connecting || course.stage
            is ConnectPause,
{
}

/// The commands of a test are started in the order capture, forwarder,
/// generator, each after the one before it was started, and cancelled in
/// the same order, each whatever came of the cancellation before it.
pub proof fn lemma_fixed_order(course: Course, event: EventView, role: Role)
    requires
        course.wf(),
    ensures
        course.step(event).stage == Stage::Starting(role) && course.stage != Stage::Starting(role)
            ==> (role == Role::Pcap && course.stage == Stage::Preparing) || (course.stage
            is Starting && started_after(course.stage->Starting_0) == Some(role) && event
            == EventView::Started(None)),
        course.step(event).stage == Stage::Cancelling(role) && course.stage != Stage::Cancelling(
            role,
        ) ==> (role == Role::Pcap && course.stage == Stage::Polling) || (course.stage
            is Cancelling && started_after(course.stage->Cancelling_0) == Some(role)),
        course.stage is Cancelling && event is Cancelled ==> (match started_after(
            course.stage->Cancelling_0,
        ) {
            Some(next) => course.step(event).stage == Stage::Cancelling(next),
            None => course.step(event).stage == Stage::Downloading || course.step(event).stage
                == Stage::Saving,
        }),
        course.stage == Stage::Polling && event is Probed ==> (course.step(event).stage
            == Stage::Cancelling(Role::Pcap) <==> !(event->running && event->elapsed_millis
            < PCAP_TIMEOUT_MILLIS)),
{
}

/// A failure of the test never loses what was gathered. The cause that was
/// noted first stays the cause; the output is stored whatever the cause; a
/// capture that was fetched is kept although it was judged bad; and the
/// result of a failed test holds the output together with the cause.
pub proof fn lemma_failure_keeps_output(course: Course, event: EventView)
    requires
        course.wf(),
    ensures
        course.failure is Some && !(course.stage == Stage::Saving && event is Saved)
            ==> course.step(event).failure == course.failure,
        course.stage == Stage::Downloading && event is Downloaded && event->Downloaded_0 is Ok
            ==> course.step(event).stage == Stage::Saving && course.step(event).capture == Some(
            event->Downloaded_0->Ok_0,
        ),
        course.stage == Stage::Saving && event is Saved && event->Saved_0 is Ok ==> course.step(
            event,
        ).result == Some(
            match course.failure {
                None => Ok(event->Saved_0->Ok_0),
                Some(source) => Err(
                    TestErrorView::PerformTest { source, test_output: event->Saved_0->Ok_0 },
                ),
            },
        ),
        course.stage == Stage::Saving && event is Saved && event->Saved_0 is Err ==> course.step(
            event,
        ).result == Some(Err::<TestOutputView, TestErrorView>(event->Saved_0->Err_0)),
{
}

/// The machines of a run are torn down before the run is over: in every
/// run that is over and was told to make the machines, the teardown was
/// told after that. This holds whatever came of any action.
pub proof fn lemma_teardown_follows_spawn(packets: usize, events: Seq<EventView>)
    ensures
        run_on(begun(packets), events).wf(),
        told(begun(packets), events).len() == events.len() + 1,
        run_on(begun(packets), events).stage == Stage::FetchingConfig ==> !told(
            begun(packets),
            events,
        ).contains(Command::SpawnVms),
        run_on(begun(packets), events).stage == Stage::Cleaning ==> told(
            begun(packets),
            events,
        ).last() == Command::CleanEnvironment && told(begun(packets), events).contains(
            Command::SpawnVms,
        ),
        run_on(begun(packets), events).stage == Stage::Finished && told(
            begun(packets),
            events,
        ).contains(Command::SpawnVms) ==> exists|i: int, j: int|
            0 <= i < j < told(begun(packets), events).len() && told(begun(packets), events)[i]
                == Command::SpawnVms && told(begun(packets), events)[j]
                == Command::CleanEnvironment,
        run_on(begun(packets), events).stage != Stage::FetchingConfig && run_on(
            begun(packets),
            events,
        ).stage != Stage::Finished ==> told(begun(packets), events).contains(Command::SpawnVms),
    decreases events.len(),
{
    let start = begun(packets);
    if events.len() == 0 {
        assert(told(start, events) =~= seq![Command::FetchConfig]);
        assert forall|k: int| 0 <= k < told(start, events).len() implies told(start, events)[k]
            != Command::SpawnVms by {}
    } else {
        let front = events.drop_last();
        lemma_teardown_follows_spawn(packets, front);
        let before = run_on(start, front);
        let after = run_on(start, events);
        let heard = told(start, front);
        let all = told(start, events);
        lemma_step_keeps_course(before, events.last());
        assert(all == heard.push(after.stage.command()));
        assert forall|k: int| 0 <= k < heard.len() implies all[k] == heard[k] by {}
        if heard.contains(Command::SpawnVms) {
            let i = choose|i: int| 0 <= i < heard.len() && heard[i] == Command::SpawnVms;
            assert(all[i] == Command::SpawnVms);
        }
        if after.stage == Stage::FetchingConfig {
            assert(before.stage == Stage::FetchingConfig);
            assert forall|k: int| 0 <= k < all.len() implies all[k] != Command::SpawnVms by {
                if k < heard.len() {
                    assert(heard[k] == all[k]);
                    assert(!heard.contains(Command::SpawnVms));
                }
            }
        }
        if after.stage == Stage::Spawning {
            assert(all[all.len() - 1] == Command::SpawnVms);
        }
        if after.stage == Stage::Finished && all.contains(Command::SpawnVms) {
            if before.stage == Stage::Finished {
                assert(heard.contains(Command::SpawnVms)) by {
                    let k = choose|k: int| 0 <= k < all.len() && all[k] == Command::SpawnVms;
                    assert(k < heard.len());
                    assert(heard[k] == Command::SpawnVms);
                }
                let (i, j) = choose|i: int, j: int|
                    0 <= i < j < heard.len() && heard[i] == Command::SpawnVms && heard[j]
                        == Command::CleanEnvironment;
                assert(all[i] == Command::SpawnVms && all[j] == Command::CleanEnvironment);
            } else if before.stage == Stage::Cleaning {
                let i = choose|i: int| 0 <= i < heard.len() && heard[i] == Command::SpawnVms;
                let j = heard.len() - 1;
                assert(all[i] == Command::SpawnVms && all[j] == Command::CleanEnvironment);
                assert(i != j);
            } else {
                assert(before.stage == Stage::FetchingConfig);
                let k = choose|k: int| 0 <= k < all.len() && all[k] == Command::SpawnVms;
                if k < heard.len() {
                    assert(heard[k] == Command::SpawnVms);
                }
            }
        }
    }
}

/// The stage lies between the making of the machines and the storing of the
/// output: sessions are opened or in use.
pub open spec fn with_sessions(stage: Stage) -> bool {
    stage is Connecting || stage is ConnectPause || stage == Stage::Preparing || stage
        is Starting || stage == Stage::Polling || stage == Stage::PollPause || stage
        is Cancelling || stage == Stage::Downloading
}

/// The machines were reported as made among the first `until` of `events`.
pub open spec fn machines_made(events: Seq<EventView>, until: int) -> bool {
    exists|i: int| 0 <= i < until && i < events.len() && events[i] == EventView::Spawned(None)
}

/// No session is opened with a host that was not made: whenever a run is
/// told to open a session, the machines were reported as made before. A
/// run whose machines could not be made, be it for a floating IP that did
/// not come in time, is never told to open one.
pub proof fn lemma_sessions_follow_machines(packets: usize, events: Seq<EventView>)
    ensures
        run_on(begun(packets), events).wf(),
        told(begun(packets), events).len() == events.len() + 1,
        forall|k: int|
            0 <= k < told(begun(packets), events).len() && (#[trigger] told(
                begun(packets),
                events,
            )[k]) is Connect ==> machines_made(events, k),
        with_sessions(run_on(begun(packets), events).stage) ==> machines_made(
            events,
            events.len() as int,
        ),
    decreases events.len(),
{
    let start = begun(packets);
    let all = told(start, events);
    if events.len() > 0 {
        let front = events.drop_last();
        lemma_sessions_follow_machines(packets, front);
        let before = run_on(start, front);
        let after = run_on(start, events);
        let heard = told(start, front);
        let last = front.len() as int;
        lemma_step_keeps_course(before, events.last());
        lemma_no_session_without_machines(before, events.last());
        assert(all == heard.push(after.stage.command()));
        assert forall|until: int| machines_made(front, until) implies machines_made(
            events,
            until,
        ) by {
            let i = choose|i: int|
                0 <= i < until && i < front.len() && front[i] == EventView::Spawned(None);
            assert(events[i] == front[i]);
        }
        if with_sessions(after.stage) {
            if with_sessions(before.stage) {
                assert(machines_made(front, last));
                let i = choose|i: int|
                    0 <= i < last && i < events.len() && events[i] == EventView::Spawned(None);
                assert(0 <= i < events.len() && events[i] == EventView::Spawned(None));
            } else {
                assert(before.stage == Stage::Spawning);
                assert(events[last] == EventView::Spawned(None));
            }
            assert(machines_made(events, events.len() as int));
        }
        assert forall|k: int| 0 <= k < all.len() && (#[trigger] all[k]) is Connect implies 
            machines_made(events, k) by {
            if k < heard.len() {
                assert(all[k] == heard[k]);
                assert(machines_made(front, k));
            } else {
                assert(with_sessions(after.stage));
                assert(k == events.len());
            }
        }
    } else {
        assert(all[0] == Command::FetchConfig);
    }
}

} // verus!
