use etherparse::PacketBuilder;
use ixy_ci::config::{OpenStackConfig, PciAddresses, Repository, RepositoryConfig, TestConfig};
use ixy_ci::openstack;
use ixy_ci::openstack::Role;
use ixy_ci::pcap_tester;
use ixy_ci::remote;
use ixy_ci::remote::{Exchange, Remote};
use ixy_ci::worker::{
    fetch_repo_config, join_prepared, log_file_text, prepare_vms, Command, Event, Job, PerformTestError, Plan,
    Poll, ReportContent, Step, TestContext, TestError, TestOutput, TestRun, TestTarget, Worker,
    PCAP_FILE, PCAP_POLL_MILLIS, PCAP_TIMEOUT_MILLIS, SSH_MAX_RETRIES, SSH_RETRY_DELAY_MILLIS,
};
use pcap_file::pcap::PcapWriter;

fn settings() -> OpenStackConfig {
    OpenStackConfig {
        flavor: "m1.small".to_string(),
        image: "ubuntu".to_string(),
        internet_network: "internet".to_string(),
        floating_ip_pool: "internet_pool".to_string(),
        ssh_login: "ubuntu".to_string(),
        keypair: "ci".to_string(),
        private_key_path: "/keys/ci".to_string(),
        auth_url: "https://cloud.example/v3".to_string(),
        user_name: "ci-user".to_string(),
        user_domain: "Default".to_string(),
        password: "secret".to_string(),
        project_name: "ci".to_string(),
        project_domain: "Default".to_string(),
    }
}

fn test_config(packets: usize) -> TestConfig {
    TestConfig {
        packets,
        pci_addresses: PciAddresses {
            pktgen: "0000:00:08.0".to_string(),
            fwd_src: "0000:00:09.0".to_string(),
            fwd_dst: "0000:00:0a.0".to_string(),
            pcap: "0000:00:0b.0".to_string(),
        },
    }
}

fn worker(packets: usize) -> Worker {
    Worker::new(4, "/var/log/ixy-ci".to_string(), settings(), test_config(packets)).0
}

fn repository() -> Repository {
    Repository { user: "emmericp".to_string(), name: "ixy".to_string() }
}

fn ssh(message: &str) -> remote::Error {
    remote::Error::Ssh { message: message.to_string() }
}

fn capture_of(seq_nums: &[u32]) -> Vec<u8> {
    let mut writer = PcapWriter::new(Vec::new()).unwrap();
    for seq_num in seq_nums {
        let mut payload = vec![0u8; 18];
        payload[..3].copy_from_slice(b"ixy");
        payload[14..].copy_from_slice(&seq_num.to_le_bytes());
        let builder = PacketBuilder::ethernet2([1, 2, 3, 4, 5, 6], [7, 8, 9, 10, 11, 12])
            .ipv4([10, 0, 0, 1], [10, 0, 0, 2], 64)
            .udp(1234, 319);
        let mut frame = Vec::new();
        builder.write(&mut frame, &payload).unwrap();
        writer.write(0, 0, &frame, frame.len() as u32).unwrap();
    }
    writer.into_writer()
}

fn output(pcap_file: Option<&str>) -> TestOutput {
    TestOutput {
        log_pktgen: Vec::new(),
        log_fwd: Vec::new(),
        log_pcap: vec![("sudo ./pcap".to_string(), "done".to_string())],
        log_file: "x.log".to_string(),
        pcap_file: pcap_file.map(|s| s.to_string()),
    }
}

fn connected(run: &mut TestRun) {
    assert_eq!(run.next(Event::Config(Ok(()))), Command::SpawnVms);
    assert_eq!(run.next(Event::Spawned(Ok(()))), Command::Connect(Role::Pktgen));
    assert_eq!(run.next(Event::Connected(Ok(()))), Command::Connect(Role::Fwd));
    assert_eq!(run.next(Event::Connected(Ok(()))), Command::Connect(Role::Pcap));
    assert_eq!(run.next(Event::Connected(Ok(()))), Command::PrepareVms);
}

fn started(run: &mut TestRun) {
    connected(run);
    let prepared = Event::Prepared(vec![Some(Ok(())), Some(Ok(())), Some(Ok(()))]);
    assert_eq!(run.next(prepared), Command::Start(Role::Pcap));
    assert_eq!(run.next(Event::Started(Ok(()))), Command::Start(Role::Fwd));
    assert_eq!(run.next(Event::Started(Ok(()))), Command::Start(Role::Pktgen));
    assert_eq!(run.next(Event::Started(Ok(()))), Command::Probe);
}

fn cancelled(run: &mut TestRun) {
    started(run);
    let probed = Event::Probed { running: false, elapsed_millis: 1200 };
    assert_eq!(run.next(probed), Command::Cancel(Role::Pcap));
    assert_eq!(run.next(Event::Cancelled(Ok(()))), Command::Cancel(Role::Fwd));
    assert_eq!(run.next(Event::Cancelled(Ok(()))), Command::Cancel(Role::Pktgen));
    assert_eq!(run.next(Event::Cancelled(Ok(()))), Command::Download);
}

#[test]
fn worker_constants_are_those_of_the_test_setup() {
    assert_eq!(PCAP_FILE, "capture.pcap");
    assert_eq!(PCAP_TIMEOUT_MILLIS, 15_000);
    assert_eq!(PCAP_POLL_MILLIS, 200);
    assert_eq!(SSH_MAX_RETRIES, 10);
    assert_eq!(SSH_RETRY_DELAY_MILLIS, 5_000);
}

#[test]
fn worker_comes_with_an_empty_queue_of_its_size() {
    let (mut worker, mut queue) =
        Worker::new(1, "/logs".to_string(), settings(), test_config(1000));
    assert_eq!(worker.packets(), 1000);
    assert_eq!(worker.openstack().config().ssh_login, "ubuntu");
    assert!(queue.next().is_none());
    assert!(queue.try_send(Job::Ping { repository: repository(), issue_id: 1 }).is_ok());
    assert!(queue.try_send(Job::Ping { repository: repository(), issue_id: 2 }).is_err());
}

#[test]
fn ping_is_answered_at_once() {
    let plan = worker(1000).run(Job::Ping { repository: repository(), issue_id: 5 });
    match plan {
        Plan::Report(report) => {
            assert_eq!(report.repository, repository());
            assert!(matches!(report.content, ReportContent::Pong { issue_id: 5 }));
        }
        other => panic!("got {:?}", other),
    }
}

#[test]
fn branch_is_tested_as_it_is_named() {
    let job = Job::TestBranch { repository: repository(), branch: "master".to_string() };
    match worker(1000).run(job) {
        Plan::Test { repository: to, test_repository, branch, test_target } => {
            assert_eq!(to, repository());
            assert_eq!(test_repository, repository());
            assert_eq!(branch, "master");
            assert!(matches!(test_target, TestTarget::Branch(name) if name == "master"));
        }
        other => panic!("got {:?}", other),
    }
}

#[test]
fn pull_request_is_tested_on_its_fork() {
    let job = Job::TestPullRequest {
        repository: repository(),
        fork_user: "bobo".to_string(),
        fork_branch: "fix".to_string(),
        pull_request_id: 3,
    };
    match worker(1000).run(job) {
        Plan::Test { repository: to, test_repository, branch, test_target } => {
            assert_eq!(to, repository());
            assert_eq!(test_repository.to_text(), "bobo/ixy");
            assert_eq!(branch, "fix");
            assert!(matches!(test_target, TestTarget::PullRequest(3)));
        }
        other => panic!("got {:?}", other),
    }
}

#[test]
fn report_holds_result_and_target() {
    let report = Worker::report(repository(), TestTarget::PullRequest(3), Ok(output(None)));
    assert_eq!(report.repository, repository());
    match report.content {
        ReportContent::TestResult { result, test_target } => {
            assert_eq!(result.unwrap().log_file, "x.log");
            assert!(matches!(test_target, TestTarget::PullRequest(3)));
        }
        other => panic!("got {:?}", other),
    }
}

#[test]
fn settings_are_fetched_from_the_branch() {
    assert_eq!(
        fetch_repo_config(&repository(), "master"),
        "https://raw.githubusercontent.com/emmericp/ixy/master/ixy-ci.toml"
    );
}

#[test]
fn hosts_are_prepared_step_by_step() {
    let setup = vec!["cmake .".to_string(), "make".to_string()];
    let steps = prepare_vms(&setup, &repository(), "dev");
    let commands: Vec<String> = steps
        .iter()
        .map(|step| match step {
            Step::Command(command) => command.clone(),
            Step::Upload { local, remote, mode } => format!("upload {} {} {:o}", local, remote, mode),
        })
        .collect();
    assert_eq!(
        commands,
        vec![
            "sudo apt update",
            "sudo apt install -y git",
            "git clone https://github.com/emmericp/ixy --branch dev --single-branch --recurse-submodules",
            "cd ixy && cmake .",
            "cd ixy && make",
            "upload runner-bin runner 777",
            "sudo mv runner /usr/bin/runner",
        ]
    );
}

#[test]
fn hosts_without_build_steps_are_prepared_too() {
    let steps = prepare_vms(&Vec::new(), &repository(), "master");
    assert_eq!(steps.len(), 5);
    assert!(matches!(&steps[3], Step::Upload { local: "runner-bin", remote: "runner", mode: 0o777 }));
}

#[test]
fn preparations_are_joined_to_the_first_failure() {
    assert!(join_prepared(vec![Some(Ok(())), Some(Ok(())), Some(Ok(()))]).is_ok());
    assert!(join_prepared(Vec::new()).is_ok());
    let r = join_prepared(vec![Some(Ok(())), Some(Err(ssh("fwd"))), Some(Err(ssh("pcap")))]);
    assert!(matches!(
        r,
        Err(PerformTestError::PrepareVm { source: remote::Error::Ssh { message } }) if message == "fwd"
    ));
}

#[test]
fn preparation_that_broke_off_is_a_panic() {
    let r = join_prepared(vec![Some(Err(ssh("pktgen"))), None, Some(Ok(()))]);
    assert!(matches!(r, Err(PerformTestError::ThreadPanicked)));
    let r = join_prepared(vec![None]);
    assert!(matches!(r, Err(PerformTestError::ThreadPanicked)));
}

#[test]
fn environment_holds_addresses_capture_and_count() {
    assert_eq!(
        worker(1000).environment(&repository()),
        "PCI_ADDR_PKTGEN=0000:00:08.0; PCI_ADDR_FWD_SRC=0000:00:09.0; \
PCI_ADDR_FWD_DST=0000:00:0a.0; PCI_ADDR_PCAP=0000:00:0b.0; PCAP_OUT=capture.pcap; \
PCAP_N=1000; cd ixy"
    );
}

#[test]
fn commands_run_with_elevated_privileges() {
    let config = RepositoryConfig {
        build: Vec::new(),
        pktgen: "./pktgen $PCI_ADDR_PKTGEN".to_string(),
        fwd: "./fwd".to_string(),
        pcap: "./pcap".to_string(),
    };
    assert_eq!(Worker::command(&config, Role::Pktgen), "sudo ./pktgen $PCI_ADDR_PKTGEN");
    assert_eq!(Worker::command(&config, Role::Fwd), "sudo ./fwd");
    assert_eq!(Worker::command(&config, Role::Pcap), "sudo ./pcap");
}

#[test]
fn capture_lies_in_the_repository_of_the_login() {
    assert_eq!(worker(1000).capture_path(&repository()), "/home/ubuntu/ixy/capture.pcap");
}

#[test]
fn capture_is_waited_for_until_its_time_is_up() {
    assert_eq!(Worker::poll(true, 0), Poll::Wait);
    assert_eq!(Worker::poll(true, 14_999), Poll::Wait);
    assert_eq!(Worker::poll(true, 15_000), Poll::Proceed);
    assert_eq!(Worker::poll(false, 0), Poll::Proceed);
    assert_eq!(Worker::poll(false, 20_000), Poll::Proceed);
}

#[test]
fn output_is_named_by_repository_branch_and_time() {
    assert_eq!(
        Worker::output_name(&repository(), "master", "2020-05-01T12:30:00Z"),
        "emmericp__ixy__master__2020-05-01T12:30:00Z"
    );
}

#[test]
fn output_of_now_is_named_to_the_second_in_utc() {
    let name = Worker::output_name_now(&repository(), "master");
    let stamp = name.strip_prefix("emmericp__ixy__master__").unwrap();
    assert_eq!(stamp.len(), 20);
    assert!(stamp.ends_with('Z'));
    assert_eq!(&stamp[4..5], "-");
    assert_eq!(&stamp[10..11], "T");
    assert_eq!(&stamp[13..14], ":");
}

#[test]
fn stored_output_holds_transcripts_and_file_names() {
    let mut vm_pcap = Remote::connect(Ok(())).unwrap();
    let exchange = Exchange::Finished { output: "ok".to_string(), exit_status: Ok(0) };
    vm_pcap.execute_command("ls", exchange).unwrap();
    let context = TestContext {
        vm_pktgen: Remote::connect(Ok(())).unwrap(),
        vm_fwd: Remote::connect(Ok(())).unwrap(),
        vm_pcap,
        pcap: Some(vec![1, 2, 3]),
    };
    let (output, capture) = Worker::save_test_output("u__n__b__t", context);
    assert_eq!(capture, Some(vec![1, 2, 3]));
    assert!(output.log_pktgen.is_empty());
    assert!(output.log_fwd.is_empty());
    assert_eq!(output.log_pcap, vec![("ls".to_string(), "ok".to_string())]);
    assert_eq!(output.log_file, "u__n__b__t.log");
    assert_eq!(output.pcap_file, Some("u__n__b__t.pcap".to_string()));
}

#[test]
fn output_without_capture_names_no_capture_file() {
    let context = TestContext {
        vm_pktgen: Remote::connect(Ok(())).unwrap(),
        vm_fwd: Remote::connect(Ok(())).unwrap(),
        vm_pcap: Remote::connect(Ok(())).unwrap(),
        pcap: None,
    };
    let (output, capture) = Worker::save_test_output("n", context);
    assert_eq!(capture, None);
    assert_eq!(output.log_file, "n.log");
    assert_eq!(output.pcap_file, None);
}

#[test]
fn output_that_cannot_be_written_is_a_failure_of_its_own() {
    let r = Worker::saved(output(None), Err("disk full".to_string()));
    assert!(matches!(r, Err(TestError::SaveTestOutput { source }) if source == "disk full"));
    let r = Worker::saved(output(Some("x.pcap")), Ok(()));
    assert_eq!(r.unwrap().pcap_file, Some("x.pcap".to_string()));
}

#[test]
fn good_run_goes_through_all_stages_in_order() {
    let (mut run, first) = worker(3).test_repository();
    assert_eq!(first, Command::FetchConfig);
    assert_eq!(run.command(), Command::FetchConfig);
    cancelled(&mut run);
    assert_eq!(run.next(Event::Downloaded(Ok(capture_of(&[0, 1, 2])))), Command::Save);
    assert_eq!(run.capture(), Some(&capture_of(&[0, 1, 2])));
    assert_eq!(run.next(Event::Saved(Ok(output(Some("x.pcap"))))), Command::CleanEnvironment);
    assert_eq!(run.next(Event::Cleaned(Ok(()))), Command::Report);
    let result = run.finish().unwrap().unwrap();
    assert_eq!(result.pcap_file, Some("x.pcap".to_string()));
}

#[test]
fn run_without_settings_touches_no_machine() {
    let (mut run, _) = worker(3).test_repository();
    let failed = Event::Config(Err(TestError::FetchRepositoryConfig { source: "404".to_string() }));
    assert_eq!(run.next(failed), Command::Report);
    assert!(matches!(
        run.finish(),
        Some(Err(TestError::FetchRepositoryConfig { source })) if source == "404"
    ));
}

#[test]
fn run_whose_floating_ip_timed_out_opens_no_session() {
    let mut cloud = openstack::OpenStack::new(settings());
    cloud.spawn_vms();
    cloud.next(openstack::Event::Done);
    cloud.next(openstack::Event::Done);
    cloud.next(openstack::Event::Done);
    let listed = openstack::Event::Cli { success: true, stdout: Vec::new(), report: String::new() };
    cloud.next(listed);
    cloud.next(openstack::Event::Done);
    cloud.next(openstack::Event::Done);
    cloud.next(openstack::Event::Done);
    let mut action = cloud.next(openstack::Event::Done);
    while let openstack::Action::RefreshServer(_) | openstack::Action::Sleep(_) = action {
        action = match action {
            openstack::Action::RefreshServer(_) => cloud.next(openstack::Event::Address(None)),
            _ => cloud.next(openstack::Event::Done),
        };
    }
    let timeout = match action {
        openstack::Action::Failed(e) => e,
        other => panic!("got {:?}", other),
    };
    assert_eq!(timeout.kind, openstack::ErrorKind::OperationTimedOut);

    let (mut run, _) = worker(3).test_repository();
    assert_eq!(run.next(Event::Config(Ok(()))), Command::SpawnVms);
    assert_eq!(run.next(Event::Spawned(Err(timeout))), Command::CleanEnvironment);
    assert_eq!(run.next(Event::Cleaned(Ok(()))), Command::Report);
    match run.finish() {
        Some(Err(TestError::OpenStackError { source })) => {
            assert_eq!(source.kind, openstack::ErrorKind::OperationTimedOut);
            assert_eq!(source.message, "ip association timed out");
        }
        other => panic!("got {:?}", other),
    }
}

#[test]
fn session_is_tried_eleven_times_and_then_given_up() {
    let (mut run, _) = worker(3).test_repository();
    assert_eq!(run.next(Event::Config(Ok(()))), Command::SpawnVms);
    assert_eq!(run.next(Event::Spawned(Ok(()))), Command::Connect(Role::Pktgen));
    assert_eq!(run.next(Event::Connected(Ok(()))), Command::Connect(Role::Fwd));
    for _ in 0..10 {
        assert_eq!(run.next(Event::Connected(Err(ssh("refused")))), Command::Sleep(5_000));
        assert_eq!(run.next(Event::Slept), Command::Connect(Role::Fwd));
    }
    assert_eq!(run.next(Event::Connected(Err(ssh("last")))), Command::CleanEnvironment);
    assert_eq!(run.next(Event::Cleaned(Ok(()))), Command::Report);
    assert!(matches!(
        run.finish(),
        Some(Err(TestError::ConnectVm { vm: "fwd", source: remote::Error::Ssh { message } }))
            if message == "last"
    ));
}

#[test]
fn session_that_opens_late_lets_the_run_go_on() {
    let (mut run, _) = worker(3).test_repository();
    run.next(Event::Config(Ok(())));
    run.next(Event::Spawned(Ok(())));
    assert_eq!(run.next(Event::Connected(Err(ssh("refused")))), Command::Sleep(5_000));
    assert_eq!(run.next(Event::Slept), Command::Connect(Role::Pktgen));
    assert_eq!(run.next(Event::Connected(Ok(()))), Command::Connect(Role::Fwd));
    assert_eq!(run.next(Event::Connected(Err(ssh("refused")))), Command::Sleep(5_000));
}

#[test]
fn failed_preparation_skips_the_test_and_keeps_the_transcripts() {
    let (mut run, _) = worker(3).test_repository();
    connected(&mut run);
    let prepared = Event::Prepared(vec![Some(Ok(())), Some(Err(ssh("apt"))), Some(Ok(()))]);
    assert_eq!(run.next(prepared), Command::Save);
    assert_eq!(run.capture(), None);
    assert_eq!(run.next(Event::Saved(Ok(output(None)))), Command::CleanEnvironment);
    assert_eq!(run.next(Event::Cleaned(Ok(()))), Command::Report);
    match run.finish() {
        Some(Err(TestError::PerformTest { source, test_output })) => {
            assert!(matches!(source, PerformTestError::PrepareVm { .. }));
            assert_eq!(test_output.log_file, "x.log");
        }
        other => panic!("got {:?}", other),
    }
}

#[test]
fn command_that_cannot_be_started_ends_the_test() {
    let (mut run, _) = worker(3).test_repository();
    connected(&mut run);
    let prepared = Event::Prepared(vec![Some(Ok(())), Some(Ok(())), Some(Ok(()))]);
    assert_eq!(run.next(prepared), Command::Start(Role::Pcap));
    assert_eq!(run.next(Event::Started(Ok(()))), Command::Start(Role::Fwd));
    assert_eq!(run.next(Event::Started(Err(ssh("exec")))), Command::Save);
    run.next(Event::Saved(Ok(output(None))));
    run.next(Event::Cleaned(Ok(())));
    assert!(matches!(
        run.finish(),
        Some(Err(TestError::PerformTest { source: PerformTestError::RemoteError { .. }, .. }))
    ));
}

#[test]
fn capture_that_runs_too_long_is_cancelled_all_the_same() {
    let (mut run, _) = worker(3).test_repository();
    started(&mut run);
    let mut elapsed = 0;
    loop {
        match run.next(Event::Probed { running: true, elapsed_millis: elapsed }) {
            Command::Sleep(200) => {
                elapsed += 200;
                assert_eq!(run.next(Event::Slept), Command::Probe);
            }
            Command::Cancel(Role::Pcap) => break,
            other => panic!("got {:?}", other),
        }
    }
    assert_eq!(elapsed, 15_000);
    assert_eq!(run.next(Event::Cancelled(Ok(()))), Command::Cancel(Role::Fwd));
    assert_eq!(run.next(Event::Cancelled(Ok(()))), Command::Cancel(Role::Pktgen));
    assert_eq!(run.next(Event::Cancelled(Ok(()))), Command::Download);
}

#[test]
fn every_command_is_cancelled_whatever_comes_of_the_others() {
    let (mut run, _) = worker(3).test_repository();
    started(&mut run);
    let probed = Event::Probed { running: false, elapsed_millis: 10 };
    assert_eq!(run.next(probed), Command::Cancel(Role::Pcap));
    assert_eq!(run.next(Event::Cancelled(Err(ssh("first")))), Command::Cancel(Role::Fwd));
    assert_eq!(run.next(Event::Cancelled(Err(ssh("second")))), Command::Cancel(Role::Pktgen));
    assert_eq!(run.next(Event::Cancelled(Ok(()))), Command::Save);
    run.next(Event::Saved(Ok(output(None))));
    run.next(Event::Cleaned(Ok(())));
    assert!(matches!(
        run.finish(),
        Some(Err(TestError::PerformTest {
            source: PerformTestError::RemoteError { source: remote::Error::Ssh { message } },
            ..
        })) if message == "first"
    ));
}

#[test]
fn capture_that_cannot_be_fetched_ends_the_test() {
    let (mut run, _) = worker(3).test_repository();
    cancelled(&mut run);
    assert_eq!(run.next(Event::Downloaded(Err(ssh("scp")))), Command::Save);
    assert_eq!(run.capture(), None);
}

#[test]
fn bad_capture_fails_the_test_and_is_stored() {
    let (mut run, _) = worker(3).test_repository();
    cancelled(&mut run);
    let capture = capture_of(&[0, 1]);
    assert_eq!(run.next(Event::Downloaded(Ok(capture.clone()))), Command::Save);
    assert_eq!(run.capture(), Some(&capture));
    assert_eq!(run.next(Event::Saved(Ok(output(Some("x.pcap"))))), Command::CleanEnvironment);
    assert_eq!(run.next(Event::Cleaned(Ok(()))), Command::Report);
    match run.finish() {
        Some(Err(TestError::PerformTest { source, test_output })) => {
            assert!(matches!(
                source,
                PerformTestError::TestPcap {
                    source: pcap_tester::Error::IncorrectPacketCount { expected: 3, actual: 2 }
                }
            ));
            assert_eq!(test_output.pcap_file, Some("x.pcap".to_string()));
        }
        other => panic!("got {:?}", other),
    }
}

#[test]
fn output_that_cannot_be_stored_is_the_result() {
    let (mut run, _) = worker(3).test_repository();
    cancelled(&mut run);
    run.next(Event::Downloaded(Ok(capture_of(&[0, 1, 2]))));
    let failed = Event::Saved(Err(TestError::SaveTestOutput { source: "disk".to_string() }));
    assert_eq!(run.next(failed), Command::CleanEnvironment);
    assert_eq!(run.next(Event::Cleaned(Ok(()))), Command::Report);
    assert!(matches!(run.finish(), Some(Err(TestError::SaveTestOutput { source })) if source == "disk"));
}

#[test]
fn teardown_that_fails_is_the_result() {
    let (mut run, _) = worker(3).test_repository();
    cancelled(&mut run);
    run.next(Event::Downloaded(Ok(capture_of(&[0, 1, 2]))));
    run.next(Event::Saved(Ok(output(None))));
    let failed = openstack::Error { kind: openstack::ErrorKind::InternalServerError, message: "500".to_string() };
    assert_eq!(run.next(Event::Cleaned(Err(failed))), Command::Report);
    assert!(matches!(
        run.finish(),
        Some(Err(TestError::OpenStackError { source })) if source.message == "500"
    ));
}

#[test]
fn event_that_answers_nothing_changes_nothing() {
    let (mut run, _) = worker(3).test_repository();
    assert_eq!(run.next(Event::Slept), Command::FetchConfig);
    assert_eq!(run.next(Event::Cleaned(Ok(()))), Command::FetchConfig);
    assert_eq!(run.next(Event::Config(Ok(()))), Command::SpawnVms);
    assert_eq!(run.next(Event::Connected(Ok(()))), Command::SpawnVms);
}

#[test]
fn run_that_is_not_over_has_no_result() {
    let (mut run, _) = worker(3).test_repository();
    run.next(Event::Config(Ok(())));
    assert!(run.finish().is_none());
}

#[test]
fn failures_are_worded() {
    assert_eq!(
        TestError::FetchRepositoryConfig { source: "404".to_string() }.message(),
        "Failed to fetch CI config: 404"
    );
    assert_eq!(
        TestError::ConfigError { source: "bad".to_string() }.message(),
        "Failed to parse CI config: bad"
    );
    assert_eq!(
        TestError::ConnectVm { vm: "pcap", source: ssh("no") }.message(),
        "Failed to connect to VM pcap (Ssh: no)"
    );
    assert_eq!(
        TestError::SaveTestOutput { source: "disk".to_string() }.message(),
        "Failed to save test output: disk"
    );
    let cloud = openstack::Error { kind: openstack::ErrorKind::InternalServerError, message: "x".to_string() };
    assert_eq!(
        TestError::OpenStackError { source: cloud }.message(),
        "An OpenStack error occurred: Internal server error or bad gateway: x"
    );
    let failed = TestError::PerformTest {
        source: PerformTestError::ThreadPanicked,
        test_output: output(None),
    };
    assert_eq!(
        failed.message(),
        "An error occured while performing tests: A thread panicked during VM preparation"
    );
    assert_eq!(
        PerformTestError::PrepareVm { source: ssh("apt") }.message(),
        "Failed to prepare a VM: Ssh: apt"
    );
    assert_eq!(
        PerformTestError::RemoteError { source: ssh("x") }.message(),
        "An error occurred on a VM: Ssh: x"
    );
    assert_eq!(
        PerformTestError::TestPcap { source: pcap_tester::Error::DuplicateSequenceNumber }.message(),
        "pcap test error: Some sequence number occured more than once"
    );
}

#[test]
fn log_file_holds_the_three_transcripts() {
    let output = TestOutput {
        log_pktgen: vec![("a".to_string(), "1\n".to_string())],
        log_fwd: Vec::new(),
        log_pcap: vec![("b".to_string(), "2".to_string()), ("c".to_string(), String::new())],
        log_file: "x.log".to_string(),
        pcap_file: None,
    };
    assert_eq!(
        log_file_text(&output),
        "<details><summary>pktgen logs</summary>\n\n```\n$ a\n1\n```\n</details>\n\
<details><summary>fwd logs</summary>\n\n```\n\n```\n</details>\n\
<details><summary>pcap logs</summary>\n\n```\n$ b\n2\n\n$ c\n```\n</details>\n"
    );
}
