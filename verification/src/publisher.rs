//! How the result of a job is told: the comment on a pull request, with the
//! transcripts of the three hosts.

use crate::config::Repository;
use crate::remote::{Log, Transcript};
use crate::text;
use crate::worker::{
    perform_error_text, test_error_text, Report, ReportContent, TestError, TestErrorView,
    TestOutput, TestOutputView, TestTarget,
};
use url::Url;
use vstd::prelude::*;
use vstd::string::*;

verus! {

/// The URL that a reference gives against a base URL, as text; `None` where
/// the base is no URL or the reference cannot be resolved against it.
pub uninterp spec fn url_joined(base: Seq<char>, reference: Seq<char>) -> Option<Seq<char>>;

/// `Url::join`, on a base that `Url::parse` reads from its text: resolves a
/// reference against the base, as a browser would. The result is a function
/// of the two texts alone.
#[verifier::external_body]
fn join_url(base: &str, reference: &str) -> (r: Option<String>)
    ensures
        r is Some <==> url_joined(base@, reference@) is Some,
        r is Some ==> Some(r->0@) == url_joined(base@, reference@),
{
    match Url::parse(base) {
        Ok(base) => base.join(reference).ok().map(|url| url.to_string()),
        Err(_) => None,
    }
}

/// The commands of a transcript with what they printed: each command after
/// a dollar sign, its output on the lines after it, and an empty line.
pub open spec fn entries_text(log: Transcript) -> Seq<char>
    decreases log.len(),
{
    if log.len() == 0 {
        Seq::empty()
    } else {
        entries_text(log.drop_last()) + "$ "@ + log.last().0 + "\n"@ + log.last().1 + "\n\n"@
    }
}

/// A transcript as a block that a reader can fold away, under the name of
/// its host.
pub open spec fn log_text(name: Seq<char>, log: Transcript) -> Seq<char> {
    "<details><summary>"@ + name + " logs</summary>\n\n```\n"@ + text::trimmed(entries_text(log))
        + "\n```\n</details>"@
}

/// The address under which a stored capture can be fetched, below `logs/` of
/// the service's public address.
pub open spec fn capture_url(public_url: Seq<char>, pcap_file: Seq<char>) -> Option<Seq<char>> {
    match url_joined(public_url, "logs/"@) {
        Some(logs) => url_joined(logs, pcap_file),
        None => None,
    }
}

/// The sentence on the capture: where it can be fetched, or that there is
/// none.
pub open spec fn capture_text(public_url: Seq<char>, pcap_file: Option<Seq<char>>) -> Seq<char> {
    match pcap_file {
        Some(pcap_file) => "The captured `.pcap` can be downloaded [here]("@ + (match capture_url(
            public_url,
            pcap_file,
        ) {
            Some(url) => url,
            None => "URL error"@,
        }) + ")."@,
        None => "The test failed before a `.pcap` was captured"@,
    }
}

/// The output of a run as text: the sentence on the capture and the three
/// transcripts.
pub open spec fn logs_text(public_url: Seq<char>, output: TestOutputView) -> Seq<char> {
    capture_text(public_url, output.pcap_file) + "\n\n"@ + log_text("pktgen"@, output.log_pktgen)
        + "\n"@ + log_text("fwd"@, output.log_fwd) + "\n"@ + log_text("pcap"@, output.log_pcap)
}

/// Whether `text` is the comment on a result.
pub open spec fn comment_text(
    public_url: Seq<char>,
    result: Result<TestOutputView, TestErrorView>,
    text: Seq<char>,
) -> bool {
    match result {
        Ok(output) => text == "Test __passed__!\n\n"@ + logs_text(public_url, output),
        Err(TestErrorView::PerformTest { source, test_output }) => exists|cause: Seq<char>|
            perform_error_text(source, cause) && text == "Test __failed__!\n\nCause: "@ + cause
                + "\n\n"@ + logs_text(public_url, test_output),
        Err(e) => exists|cause: Seq<char>|
            test_error_text(e, cause) && text == "Test __failed__!\n\nCause: "@ + cause,
    }
}

/// A transcript as a block under the name of its host.
pub fn format_log(name: &str, log: &Log) -> (r: String)
    ensures
        r@ == log_text(name@, log.deep_view()),
{
    let mut log_content = String::new();
    let mut i: usize = 0;
    while i < log.len()
        invariant
            i <= log.len(),
            log_content@ == entries_text(log.deep_view().take(i as int)),
        decreases log.len() - i,
    {
        let ghost before = log_content@;
        log_content.append("$ ");
        log_content.append(log[i].0.as_str());
        log_content.append("\n");
        log_content.append(log[i].1.as_str());
        log_content.append("\n\n");
        proof {
            let now = log.deep_view().take(i + 1);
            assert(now.drop_last() == log.deep_view().take(i as int));
            assert(now.last() == (log[i as int].0@, log[i as int].1@));
        }
        i += 1;
    }
    proof {
        assert(log.deep_view().take(i as int) == log.deep_view());
    }
    String::from_str("<details><summary>").concat(name).concat(
        " logs</summary>\n\n```\n",
    ).concat(text::trim(log_content.as_str())).concat("\n```\n</details>")
}

/// Who tells the results.
pub struct Publisher {
    public_url: String,
}

/// What is done with a report.
#[derive(Debug)]
pub enum Publication {
    /// Post this text on the issue or pull request with this number.
    Comment { repository: Repository, issue_id: u64, text: String },
    /// Only note how the test of a branch ended, with the failure in words.
    Note { repository: Repository, branch: String, failure: Option<String> },
}

/// Whether `publication` is what is done with `report`.
pub open spec fn published(public_url: Seq<char>, report: Report, publication: Publication) -> bool {
    match report.content {
        ReportContent::Pong { issue_id } => match publication {
            Publication::Comment { repository, issue_id: id, text } => repository
                == report.repository && id == issue_id && text@ == "pong"@,
            _ => false,
        },
        ReportContent::TestResult { result, test_target: TestTarget::PullRequest(number) } => 
            match publication {
            Publication::Comment { repository, issue_id: id, text } => repository
                == report.repository && id == number && comment_text(
                public_url,
                crate::worker::result_view(result),
                text@,
            ),
            _ => false,
        },
        ReportContent::TestResult { result, test_target: TestTarget::Branch(name) } => 
            match publication {
            Publication::Note { repository, branch, failure } => repository == report.repository
                && branch == name && (match result {
                Ok(_) => failure is None,
                Err(e) => failure is Some && test_error_text(e@, failure->0@),
            }),
            _ => false,
        },
    }
}

impl Publisher {
    /// The public address of the service.
    pub closed spec fn public_url(&self) -> Seq<char> {
        self.public_url@
    }

    /// A publisher for a service with this public address.
    pub fn new(public_url: String) -> (r: Publisher)
        ensures
            r.public_url() == public_url@,
    {
        Publisher { public_url }
    }

    /// The output of a run as text.
    pub fn format_logs(&self, test_output: &TestOutput) -> (r: String)
        ensures
            r@ == logs_text(self.public_url(), test_output@),
    {
        let capture = match &test_output.pcap_file {
            Some(pcap_file) => {
                let url = match join_url(self.public_url.as_str(), "logs/") {
                    Some(logs) => join_url(logs.as_str(), pcap_file.as_str()),
                    None => None,
                };
                let url = match url {
                    Some(url) => url,
                    None => String::from_str("URL error"),
                };
                String::from_str("The captured `.pcap` can be downloaded [here](").concat(
                    url.as_str(),
                ).concat(").")
            },
            None => String::from_str("The test failed before a `.pcap` was captured"),
        };
        capture.concat("\n\n").concat(format_log("pktgen", &test_output.log_pktgen).as_str()).concat(
            "\n",
        ).concat(format_log("fwd", &test_output.log_fwd).as_str()).concat("\n").concat(
            format_log("pcap", &test_output.log_pcap).as_str(),
        )
    }

    /// The comment that tells the result of a test on a pull request.
    pub fn format_pull_request_comment(&self, result: &Result<TestOutput, TestError>) -> (r: String)
        ensures
            comment_text(self.public_url(), crate::worker::result_view(*result), r@),
    {
        match result {
            Ok(test_output) => String::from_str("Test __passed__!\n\n").concat(
                self.format_logs(test_output).as_str(),
            ),
            Err(TestError::PerformTest { source, test_output }) => String::from_str(
                "Test __failed__!\n\nCause: ",
            ).concat(source.message().as_str()).concat("\n\n").concat(
                self.format_logs(test_output).as_str(),
            ),
            Err(e) => String::from_str("Test __failed__!\n\nCause: ").concat(
                e.message().as_str(),
            ),
        }
    }

    /// Decides what is done with a report: a ping is answered with `pong`, the
    /// result of a pull request's test is posted on the pull request, and the
    /// result of a branch's test is only noted.
    pub fn handle_report(&self, report: Report) -> (r: Publication)
        ensures
            published(self.public_url(), report, r),
    {
        match report.content {
            ReportContent::Pong { issue_id } => Publication::Comment {
                repository: report.repository,
                issue_id,
                text: String::from_str("pong"),
            },
            ReportContent::TestResult { result, test_target } => match test_target {
                TestTarget::PullRequest(issue_id) => {
                    let text = self.format_pull_request_comment(&result);
                    Publication::Comment { repository: report.repository, issue_id, text }
                },
                TestTarget::Branch(branch) => {
                    let failure = match &result {
                        Ok(_) => None,
                        Err(e) => Some(e.message()),
                    };
                    Publication::Note { repository: report.repository, branch, failure }
                },
            },
        }
    }
}

} // verus!
