//! What the service makes of a webhook delivery: whether it is authentic,
//! what it asks for, and how it is answered.

pub mod message;

use crate::config;
use crate::text;
use crate::worker::{Job, JobQueue};
use message::{IssueCommentAction, Message};
use ring::hmac;
use vstd::prelude::*;
use vstd::slice::slice_subrange;
use vstd::string::*;

verus! {

/// How many bytes of the signature header stand before the signature: the
/// name of the hash and an equals sign.
pub const SIGNATURE_PREFIX_LEN: usize = 7;

/// The value of a hexadecimal digit in ASCII, upper or lower case.
pub open spec fn hex_value(c: u8) -> Option<u8> {
    if 0x30 <= c <= 0x39 {
        Some((c - 0x30) as u8)
    } else if 0x41 <= c <= 0x46 {
        Some((c - 0x41 + 10) as u8)
    } else if 0x61 <= c <= 0x66 {
        Some((c - 0x61 + 10) as u8)
    } else {
        None
    }
}

/// The bytes that a text of hexadecimal digits spells, two digits to the
/// byte; `None` where the digits are odd in number or one is no digit.
pub open spec fn hex_decoded(text: Seq<u8>) -> Option<Seq<u8>> {
    if text.len() % 2 != 0 || exists|i: int| 0 <= i < text.len() && hex_value(text[i]) is None {
        None
    } else {
        Some(
            Seq::new(
                text.len() / 2,
                |i: int| (hex_value(text[2 * i])->0 * 16 + hex_value(text[2 * i + 1])->0) as u8,
            ),
        )
    }
}

/// Whether `tag` is the HMAC with SHA-256 of `data` under `key`.
pub uninterp spec fn hmac_sha256_verifies(key: Seq<u8>, data: Seq<u8>, tag: Seq<u8>) -> bool;

/// `hex::decode`: the bytes that hexadecimal digits spell.
#[verifier::external_body]
fn decode_hex(text: &[u8]) -> (r: Option<Vec<u8>>)
    ensures
        r is Some <==> hex_decoded(text@) is Some,
        r is Some ==> Some(r->0@) == hex_decoded(text@),
{
    hex::decode(text).ok()
}

/// `ring::hmac::verify` under a key that `Key::new` makes for HMAC with
/// SHA-256: computes the HMAC of the data and compares it with the tag, in
/// constant time. The result is a function of the three byte strings alone.
#[verifier::external_body]
fn verify_hmac_sha256(key: &[u8], data: &[u8], tag: &[u8]) -> (r: bool)
    ensures
        r == hmac_sha256_verifies(key@, data@, tag@),
{
    hmac::verify(&hmac::Key::new(hmac::HMAC_SHA256, key), data, tag).is_ok()
}

/// Whether the signature header vouches for the payload: behind its first
/// seven bytes it holds, in hexadecimal, the HMAC of the payload under the
/// secret.
pub open spec fn signed(signature: Option<Seq<u8>>, payload: Seq<u8>, secret: Seq<u8>) -> bool {
    match signature {
        None => false,
        Some(header) => header.len() >= SIGNATURE_PREFIX_LEN && (match hex_decoded(
            header.skip(SIGNATURE_PREFIX_LEN as int),
        ) {
            None => false,
            Some(tag) => hmac_sha256_verifies(secret, payload, tag),
        }),
    }
}

/// The name of the event that carries a message.
pub open spec fn event_name(message: Message) -> Seq<char> {
    match message {
        Message::Ping { .. } => "ping"@,
        Message::IssueComment { .. } => "issue_comment"@,
    }
}

/// Checks the signature of a payload against the secret.
pub fn check_signature(signature: Option<&[u8]>, payload: &[u8], secret: &str) -> (r: bool)
    ensures
        r == signed(
            match signature {
                Some(header) => Some(header@),
                None => None,
            },
            payload@,
            secret.spec_bytes(),
        ),
{
    match signature {
        None => false,
        Some(header) => {
            if header.len() < SIGNATURE_PREFIX_LEN {
                return false;
            }
            let digits = slice_subrange(header, SIGNATURE_PREFIX_LEN, header.len());
            proof {
                assert(digits@ =~= header@.skip(SIGNATURE_PREFIX_LEN as int));
            }
            match decode_hex(digits) {
                None => false,
                Some(tag) => verify_hmac_sha256(secret.as_bytes(), payload, tag.as_slice()),
            }
        },
    }
}

/// Whether a delivery is what it claims to be: its event header names the
/// event of the message that the payload was read as, and its signature
/// header vouches for the payload.
pub fn check_request(
    event: Option<&str>,
    signature: Option<&[u8]>,
    payload: &[u8],
    message: &Message,
    github_webhook_secret: &str,
) -> (r: bool)
    ensures
        r == (event is Some && event->0@ == event_name(*message) && signed(
            match signature {
                Some(header) => Some(header@),
                None => None,
            },
            payload@,
            github_webhook_secret.spec_bytes(),
        )),
{
    let event = match event {
        Some(event) => String::from_str(event) == String::from_str(message.github_event()),
        None => false,
    };
    let signature = check_signature(signature, payload, github_webhook_secret);
    event && signature
}

/// What a delivery asks for.
#[derive(Debug)]
pub enum Request {
    /// Nothing.
    Nothing,
    /// This job.
    Enqueue(Job),
    /// A test of the pull request with this number: its head is to be
    /// looked up, which gives the job.
    LookUpPullRequest { repository: config::Repository, number: u64 },
}

/// The words by which a comment asks the bot for something.
pub open spec fn call(bot_name: Seq<char>, verb: Seq<char>) -> Seq<char> {
    "@"@ + bot_name + " "@ + verb
}

/// Whether `request` is what `message` asks of the bot. Only a comment that
/// was just created asks for anything: for a test where it calls the bot
/// with `test`, else for a ping where it calls it with `ping`.
pub open spec fn requested(message: Message, bot_name: Seq<char>, request: Request) -> bool {
    match message {
        Message::IssueComment { action: IssueCommentAction::Created, issue, repository, comment } => 
            if text::occurs_in(call(bot_name, "test"@), comment.body@) {
            match request {
                Request::LookUpPullRequest { repository: asked, number } => asked.user
                    == repository.owner.login && asked.name == repository.name && number
                    == issue.number,
                _ => false,
            }
        } else if text::occurs_in(call(bot_name, "ping"@), comment.body@) {
            match request {
                Request::Enqueue(Job::Ping { repository: asked, issue_id }) => asked.user
                    == repository.owner.login && asked.name == repository.name && issue_id
                    == issue.number,
                _ => false,
            }
        } else {
            request is Nothing
        },
        _ => request is Nothing,
    }
}

/// Decides what a delivery asks for.
pub fn process_message(message: Message, bot_name: &str) -> (r: Request)
    ensures
        requested(message, bot_name@, r),
{
    match message {
        Message::Ping { .. } => Request::Nothing,
        Message::IssueComment { action, issue, repository, comment } => {
            match action {
                IssueCommentAction::Created => {
                    let test = String::from_str("@").concat(bot_name).concat(" ").concat("test");
                    let ping = String::from_str("@").concat(bot_name).concat(" ").concat("ping");
                    if text::contains(comment.body.as_str(), test.as_str()) {
                        Request::LookUpPullRequest {
                            repository: config::Repository {
                                user: repository.owner.login,
                                name: repository.name,
                            },
                            number: issue.number,
                        }
                    } else if text::contains(comment.body.as_str(), ping.as_str()) {
                        Request::Enqueue(
                            Job::Ping {
                                repository: config::Repository {
                                    user: repository.owner.login,
                                    name: repository.name,
                                },
                                issue_id: issue.number,
                            },
                        )
                    } else {
                        Request::Nothing
                    }
                },
                _ => Request::Nothing,
            }
        },
    }
}

/// The job that tests a pull request, once its head is known: the fork's
/// user and branch.
pub fn pull_request_job(
    repository: config::Repository,
    number: u64,
    head_user: String,
    head_ref: String,
) -> (r: Job)
    ensures
        r == (Job::TestPullRequest {
            repository,
            fork_user: head_user,
            fork_branch: head_ref,
            pull_request_id: number,
        }),
{
    Job::TestPullRequest {
        repository,
        fork_user: head_user,
        fork_branch: head_ref,
        pull_request_id: number,
    }
}

/// What became of a job that was offered to the queue.
#[derive(Debug, Clone, Copy, PartialEq, Eq, Structural)]
pub enum Admission {
    /// The job waits for the worker.
    Queued,
    /// The queue was full: the job is dropped.
    Dropped,
}

/// Offers a job to the queue, without waiting. A job that finds the queue
/// full is dropped. The worker must be there: without it the service cannot
/// go on, and whoever offers a job has to see to that first.
pub fn enqueue(queue: &mut JobQueue, job: Job) -> (r: Admission)
    requires
        old(queue).connected(),
    ensures
        old(queue).wf() ==> final(queue).wf(),
        final(queue).capacity() == old(queue).capacity(),
        final(queue).connected(),
        r == if old(queue).pending().len() < old(queue).capacity() {
            Admission::Queued
        } else {
            Admission::Dropped
        },
        final(queue).pending() == if r == Admission::Queued {
            old(queue).pending().push(job)
        } else {
            old(queue).pending()
        },
{
    match queue.try_send(job) {
        Ok(_) => Admission::Queued,
        Err(_) => Admission::Dropped,
    }
}

/// The status that answers a delivery: 400 where the payload is no message
/// or the repository has no secret, 401 where the delivery is not
/// authentic, 500 where it could not be processed, else 200.
pub open spec fn status(understood: bool, known: bool, authentic: bool, processed: bool) -> u16 {
    if !understood || !known {
        400
    } else if !authentic {
        401
    } else if !processed {
        500
    } else {
        200
    }
}

/// The status that answers a delivery.
pub fn webhook_service(understood: bool, known: bool, authentic: bool, processed: bool) -> (r: u16)
    ensures
        r == status(understood, known, authentic, processed),
{
    if !understood || !known {
        400
    } else if !authentic {
        401
    } else if !processed {
        500
    } else {
        200
    }
}

} // verus!
