//! The settings of the service and of one repository under test.

use crate::github;
use vstd::prelude::*;
use vstd::string::*;

verus! {

/// The settings of the whole service.
#[derive(Debug, Clone)]
pub struct Config {
    pub bind_address: String,
    pub public_url: String,
    pub job_queue_size: usize,
    pub log_directory: String,
    pub github: GitHubConfig,
    pub openstack: OpenStackConfig,
    pub test: TestConfig,
}

/// How the service speaks with GitHub.
#[derive(Debug, Clone)]
pub struct GitHubConfig {
    /// The webhook secret of each repository that may ask for tests. No
    /// repository should occur twice; of one that does, the first entry is
    /// the one that counts.
    pub webhook_secrets: Vec<(Repository, String)>,
    pub bot_name: String,
    pub api_token: String,
}

/// How the machines are made, and how the control plane is asked.
#[derive(Debug, Clone)]
pub struct OpenStackConfig {
    pub flavor: String,
    pub image: String,
    pub internet_network: String,
    pub floating_ip_pool: String,
    pub ssh_login: String,
    pub keypair: String,
    pub private_key_path: String,
    pub auth_url: String,
    pub user_name: String,
    pub user_domain: String,
    pub password: String,
    pub project_name: String,
    pub project_domain: String,
}

/// What a test is run with.
#[derive(Debug, Clone)]
pub struct TestConfig {
    /// How many test packets a capture must hold.
    pub packets: usize,
    pub pci_addresses: PciAddresses,
}

/// The PCI address of the network card under test on each host.
#[derive(Debug, Clone)]
pub struct PciAddresses {
    pub pktgen: String,
    pub fwd_src: String,
    pub fwd_dst: String,
    pub pcap: String,
}

/// What a repository under test says of itself: how to build it, and the
/// command of each of the three roles.
#[derive(Debug, Clone)]
pub struct RepositoryConfig {
    pub build: Vec<String>,
    pub pktgen: String,
    pub fwd: String,
    pub pcap: String,
}

/// A repository, named by its owner and its own name.
#[derive(Debug, Clone, Hash)]
pub struct Repository {
    pub user: String,
    pub name: String,
}

/// A repository as plain text.
pub struct RepositoryView {
    pub user: Seq<char>,
    pub name: Seq<char>,
}

impl View for Repository {
    type V = RepositoryView;

    open spec fn view(&self) -> RepositoryView {
        RepositoryView { user: self.user@, name: self.name@ }
    }
}

impl PartialEq for Repository {
    fn eq(&self, other: &Repository) -> (r: bool) {
        self.user == other.user && self.name == other.name
    }
}

impl Eq for Repository {

}

impl vstd::std_specs::cmp::PartialEqSpecImpl for Repository {
    open spec fn obeys_eq_spec() -> bool {
        true
    }

    open spec fn eq_spec(&self, other: &Repository) -> bool {
        self.user@ == other.user@ && self.name@ == other.name@
    }
}

/// `s` holds a slash at `i` and another at `j`.
pub open spec fn two_slashes(s: Seq<char>, i: int, j: int) -> bool {
    0 <= i < j < s.len() && s[i] == '/' && s[j] == '/'
}

impl Repository {
    /// Reads a repository from `user/name`. The text must hold exactly one
    /// slash; either side of it may be empty.
    pub fn try_from(from: String) -> (r: Result<Repository, &'static str>)
        ensures
            match r {
                Ok(repository) => {
                    &&& from@ == repository.user@ + seq!['/'] + repository.name@
                    &&& !repository.user@.contains('/')
                    &&& !repository.name@.contains('/')
                },
                Err(reason) => if from@.contains('/') {
                    &&& reason@ == "too many '/' in repository"@
                    &&& exists|i: int, j: int| two_slashes(from@, i, j)
                } else {
                    reason@ == "missing repository name"@
                },
            },
    {
        let text = from.as_str();
        let len = text.unicode_len();
        let mut first: usize = 0;
        while first < len && text.get_char(first) != '/'
            invariant
                first <= len == text@.len(),
                forall|k: int| 0 <= k < first ==> text@[k] != '/',
            decreases len - first,
        {
            first += 1;
        }
        if first == len {
            return Err("missing repository name");
        }
        let mut second: usize = first + 1;
        while second < len && text.get_char(second) != '/'
            invariant
                first < second <= len == text@.len(),
                forall|k: int| first < k < second ==> text@[k] != '/',
            decreases len - second,
        {
            second += 1;
        }
        if second < len {
            proof {
                assert(two_slashes(from@, first as int, second as int));
            }
            return Err("too many '/' in repository");
        }
        let user = text.substring_char(0, first).to_owned();
        let name = text.substring_char(first + 1, len).to_owned();
        proof {
            assert(from@ =~= user@ + seq!['/'] + name@);
        }
        Ok(Repository { user, name })
    }

    /// The repository as `user/name`.
    pub fn to_text(&self) -> (r: String)
        ensures
            r@ == self.user@ + seq!['/'] + self.name@,
    {
        let r = self.user.clone().concat("/").concat(self.name.as_str());
        proof {
            reveal_strlit("/");
            assert("/"@ =~= seq!['/']);
        }
        r
    }
}

impl From<&github::message::Repository> for Repository {
    fn from(repository: &github::message::Repository) -> (r: Repository) {
        Repository { user: repository.owner.login.clone(), name: repository.name.clone() }
    }
}

impl vstd::std_specs::convert::FromSpecImpl<&github::message::Repository> for Repository {
    open spec fn obeys_from_spec() -> bool {
        true
    }

    open spec fn from_spec(repository: &github::message::Repository) -> Repository {
        Repository { user: repository.owner.login, name: repository.name }
    }
}

impl GitHubConfig {
    /// No repository has two secrets.
    pub open spec fn wf(&self) -> bool {
        forall|i: int, j: int|
            0 <= i < j < self.webhook_secrets.len() ==> self.webhook_secrets[i].0@
                != self.webhook_secrets[j].0@
    }

    /// The webhook secret of `repository`, where it has one. Where no
    /// repository has two, it is the only secret of that repository.
    pub fn webhook_secret(&self, repository: &Repository) -> (r: Option<&String>)
        ensures
            self.wf() && r is Some ==> forall|k: int|
                0 <= k < self.webhook_secrets.len() && self.webhook_secrets[k].0@ == repository@
                    ==> self.webhook_secrets[k].1 == *r->0,
            match r {
                Some(secret) => exists|i: int|
                    {
                        &&& 0 <= i < self.webhook_secrets.len()
                        &&& self.webhook_secrets[i].0@ == repository@
                        &&& self.webhook_secrets[i].1 == *secret
                        &&& forall|k: int| 0 <= k < i ==> self.webhook_secrets[k].0@ != repository@
                    },
                None => forall|k: int|
                    0 <= k < self.webhook_secrets.len() ==> self.webhook_secrets[k].0@
                        != repository@,
            },
    {
        let mut i: usize = 0;
        while i < self.webhook_secrets.len()
            invariant
                i <= self.webhook_secrets.len(),
                forall|k: int| 0 <= k < i ==> self.webhook_secrets[k].0@ != repository@,
            decreases self.webhook_secrets.len() - i,
        {
            if self.webhook_secrets[i].0 == *repository {
                return Some(&self.webhook_secrets[i].1);
            }
            i += 1;
        }
        None
    }
}

} // verus!
