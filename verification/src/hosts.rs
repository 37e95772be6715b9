//! Hosts: the controller's host records, the deployment request checks, and
//! the script a deployment runs on the host over SSH.

use vstd::prelude::*;

use crate::text::{is_blank, blank, trim_string, trimmed};

verus! {

/// Status of a registered hypervisor host.
#[derive(Clone, Copy, Debug, PartialEq, Eq, Structural)]
pub enum HostStatus {
    Unknown,
    Down,
    Installing,
    InstallationFailed,
    Initializing,
    Up,
}

/// A registered hypervisor host.
#[derive(Debug)]
pub struct Host {
    pub id: String,
    pub name: String,
    pub address: String,
    pub port: i32,
    pub status: HostStatus,
    pub host_user: String,
    pub password: Vec<u8>,
    pub cloud_hypervisor_version: Option<String>,
    pub kernel_version: Option<String>,
}

/// A request to register a host.
#[derive(Debug)]
pub struct NewHost {
    pub name: String,
    pub address: String,
    pub port: i32,
    pub host_user: String,
    pub password: String,
}

impl NewHost {
    /// The registration checks: a name of 1 to 255 characters and a port in
    /// the valid range.
    pub fn validate(&self) -> (r: bool)
        ensures
            r == (1 <= self.name@.len() <= 255 && 1 <= self.port <= 65535),
    {
        let n = self.name.as_str().unicode_len();
        1 <= n && n <= 255 && 1 <= self.port && self.port <= 65535
    }

    /// Whether the requested name is already taken.
    pub fn name_conflicts(&self, existing: &Vec<String>) -> (r: bool)
        ensures
            r == exists|i: int| 0 <= i < existing@.len() && #[trigger] existing@[i]@ == self.name@,
    {
        let mut i: usize = 0;
        while i < existing.len()
            invariant
                0 <= i <= existing@.len(),
                forall|j: int| 0 <= j < i ==> #[trigger] existing@[j]@ != self.name@,
            decreases existing@.len() - i,
        {
            if crate::text::str_eq(existing[i].as_str(), self.name.as_str()) {
                return true;
            }
            i += 1;
        }
        false
    }
}

/// A request to change a host's status.
#[derive(Debug)]
pub struct UpdateHostRequest {
    pub status: HostStatus,
}

/// A request to deploy the node image onto a host over SSH.
#[derive(Debug)]
pub struct DeployHostRequest {
    /// Fully-qualified bootc image reference to deploy on the host.
    pub image: String,
    /// SSH port used to reach the host. Defaults to 22.
    pub ssh_port: Option<u16>,
    /// SSH user override. Defaults to the host's registered user.
    pub ssh_user: Option<String>,
    /// Optional SSH password override for this deployment request.
    pub ssh_password: Option<String>,
    /// Optional SSH private key path on the control-plane host.
    pub ssh_private_key_path: Option<String>,
    /// Install bootc before switching image. Defaults to true.
    pub install_bootc: Option<bool>,
    /// Reboot after the image switch. Defaults to true.
    pub reboot: Option<bool>,
}

/// The deployment request rejections, in the order they are checked.
pub open spec fn deploy_image_missing(r: DeployHostRequest) -> bool {
    is_blank(r.image@)
}

pub open spec fn deploy_both_auth(r: DeployHostRequest) -> bool {
    r.ssh_password is Some && r.ssh_private_key_path is Some
}

pub open spec fn deploy_user_blank(r: DeployHostRequest) -> bool {
    r.ssh_user matches Some(u) && is_blank(u@)
}

pub open spec fn deploy_key_path_blank(r: DeployHostRequest) -> bool {
    r.ssh_private_key_path matches Some(p) && is_blank(p@)
}

pub open spec fn deploy_port_zero(r: DeployHostRequest) -> bool {
    r.ssh_port == Some(0u16)
}

impl DeployHostRequest {
    /// Accepts the request exactly when the image is set, at most one SSH
    /// authentication method is given, no given field is blank, and the SSH
    /// port is not zero. The message names the first failing check.
    pub fn validate(&self) -> (r: Result<(), String>)
        ensures
            r is Ok <==> !deploy_image_missing(*self) && !deploy_both_auth(*self)
                && !deploy_user_blank(*self) && !deploy_key_path_blank(*self) && !deploy_port_zero(
                *self,
            ),
            deploy_image_missing(*self) ==> (r matches Err(m) && m@ == "image is required"@),
            !deploy_image_missing(*self) && deploy_both_auth(*self) ==> (r matches Err(m) && m@
                == "provide either ssh_password or ssh_private_key_path, but not both"@),
            !deploy_image_missing(*self) && !deploy_both_auth(*self) && deploy_user_blank(*self)
                ==> (r matches Err(m) && m@ == "ssh_user cannot be empty"@),
            !deploy_image_missing(*self) && !deploy_both_auth(*self) && !deploy_user_blank(*self)
                && deploy_key_path_blank(*self) ==> (r matches Err(m) && m@
                == "ssh_private_key_path cannot be empty"@),
            !deploy_image_missing(*self) && !deploy_both_auth(*self) && !deploy_user_blank(*self)
                && !deploy_key_path_blank(*self) && deploy_port_zero(*self) ==> (r matches Err(m)
                && m@ == "ssh_port must be greater than 0"@),
    {
        if blank(self.image.as_str()) {
            return Err(String::from_str("image is required"));
        }
        if self.ssh_password.is_some() && self.ssh_private_key_path.is_some() {
            return Err(
                String::from_str("provide either ssh_password or ssh_private_key_path, but not both"),
            );
        }
        if let Some(u) = &self.ssh_user {
            if blank(u.as_str()) {
                return Err(String::from_str("ssh_user cannot be empty"));
            }
        }
        if let Some(p) = &self.ssh_private_key_path {
            if blank(p.as_str()) {
                return Err(String::from_str("ssh_private_key_path cannot be empty"));
            }
        }
        if let Some(port) = self.ssh_port {
            if port == 0 {
                return Err(String::from_str("ssh_port must be greater than 0"));
            }
        }
        Ok(())
    }

    /// The SSH port to use: the given one, or 22.
    pub fn ssh_port(&self) -> (r: u16)
        ensures
            r == match self.ssh_port {
                Some(p) => p,
                None => 22u16,
            },
    {
        match self.ssh_port {
            Some(p) => p,
            None => 22,
        }
    }

    /// Whether to install bootc first; defaults to yes.
    pub fn install_bootc(&self) -> (r: bool)
        ensures
            r == match self.install_bootc {
                Some(b) => b,
                None => true,
            },
    {
        match self.install_bootc {
            Some(b) => b,
            None => true,
        }
    }

    /// Whether to reboot after the switch; defaults to yes.
    pub fn reboot(&self) -> (r: bool)
        ensures
            r == match self.reboot {
                Some(b) => b,
                None => true,
            },
    {
        match self.reboot {
            Some(b) => b,
            None => true,
        }
    }
}

/// Whether the request asks for a bootc installation; defaults to yes.
pub open spec fn install_requested(r: DeployHostRequest) -> bool {
    match r.install_bootc {
        Some(b) => b,
        None => true,
    }
}

/// Whether the request asks for a reboot after the switch; defaults to yes.
pub open spec fn reboot_requested(r: DeployHostRequest) -> bool {
    match r.reboot {
        Some(b) => b,
        None => true,
    }
}

/// How one character reads inside a single-quoted shell word: a quote ends
/// the word, emits a double-quoted quote, and reopens the word.
pub open spec fn quoted_char(c: char) -> Seq<char> {
    if c == '\'' {
        seq!['\'', '"', '\'', '"', '\'']
    } else {
        seq![c]
    }
}

/// The body of a single-quoted shell word.
pub open spec fn quoted_body(s: Seq<char>) -> Seq<char>
    decreases s.len(),
{
    if s.len() == 0 {
        Seq::empty()
    } else {
        quoted_body(s.drop_last()) + quoted_char(s.last())
    }
}

/// A string as a single-quoted shell word.
pub open spec fn shell_quoted(s: Seq<char>) -> Seq<char> {
    seq!['\''] + quoted_body(s) + seq!['\'']
}

/// Quotes a string for the shell: wrapped in single quotes, with every
/// embedded single quote escaped so the word survives verbatim.
pub fn shell_single_quote(value: &str) -> (r: String)
    ensures
        r@ == shell_quoted(value@),
{
    let n = value.unicode_len();
    let mut s = String::new();
    crate::text::push_char(&mut s, '\'');
    let mut i: usize = 0;
    while i < n
        invariant
            0 <= i <= n,
            n == value@.len(),
            s@ == seq!['\''] + quoted_body(value@.take(i as int)),
        decreases n - i,
    {
        proof {
            let pre = value@.take(i as int);
            let ext = value@.take(i + 1 as int);
            assert(ext.drop_last() =~= pre);
            assert(ext.last() == value@[i as int]);
        }
        let c = value.get_char(i);
        if c == '\'' {
            s.append("'\"'\"'");
            proof {
                reveal_strlit("'\"'\"'");
                assert(s@ =~= seq!['\''] + quoted_body(value@.take(i + 1 as int)));
            }
        } else {
            crate::text::push_char(&mut s, c);
            proof {
                assert(s@ =~= seq!['\''] + quoted_body(value@.take(i + 1 as int)));
            }
        }
        i += 1;
    }
    crate::text::push_char(&mut s, '\'');
    proof {
        assert(value@.take(n as int) =~= value@);
        assert(s@ =~= shell_quoted(value@));
    }
    s
}

/// The script a deployment runs on the host: a privilege-escalating
/// prologue, optionally a bootc installation, the image switch with the
/// trimmed reference quoted for the shell, and optionally a reboot.
pub open spec fn bootc_script_spec(image: Seq<char>, install: bool, reboot: bool) -> Seq<char> {
    "set -euo pipefail\nrun_privileged() {\n  if [ \"$(id -u)\" -eq 0 ]; then\n    \"$@\"\n  else\n    sudo -n \"$@\"\n  fi\n}\n"@
        + (if install {
        "if ! command -v bootc >/dev/null 2>&1; then\n  if command -v dnf >/dev/null 2>&1; then\n    run_privileged dnf install -y bootc\n  elif command -v apt-get >/dev/null 2>&1; then\n    run_privileged apt-get update\n    run_privileged apt-get install -y bootc\n  else\n    echo \"bootc is not installed and no supported package manager was found\" >&2\n    exit 1\n  fi\nfi\n"@
    } else {
        Seq::empty()
    }) + "run_privileged bootc switch "@ + shell_quoted(trimmed(image)) + "\n"@ + (if reboot {
        "run_privileged systemctl reboot\n"@
    } else {
        Seq::empty()
    })
}

/// Builds the deployment script for a request, honoring its install and
/// reboot flags.
pub fn build_bootc_script(request: &DeployHostRequest) -> (r: String)
    ensures
        r@ == bootc_script_spec(request.image@, install_requested(*request), reboot_requested(*request)),
{
    let mut script = String::from_str(
        "set -euo pipefail\nrun_privileged() {\n  if [ \"$(id -u)\" -eq 0 ]; then\n    \"$@\"\n  else\n    sudo -n \"$@\"\n  fi\n}\n",
    );
    if request.install_bootc() {
        script.append(
            "if ! command -v bootc >/dev/null 2>&1; then\n  if command -v dnf >/dev/null 2>&1; then\n    run_privileged dnf install -y bootc\n  elif command -v apt-get >/dev/null 2>&1; then\n    run_privileged apt-get update\n    run_privileged apt-get install -y bootc\n  else\n    echo \"bootc is not installed and no supported package manager was found\" >&2\n    exit 1\n  fi\nfi\n",
        );
    }
    script.append("run_privileged bootc switch ");
    let trimmed_image = trim_string(request.image.as_str());
    let quoted = shell_single_quote(trimmed_image.as_str());
    script.append(quoted.as_str());
    script.append("\n");
    if request.reboot() {
        script.append("run_privileged systemctl reboot\n");
    }
    script
}

/// Why a deployment cannot even be attempted.
#[derive(Debug)]
pub enum DeployPlanError {
    /// The host's RPC port does not fit a TCP port.
    InvalidNodePort(i32),
    /// No SSH user was given and the host record has none.
    MissingSshUser,
    /// Neither a password nor a private key path was given.
    MissingSshAuthentication,
    /// The private key path is blank or needs an unavailable home directory.
    InvalidSshKeyPath(String),
}

/// The SSH user for a deployment: the trimmed request override when it is
/// not blank, else the trimmed host user; blank in both places is an error.
pub fn resolve_ssh_user(request: &DeployHostRequest, host_user: &str) -> (r: Result<
    String,
    DeployPlanError,
>)
    ensures
        ({
            let over = request.ssh_user;
            if over matches Some(u) && !is_blank(u@) {
                r matches Ok(s) && s@ == trimmed(over->0@)
            } else if !is_blank(host_user@) {
                r matches Ok(s) && s@ == trimmed(host_user@)
            } else {
                r matches Err(e) && e is MissingSshUser
            }
        }),
{
    if let Some(u) = &request.ssh_user {
        if !blank(u.as_str()) {
            return Ok(trim_string(u.as_str()));
        }
    }
    if !blank(host_user) {
        Ok(trim_string(host_user))
    } else {
        Err(DeployPlanError::MissingSshUser)
    }
}

/// The password for a deployment: the trimmed request override when it is
/// not blank; none when a private key is given instead; else the trimmed
/// host password, when it is not blank.
pub fn resolve_password(request: &DeployHostRequest, host_password: &str) -> (r: Option<String>)
    ensures
        ({
            if request.ssh_password matches Some(p) && !is_blank(p@) {
                r matches Some(s) && s@ == trimmed(request.ssh_password->0@)
            } else if request.ssh_private_key_path is Some {
                r is None
            } else if !is_blank(host_password@) {
                r matches Some(s) && s@ == trimmed(host_password@)
            } else {
                r is None
            }
        }),
{
    if let Some(p) = &request.ssh_password {
        if !blank(p.as_str()) {
            return Some(trim_string(p.as_str()));
        }
    }
    if request.ssh_private_key_path.is_some() {
        return None;
    }
    if !blank(host_password) {
        Some(trim_string(host_password))
    } else {
        None
    }
}

/// Expands a private key path: a blank path is invalid, `~` is the home
/// directory, a `~/` prefix is relative to it, anything else is taken
/// trimmed as it stands. `home` is the control-plane host's home directory,
/// when the environment provides one.
pub fn expand_private_key_path(path: &str, home: Option<&String>) -> (r: Result<
    String,
    DeployPlanError,
>)
    ensures
        ({
            let t = trimmed(path@);
            if t.len() == 0 {
                r matches Err(e) && e is InvalidSshKeyPath
            } else if t == seq!['~'] {
                match home {
                    Some(h) => r matches Ok(s) && s@ == h@,
                    None => r matches Err(e) && e is InvalidSshKeyPath,
                }
            } else if t.len() >= 2 && t[0] == '~' && t[1] == '/' {
                match home {
                    Some(h) => r matches Ok(s) && s@ == h@ + "/"@ + t.subrange(2, t.len() as int),
                    None => r matches Err(e) && e is InvalidSshKeyPath,
                }
            } else {
                r matches Ok(s) && s@ == t
            }
        }),
{
    let t = trim_string(path);
    let n = t.as_str().unicode_len();
    if n == 0 {
        return Err(DeployPlanError::InvalidSshKeyPath(String::from_str(path)));
    }
    if n == 1 && t.as_str().get_char(0) == '~' {
        proof {
            assert(t@ =~= seq!['~']);
        }
        return match home {
            Some(h) => Ok(h.clone()),
            None => Err(DeployPlanError::InvalidSshKeyPath(String::from_str(path))),
        };
    }
    if n >= 2 && t.as_str().get_char(0) == '~' && t.as_str().get_char(1) == '/' {
        proof {
            assert(t@ != seq!['~']);
        }
        return match home {
            Some(h) => {
                let rest = t.as_str().substring_char(2, n);
                let mut s = h.clone();
                s.append("/");
                s.append(rest);
                Ok(s)
            },
            None => Err(DeployPlanError::InvalidSshKeyPath(String::from_str(path))),
        };
    }
    proof {
        if t@.len() == 1 {
            assert(t@[0] != '~');
            assert(t@ != seq!['~']);
        }
    }
    Ok(t)
}

/// Picks the host to schedule onto: one whose status is up, chosen by the
/// caller's random draw over the up hosts; none when no host is up.
pub fn pick_up_host(hosts: &Vec<Host>, draw: usize) -> (r: Option<usize>)
    ensures
        match r {
            Some(i) => i < hosts@.len() && hosts@[i as int].status == HostStatus::Up,
            None => forall|j: int| 0 <= j < hosts@.len() ==> hosts@[j].status != HostStatus::Up,
        },
{
    let mut ups: Vec<usize> = Vec::new();
    let mut i: usize = 0;
    while i < hosts.len()
        invariant
            0 <= i <= hosts@.len(),
            forall|k: int|
                0 <= k < ups@.len() ==> ups@[k] < i && hosts@[ups@[k] as int].status
                    == HostStatus::Up,
            forall|j: int| 0 <= j < i && hosts@[j].status == HostStatus::Up ==> ups@.contains(
                j as usize,
            ),
        decreases hosts@.len() - i,
    {
        if matches!(hosts[i].status, HostStatus::Up) {
            let ghost pre_ups = ups@;
            ups.push(i);
            proof {
                assert(ups@[pre_ups.len() as int] == i);
                assert(ups@.contains(i));
                assert forall|j: int|
                    0 <= j < i + 1 && hosts@[j].status == HostStatus::Up implies ups@.contains(
                    j as usize,
                ) by {
                    if j < i {
                        assert(pre_ups.contains(j as usize));
                        let k = choose|k: int|
                            0 <= k < pre_ups.len() && pre_ups[k] == j as usize;
                        assert(ups@[k] == j as usize);
                    }
                }
            }
        }
        i += 1;
    }
    if ups.len() == 0 {
        assert forall|j: int|
            0 <= j < hosts@.len() implies hosts@[j].status != HostStatus::Up by {
            if hosts@[j].status == HostStatus::Up {
                assert(ups@.contains(j as usize));
            }
        }
        None
    } else {
        Some(ups[draw % ups.len()])
    }
}

} // verus!
