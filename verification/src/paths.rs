//! The on-disk layout of the node agent's runtime directory, as verified
//! string builders: every file a VM id owns is named here and nowhere else.

use vstd::prelude::*;

use crate::text::{decimal_rep, push_decimal};

verus! {

/// `{dir}/{id}.sock` — the hypervisor control socket.
pub open spec fn sock_path_spec(dir: Seq<char>, id: Seq<char>) -> Seq<char> {
    dir + "/"@ + id + ".sock"@
}

/// `{dir}/{id}.log` — the hypervisor's stdout and stderr.
pub open spec fn log_path_spec(dir: Seq<char>, id: Seq<char>) -> Seq<char> {
    dir + "/"@ + id + ".log"@
}

/// `{dir}/{id}.json` — the persisted configuration for restart recovery.
pub open spec fn config_path_spec(dir: Seq<char>, id: Seq<char>) -> Seq<char> {
    dir + "/"@ + id + ".json"@
}

/// `{dir}/{id}.console.log` — serial-console output in file mode.
pub open spec fn console_log_path_spec(dir: Seq<char>, id: Seq<char>) -> Seq<char> {
    dir + "/"@ + id + ".console.log"@
}

/// `{dir}/{id}-fs.sock` — the shared-filesystem daemon socket.
pub open spec fn fs_sock_path_spec(dir: Seq<char>, id: Seq<char>) -> Seq<char> {
    dir + "/"@ + id + "-fs.sock"@
}

/// `{id}-fs{index}` — the per-device name a shared-fs daemon runs under.
pub open spec fn fs_daemon_id_spec(id: Seq<char>, index: nat) -> Seq<char> {
    id + "-fs"@ + decimal_rep(index)
}

/// `{dir}/{id}` — the per-VM overlay directory.
pub open spec fn vm_dir_spec(dir: Seq<char>, id: Seq<char>) -> Seq<char> {
    dir + "/"@ + id
}

fn join_with(dir: &str, id: &str, suffix: &str) -> (r: String)
    ensures
        r@ == dir@ + "/"@ + id@ + suffix@,
{
    let mut s = String::from_str(dir);
    s.append("/");
    s.append(id);
    s.append(suffix);
    s
}

pub fn sock_path(dir: &str, id: &str) -> (r: String)
    ensures
        r@ == sock_path_spec(dir@, id@),
{
    join_with(dir, id, ".sock")
}

pub fn log_path(dir: &str, id: &str) -> (r: String)
    ensures
        r@ == log_path_spec(dir@, id@),
{
    join_with(dir, id, ".log")
}

pub fn config_path(dir: &str, id: &str) -> (r: String)
    ensures
        r@ == config_path_spec(dir@, id@),
{
    join_with(dir, id, ".json")
}

pub fn console_log_path(dir: &str, id: &str) -> (r: String)
    ensures
        r@ == console_log_path_spec(dir@, id@),
{
    join_with(dir, id, ".console.log")
}

pub fn fs_sock_path(dir: &str, id: &str) -> (r: String)
    ensures
        r@ == fs_sock_path_spec(dir@, id@),
{
    join_with(dir, id, "-fs.sock")
}

pub fn fs_daemon_id(id: &str, index: usize) -> (r: String)
    ensures
        r@ == fs_daemon_id_spec(id@, index as nat),
{
    let mut s = String::from_str(id);
    s.append("-fs");
    push_decimal(&mut s, index);
    s
}

pub fn vm_dir(dir: &str, id: &str) -> (r: String)
    ensures
        r@ == vm_dir_spec(dir@, id@),
{
    let mut s = String::from_str(dir);
    s.append("/");
    s.append(id);
    s
}

} // verus!
