//! The OCI image store: cache-key derivation, the pull decision over the
//! cache, layer classification, overlay planning, and the registry of
//! shared-filesystem daemons.
//!
//! Network pulls, unpacking, mounts and process supervision happen outside;
//! the library decides what they should do and records what they did.

use vstd::prelude::*;

use crate::paths::{fs_sock_path, fs_sock_path_spec, vm_dir, vm_dir_spec};
use crate::text::{push_char, str_eq, trim_string, trimmed};

verus! {

/// Whether a string is accepted as an OCI image reference. Acceptance
/// depends on the characters alone.
pub uninterp spec fn image_ref_ok(s: Seq<char>) -> bool;

/// Relies on `oci_client::Reference::try_from`: parses an image reference
/// of the form `[registry/]repository[:tag][@digest]`; the outcome is a
/// function of the input string alone.
#[verifier::external_body]
fn image_ref_parses(s: &str) -> (r: bool)
    ensures
        r == image_ref_ok(s@),
{
    oci_client::Reference::try_from(s).is_ok()
}

/// A cache key character: path-separating punctuation becomes `_`.
pub open spec fn safe_char(c: char) -> char {
    if c == '/' || c == ':' || c == '@' {
        '_'
    } else {
        c
    }
}

/// The path-safe cache key of an image reference.
pub open spec fn safe_name_spec(s: Seq<char>) -> Seq<char> {
    Seq::new(s.len(), |i: int| safe_char(s[i]))
}

/// Derives the path-safe cache key of an image reference.
pub fn safe_name(image_ref: &str) -> (r: String)
    ensures
        r@ == safe_name_spec(image_ref@),
{
    let n = image_ref.unicode_len();
    let mut s = String::new();
    let mut i: usize = 0;
    while i < n
        invariant
            0 <= i <= n,
            n == image_ref@.len(),
            s@.len() == i,
            forall|j: int| 0 <= j < i ==> s@[j] == safe_char(image_ref@[j]),
        decreases n - i,
    {
        let c = image_ref.get_char(i);
        if c == '/' || c == ':' || c == '@' {
            push_char(&mut s, '_');
        } else {
            push_char(&mut s, c);
        }
        i += 1;
    }
    proof {
        assert(s@ =~= safe_name_spec(image_ref@));
    }
    s
}

/// `{cache}/{key}` — the cache entry of an image reference.
pub open spec fn image_dir_spec(cache_dir: Seq<char>, image_ref: Seq<char>) -> Seq<char> {
    cache_dir + "/"@ + safe_name_spec(image_ref)
}

/// `{cache}/{key}/rootfs` — where the layers unpack.
pub open spec fn rootfs_dir_spec(cache_dir: Seq<char>, image_ref: Seq<char>) -> Seq<char> {
    image_dir_spec(cache_dir, image_ref) + "/rootfs"@
}

/// `{cache}/{key}/config.json` — the persisted image configuration.
pub open spec fn config_file_spec(cache_dir: Seq<char>, image_ref: Seq<char>) -> Seq<char> {
    image_dir_spec(cache_dir, image_ref) + "/config.json"@
}

/// `{cache}/{key}/digest.txt` — the persisted manifest digest.
pub open spec fn digest_file_spec(cache_dir: Seq<char>, image_ref: Seq<char>) -> Seq<char> {
    image_dir_spec(cache_dir, image_ref) + "/digest.txt"@
}

/// A pulled image: its reference, manifest digest, unpacked root, and the
/// boot-relevant parts of its configuration.
#[derive(Debug)]
pub struct ImageInfo {
    pub image_ref: String,
    pub digest: String,
    pub rootfs_path: String,
    pub env: Option<Vec<String>>,
    pub entrypoint: Option<Vec<String>>,
    pub cmd: Option<Vec<String>>,
}

/// What a probe of a populated cache entry found on disk: the digest file's
/// content and the parsed image configuration, when present.
pub struct CacheProbe {
    /// Content of `digest.txt`; empty when the file is absent or unreadable.
    pub digest: String,
    pub env: Option<Vec<String>>,
    pub entrypoint: Option<Vec<String>>,
    pub cmd: Option<Vec<String>>,
}

/// Optional string lists read the same way.
pub open spec fn opt_strings_eq(a: Option<Vec<String>>, b: Option<Vec<String>>) -> bool {
    &&& (a is Some <==> b is Some)
    &&& (a is Some ==> a->0@ == b->0@)
}

fn clone_opt_strings(o: &Option<Vec<String>>) -> (r: Option<Vec<String>>)
    ensures
        opt_strings_eq(r, *o),
{
    match o {
        None => None,
        Some(v) => Some(crate::wire::clone_string_vec(v)),
    }
}

/// Whether `info` is the cached record for `image_ref`: the trimmed digest
/// from disk, the canonical rootfs path, and the probed configuration.
pub open spec fn cached_record(
    cache_dir: Seq<char>,
    image_ref: Seq<char>,
    probe: CacheProbe,
    info: ImageInfo,
) -> bool {
    &&& info.image_ref@ == image_ref
    &&& info.digest@ == trimmed(probe.digest@)
    &&& info.rootfs_path@ == rootfs_dir_spec(cache_dir, image_ref)
    &&& opt_strings_eq(info.env, probe.env)
    &&& opt_strings_eq(info.entrypoint, probe.entrypoint)
    &&& opt_strings_eq(info.cmd, probe.cmd)
}

/// The paths a fetch must create and fill.
pub struct FetchPlan {
    pub image_dir: String,
    pub rootfs_dir: String,
    pub config_file: String,
    pub digest_file: String,
}

/// What a pull call does next.
pub enum PullDecision {
    /// The cache already holds the image: return this record; no network
    /// I/O happens.
    Cached(ImageInfo),
    /// The reference does not parse: fail without touching the network.
    InvalidRef,
    /// Pull manifest, config and layers, unpacking into these paths.
    Fetch(FetchPlan),
}

/// How the pull decision reads: a populated cache entry answers from disk
/// whatever the reference looks like; otherwise an unparseable reference is
/// rejected, and only a parseable one goes to the network.
pub open spec fn pull_plan_post(
    cache_dir: Seq<char>,
    image_ref: Seq<char>,
    probe: Option<CacheProbe>,
    r: PullDecision,
) -> bool {
    match probe {
        Some(p) => r matches PullDecision::Cached(info) && cached_record(
            cache_dir,
            image_ref,
            p,
            info,
        ),
        None => if !image_ref_ok(image_ref) {
            r is InvalidRef
        } else {
            &&& r matches PullDecision::Fetch(f)
            &&& f.image_dir@ == image_dir_spec(cache_dir, image_ref)
            &&& f.rootfs_dir@ == rootfs_dir_spec(cache_dir, image_ref)
            &&& f.config_file@ == config_file_spec(cache_dir, image_ref)
            &&& f.digest_file@ == digest_file_spec(cache_dir, image_ref)
        },
    }
}

fn cached_info(cache_dir: &str, image_ref: &str, probe: &CacheProbe) -> (info: ImageInfo)
    ensures
        cached_record(cache_dir@, image_ref@, *probe, info),
{
    let mut rootfs = String::from_str(cache_dir);
    rootfs.append("/");
    let key = safe_name(image_ref);
    rootfs.append(key.as_str());
    rootfs.append("/rootfs");
    ImageInfo {
        image_ref: String::from_str(image_ref),
        digest: trim_string(probe.digest.as_str()),
        rootfs_path: rootfs,
        env: clone_opt_strings(&probe.env),
        entrypoint: clone_opt_strings(&probe.entrypoint),
        cmd: clone_opt_strings(&probe.cmd),
    }
}

/// Decides a pull: answer from the cache when the rootfs is populated —
/// `probe` carries what the populated entry holds — otherwise validate the
/// reference and plan the fetch.
pub fn pull_plan(cache_dir: &str, image_ref: &str, probe: Option<&CacheProbe>) -> (r: PullDecision)
    ensures
        pull_plan_post(
            cache_dir@,
            image_ref@,
            match probe {
                Some(p) => Some(*p),
                None => None,
            },
            r,
        ),
{
    match probe {
        Some(p) => PullDecision::Cached(cached_info(cache_dir, image_ref, p)),
        None => {
            if !image_ref_parses(image_ref) {
                PullDecision::InvalidRef
            } else {
                let key = safe_name(image_ref);
                let mut image_dir = String::from_str(cache_dir);
                image_dir.append("/");
                image_dir.append(key.as_str());
                let mut rootfs_dir = image_dir.clone();
                rootfs_dir.append("/rootfs");
                let mut config_file = image_dir.clone();
                config_file.append("/config.json");
                let mut digest_file = image_dir.clone();
                digest_file.append("/digest.txt");
                PullDecision::Fetch(FetchPlan { image_dir, rootfs_dir, config_file, digest_file })
            }
        },
    }
}

/// The synchronous cache probe: a record exactly when the rootfs is
/// populated, with the same content a pull would answer from the cache.
pub fn get_image_status(cache_dir: &str, image_ref: &str, probe: Option<&CacheProbe>) -> (r: Option<
    ImageInfo,
>)
    ensures
        match probe {
            Some(p) => r matches Some(info) && cached_record(cache_dir@, image_ref@, *p, info),
            None => r is None,
        },
{
    match probe {
        Some(p) => Some(cached_info(cache_dir, image_ref, p)),
        None => None,
    }
}

/// Repeated pulls of one reference are answered from the cache: when the
/// probe reflects the digest a first successful pull persisted, the next
/// call returns the identical digest and root path and plans no fetch.
pub proof fn lemma_pull_idempotent(
    cache_dir: Seq<char>,
    image_ref: Seq<char>,
    first_digest: Seq<char>,
    probe: CacheProbe,
    r: PullDecision,
)
    requires
        pull_plan_post(cache_dir, image_ref, Some(probe), r),
        trimmed(probe.digest@) == first_digest,
    ensures
        r matches PullDecision::Cached(info) && info.digest@ == first_digest
            && info.rootfs_path@ == rootfs_dir_spec(cache_dir, image_ref),
{
}

/// How one OCI layer is handled, by media type.
#[derive(Clone, Copy, Debug, PartialEq, Eq, Structural)]
pub enum LayerAction {
    /// A gzip-compressed tarball: decode, then unpack.
    UnpackGzip,
    /// A plain tarball: unpack directly.
    UnpackTar,
    /// An unrecognized media type: warn and skip; the pull still succeeds.
    Skip,
}

/// The action a media type calls for.
pub open spec fn layer_action_of(media: Seq<char>) -> LayerAction {
    if media == "application/vnd.oci.image.layer.v1.tar+gzip"@ || media
        == "application/vnd.docker.image.rootfs.diff.tar.gzip"@ {
        LayerAction::UnpackGzip
    } else if media == "application/vnd.oci.image.layer.v1.tar"@ {
        LayerAction::UnpackTar
    } else {
        LayerAction::Skip
    }
}

/// Classifies one layer by media type. Total: every unrecognized type is
/// skipped, never an error.
pub fn layer_action(media_type: &str) -> (r: LayerAction)
    ensures
        r == layer_action_of(media_type@),
{
    if str_eq(media_type, "application/vnd.oci.image.layer.v1.tar+gzip") {
        LayerAction::UnpackGzip
    } else if str_eq(media_type, "application/vnd.docker.image.rootfs.diff.tar.gzip") {
        LayerAction::UnpackGzip
    } else if str_eq(media_type, "application/vnd.oci.image.layer.v1.tar") {
        LayerAction::UnpackTar
    } else {
        LayerAction::Skip
    }
}

/// Classifies every layer of a manifest, in order.
pub fn layer_actions(media_types: &Vec<String>) -> (r: Vec<LayerAction>)
    ensures
        r@.len() == media_types@.len(),
        forall|i: int|
            0 <= i < media_types@.len() ==> #[trigger] r@[i] == layer_action_of(
                media_types@[i]@,
            ),
{
    let mut out: Vec<LayerAction> = Vec::new();
    let mut i: usize = 0;
    while i < media_types.len()
        invariant
            0 <= i <= media_types@.len(),
            out@.len() == i,
            forall|j: int| 0 <= j < i ==> #[trigger] out@[j] == layer_action_of(media_types@[j]@),
        decreases media_types@.len() - i,
    {
        out.push(layer_action(media_types[i].as_str()));
        i += 1;
    }
    out
}

/// The overlay layout and daemon socket for one shared-fs export.
pub struct VirtiofsdPlan {
    pub vm_dir: String,
    pub upper_dir: String,
    pub work_dir: String,
    pub merged_dir: String,
    /// The option string for the overlay mount.
    pub mount_options: String,
    pub socket_path: String,
}

/// `lowerdir={rootfs},upperdir={upper},workdir={work}` — the overlay mount
/// options.
pub open spec fn mount_options_spec(
    rootfs: Seq<char>,
    upper: Seq<char>,
    work: Seq<char>,
) -> Seq<char> {
    "lowerdir="@ + rootfs + ",upperdir="@ + upper + ",workdir="@ + work
}

/// Plans one shared-fs export: the per-key overlay directories under the
/// runtime directory, the overlay mount options over the image rootfs, and
/// the daemon's socket path.
pub fn virtiofsd_plan(runtime_dir: &str, key: &str, rootfs_dir: &str) -> (r: VirtiofsdPlan)
    ensures
        r.vm_dir@ == vm_dir_spec(runtime_dir@, key@),
        r.upper_dir@ == vm_dir_spec(runtime_dir@, key@) + "/upper"@,
        r.work_dir@ == vm_dir_spec(runtime_dir@, key@) + "/work"@,
        r.merged_dir@ == vm_dir_spec(runtime_dir@, key@) + "/merged"@,
        r.mount_options@ == mount_options_spec(rootfs_dir@, r.upper_dir@, r.work_dir@),
        r.socket_path@ == fs_sock_path_spec(runtime_dir@, key@),
{
    let base = vm_dir(runtime_dir, key);
    let mut upper_dir = base.clone();
    upper_dir.append("/upper");
    let mut work_dir = base.clone();
    work_dir.append("/work");
    let mut merged_dir = base.clone();
    merged_dir.append("/merged");
    let mut mount_options = String::from_str("lowerdir=");
    mount_options.append(rootfs_dir);
    mount_options.append(",upperdir=");
    mount_options.append(upper_dir.as_str());
    mount_options.append(",workdir=");
    mount_options.append(work_dir.as_str());
    let socket_path = fs_sock_path(runtime_dir, key);
    VirtiofsdPlan { vm_dir: base, upper_dir, work_dir, merged_dir, mount_options, socket_path }
}

struct DaemonEntry {
    key: String,
    socket_path: String,
}

/// The image store: binary and directory configuration, and the registry of
/// running shared-fs daemons, keyed by per-device name.
pub struct ImageStoreManager {
    virtiofsd_binary: String,
    qarax_init_binary: String,
    cache_dir: String,
    runtime_dir: String,
    daemons: Vec<DaemonEntry>,
}

impl ImageStoreManager {
    /// The daemon keys are pairwise distinct; every operation keeps this.
    pub closed spec fn wf(&self) -> bool {
        forall|i: int, j: int|
            0 <= i < j < self.daemons@.len() ==> self.daemons@[i].key@ != self.daemons@[j].key@
    }

    /// Whether a daemon runs under this key.
    pub closed spec fn has_daemon(&self, key: Seq<char>) -> bool {
        exists|i: int| 0 <= i < self.daemons@.len() && self.daemons@[i].key@ == key
    }

    spec fn didx(&self, key: Seq<char>) -> int {
        choose|i: int| 0 <= i < self.daemons@.len() && self.daemons@[i].key@ == key
    }

    /// The socket path of the daemon under a key.
    pub closed spec fn daemon_socket(&self, key: Seq<char>) -> Seq<char> {
        self.daemons@[self.didx(key)].socket_path@
    }

    /// How many daemons are registered.
    pub closed spec fn daemon_count(&self) -> nat {
        self.daemons@.len()
    }

    pub closed spec fn cache(&self) -> Seq<char> {
        self.cache_dir@
    }

    pub closed spec fn dir(&self) -> Seq<char> {
        self.runtime_dir@
    }

    pub closed spec fn fs_binary(&self) -> Seq<char> {
        self.virtiofsd_binary@
    }

    pub closed spec fn init_binary(&self) -> Seq<char> {
        self.qarax_init_binary@
    }

    proof fn lemma_didx_at(&self, i: int)
        requires
            self.wf(),
            0 <= i < self.daemons@.len(),
        ensures
            self.has_daemon(self.daemons@[i].key@),
            self.didx(self.daemons@[i].key@) == i,
            self.daemon_socket(self.daemons@[i].key@) == self.daemons@[i].socket_path@,
    {
        let key = self.daemons@[i].key@;
        let j = self.didx(key);
        if i != j {
            if i < j {
                assert(self.daemons@[i].key@ != self.daemons@[j].key@);
            } else {
                assert(self.daemons@[j].key@ != self.daemons@[i].key@);
            }
        }
    }

    /// A fresh store with no daemons.
    pub fn new(
        virtiofsd_binary: String,
        qarax_init_binary: String,
        cache_dir: String,
        runtime_dir: String,
    ) -> (r: Self)
        ensures
            r.wf(),
            r.daemon_count() == 0,
            forall|key: Seq<char>| !r.has_daemon(key),
            r.cache() == cache_dir@,
            r.dir() == runtime_dir@,
            r.fs_binary() == virtiofsd_binary@,
            r.init_binary() == qarax_init_binary@,
    {
        ImageStoreManager {
            virtiofsd_binary,
            qarax_init_binary,
            cache_dir,
            runtime_dir,
            daemons: Vec::new(),
        }
    }

    /// The image cache directory.
    pub fn cache_dir(&self) -> (r: &str)
        ensures
            r@ == self.cache(),
    {
        self.cache_dir.as_str()
    }

    /// The runtime directory.
    pub fn runtime_dir(&self) -> (r: &str)
        ensures
            r@ == self.dir(),
    {
        self.runtime_dir.as_str()
    }

    /// The shared-fs daemon binary.
    pub fn virtiofsd_binary(&self) -> (r: &str)
        ensures
            r@ == self.fs_binary(),
    {
        self.virtiofsd_binary.as_str()
    }

    /// The guest init binary to inject.
    pub fn qarax_init_binary(&self) -> (r: &str)
        ensures
            r@ == self.init_binary(),
    {
        self.qarax_init_binary.as_str()
    }

    fn dfind(&self, key: &str) -> (r: Option<usize>)
        requires
            self.wf(),
        ensures
            match r {
                Some(i) => i < self.daemons@.len() && self.daemons@[i as int].key@ == key@,
                None => !self.has_daemon(key@),
            },
    {
        let mut i: usize = 0;
        while i < self.daemons.len()
            invariant
                0 <= i <= self.daemons@.len(),
                forall|j: int| 0 <= j < i ==> self.daemons@[j].key@ != key@,
            decreases self.daemons@.len() - i,
        {
            if str_eq(self.daemons[i].key.as_str(), key) {
                return Some(i);
            }
            i += 1;
        }
        None
    }

    /// Records a started daemon under its key; a stale entry under the same
    /// key is replaced.
    pub fn register_daemon(&mut self, key: String, socket_path: String)
        requires
            old(self).wf(),
        ensures
            final(self).wf(),
            final(self).has_daemon(key@),
            final(self).daemon_socket(key@) == socket_path@,
            final(self).cache() == old(self).cache(),
            final(self).dir() == old(self).dir(),
            final(self).fs_binary() == old(self).fs_binary(),
            final(self).init_binary() == old(self).init_binary(),
            forall|x: Seq<char>|
                x != key@ ==> final(self).has_daemon(x) == old(self).has_daemon(x),
            forall|x: Seq<char>|
                x != key@ && old(self).has_daemon(x) ==> final(self).daemon_socket(x) == old(
                    self,
                ).daemon_socket(x),
    {
        match self.dfind(key.as_str()) {
            Some(i) => {
                proof {
                    self.lemma_didx_at(i as int);
                }
                let ghost pre = *self;
                let _ = self.daemons.remove(i);
                proof {
                    Self::lemma_dremove_frame(pre, *self, i as int);
                }
                let e = DaemonEntry { key, socket_path };
                let ghost mid = *self;
                self.daemons.push(e);
                proof {
                    Self::lemma_dpush_frame(mid, *self, e);
                }
            },
            None => {
                let e = DaemonEntry { key, socket_path };
                let ghost pre = *self;
                self.daemons.push(e);
                proof {
                    Self::lemma_dpush_frame(pre, *self, e);
                }
            },
        }
    }

    /// Forgets the daemon under a key and returns the socket file to remove;
    /// dropping the child handle outside kills the process. Unknown keys are
    /// a no-op, so teardown may probe every per-device name.
    pub fn stop_virtiofsd(&mut self, key: &str) -> (r: Option<String>)
        requires
            old(self).wf(),
        ensures
            final(self).wf(),
            final(self).cache() == old(self).cache(),
            final(self).dir() == old(self).dir(),
            final(self).fs_binary() == old(self).fs_binary(),
            final(self).init_binary() == old(self).init_binary(),
            !final(self).has_daemon(key@),
            if old(self).has_daemon(key@) {
                r matches Some(s) && s@ == old(self).daemon_socket(key@)
                    && final(self).daemon_count() + 1 == old(self).daemon_count()
            } else {
                r is None && *final(self) == *old(self)
            },
            forall|x: Seq<char>|
                x != key@ ==> final(self).has_daemon(x) == old(self).has_daemon(x),
            forall|x: Seq<char>|
                x != key@ && old(self).has_daemon(x) ==> final(self).daemon_socket(x) == old(
                    self,
                ).daemon_socket(x),
    {
        match self.dfind(key) {
            None => None,
            Some(i) => {
                proof {
                    self.lemma_didx_at(i as int);
                }
                let ghost pre = *self;
                let e = self.daemons.remove(i);
                proof {
                    Self::lemma_dremove_frame(pre, *self, i as int);
                }
                Some(e.socket_path)
            },
        }
    }

    proof fn lemma_dpush_frame(pre: Self, post: Self, e: DaemonEntry)
        requires
            pre.wf(),
            !pre.has_daemon(e.key@),
            post.daemons@ == pre.daemons@.push(e),
            post.cache_dir == pre.cache_dir,
            post.runtime_dir == pre.runtime_dir,
            post.virtiofsd_binary == pre.virtiofsd_binary,
            post.qarax_init_binary == pre.qarax_init_binary,
        ensures
            post.wf(),
            post.has_daemon(e.key@),
            post.daemon_socket(e.key@) == e.socket_path@,
            post.daemon_count() == pre.daemon_count() + 1,
            forall|x: Seq<char>| x != e.key@ ==> post.has_daemon(x) == pre.has_daemon(x),
            forall|x: Seq<char>|
                x != e.key@ && pre.has_daemon(x) ==> post.daemon_socket(x) == pre.daemon_socket(x),
    {
        let n = pre.daemons@.len() as int;
        assert forall|i: int, j: int| 0 <= i < j < post.daemons@.len() implies post.daemons@[i].key@
            != post.daemons@[j].key@ by {
            if j < n {
                assert(post.daemons@[i] == pre.daemons@[i]);
                assert(post.daemons@[j] == pre.daemons@[j]);
            } else {
                assert(post.daemons@[j] == e);
                assert(post.daemons@[i] == pre.daemons@[i]);
                if pre.daemons@[i].key@ == e.key@ {
                    assert(pre.has_daemon(e.key@));
                }
            }
        }
        assert(post.daemons@[n].key@ == e.key@);
        post.lemma_didx_at(n);
        assert forall|x: Seq<char>| x != e.key@ implies post.has_daemon(x) == pre.has_daemon(
            x,
        ) by {
            if pre.has_daemon(x) {
                let i = pre.didx(x);
                assert(post.daemons@[i].key@ == x);
            }
            if post.has_daemon(x) {
                let i = post.didx(x);
                assert(post.daemons@[i].key@ == x);
                assert(i < n);
                assert(pre.daemons@[i].key@ == x);
            }
        }
        assert forall|x: Seq<char>| x != e.key@ && pre.has_daemon(x) implies post.daemon_socket(x)
            == pre.daemon_socket(x) by {
            let i = pre.didx(x);
            assert(pre.daemons@[i].key@ == x);
            pre.lemma_didx_at(i);
            assert(post.daemons@[i].key@ == x);
            post.lemma_didx_at(i);
        }
    }

    proof fn lemma_dremove_frame(pre: Self, post: Self, i: int)
        requires
            pre.wf(),
            0 <= i < pre.daemons@.len(),
            post.daemons@ == pre.daemons@.remove(i),
            post.cache_dir == pre.cache_dir,
            post.runtime_dir == pre.runtime_dir,
            post.virtiofsd_binary == pre.virtiofsd_binary,
            post.qarax_init_binary == pre.qarax_init_binary,
        ensures
            post.wf(),
            !post.has_daemon(pre.daemons@[i].key@),
            post.daemon_count() + 1 == pre.daemon_count(),
            forall|x: Seq<char>|
                x != pre.daemons@[i].key@ ==> post.has_daemon(x) == pre.has_daemon(x),
            forall|x: Seq<char>|
                x != pre.daemons@[i].key@ && pre.has_daemon(x) ==> post.daemon_socket(x)
                    == pre.daemon_socket(x),
    {
        let key = pre.daemons@[i].key@;
        assert forall|a: int, b: int| 0 <= a < b < post.daemons@.len() implies post.daemons@[a].key@
            != post.daemons@[b].key@ by {
            let a0 = if a < i { a } else { a + 1 };
            let b0 = if b < i { b } else { b + 1 };
            assert(post.daemons@[a] == pre.daemons@[a0]);
            assert(post.daemons@[b] == pre.daemons@[b0]);
        }
        if post.has_daemon(key) {
            let k = post.didx(key);
            let k0 = if k < i { k } else { k + 1 };
            assert(post.daemons@[k] == pre.daemons@[k0]);
            pre.lemma_didx_at(k0);
            pre.lemma_didx_at(i);
            assert(false);
        }
        assert forall|x: Seq<char>| x != key implies post.has_daemon(x) == pre.has_daemon(x) by {
            if pre.has_daemon(x) {
                let k = pre.didx(x);
                if k < i {
                    assert(post.daemons@[k] == pre.daemons@[k]);
                } else {
                    assert(k > i);
                    assert(post.daemons@[k - 1] == pre.daemons@[k]);
                }
            }
            if post.has_daemon(x) {
                let k = post.didx(x);
                let k0 = if k < i { k } else { k + 1 };
                assert(post.daemons@[k] == pre.daemons@[k0]);
            }
        }
        assert forall|x: Seq<char>| x != key && pre.has_daemon(x) implies post.daemon_socket(x)
            == pre.daemon_socket(x) by {
            let k = pre.didx(x);
            pre.lemma_didx_at(k);
            if k < i {
                assert(post.daemons@[k] == pre.daemons@[k]);
                post.lemma_didx_at(k);
            } else {
                assert(k > i);
                assert(post.daemons@[k - 1] == pre.daemons@[k]);
                post.lemma_didx_at(k - 1);
            }
        }
    }
}

} // verus!
