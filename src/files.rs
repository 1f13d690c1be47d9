//! Where the project keeps its files under the user's home directory, and
//! how the per-sandbox agent socket path is made ready.
use vstd::prelude::*;
use crate::text::concat;

verus! {

/// `base` extended by `rel` as a Unix path is: an absolute `rel` replaces
/// `base`; otherwise one `/` separates them, unless `base` is empty or
/// already ends with one.
pub open spec fn path_join(base: Seq<char>, rel: Seq<char>) -> Seq<char> {
    if rel.len() > 0 && rel[0] == '/' {
        rel
    } else if base.len() > 0 && base.last() != '/' {
        base + seq!['/'] + rel
    } else {
        base + rel
    }
}

/// `relative` under the project's root directory, `<home>/Litterbox`.
pub open spec fn lbx_path(home: Seq<char>, relative: Seq<char>) -> Seq<char> {
    path_join(path_join(home, "Litterbox"@), relative)
}

/// Joins two path strings, as `path_join` says.
pub fn join_path(base: &str, rel: &str) -> (r: String)
    ensures
        r@ == path_join(base@, rel@),
{
    let rel_len = rel.unicode_len();
    let base_len = base.unicode_len();
    if rel_len > 0 && rel.get_char(0) == '/' {
        String::from_str(rel)
    } else if base_len > 0 && base.get_char(base_len - 1) != '/' {
        let mut r = String::from_str(base);
        r.append("/");
        proof {
            reveal_strlit("/");
        }
        r.append(rel);
        r
    } else {
        concat(base, rel)
    }
}

fn path_relative_to_lbx_root(home: &str, relative_path: &str) -> (r: String)
    ensures
        r@ == lbx_path(home@, relative_path@),
{
    let root = join_path(home, "Litterbox");
    join_path(root.as_str(), relative_path)
}

/// The Dockerfile that defines the sandbox `lbx_name`.
pub fn dockerfile_path(home: &str, lbx_name: &str) -> (r: String)
    ensures
        r@ == lbx_path(home@, "definitions/"@ + lbx_name@ + ".Dockerfile"@),
{
    let name = concat("definitions/", lbx_name);
    let rel = concat(name.as_str(), ".Dockerfile");
    path_relative_to_lbx_root(home, rel.as_str())
}

/// The file that holds the key vault.
pub fn keyfile_path(home: &str) -> (r: String)
    ensures
        r@ == lbx_path(home@, "keys.ron"@),
{
    path_relative_to_lbx_root(home, "keys.ron")
}

/// The home directory given to the sandbox `lbx_name`.
pub fn lbx_home_path(home: &str, lbx_name: &str) -> (r: String)
    ensures
        r@ == lbx_path(home@, "homes/"@ + lbx_name@),
{
    let rel = concat("homes/", lbx_name);
    path_relative_to_lbx_root(home, rel.as_str())
}

/// The settings file of the sandbox `lbx_name`.
pub fn settings_path(home: &str, lbx_name: &str) -> (r: String)
    ensures
        r@ == lbx_path(home@, "settings/"@ + lbx_name@ + ".ron"@),
{
    let name = concat("settings/", lbx_name);
    let rel = concat(name.as_str(), ".ron");
    path_relative_to_lbx_root(home, rel.as_str())
}

/// One step in making the agent socket's path ready.
#[derive(PartialEq, Eq, Structural, Clone, Copy, Debug)]
pub enum SocketStep {
    /// Delete the file left at the path by an earlier run.
    RemoveStale,
    /// Create the directory that holds the path.
    CreateDir,
    /// Create an empty file at the path, for a container to mount.
    CreatePlaceholder,
}

/// The steps that make the socket path ready, given whether a file is
/// already there.
pub open spec fn preparation_steps(exists: bool, create_empty_placeholder: bool) -> Seq<SocketStep> {
    if exists {
        seq![SocketStep::RemoveStale]
    } else if create_empty_placeholder {
        seq![SocketStep::CreateDir, SocketStep::CreatePlaceholder]
    } else {
        seq![SocketStep::CreateDir]
    }
}

/// Whether a file stands at the path after `steps`, starting from `exists`.
pub open spec fn file_after(exists: bool, steps: Seq<SocketStep>) -> bool
    decreases steps.len(),
{
    if steps.len() == 0 {
        exists
    } else {
        let before = file_after(exists, steps.drop_last());
        match steps.last() {
            SocketStep::RemoveStale => false,
            SocketStep::CreateDir => before,
            SocketStep::CreatePlaceholder => true,
        }
    }
}

/// Whatever an earlier run left at the socket path, preparing it for the
/// agent (no placeholder) leaves the path free, so binding a new socket
/// there does not fail on an existing file.
pub proof fn lemma_socket_path_free_for_bind(exists: bool)
    ensures
        !file_after(exists, preparation_steps(exists, false)),
{
    let steps = preparation_steps(exists, false);
    assert(steps.drop_last() =~= Seq::<SocketStep>::empty());
    assert(file_after(exists, steps.drop_last()) == exists);
    if exists {
        assert(steps.last() == SocketStep::RemoveStale);
    } else {
        assert(steps.last() == SocketStep::CreateDir);
    }
}

/// The Unix socket path of one sandbox's agent.
pub struct SshSockFile {
    path: String,
}

impl SshSockFile {
    /// The socket of the sandbox `lbx_name`, `.ssh/<name>.sock` under the
    /// project's root; the caller carries out `preparation` on it.
    pub fn new(home: &str, lbx_name: &str) -> (r: SshSockFile)
        ensures
            r.spec_path() == lbx_path(home@, ".ssh/"@ + lbx_name@ + ".sock"@),
    {
        let name = concat(".ssh/", lbx_name);
        let rel = concat(name.as_str(), ".sock");
        SshSockFile { path: path_relative_to_lbx_root(home, rel.as_str()) }
    }

    pub closed spec fn spec_path(&self) -> Seq<char> {
        self.path@
    }

    pub fn path(&self) -> (r: &str)
        ensures
            r@ == self.spec_path(),
    {
        self.path.as_str()
    }

    /// The steps that make the path ready: a stale file is removed;
    /// otherwise its directory is created, with an empty placeholder file if
    /// asked for.
    pub fn preparation(exists: bool, create_empty_placeholder: bool) -> (r: Vec<SocketStep>)
        ensures
            r@ == preparation_steps(exists, create_empty_placeholder),
    {
        let mut steps: Vec<SocketStep> = Vec::new();
        if exists {
            steps.push(SocketStep::RemoveStale);
        } else {
            steps.push(SocketStep::CreateDir);
            if create_empty_placeholder {
                steps.push(SocketStep::CreatePlaceholder);
            }
        }
        assert(steps@ =~= preparation_steps(exists, create_empty_placeholder));
        steps
    }
}

} // verus!
