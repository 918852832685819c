//! Install-directory validation over an explicit filesystem snapshot.
//!
//! The operating system is the only authority on which paths exist, so the
//! caller probes the paths it cares about and records the existing ones in an
//! [`FsSnapshot`]. The validators here are then ordinary verified logic over
//! that snapshot.

use vstd::prelude::*;
use vstd::string::*;

verus! {

/// The set of paths known to exist, as probed by the caller.
///
/// The empty path names no filesystem entry on any platform, so a snapshot
/// never records it; `wf` captures that.
pub struct FsSnapshot {
    entries: Vec<String>,
}

impl FsSnapshot {
    /// The recorded paths, as sequences of characters.
    pub closed spec fn paths(self) -> Seq<Seq<char>> {
        self.entries@.map_values(|s: String| s@)
    }

    /// Whether `p` is recorded as existing.
    pub open spec fn contains_path(self, p: Seq<char>) -> bool {
        self.paths().contains(p)
    }

    /// Every recorded path is non-empty.
    pub open spec fn wf(self) -> bool {
        forall|i: int| 0 <= i < self.paths().len() ==> #[trigger] self.paths()[i].len() > 0
    }

    /// An empty snapshot: no path is known to exist.
    pub fn new() -> (r: Self)
        ensures
            r.wf(),
            forall|p: Seq<char>| !r.contains_path(p),
    {
        let r = FsSnapshot { entries: Vec::new() };
        proof {
            assert(r.paths() =~= Seq::<Seq<char>>::empty());
        }
        r
    }

    /// Record `path` as existing; the empty path is ignored, since it exists
    /// on no filesystem.
    pub fn record_existing(&mut self, path: String)
        requires
            old(self).wf(),
        ensures
            final(self).wf(),
            path@.len() > 0 ==> final(self).paths() == old(self).paths().push(path@),
            path@.len() == 0 ==> *final(self) == *old(self),
            forall|p: Seq<char>|
                final(self).contains_path(p) <==> (old(self).contains_path(p) || (path@.len() > 0
                    && p == path@)),
    {
        if path.as_str().is_empty() {
            return ;
        }
        let ghost old_paths = self.paths();
        let ghost pv = path@;
        self.entries.push(path);
        proof {
            assert(self.paths() =~= old_paths.push(pv));
            assert forall|p: Seq<char>|
                self.contains_path(p) <==> (old_paths.contains(p) || p == pv) by {
                if old_paths.contains(p) {
                    let i = choose|i: int| 0 <= i < old_paths.len() && old_paths[i] == p;
                    assert(self.paths()[i] == p);
                }
                if p == pv {
                    assert(self.paths()[old_paths.len() as int] == p);
                }
                if self.contains_path(p) {
                    let i = choose|i: int| 0 <= i < self.paths().len() && self.paths()[i] == p;
                    if i < old_paths.len() {
                        assert(old_paths[i] == p);
                    }
                }
            }
        }
    }

    /// Whether `path` was recorded as existing.
    pub fn has_path(&self, path: &String) -> (r: bool)
        ensures
            r == self.contains_path(path@),
    {
        let mut i: usize = 0;
        while i < self.entries.len()
            invariant
                0 <= i <= self.entries.len(),
                forall|j: int| 0 <= j < i ==> self.paths()[j] != path@,
            decreases self.entries.len() - i,
        {
            if self.entries[i] == *path {
                assert(self.paths()[i as int] == path@);
                return true;
            }
            assert(self.paths()[i as int] == self.entries@[i as int]@);
            i = i + 1;
        }
        false
    }
}

/// `dir` with `child` appended below it, using the `/` separator unless `dir`
/// already ends with one.
pub open spec fn join_path(dir: Seq<char>, child: Seq<char>) -> Seq<char> {
    if dir.len() > 0 && dir.last() == '/' {
        dir + child
    } else {
        dir + seq!['/'] + child
    }
}

/// The executable whose presence marks a directory as the game installation.
pub open spec fn game_exe_name() -> Seq<char> {
    "DivaMegaMix.exe"@
}

/// The loader library whose presence marks the mod loader as installed.
pub open spec fn mod_loader_name() -> Seq<char> {
    "dinput8.dll"@
}

/// A valid install directory: the directory itself exists and holds the game
/// executable directly inside it.
pub open spec fn spec_is_valid_install_dir(fs: FsSnapshot, dir: Seq<char>) -> bool {
    fs.contains_path(dir) && fs.contains_path(join_path(dir, game_exe_name()))
}

/// The mod loader is installed: a valid install directory that also holds the
/// loader library directly inside it.
pub open spec fn spec_has_mod_loader(fs: FsSnapshot, dir: Seq<char>) -> bool {
    spec_is_valid_install_dir(fs, dir) && fs.contains_path(join_path(dir, mod_loader_name()))
}

/// `dir` with `child` appended below it.
pub fn join_child(dir: &String, child: &str) -> (r: String)
    ensures
        r@ == join_path(dir@, child@),
{
    let mut r = dir.clone();
    let n = dir.as_str().unicode_len();
    let ends_with_sep = if n > 0 {
        dir.as_str().get_char(n - 1) == '/'
    } else {
        false
    };
    if !ends_with_sep {
        r.append("/");
        proof {
            reveal_strlit("/");
            assert(r@ =~= dir@ + seq!['/']);
        }
    }
    r.append(child);
    proof {
        if dir@.len() > 0 && dir@.last() == '/' {
            assert(r@ =~= dir@ + child@);
        } else {
            assert(r@ =~= dir@ + seq!['/'] + child@);
        }
    }
    r
}

/// Whether `path` is a valid game install directory in the snapshot `fs`:
/// it exists and the game executable exists directly inside it.
pub fn is_valid_megamix_dir(fs: &FsSnapshot, path: &String) -> (r: bool)
    ensures
        r == spec_is_valid_install_dir(*fs, path@),
{
    if !fs.has_path(path) {
        return false;
    }
    let exe = join_child(path, "DivaMegaMix.exe");
    fs.has_path(&exe)
}

/// Whether the mod loader is installed under `path`: the directory is a valid
/// install directory and the loader library exists directly inside it.
pub fn has_mod_loader(fs: &FsSnapshot, path: &String) -> (r: bool)
    ensures
        r == spec_has_mod_loader(*fs, path@),
{
    if !is_valid_megamix_dir(fs, path) {
        return false;
    }
    let lib = join_child(path, "dinput8.dll");
    fs.has_path(&lib)
}

/// The settings file's own name; the caller resolves the directory it lives
/// in from the platform's configuration-path conventions.
pub fn get_config_path() -> (r: Option<String>)
    ensures
        r matches Some(p) && p@ == "settings.toml"@,
{
    Some("settings.toml".to_owned())
}

/// A directory that does not exist is never a valid install directory, and
/// neither is one that exists but lacks the game executable, whatever else it
/// holds.
pub proof fn lemma_validity_needs_dir_and_exe(fs: FsSnapshot, dir: Seq<char>)
    ensures
        !fs.contains_path(dir) ==> !spec_is_valid_install_dir(fs, dir),
        !fs.contains_path(join_path(dir, game_exe_name())) ==> !spec_is_valid_install_dir(fs, dir),
{
}

/// Even in a valid install directory, the mod loader does not count as
/// installed unless the loader library is present as well.
pub proof fn lemma_mod_loader_needs_library(fs: FsSnapshot, dir: Seq<char>)
    requires
        spec_is_valid_install_dir(fs, dir),
    ensures
        !fs.contains_path(join_path(dir, mod_loader_name())) ==> !spec_has_mod_loader(fs, dir),
{
}

/// The empty path exists on no filesystem, so it is never a valid install
/// directory.
pub proof fn lemma_empty_path_never_valid(fs: FsSnapshot)
    requires
        fs.wf(),
    ensures
        !spec_is_valid_install_dir(fs, Seq::<char>::empty()),
{
    if fs.contains_path(Seq::<char>::empty()) {
        let i = choose|i: int|
            0 <= i < fs.paths().len() && fs.paths()[i] == Seq::<char>::empty();
        assert(fs.paths()[i].len() > 0);
    }
}

} // verus!
