use vstd::prelude::*;

verus! {

/// The profile format version that this library reads and writes.
pub const CURRENT_PROFILE_VERSION: u32 = 1;

/// The version assumed for a profile that does not state one.
pub fn default_profile_version() -> (r: u32)
    ensures
        r == CURRENT_PROFILE_VERSION,
{
    CURRENT_PROFILE_VERSION
}

/// Whether a profile of this version can be loaded.
pub fn is_supported_version(version: u32) -> (r: bool)
    ensures
        r == (version == CURRENT_PROFILE_VERSION),
{
    version == CURRENT_PROFILE_VERSION
}

/// The steering device to use: the one given on the command line, else the profile's.
pub fn resolved_steering_device(cli_steering_device: Option<u32>, profile_steering_device: Option<u32>) -> (r: Option<u32>)
    ensures
        r == (match cli_steering_device {
            Some(d) => Some(d),
            None => profile_steering_device,
        }),
{
    match cli_steering_device {
        Some(d) => Some(d),
        None => profile_steering_device,
    }
}

/// The poll interval to use: the command line's, else the profile's, else the default.
pub fn resolved_poll_ms(cli_poll_ms: Option<u64>, profile_poll_ms: Option<u64>, default_poll_ms: u64) -> (r: u64)
    ensures
        r == (match cli_poll_ms {
            Some(ms) => ms,
            None => match profile_poll_ms {
                Some(ms) => ms,
                None => default_poll_ms,
            },
        }),
{
    match cli_poll_ms {
        Some(ms) => ms,
        None => match profile_poll_ms {
            Some(ms) => ms,
            None => default_poll_ms,
        },
    }
}

/// A file modification time: its distance from the Unix epoch and on which side of it.
#[derive(Debug, Clone, Copy, PartialEq, Eq, Structural)]
pub struct ModifiedTime {
    pub after_epoch: bool,
    pub seconds: u64,
    pub nanos: u32,
}

/// Watches a profile file and says when it has to be loaded again.
#[derive(Debug, Clone)]
pub struct ProfileWatcher {
    path: String,
    last_modified: Option<ModifiedTime>,
}

impl ProfileWatcher {
    pub closed spec fn path_spec(&self) -> Seq<char> {
        self.path@
    }

    /// The modification time of the last version that was loaded.
    pub closed spec fn last_modified(&self) -> Option<ModifiedTime> {
        self.last_modified
    }

    /// A watcher for a profile whose current version, modified at `modified`, is loaded.
    pub fn new(path: &str, modified: ModifiedTime) -> (r: Self)
        ensures
            r.path_spec() == path@,
            r.last_modified() == Some(modified),
    {
        ProfileWatcher { path: path.to_owned(), last_modified: Some(modified) }
    }

    pub fn path(&self) -> (r: &str)
        ensures
            r@ == self.path_spec(),
    {
        self.path.as_str()
    }

    /// Whether a file modified at `modified` differs from the loaded version.
    pub fn needs_reload(&self, modified: ModifiedTime) -> (r: bool)
        ensures
            r == (self.last_modified() != Some(modified)),
    {
        match self.last_modified {
            Some(last) => !(last == modified),
            None => true,
        }
    }

    /// Records that the version modified at `modified` was loaded.
    pub fn mark_loaded(&mut self, modified: ModifiedTime)
        ensures
            final(self).last_modified() == Some(modified),
            final(self).path_spec() == old(self).path_spec(),
    {
        self.last_modified = Some(modified);
    }
}

/// Once a version is loaded, the watcher asks for no reload until the file changes again.
pub proof fn lemma_loaded_version_is_current(w: ProfileWatcher, modified: ModifiedTime, later: ModifiedTime)
    requires
        w.last_modified() == Some(modified),
    ensures
        (w.last_modified() != Some(later)) <==> later != modified,
{
}

} // verus!
