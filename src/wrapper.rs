use vstd::prelude::*;

verus! {

/// Directory, relative to the home directory, that receives the wrapper script.
pub const WRAPPER_DIR: &'static str = ".local/bin";

/// File name of the wrapper script.
pub const WRAPPER_FILE_NAME: &'static str = "chirper";

/// Permission bits of the installed script: rwxr-xr-x.
pub const WRAPPER_MODE: u32 = 0o755;

/// The wrapper script: runs the command it is given, then reports through a
/// success or failure notification how the command ended, and exits with the
/// command's own status.
pub const WRAPPER_SCRIPT: &'static str = "#!/usr/bin/env bash\n# chirper: run a command, then report how it ended through a push notification.\nif [ \"$#\" -eq 0 ]; then\n    echo \"usage: chirper <command> [args...]\" >&2\n    exit 2\nfi\n\"$@\"\nstatus=$?\nif [ \"$status\" -eq 0 ]; then\n    chirp success --message \"Command succeeded: $*\"\nelse\n    chirp failure --message \"Command failed with status $status: $*\"\nfi\nexit \"$status\"\n";

/// The file that installing the wrapper writes: where it goes, relative to
/// the home directory, what it holds and the permission bits it is given.
#[derive(Clone, Debug)]
pub struct WrapperFile {
    pub dir: String,
    pub file_name: String,
    pub contents: String,
    pub mode: u32,
}

/// The state of a file on disk, as far as installing the wrapper touches it.
pub struct FileState {
    pub contents: Seq<char>,
    pub mode: u32,
}

/// The state of the target file after `w` is installed over `prior` (absent
/// where there was no file): the contents are overwritten whole and the mode
/// is set outright, so nothing of the prior state survives.
pub open spec fn after_install(prior: Option<FileState>, w: WrapperFile) -> FileState {
    FileState { contents: w.contents@, mode: w.mode }
}

/// The wrapper file that `wrapper_file` describes.
pub open spec fn is_wrapper_file(w: WrapperFile) -> bool {
    &&& w.dir@ == WRAPPER_DIR@
    &&& w.file_name@ == WRAPPER_FILE_NAME@
    &&& w.contents@ == WRAPPER_SCRIPT@
    &&& w.mode == WRAPPER_MODE
}

/// Describes the wrapper file to install: the fixed script, under
/// `.local/bin/chirper`, with mode 0755.
pub fn wrapper_file() -> (r: WrapperFile)
    ensures
        is_wrapper_file(r),
{
    WrapperFile {
        dir: WRAPPER_DIR.to_owned(),
        file_name: WRAPPER_FILE_NAME.to_owned(),
        contents: WRAPPER_SCRIPT.to_owned(),
        mode: WRAPPER_MODE,
    }
}

/// Installing the wrapper twice leaves the same contents and permission bits
/// as installing it once, whatever stood at the path before.
pub proof fn lemma_install_idempotent(prior: Option<FileState>, w: WrapperFile, w2: WrapperFile)
    requires
        is_wrapper_file(w),
        is_wrapper_file(w2),
    ensures
        after_install(Some(after_install(prior, w)), w2) == after_install(prior, w),
{
}

} // verus!
