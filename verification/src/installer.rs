//! Asset Installer.
//!
//! The install operation fetches the asset's bytes from a URL and writes
//! them to a fixed filename inside the installation target, overwriting any
//! prior contents. The fetch and the real file write run at the caller's
//! edge; this module holds the decisions: where the bytes go, what outcome
//! each stage's failure produces, and what a completed install leaves in
//! the filesystem model. The response status code is deliberately not
//! inspected: any body the fetch hands over is treated as installable
//! content, so a reachable server always counts as a completed download.

use vstd::prelude::*;
use crate::paths::{joined, join_component};
use crate::fs_model::FsModel;
use crate::channel::StatusChannel;

verus! {

/// What the caller's fetch produced: the full response body, a transport
/// failure, or a failure while reading the body.
pub enum FetchResult {
    Fetched(Vec<u8>),
    TransportFailed(String),
    ReadFailed(String),
}

/// The stage of an install at which a failure arose.
pub enum InstallStage {
    Download,
    Read,
    Write,
}

/// Outcome of one install operation: a success message, or the failing
/// stage with its message. The stage is an explicit tag, so no caller needs
/// to inspect message text to classify an outcome.
pub enum InstallOutcome {
    Success(String),
    Failure(InstallStage, String),
}

/// The fixed filename the asset is written under.
pub open spec fn dll_file_name() -> Seq<char> {
    "powrprof.dll"@
}

/// The full destination path of the installed asset.
pub open spec fn dll_destination_spec(target: Seq<char>) -> Seq<char> {
    joined(target, dll_file_name())
}

/// The message reported on success.
pub open spec fn success_message() -> Seq<char> {
    "Mod installed successfully! Launch the game to use it."@
}

/// The message reported when the transport-level fetch failed.
pub open spec fn transport_failure_message(detail: Seq<char>) -> Seq<char> {
    "Download failed: "@ + detail
}

/// The message reported when the response body could not be read.
pub open spec fn read_failure_message(detail: Seq<char>) -> Seq<char> {
    "Failed to read response: "@ + detail
}

/// The message reported when the destination file could not be written.
pub open spec fn write_failure_message(detail: Seq<char>) -> Seq<char> {
    "Failed to write DLL: "@ + detail
}

/// The file map after a successful install of `bytes` into `target`.
pub open spec fn install_effect(
    files: Map<Seq<char>, Seq<u8>>,
    target: Seq<char>,
    bytes: Seq<u8>,
) -> Map<Seq<char>, Seq<u8>> {
    files.insert(dll_destination_spec(target), bytes)
}

/// The destination path of the asset inside `target`.
pub fn dll_destination(target: &String) -> (r: String)
    ensures
        r@ == dll_destination_spec(target@),
{
    join_component(target, "powrprof.dll")
}

/// Apply one install operation to the filesystem model.
///
/// A fetched body is written, byte for byte, to the fixed destination
/// inside `target`, overwriting any prior contents and touching nothing
/// else; a failed fetch leaves the model exactly as it was and yields the
/// failing stage with its message.
pub fn install_step(fs: &mut FsModel, target: &String, fetch: FetchResult) -> (r: InstallOutcome)
    requires
        old(fs).wf(),
    ensures
        final(fs).wf(),
        final(fs).dir_set() == old(fs).dir_set(),
        match fetch {
            FetchResult::Fetched(bytes) => {
                &&& final(fs).files_map() == install_effect(old(fs).files_map(), target@, bytes@)
                &&& r matches InstallOutcome::Success(m) && m@ == success_message()
            },
            FetchResult::TransportFailed(detail) => {
                &&& *final(fs) == *old(fs)
                &&& r matches InstallOutcome::Failure(stage, m) && stage == InstallStage::Download
                    && m@ == transport_failure_message(detail@)
            },
            FetchResult::ReadFailed(detail) => {
                &&& *final(fs) == *old(fs)
                &&& r matches InstallOutcome::Failure(stage, m) && stage == InstallStage::Read
                    && m@ == read_failure_message(detail@)
            },
        },
{
    match fetch {
        FetchResult::Fetched(bytes) => {
            let destination = dll_destination(target);
            fs.write_file(&destination, &bytes);
            success_outcome()
        },
        FetchResult::TransportFailed(detail) => transport_failure(&detail),
        FetchResult::ReadFailed(detail) => read_failure(&detail),
    }
}

/// The outcome reported when an install completed.
pub fn success_outcome() -> (r: InstallOutcome)
    ensures
        r matches InstallOutcome::Success(m) && m@ == success_message(),
{
    InstallOutcome::Success(
        String::from_str("Mod installed successfully! Launch the game to use it."),
    )
}

/// The outcome reported when the transport-level fetch failed.
pub fn transport_failure(detail: &String) -> (r: InstallOutcome)
    ensures
        r matches InstallOutcome::Failure(stage, m) && stage == InstallStage::Download && m@
            == transport_failure_message(detail@),
{
    InstallOutcome::Failure(
        InstallStage::Download,
        String::from_str("Download failed: ").concat(detail.as_str()),
    )
}

/// The outcome reported when the response body could not be read.
pub fn read_failure(detail: &String) -> (r: InstallOutcome)
    ensures
        r matches InstallOutcome::Failure(stage, m) && stage == InstallStage::Read && m@
            == read_failure_message(detail@),
{
    InstallOutcome::Failure(
        InstallStage::Read,
        String::from_str("Failed to read response: ").concat(detail.as_str()),
    )
}

/// The outcome reported when the destination file could not be written.
/// The real write happens at the caller's edge; this pins the stage tag
/// and message that such a failure must carry.
pub fn write_failure(detail: &String) -> (r: InstallOutcome)
    ensures
        r matches InstallOutcome::Failure(stage, m) && stage == InstallStage::Write && m@
            == write_failure_message(detail@),
{
    InstallOutcome::Failure(
        InstallStage::Write,
        String::from_str("Failed to write DLL: ").concat(detail.as_str()),
    )
}

/// Run one whole install operation against the model and deliver its
/// outcome through the channel.
///
/// Whatever the fetch produced, exactly one message is sent: a success
/// after the body was written, or a failure tagged with the failing stage,
/// and a failed fetch writes nothing.
pub fn run_install_task(
    fs: &mut FsModel,
    channel: &mut StatusChannel,
    target: &String,
    fetch: FetchResult,
)
    requires
        old(fs).wf(),
        !old(channel).sent(),
    ensures
        final(fs).wf(),
        final(channel).sent(),
        final(fs).dir_set() == old(fs).dir_set(),
        match fetch {
            FetchResult::Fetched(bytes) => {
                &&& final(fs).files_map() == install_effect(old(fs).files_map(), target@, bytes@)
                &&& final(channel).pending() matches Some(o) && o matches InstallOutcome::Success(
                    m,
                ) && m@ == success_message()
            },
            FetchResult::TransportFailed(detail) => {
                &&& *final(fs) == *old(fs)
                &&& final(channel).pending() matches Some(o) && o matches InstallOutcome::Failure(
                    stage,
                    m,
                ) && stage == InstallStage::Download && m@ == transport_failure_message(detail@)
            },
            FetchResult::ReadFailed(detail) => {
                &&& *final(fs) == *old(fs)
                &&& final(channel).pending() matches Some(o) && o matches InstallOutcome::Failure(
                    stage,
                    m,
                ) && stage == InstallStage::Read && m@ == read_failure_message(detail@)
            },
        },
{
    let outcome = install_step(fs, target, fetch);
    channel.send(outcome);
}

/// Law: after a successful install, the file at the fixed destination
/// exists and holds exactly the fetched bytes, any prior contents are
/// overwritten, and no other file is touched.
pub proof fn lemma_install_readback(
    files: Map<Seq<char>, Seq<u8>>,
    target: Seq<char>,
    bytes: Seq<u8>,
)
    ensures
        install_effect(files, target, bytes).dom().contains(dll_destination_spec(target)),
        install_effect(files, target, bytes)[dll_destination_spec(target)] == bytes,
        forall|p: Seq<char>|
            p != dll_destination_spec(target) ==> install_effect(files, target, bytes).dom()
                .contains(p) == files.dom().contains(p),
        forall|p: Seq<char>|
            p != dll_destination_spec(target) && files.dom().contains(p) ==> install_effect(
                files,
                target,
                bytes,
            )[p] == files[p],
{
}

/// Law: installing twice into the same target leaves exactly the state of
/// one install with the later bytes — one file at the fixed path, no
/// duplicates and no stale leftovers.
pub proof fn lemma_install_idempotent(
    files: Map<Seq<char>, Seq<u8>>,
    target: Seq<char>,
    first: Seq<u8>,
    second: Seq<u8>,
)
    ensures
        install_effect(install_effect(files, target, first), target, second) == install_effect(
            files,
            target,
            second,
        ),
{
    assert(install_effect(install_effect(files, target, first), target, second)
        =~= install_effect(files, target, second));
}

} // verus!
