//! Deciding whether a downloaded release may be installed, and in which order.
//!
//! The digest of a release is checked when its metadata gives one, but what the
//! trust rests on is the signature: metadata and bytes may both have come
//! through a mirror. Once a mirror had a part in it, a valid signature is
//! mandatory. A release fetched directly may be unsigned.

use vstd::prelude::*;

use crate::text::{eq_ignoring_case, same_ignoring_case, same_text};

verus! {

/// Where something was fetched from.
#[derive(Clone, Copy, Debug, PartialEq, Eq, Structural)]
pub enum Source {
    Direct,
    Mirror,
}

/// What the metadata of a release says about its archive.
#[derive(Debug)]
pub struct ReleaseInfo {
    /// The version that the release claims to be.
    pub latest_version: String,
    /// The SHA-256 digest in hexadecimal.
    pub asset_digest_sha256: Option<String>,
    /// Whether the release comes with a signature.
    pub signed: bool,
    /// Where the metadata itself came from.
    pub meta_source: Source,
}

/// An archive that was downloaded.
#[derive(Debug)]
pub struct Download {
    pub source: Source,
    /// The SHA-256 digest in hexadecimal.
    pub digest: String,
}

/// Why an update was not applied.
#[derive(Clone, Copy, Debug, PartialEq, Eq, Structural)]
pub enum UpdateError {
    /// The directory of the program cannot be written to.
    ReadOnlyInstall,
    /// The archive is not the one that the metadata describes.
    DigestMismatch,
    /// There is no release for this platform.
    UnsupportedPlatform,
    /// The signature does not belong to the archive.
    SignatureInvalid,
    /// A mirror had a part in the download, and there is no signature.
    SignatureMissing,
    /// The archive does not hold the program or the Web UI.
    NoMatchingAsset,
    /// Something outside failed.
    Failed,
}

/// How far an update has come.
#[derive(Clone, Copy, Debug, PartialEq, Eq, Structural)]
pub enum UpdateStage {
    Probing,
    Downloading,
    FetchingSignature,
    FindingPlatform,
    NamingAsset,
    Verifying,
    Extracting,
    FindingBinary,
    FindingFrontend,
    CopyingFrontend,
    ReplacingBinary,
    Restarting,
    Ended,
}

/// What happened outside.
#[derive(Debug)]
pub enum UpdateEvent {
    /// Whether the directory of the program can be written to; nothing if it is
    /// not known.
    Probed(Option<bool>),
    Downloaded(Option<Download>),
    SignatureFetched { ok: bool },
    /// The platform that this program runs on, if there are releases for it.
    PlatformFound { triple: Option<String> },
    /// The name that the archive has to be signed under.
    AssetNamed { name: String },
    /// Whether the signature belongs to the archive under that name.
    Verified { ok: bool },
    Extracted { ok: bool },
    BinaryFound { found: bool },
    /// Whether the Web UI lies beside the program with its entry page.
    FrontendFound { found: bool },
    FrontendCopied { ok: bool },
    BinaryReplaced { ok: bool },
    Restarted { ok: bool },
}

/// What to do outside.
#[derive(Debug, PartialEq, Eq)]
pub enum UpdateAction {
    Download,
    FetchSignature,
    FindPlatform,
    /// Work out the name of the archive of a version for a platform.
    NameAsset { version: String, triple: String },
    /// Verify that the signature belongs to the archive under this name.
    VerifySignature { name: String },
    Extract,
    FindBinary,
    FindFrontend,
    CopyFrontend,
    ReplaceBinary,
    Restart,
    /// End this process: the new program is running.
    Exit,
    Fail(UpdateError),
    /// Nothing: the event does not belong here.
    Ignore,
}

/// Whether an archive is the one that the metadata describes, as far as it does.
pub open spec fn digest_matches(info: ReleaseInfo, download: Download) -> bool {
    info.asset_digest_sha256 matches Some(expected) ==> same_ignoring_case(
        download.digest@,
        expected@,
    )
}

/// Whether a mirror had a part in a download: in the metadata or in the archive.
pub open spec fn mirror_involved(info: ReleaseInfo, download: Download) -> bool {
    info.meta_source is Mirror || download.source is Mirror
}

/// What becomes of an archive that was downloaded.
pub open spec fn judged(info: ReleaseInfo, download: Download) -> (UpdateStage, UpdateAction) {
    if !digest_matches(info, download) {
        (UpdateStage::Ended, UpdateAction::Fail(UpdateError::DigestMismatch))
    } else if info.signed {
        (UpdateStage::FetchingSignature, UpdateAction::FetchSignature)
    } else if mirror_involved(info, download) {
        (UpdateStage::Ended, UpdateAction::Fail(UpdateError::SignatureMissing))
    } else {
        (UpdateStage::Extracting, UpdateAction::Extract)
    }
}

/// One step on, or the end with an error.
pub open spec fn step_or(
    ok: bool,
    stage: UpdateStage,
    action: UpdateAction,
    error: UpdateError,
) -> (UpdateStage, UpdateAction) {
    if ok {
        (stage, action)
    } else {
        (UpdateStage::Ended, UpdateAction::Fail(error))
    }
}

/// What an update does about an event.
pub open spec fn updated(info: ReleaseInfo, stage: UpdateStage, ev: UpdateEvent) -> (
    UpdateStage,
    UpdateAction,
) {
    match (stage, ev) {
        (UpdateStage::Probing, UpdateEvent::Probed(None)) => (
            UpdateStage::Ended,
            UpdateAction::Fail(UpdateError::Failed),
        ),
        (UpdateStage::Probing, UpdateEvent::Probed(Some(writable))) => step_or(
            writable,
            UpdateStage::Downloading,
            UpdateAction::Download,
            UpdateError::ReadOnlyInstall,
        ),
        (UpdateStage::Downloading, UpdateEvent::Downloaded(None)) => (
            UpdateStage::Ended,
            UpdateAction::Fail(UpdateError::Failed),
        ),
        (UpdateStage::Downloading, UpdateEvent::Downloaded(Some(download))) => judged(
            info,
            download,
        ),
        (UpdateStage::FetchingSignature, UpdateEvent::SignatureFetched { ok }) => step_or(
            ok,
            UpdateStage::FindingPlatform,
            UpdateAction::FindPlatform,
            UpdateError::Failed,
        ),
        (UpdateStage::FindingPlatform, UpdateEvent::PlatformFound { triple: None }) => (
            UpdateStage::Ended,
            UpdateAction::Fail(UpdateError::UnsupportedPlatform),
        ),
        (UpdateStage::FindingPlatform, UpdateEvent::PlatformFound { triple: Some(triple) }) => (
            UpdateStage::NamingAsset,
            UpdateAction::NameAsset { version: info.latest_version, triple },
        ),
        (UpdateStage::NamingAsset, UpdateEvent::AssetNamed { name }) => (
            UpdateStage::Verifying,
            UpdateAction::VerifySignature { name },
        ),
        (UpdateStage::Verifying, UpdateEvent::Verified { ok }) => step_or(
            ok,
            UpdateStage::Extracting,
            UpdateAction::Extract,
            UpdateError::SignatureInvalid,
        ),
        (UpdateStage::Extracting, UpdateEvent::Extracted { ok }) => step_or(
            ok,
            UpdateStage::FindingBinary,
            UpdateAction::FindBinary,
            UpdateError::Failed,
        ),
        (UpdateStage::FindingBinary, UpdateEvent::BinaryFound { found }) => step_or(
            found,
            UpdateStage::FindingFrontend,
            UpdateAction::FindFrontend,
            UpdateError::NoMatchingAsset,
        ),
        (UpdateStage::FindingFrontend, UpdateEvent::FrontendFound { found }) => step_or(
            found,
            UpdateStage::CopyingFrontend,
            UpdateAction::CopyFrontend,
            UpdateError::NoMatchingAsset,
        ),
        (UpdateStage::CopyingFrontend, UpdateEvent::FrontendCopied { ok }) => step_or(
            ok,
            UpdateStage::ReplacingBinary,
            UpdateAction::ReplaceBinary,
            UpdateError::Failed,
        ),
        (UpdateStage::ReplacingBinary, UpdateEvent::BinaryReplaced { ok }) => step_or(
            ok,
            UpdateStage::Restarting,
            UpdateAction::Restart,
            UpdateError::Failed,
        ),
        (UpdateStage::Restarting, UpdateEvent::Restarted { ok }) => step_or(
            ok,
            UpdateStage::Ended,
            UpdateAction::Exit,
            UpdateError::Failed,
        ),
        _ => (stage, UpdateAction::Ignore),
    }
}

/// An update on its way.
#[derive(Debug)]
pub struct UpdateFlow {
    pub info: ReleaseInfo,
    pub stage: UpdateStage,
}

impl UpdateFlow {
    /// Begins an update; the first thing to do is to see whether the directory
    /// of the program can be written to, before anything is downloaded.
    pub fn new(info: ReleaseInfo) -> (flow: UpdateFlow)
        ensures
            flow.info == info,
            flow.stage is Probing,
    {
        UpdateFlow { info, stage: UpdateStage::Probing }
    }

    /// Moves on to `stage` with `action` if `ok`, and ends with `error` if not.
    fn go(&mut self, ok: bool, stage: UpdateStage, action: UpdateAction, error: UpdateError) -> (act:
        UpdateAction)
        ensures
            final(self).info == old(self).info,
            (final(self).stage, act) == step_or(ok, stage, action, error),
    {
        if ok {
            self.stage = stage;
            action
        } else {
            self.stage = UpdateStage::Ended;
            UpdateAction::Fail(error)
        }
    }

    /// Judges an archive that was downloaded.
    fn judge(&mut self, download: Download) -> (act: UpdateAction)
        ensures
            final(self).info == old(self).info,
            (final(self).stage, act) == judged(old(self).info, download),
    {
        let digest_ok = match &self.info.asset_digest_sha256 {
            Some(expected) => eq_ignoring_case(download.digest.as_str(), expected.as_str()),
            None => true,
        };
        if !digest_ok {
            self.stage = UpdateStage::Ended;
            return UpdateAction::Fail(UpdateError::DigestMismatch);
        }
        let mirror = matches!(self.info.meta_source, Source::Mirror) || matches!(
            download.source,
            Source::Mirror,
        );
        if self.info.signed {
            self.stage = UpdateStage::FetchingSignature;
            UpdateAction::FetchSignature
        } else if mirror {
            self.stage = UpdateStage::Ended;
            UpdateAction::Fail(UpdateError::SignatureMissing)
        } else {
            self.stage = UpdateStage::Extracting;
            UpdateAction::Extract
        }
    }

    /// Takes in what happened outside and says what to do next.
    pub fn download_and_apply(&mut self, ev: UpdateEvent) -> (act: UpdateAction)
        ensures
            final(self).info == old(self).info,
            (final(self).stage, act) == updated(old(self).info, old(self).stage, ev),
    {
        match (self.stage, ev) {
            (UpdateStage::Probing, UpdateEvent::Probed(None)) => {
                self.stage = UpdateStage::Ended;
                UpdateAction::Fail(UpdateError::Failed)
            },
            (UpdateStage::Probing, UpdateEvent::Probed(Some(writable))) => self.go(
                writable,
                UpdateStage::Downloading,
                UpdateAction::Download,
                UpdateError::ReadOnlyInstall,
            ),
            (UpdateStage::Downloading, UpdateEvent::Downloaded(None)) => {
                self.stage = UpdateStage::Ended;
                UpdateAction::Fail(UpdateError::Failed)
            },
            (UpdateStage::Downloading, UpdateEvent::Downloaded(Some(download))) => self.judge(
                download,
            ),
            (UpdateStage::FetchingSignature, UpdateEvent::SignatureFetched { ok }) => self.go(
                ok,
                UpdateStage::FindingPlatform,
                UpdateAction::FindPlatform,
                UpdateError::Failed,
            ),
            (UpdateStage::FindingPlatform, UpdateEvent::PlatformFound { triple: None }) => {
                self.stage = UpdateStage::Ended;
                UpdateAction::Fail(UpdateError::UnsupportedPlatform)
            },
            (UpdateStage::FindingPlatform, UpdateEvent::PlatformFound { triple: Some(triple) }) => {
                self.stage = UpdateStage::NamingAsset;
                UpdateAction::NameAsset { version: self.info.latest_version.clone(), triple }
            },
            (UpdateStage::NamingAsset, UpdateEvent::AssetNamed { name }) => {
                self.stage = UpdateStage::Verifying;
                UpdateAction::VerifySignature { name }
            },
            (UpdateStage::Verifying, UpdateEvent::Verified { ok }) => self.go(
                ok,
                UpdateStage::Extracting,
                UpdateAction::Extract,
                UpdateError::SignatureInvalid,
            ),
            (UpdateStage::Extracting, UpdateEvent::Extracted { ok }) => self.go(
                ok,
                UpdateStage::FindingBinary,
                UpdateAction::FindBinary,
                UpdateError::Failed,
            ),
            (UpdateStage::FindingBinary, UpdateEvent::BinaryFound { found }) => self.go(
                found,
                UpdateStage::FindingFrontend,
                UpdateAction::FindFrontend,
                UpdateError::NoMatchingAsset,
            ),
            (UpdateStage::FindingFrontend, UpdateEvent::FrontendFound { found }) => self.go(
                found,
                UpdateStage::CopyingFrontend,
                UpdateAction::CopyFrontend,
                UpdateError::NoMatchingAsset,
            ),
            (UpdateStage::CopyingFrontend, UpdateEvent::FrontendCopied { ok }) => self.go(
                ok,
                UpdateStage::ReplacingBinary,
                UpdateAction::ReplaceBinary,
                UpdateError::Failed,
            ),
            (UpdateStage::ReplacingBinary, UpdateEvent::BinaryReplaced { ok }) => self.go(
                ok,
                UpdateStage::Restarting,
                UpdateAction::Restart,
                UpdateError::Failed,
            ),
            (UpdateStage::Restarting, UpdateEvent::Restarted { ok }) => self.go(
                ok,
                UpdateStage::Ended,
                UpdateAction::Exit,
                UpdateError::Failed,
            ),
            _ => UpdateAction::Ignore,
        }
    }
}

/// How far an update has come after a list of events.
pub open spec fn updated_all(info: ReleaseInfo, evs: Seq<UpdateEvent>) -> UpdateStage
    decreases evs.len(),
{
    if evs.len() == 0 {
        UpdateStage::Probing
    } else {
        updated(info, updated_all(info, evs.drop_last()), evs.last()).0
    }
}

/// The last thing to do after a list of events.
pub open spec fn last_action(info: ReleaseInfo, evs: Seq<UpdateEvent>) -> UpdateAction
    recommends
        evs.len() > 0,
{
    updated(info, updated_all(info, evs.drop_last()), evs.last()).1
}

/// Whether an action unpacks, installs or starts what was downloaded.
pub open spec fn uses_the_archive(action: UpdateAction) -> bool {
    match action {
        UpdateAction::Extract
        | UpdateAction::FindBinary
        | UpdateAction::FindFrontend
        | UpdateAction::CopyFrontend
        | UpdateAction::ReplaceBinary
        | UpdateAction::Restart
        | UpdateAction::Exit => true,
        _ => false,
    }
}

/// Whether an archive may be used once its signature is valid, or at once if it
/// needs none.
pub open spec fn acceptable(info: ReleaseInfo, download: Download) -> bool {
    &&& digest_matches(info, download)
    &&& mirror_involved(info, download) ==> info.signed
}

/// Whether event `i` is the download of an acceptable archive, taken in while one
/// was waited for.
pub open spec fn downloads_at(info: ReleaseInfo, evs: Seq<UpdateEvent>, i: int) -> bool {
    &&& updated_all(info, evs.take(i)) is Downloading
    &&& evs[i] matches UpdateEvent::Downloaded(Some(d))
    &&& acceptable(info, d)
}

/// Whether event `i` finds the signature valid, taken in while that was waited for.
pub open spec fn vouches_at(info: ReleaseInfo, evs: Seq<UpdateEvent>, i: int) -> bool {
    &&& updated_all(info, evs.take(i)) is Verifying
    &&& evs[i] == (UpdateEvent::Verified { ok: true })
}

/// Whether an acceptable archive was downloaded.
pub open spec fn fetched(info: ReleaseInfo, evs: Seq<UpdateEvent>) -> bool {
    exists|i: int| 0 <= i < evs.len() && #[trigger] downloads_at(info, evs, i)
}

/// Whether an acceptable archive was downloaded and its signature then found valid.
pub open spec fn vouched(info: ReleaseInfo, evs: Seq<UpdateEvent>) -> bool {
    exists|i: int, j: int|
        0 <= i < j < evs.len() && #[trigger] downloads_at(info, evs, i) && #[trigger] vouches_at(
            info,
            evs,
            j,
        )
}

/// Nothing of an archive is unpacked, installed or started unless the archive
/// matches its digest, a signature vouches for it where the release is signed,
/// and the release is signed where a mirror had a part in the download.
pub proof fn only_trusted_archives_are_used(info: ReleaseInfo, evs: Seq<UpdateEvent>)
    requires
        evs.len() > 0,
        uses_the_archive(last_action(info, evs)),
    ensures
        fetched(info, evs),
        info.signed ==> vouched(info, evs),
{
    trust_is_earned(info, evs.drop_last());
    trust_is_kept(info, evs);
}

/// What one more event does to what is known of an archive: nothing is lost, and
/// a download or a signature that is waited for is added.
proof fn trust_is_kept(info: ReleaseInfo, evs: Seq<UpdateEvent>)
    requires
        evs.len() > 0,
    ensures
        fetched(info, evs.drop_last()) ==> fetched(info, evs),
        vouched(info, evs.drop_last()) ==> vouched(info, evs),
        downloads_at(info, evs, evs.len() - 1) ==> fetched(info, evs),
        fetched(info, evs.drop_last()) && vouches_at(info, evs, evs.len() - 1) ==> vouched(
            info,
            evs,
        ),
        evs.take(evs.len() - 1) == evs.drop_last(),
{
    let before = evs.drop_last();
    assert forall|i: int| 0 <= i < before.len() implies (#[trigger] downloads_at(info, evs, i)
        <==> downloads_at(info, before, i)) && (vouches_at(info, evs, i) <==> vouches_at(
        info,
        before,
        i,
    )) by {
        assert(evs.take(i) =~= before.take(i));
    }
    if fetched(info, before) {
        let i = choose|i: int| 0 <= i < before.len() && #[trigger] downloads_at(info, before, i);
        assert(downloads_at(info, evs, i));
    }
    if vouched(info, before) {
        let (i, j) = choose|i: int, j: int|
            0 <= i < j < before.len() && #[trigger] downloads_at(info, before, i)
                && #[trigger] vouches_at(info, before, j);
        assert(downloads_at(info, evs, i));
        assert(downloads_at(info, evs, j) <==> downloads_at(info, before, j));
        assert(vouches_at(info, evs, j));
    }
    assert(evs.take(evs.len() - 1) =~= before);
}

/// What is known of an archive at each stage.
proof fn trust_is_earned(info: ReleaseInfo, evs: Seq<UpdateEvent>)
    ensures
        ({
            let stage = updated_all(info, evs);
            let early = stage is Probing || stage is Downloading || stage is Ended;
            let unverified = stage is FetchingSignature || stage is FindingPlatform
                || stage is NamingAsset || stage is Verifying;
            &&& !early ==> fetched(info, evs)
            &&& unverified ==> info.signed
            &&& !early && !unverified && info.signed ==> vouched(info, evs)
        }),
    decreases evs.len(),
{
    if evs.len() > 0 {
        trust_is_earned(info, evs.drop_last());
        trust_is_kept(info, evs);
        assert(evs[evs.len() - 1] == evs.last());
    }
}

/// Whether the name for the claimed version on a platform of ours was asked for
/// in the course of the events.
pub open spec fn named_by_us(info: ReleaseInfo, evs: Seq<UpdateEvent>) -> bool {
    exists|i: int| 0 <= i < evs.len() && #[trigger] asks_for_our_name(info, evs, i)
}

/// Whether event `i` tells our platform and is answered by asking for the name of
/// the claimed version on it.
pub open spec fn asks_for_our_name(info: ReleaseInfo, evs: Seq<UpdateEvent>, i: int) -> bool {
    &&& evs[i] matches UpdateEvent::PlatformFound { triple: Some(triple) }
    &&& last_action(info, evs.take(i + 1)) == (UpdateAction::NameAsset {
        version: info.latest_version,
        triple,
    })
}

/// A signature is verified under one name only: the one that was worked out from
/// the version the release claims to be and the platform this program runs on.
/// So a valid signature of another version does not pass for this one.
pub proof fn signatures_are_for_the_claimed_version(
    info: ReleaseInfo,
    evs: Seq<UpdateEvent>,
    name: String,
)
    requires
        evs.len() > 0,
        last_action(info, evs) == (UpdateAction::VerifySignature { name }),
    ensures
        evs.last() == (UpdateEvent::AssetNamed { name }),
        named_by_us(info, evs.drop_last()),
{
    names_are_asked_for(info, evs.drop_last());
}

proof fn names_are_asked_for(info: ReleaseInfo, evs: Seq<UpdateEvent>)
    ensures
        updated_all(info, evs) is NamingAsset ==> named_by_us(info, evs),
    decreases evs.len(),
{
    if evs.len() > 0 && updated_all(info, evs) is NamingAsset {
        let before = evs.drop_last();
        let last = evs.len() - 1;
        assert(evs.take(last + 1) =~= evs);
        assert(evs[last] == evs.last());
        if updated_all(info, before) is NamingAsset {
            names_are_asked_for(info, before);
            let i = choose|i: int|
                0 <= i < before.len() && #[trigger] asks_for_our_name(info, before, i);
            assert(evs[i] == before[i]);
            assert(evs.take(i + 1) =~= before.take(i + 1));
            assert(asks_for_our_name(info, evs, i));
        } else {
            assert(asks_for_our_name(info, evs, last));
        }
    }
}

/// Nothing is downloaded for a directory that cannot be written to.
pub proof fn nothing_is_downloaded_in_vain(info: ReleaseInfo, stage: UpdateStage, ev: UpdateEvent)
    ensures
        updated(info, stage, ev).1 is Download <==> (stage is Probing && ev == UpdateEvent::Probed(
            Some(true),
        )),
{
}

/// The program is replaced only once the Web UI is in place, and restarted only
/// once it is replaced.
pub proof fn the_program_is_replaced_last(info: ReleaseInfo, stage: UpdateStage, ev: UpdateEvent)
    ensures
        updated(info, stage, ev).1 is ReplaceBinary <==> (stage is CopyingFrontend && ev
            == (UpdateEvent::FrontendCopied { ok: true })),
        updated(info, stage, ev).1 is Restart <==> (stage is ReplacingBinary && ev
            == (UpdateEvent::BinaryReplaced { ok: true })),
{
}

/// What an entry of the unpacked archive turned out to be.
#[derive(Clone, Copy, Debug, PartialEq, Eq, Structural)]
pub enum EntryProbe {
    /// The entry could not be read.
    Unreadable,
    /// It could not be told whether the entry is a directory.
    UnknownType,
    /// The entry is no directory.
    NotADirectory,
    /// The entry is a directory, with or without the program in it.
    Directory { holds_binary: bool },
}

/// Where the program lies in the unpacked archive.
#[derive(Clone, Copy, Debug, PartialEq, Eq, Structural)]
pub enum BinaryPlace {
    /// At the top.
    Top,
    /// In the directory that is the entry of this number.
    Inside(usize),
}

/// Whether the search for the program ends at an entry.
pub open spec fn search_ends_at(entry: EntryProbe) -> bool {
    entry is UnknownType || entry == (EntryProbe::Directory { holds_binary: true })
}

/// Where the program is found among the entries from number `from` on.
pub open spec fn place_among(entries: Seq<EntryProbe>, from: int) -> Option<BinaryPlace>
    decreases entries.len() - from,
{
    if from < 0 || from >= entries.len() {
        None
    } else if entries[from] is UnknownType {
        None
    } else if search_ends_at(entries[from]) {
        Some(BinaryPlace::Inside(from as usize))
    } else {
        place_among(entries, from + 1)
    }
}

/// Where the program is found: at the top, else in the first directory that
/// holds it. The search goes one level down and gives up at an entry whose type
/// cannot be told, as it does where the entries cannot be listed.
pub open spec fn binary_place(top: bool, entries: Option<Seq<EntryProbe>>) -> Option<BinaryPlace> {
    if top {
        Some(BinaryPlace::Top)
    } else if let Some(e) = entries {
        place_among(e, 0)
    } else {
        None
    }
}

/// Where the program is found in the unpacked archive.
pub fn find_binary(top: bool, entries: Option<&[EntryProbe]>) -> (place: Option<BinaryPlace>)
    ensures
        place == binary_place(
            top,
            match entries {
                Some(e) => Some(e@),
                None => None,
            },
        ),
{
    if top {
        return Some(BinaryPlace::Top);
    }
    let list = match entries {
        Some(e) => e,
        None => {
            return None;
        },
    };
    let mut i: usize = 0;
    while i < list.len()
        invariant
            !top,
            entries == Some(list),
            i <= list.len(),
            place_among(list@, 0) == place_among(list@, i as int),
        decreases list.len() - i,
    {
        match list[i] {
            EntryProbe::UnknownType => {
                return None;
            },
            EntryProbe::Directory { holds_binary: true } => {
                return Some(BinaryPlace::Inside(i));
            },
            _ => {},
        }
        i += 1;
    }
    None
}

/// A program at the top is preferred to any other.
pub proof fn the_top_is_preferred(entries: Option<Seq<EntryProbe>>)
    ensures
        binary_place(true, entries) == Some(BinaryPlace::Top),
{
}

/// A program that is found in a directory is really there, no earlier directory
/// has one, and one that is not found is in none before the search gave up.
pub proof fn the_first_directory_wins(entries: Seq<EntryProbe>, from: int)
    requires
        0 <= from <= entries.len() <= usize::MAX,
    ensures
        match place_among(entries, from) {
            Some(BinaryPlace::Top) => false,
            Some(BinaryPlace::Inside(i)) => {
                &&& from <= i < entries.len()
                &&& entries[i as int] == (EntryProbe::Directory { holds_binary: true })
                &&& forall|j: int| from <= j < i ==> !search_ends_at(#[trigger] entries[j])
            },
            None => {
                ||| forall|j: int| from <= j < entries.len() ==> !search_ends_at(
                    #[trigger] entries[j],
                )
                ||| exists|k: int|
                    from <= k < entries.len() && (#[trigger] entries[k]) is UnknownType && forall|
                        j: int,
                    |
                        from <= j < k ==> !search_ends_at(#[trigger] entries[j])
            },
        },
    decreases entries.len() - from,
{
    if from < entries.len() && !search_ends_at(entries[from]) {
        the_first_directory_wins(entries, from + 1);
    }
}

/// The entry page of the Web UI.
pub open spec fn index_page() -> Seq<char> {
    "index.html"@
}

/// What to do with an entry of the new Web UI.
#[derive(Clone, Copy, Debug, PartialEq, Eq, Structural)]
pub enum CopyAction {
    /// Copy the directory with all that is in it.
    CopyTree,
    CopyFile,
    /// Leave the entry page until everything else is there.
    Leave,
    /// Copy the entry page. Nothing comes after it.
    CopyIndex,
    /// Nothing: the copy is complete.
    Ignore,
}

/// What happens next in the new Web UI.
#[derive(Debug)]
pub enum CopyEvent {
    /// Its directory has this entry.
    Entry { name: String, is_dir: bool },
    /// Its directory has no more entries.
    End,
}

/// Replacing the Web UI: whether the entry page was reached.
#[derive(Clone, Copy, Debug, PartialEq, Eq, Structural)]
pub struct FrontendCopy {
    pub complete: bool,
}

/// What to do about the next entry.
pub open spec fn copied(state: FrontendCopy, ev: CopyEvent) -> (FrontendCopy, CopyAction) {
    if state.complete {
        (state, CopyAction::Ignore)
    } else {
        match ev {
            CopyEvent::Entry { name, is_dir } => (
                state,
                if is_dir {
                    CopyAction::CopyTree
                } else if name@ == index_page() {
                    CopyAction::Leave
                } else {
                    CopyAction::CopyFile
                },
            ),
            CopyEvent::End => (FrontendCopy { complete: true }, CopyAction::CopyIndex),
        }
    }
}

impl FrontendCopy {
    /// Begins to replace the Web UI.
    pub fn new() -> (c: FrontendCopy)
        ensures
            !c.complete,
    {
        FrontendCopy { complete: false }
    }

    /// What to do about the next entry. The entry page comes last, so that no
    /// browser sees one that refers to files which are not there yet.
    pub fn copy_frontend(&mut self, ev: CopyEvent) -> (act: CopyAction)
        ensures
            (*final(self), act) == copied(*old(self), ev),
    {
        if self.complete {
            return CopyAction::Ignore;
        }
        match ev {
            CopyEvent::Entry { name, is_dir } => {
                if is_dir {
                    CopyAction::CopyTree
                } else if same_text(name.as_str(), "index.html") {
                    CopyAction::Leave
                } else {
                    CopyAction::CopyFile
                }
            },
            CopyEvent::End => {
                self.complete = true;
                CopyAction::CopyIndex
            },
        }
    }
}

/// What to do about an entry of a directory within the Web UI.
pub fn copy_tree(is_dir: bool) -> (act: CopyAction)
    ensures
        act == tree_action(is_dir),
        act == if is_dir {
            CopyAction::CopyTree
        } else {
            CopyAction::CopyFile
        },
{
    if is_dir {
        CopyAction::CopyTree
    } else {
        CopyAction::CopyFile
    }
}

/// The entry page is copied once, when everything else has been, and nothing is
/// copied after it.
pub proof fn the_entry_page_comes_last(state: FrontendCopy, ev: CopyEvent, later: CopyEvent)
    requires
        copied(state, ev).1 is CopyIndex,
    ensures
        ev is End,
        copied(copied(state, ev).0, later) == (copied(state, ev).0, CopyAction::Ignore),
{
}

/// The copy after a list of events.
pub open spec fn copied_all(evs: Seq<CopyEvent>) -> FrontendCopy
    decreases evs.len(),
{
    if evs.len() == 0 {
        FrontendCopy { complete: false }
    } else {
        copied(copied_all(evs.drop_last()), evs.last()).0
    }
}

/// What is done about event `i` of a list.
pub open spec fn copy_action_at(evs: Seq<CopyEvent>, i: int) -> CopyAction {
    copied(copied_all(evs.take(i)), evs[i]).1
}

/// In a whole run, the entry page is copied when the entries have ended for the
/// first time, and nothing is copied after it.
pub proof fn the_entry_page_ends_the_copy(evs: Seq<CopyEvent>, i: int, j: int)
    requires
        0 <= i < j < evs.len(),
        copy_action_at(evs, i) is CopyIndex,
    ensures
        copy_action_at(evs, j) is Ignore,
{
    complete_copies_stay_complete(evs, i + 1, j);
    assert(evs.take(i + 1).drop_last() =~= evs.take(i));
    assert(evs.take(i + 1).last() == evs[i]);
}

proof fn complete_copies_stay_complete(evs: Seq<CopyEvent>, from: int, to: int)
    requires
        0 <= from <= to <= evs.len(),
    ensures
        copied_all(evs.take(from)).complete ==> copied_all(evs.take(to)).complete,
    decreases to - from,
{
    if from < to {
        complete_copies_stay_complete(evs, from, to - 1);
        assert(evs.take(to).drop_last() =~= evs.take(to - 1));
    }
}

/// The entry page itself is never copied as one of the files.
pub proof fn the_entry_page_waits(state: FrontendCopy, name: String)
    requires
        name@ == index_page(),
        !state.complete,
    ensures
        copied(state, CopyEvent::Entry { name, is_dir: false }) == (state, CopyAction::Leave),
{
}

/// Each step of an update is taken exactly when the one before it has gone well.
/// The signature is fetched where the release is signed, once the archive matches
/// its digest; where it is not signed, and nothing came from a mirror, the archive
/// is unpacked at once.
pub proof fn each_step_follows_from_the_last(info: ReleaseInfo, stage: UpdateStage, ev: UpdateEvent)
    ensures
        ({
            let action = updated(info, stage, ev).1;
            let arrived = stage is Downloading && (ev matches UpdateEvent::Downloaded(Some(d)) && (
            info.asset_digest_sha256 matches Some(x) ==> same_ignoring_case(d.digest@, x@)));
            let direct = info.meta_source is Direct && ev->Downloaded_0->0.source is Direct;
            &&& action is FetchSignature <==> arrived && info.signed
            &&& action is Extract <==> (arrived && !info.signed && direct) || (stage is Verifying
                && ev == (UpdateEvent::Verified { ok: true }))
            &&& action is FindPlatform <==> stage is FetchingSignature && ev == (
            UpdateEvent::SignatureFetched { ok: true })
            &&& action is NameAsset <==> stage is FindingPlatform && (ev
                matches UpdateEvent::PlatformFound { triple } && triple is Some)
            &&& action is VerifySignature <==> stage is NamingAsset && ev is AssetNamed
            &&& action is FindBinary <==> stage is Extracting && ev == (UpdateEvent::Extracted {
                ok: true,
            })
            &&& action is FindFrontend <==> stage is FindingBinary && ev == (
            UpdateEvent::BinaryFound { found: true })
            &&& action is CopyFrontend <==> stage is FindingFrontend && ev == (
            UpdateEvent::FrontendFound { found: true })
            &&& action is Exit <==> stage is Restarting && ev == (UpdateEvent::Restarted {
                ok: true,
            })
        }),
{
}

/// An update fails with the error that belongs to what went wrong, and with none
/// where nothing did.
pub proof fn each_failure_has_its_error(info: ReleaseInfo, stage: UpdateStage, ev: UpdateEvent)
    ensures
        ({
            let action = updated(info, stage, ev).1;
            let down = stage is Downloading && (ev matches UpdateEvent::Downloaded(d) && d is Some);
            let d = ev->Downloaded_0->0;
            let same = info.asset_digest_sha256 matches Some(x) ==> same_ignoring_case(
                d.digest@,
                x@,
            );
            let mirror = info.meta_source is Mirror || d.source is Mirror;
            &&& action == UpdateAction::Fail(UpdateError::ReadOnlyInstall) <==> stage is Probing
                && ev == UpdateEvent::Probed(Some(false))
            &&& action == UpdateAction::Fail(UpdateError::DigestMismatch) <==> down && !same
            &&& action == UpdateAction::Fail(UpdateError::SignatureMissing) <==> down && same
                && !info.signed && mirror
            &&& action == UpdateAction::Fail(UpdateError::UnsupportedPlatform) <==> stage
                is FindingPlatform && ev == (UpdateEvent::PlatformFound { triple: None })
            &&& action == UpdateAction::Fail(UpdateError::SignatureInvalid) <==> stage is Verifying
                && ev == (UpdateEvent::Verified { ok: false })
            &&& action == UpdateAction::Fail(UpdateError::NoMatchingAsset) <==> (stage
                is FindingBinary && ev == (UpdateEvent::BinaryFound { found: false })) || (stage
                is FindingFrontend && ev == (UpdateEvent::FrontendFound { found: false }))
            &&& action == UpdateAction::Fail(UpdateError::Failed) <==> {
                ||| stage is Probing && ev == UpdateEvent::Probed(None)
                ||| stage is Downloading && ev == UpdateEvent::Downloaded(None)
                ||| stage is FetchingSignature && ev == (UpdateEvent::SignatureFetched {
                    ok: false,
                })
                ||| stage is Extracting && ev == (UpdateEvent::Extracted { ok: false })
                ||| stage is CopyingFrontend && ev == (UpdateEvent::FrontendCopied { ok: false })
                ||| stage is ReplacingBinary && ev == (UpdateEvent::BinaryReplaced { ok: false })
                ||| stage is Restarting && ev == (UpdateEvent::Restarted { ok: false })
            }
        }),
{
}

/// The stage of an update is always that of the last thing it was told to do, and
/// it is over once it is told to exit or that it has failed.
pub proof fn the_stage_follows_the_action(info: ReleaseInfo, stage: UpdateStage, ev: UpdateEvent)
    ensures
        ({
            let (after, action) = updated(info, stage, ev);
            match action {
                UpdateAction::Download => after is Downloading,
                UpdateAction::FetchSignature => after is FetchingSignature,
                UpdateAction::FindPlatform => after is FindingPlatform,
                UpdateAction::NameAsset { version, triple } => after is NamingAsset && version
                    == info.latest_version && ev == (UpdateEvent::PlatformFound {
                    triple: Some(triple),
                }),
                UpdateAction::VerifySignature { name } => after is Verifying && ev == (
                UpdateEvent::AssetNamed { name }),
                UpdateAction::Extract => after is Extracting,
                UpdateAction::FindBinary => after is FindingBinary,
                UpdateAction::FindFrontend => after is FindingFrontend,
                UpdateAction::CopyFrontend => after is CopyingFrontend,
                UpdateAction::ReplaceBinary => after is ReplacingBinary,
                UpdateAction::Restart => after is Restarting,
                UpdateAction::Exit => after is Ended,
                UpdateAction::Fail(_) => after is Ended,
                UpdateAction::Ignore => after == stage,
            }
        }),
        stage is Ended ==> updated(info, stage, ev) == (stage, UpdateAction::Ignore),
{
}

/// The program is found at the top wherever it is there. Otherwise it is found in
/// the first directory that holds it, unless an entry of unknown type comes first
/// or the entries cannot be listed; then it is not found, as where none holds it.
pub proof fn the_program_is_found_where_it_is(entries: Seq<EntryProbe>, k: int)
    requires
        entries.len() <= usize::MAX,
        0 <= k <= entries.len(),
        forall|j: int|
            0 <= j < k ==> !(#[trigger] entries[j] is UnknownType) && entries[j] != (
            EntryProbe::Directory { holds_binary: true }),
    ensures
        binary_place(true, Some(entries)) == Some(BinaryPlace::Top),
        binary_place(true, None) == Some(BinaryPlace::Top),
        binary_place(false, None) is None,
        k == entries.len() ==> binary_place(false, Some(entries)) is None,
        k < entries.len() && entries[k] is UnknownType ==> binary_place(
            false,
            Some(entries),
        ) is None,
        k < entries.len() && entries[k] == (EntryProbe::Directory { holds_binary: true })
            ==> binary_place(false, Some(entries)) == Some(BinaryPlace::Inside(k as usize)),
{
    entries_without_it_are_passed_over(entries, 0, k);
}

proof fn entries_without_it_are_passed_over(entries: Seq<EntryProbe>, from: int, to: int)
    requires
        0 <= from <= to <= entries.len(),
        forall|j: int|
            from <= j < to ==> !(#[trigger] entries[j] is UnknownType) && entries[j] != (
            EntryProbe::Directory { holds_binary: true }),
    ensures
        place_among(entries, from) == place_among(entries, to),
    decreases to - from,
{
    if from < to {
        entries_without_it_are_passed_over(entries, from + 1, to);
    }
}

/// What to do about an entry of a directory within the Web UI.
pub open spec fn tree_action(is_dir: bool) -> CopyAction {
    if is_dir {
        CopyAction::CopyTree
    } else {
        CopyAction::CopyFile
    }
}

/// A directory is copied with all that is in it and a file as it is, at the top as
/// below. Only the file `index.html` at the top is left until the entries end, and
/// it is copied then.
pub proof fn everything_but_the_entry_page_is_copied(state: FrontendCopy, ev: CopyEvent)
    requires
        !state.complete,
    ensures
        ({
            let (after, action) = copied(state, ev);
            match ev {
                CopyEvent::Entry { name, is_dir } => {
                    &&& !after.complete
                    &&& action is CopyTree <==> is_dir
                    &&& action is Leave <==> !is_dir && name@ == "index.html"@
                    &&& action is CopyFile <==> !is_dir && name@ != "index.html"@
                },
                CopyEvent::End => after.complete && action is CopyIndex,
            }
        }),
        tree_action(true) is CopyTree,
        tree_action(false) is CopyFile,
{
}

} // verus!
