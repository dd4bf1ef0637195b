//! The fetch engine: one install modelled as a state machine.
//!
//! The engine owns every decision of a fetch — status and
//! content-length checks, progress accounting, cancellation, the
//! transition from download to extraction to finalization — while
//! the surrounding application performs the network and filesystem
//! work and reports what it observed as events.  Each run walks
//! `AwaitingResponse → Downloading → DownloadDone → extracting →
//! Finalizing → Done`, or ends early in `Failed`.

use vstd::prelude::*;

use crate::client::{create_client, ClientPlan, Proxy, ProxyPlan, spec_default_timeout_ms,
    spec_proxy_url};
use crate::errors::FetchError;
use crate::platform::{arch_from_id, resolve_coordinates, spec_arch_from_id,
    spec_archive_basename, spec_archive_filename, spec_supported, Arch, Os};
use crate::progress::ProgressData;
use crate::text::join_path;
use crate::version::{parse_version, semver_of, NodeVersion};

verus! {

/// The archive format of the platform: zip on Windows, gzipped tar
/// elsewhere.
#[derive(Debug, Clone, Copy, PartialEq, Eq, Structural)]
pub enum ArchiveFormat {
    TarGz,
    Zip,
}

/// Where one fetch stands.
#[derive(Debug, Clone, PartialEq, Eq)]
pub enum Phase {
    /// The request is out; no byte has arrived.
    AwaitingResponse,
    /// The body is streaming to the temporary file.
    Downloading { downloaded: usize, total: usize },
    /// The stream ended; the archive is about to be opened.
    DownloadDone { total: usize },
    /// Tar entries are unpacking; the total is the compressed size,
    /// a documented approximation.
    TarExtracting { unpacked: usize, total: usize },
    /// Zip entries are extracting; the central directory gave the
    /// exact entry count up front.
    ZipExtracting { entries_done: usize, entries_total: usize },
    /// All entries are on disk; the rename and cleanup are pending.
    Finalizing,
    /// The install finished; the installed path may be returned.
    Done,
    /// The fetch ended early with the recorded error.
    Failed { error: FetchError },
}

/// What the application observed at one suspension point.
#[derive(Debug, Clone, PartialEq, Eq)]
pub enum FetchEvent {
    /// The response arrived with this status and content length.
    Response { status: u16, content_length: Option<usize> },
    /// One body chunk of this many bytes was written to the
    /// temporary file.
    Chunk { len: usize },
    /// The body stream ended.
    StreamEnd,
    /// The archive was opened; for zip, `entries` is the central
    /// directory's entry count, for tar it carries nothing.
    ArchiveOpened { entries: usize },
    /// One tar entry of this declared size was unpacked.
    TarEntry { size: usize },
    /// The tar stream ended.
    TarEnd,
    /// One zip entry was extracted.
    ZipEntryDone,
    /// The rename and cleanup completed.
    Finalized,
    /// The cancellation signal won the race at a suspension point.
    Cancel,
    /// Outside work failed with the given error.
    Fault { error: FetchError },
}

/// Phases that no event can leave.
pub open spec fn spec_terminal(phase: Phase) -> bool {
    phase is Done || phase is Failed
}

/// Phases in which the cancellation signal is still being raced.
/// Finalization is not cancellable.
pub open spec fn spec_cancellable(phase: Phase) -> bool {
    phase is AwaitingResponse || phase is Downloading || phase is DownloadDone
        || phase is TarExtracting || phase is ZipExtracting
}

/// Addition on byte counters, pinned at the top of the range.
pub open spec fn spec_sat_add(a: int, b: int) -> int {
    if a + b > usize::MAX {
        usize::MAX as int
    } else {
        a + b
    }
}

/// One transition of the engine: the next phase and the progress
/// event emitted, if any.  Terminal phases absorb every event.
pub open spec fn spec_step(phase: Phase, format: ArchiveFormat, ev: FetchEvent) -> (
    Phase,
    Option<(Seq<char>, int, int)>,
) {
    if spec_terminal(phase) {
        (phase, None)
    } else if ev is Cancel {
        if spec_cancellable(phase) {
            (Phase::Failed { error: FetchError::Cancelled }, None)
        } else {
            (phase, None)
        }
    } else if ev is Fault {
        (Phase::Failed { error: ev->Fault_error }, None)
    } else {
        match phase {
            Phase::AwaitingResponse => match ev {
                FetchEvent::Response { status, content_length } => {
                    if !(200 <= status < 300) {
                        (Phase::Failed { error: FetchError::HttpStatus { status } }, None)
                    } else {
                        match content_length {
                            None => (Phase::Failed { error: FetchError::MissingContentLength }, None),
                            Some(total) => (Phase::Downloading { downloaded: 0, total }, None),
                        }
                    }
                },
                _ => (phase, None),
            },
            Phase::Downloading { downloaded, total } => match ev {
                FetchEvent::Chunk { len } => {
                    let d = spec_sat_add(downloaded as int, len as int) as usize;
                    (
                        Phase::Downloading { downloaded: d, total },
                        Some(("download"@, d as int, total as int)),
                    )
                },
                FetchEvent::StreamEnd => (Phase::DownloadDone { total }, None),
                _ => (phase, None),
            },
            Phase::DownloadDone { total } => match ev {
                FetchEvent::ArchiveOpened { entries } => match format {
                    ArchiveFormat::TarGz => (Phase::TarExtracting { unpacked: 0, total }, None),
                    ArchiveFormat::Zip => {
                        if entries == 0 {
                            (Phase::Finalizing, None)
                        } else {
                            (
                                Phase::ZipExtracting { entries_done: 0, entries_total: entries },
                                None,
                            )
                        }
                    },
                },
                _ => (phase, None),
            },
            Phase::TarExtracting { unpacked, total } => match ev {
                FetchEvent::TarEntry { size } => {
                    let u = spec_sat_add(unpacked as int, size as int) as usize;
                    (
                        Phase::TarExtracting { unpacked: u, total },
                        Some(("unzip"@, u as int, total as int)),
                    )
                },
                FetchEvent::TarEnd => (Phase::Finalizing, None),
                _ => (phase, None),
            },
            Phase::ZipExtracting { entries_done, entries_total } => match ev {
                FetchEvent::ZipEntryDone => {
                    if entries_done < entries_total {
                        let d = (entries_done + 1) as usize;
                        let next = if d == entries_total {
                            Phase::Finalizing
                        } else {
                            Phase::ZipExtracting { entries_done: d, entries_total }
                        };
                        (next, Some(("unzip"@, d as int, entries_total as int)))
                    } else {
                        (phase, None)
                    }
                },
                _ => (phase, None),
            },
            Phase::Finalizing => match ev {
                FetchEvent::Finalized => (Phase::Done, None),
                _ => (phase, None),
            },
            _ => (phase, None),
        }
    }
}

/// Computes one transition.
fn transition(phase: Phase, format: ArchiveFormat, ev: FetchEvent) -> (r: (
    Phase,
    Option<ProgressData>,
))
    ensures
        ({
            let (p2, em) = spec_step(phase, format, ev);
            r.0 == p2 && match r.1 {
                Some(pd) => em == Some(pd@),
                None => em is None,
            }
        }),
{
    let terminal = match &phase {
        Phase::Done => true,
        Phase::Failed { .. } => true,
        _ => false,
    };
    if terminal {
        return (phase, None);
    }
    match ev {
        FetchEvent::Cancel => {
            let cancellable = match &phase {
                Phase::Finalizing => false,
                _ => true,
            };
            if cancellable {
                return (Phase::Failed { error: FetchError::Cancelled }, None);
            } else {
                return (phase, None);
            }
        },
        FetchEvent::Fault { error } => {
            return (Phase::Failed { error }, None);
        },
        _ => {},
    }
    match (phase, ev) {
        (Phase::AwaitingResponse, FetchEvent::Response { status, content_length }) => {
            if !(200 <= status && status < 300) {
                (Phase::Failed { error: FetchError::HttpStatus { status } }, None)
            } else {
                match content_length {
                    None => (Phase::Failed { error: FetchError::MissingContentLength }, None),
                    Some(total) => (Phase::Downloading { downloaded: 0, total }, None),
                }
            }
        },
        (Phase::Downloading { downloaded, total }, FetchEvent::Chunk { len }) => {
            let d = match downloaded.checked_add(len) {
                Some(x) => x,
                None => usize::MAX,
            };
            (
                Phase::Downloading { downloaded: d, total },
                Some(ProgressData { source: "download".to_owned(), transferred: d, total }),
            )
        },
        (Phase::Downloading { downloaded: _, total }, FetchEvent::StreamEnd) => (
            Phase::DownloadDone { total },
            None,
        ),
        (Phase::DownloadDone { total }, FetchEvent::ArchiveOpened { entries }) => match format {
            ArchiveFormat::TarGz => (Phase::TarExtracting { unpacked: 0, total }, None),
            ArchiveFormat::Zip => {
                if entries == 0 {
                    (Phase::Finalizing, None)
                } else {
                    (Phase::ZipExtracting { entries_done: 0, entries_total: entries }, None)
                }
            },
        },
        (Phase::TarExtracting { unpacked, total }, FetchEvent::TarEntry { size }) => {
            let u = match unpacked.checked_add(size) {
                Some(x) => x,
                None => usize::MAX,
            };
            (
                Phase::TarExtracting { unpacked: u, total },
                Some(ProgressData { source: "unzip".to_owned(), transferred: u, total }),
            )
        },
        (Phase::TarExtracting { unpacked: _, total: _ }, FetchEvent::TarEnd) => (
            Phase::Finalizing,
            None,
        ),
        (Phase::ZipExtracting { entries_done, entries_total }, FetchEvent::ZipEntryDone) => {
            if entries_done < entries_total {
                let d = entries_done + 1;
                let next = if d == entries_total {
                    Phase::Finalizing
                } else {
                    Phase::ZipExtracting { entries_done: d, entries_total }
                };
                (
                    next,
                    Some(
                        ProgressData {
                            source: "unzip".to_owned(),
                            transferred: d,
                            total: entries_total,
                        },
                    ),
                )
            } else {
                (Phase::ZipExtracting { entries_done, entries_total }, None)
            }
        },
        (Phase::Finalizing, FetchEvent::Finalized) => (Phase::Done, None),
        (ph, _) => (ph, None),
    }
}

/// One fetch in flight: its phase and the resolved names it finishes
/// with.
#[derive(Debug, Clone)]
pub struct FetchEngine {
    pub phase: Phase,
    pub format: ArchiveFormat,
    /// The destination root directory.
    pub dest: String,
    /// The version string the caller asked for; the name of the
    /// installed directory.
    pub version: String,
    /// The archive's internal top-level directory name.
    pub basename: String,
    /// The archive's file name; the temporary file's name.
    pub full_filename: String,
}

impl FetchEngine {
    /// Feeds one observed event to the engine and returns the
    /// progress notification to forward, if any.
    pub fn step(&mut self, ev: FetchEvent) -> (r: Option<ProgressData>)
        ensures
            ({
                let (p2, em) = spec_step(old(self).phase, old(self).format, ev);
                final(self).phase == p2 && match r {
                    Some(pd) => em == Some(pd@),
                    None => em is None,
                }
            }),
            final(self).format == old(self).format,
            final(self).dest == old(self).dest,
            final(self).version == old(self).version,
            final(self).basename == old(self).basename,
            final(self).full_filename == old(self).full_filename,
    {
        let mut ph = Phase::Done;
        core::mem::swap(&mut ph, &mut self.phase);
        let (next, emit) = transition(ph, self.format, ev);
        self.phase = next;
        emit
    }

    /// The directory the installed version ends up in:
    /// `{dest}/{version}`.
    pub fn installed_path(&self) -> (r: String)
        ensures
            r@ == self.dest@ + seq!['/'] + self.version@,
    {
        join_path(self.dest.as_str(), self.version.as_str())
    }

    /// Where the archive's top-level directory lands before the
    /// rename: `{dest}/{basename}`.
    pub fn rename_source(&self) -> (r: String)
        ensures
            r@ == self.dest@ + seq!['/'] + self.basename@,
    {
        join_path(self.dest.as_str(), self.basename.as_str())
    }

    /// The temporary archive file: `{dest}/{full_filename}`.
    pub fn temp_file_path(&self) -> (r: String)
        ensures
            r@ == self.dest@ + seq!['/'] + self.full_filename@,
    {
        join_path(self.dest.as_str(), self.full_filename.as_str())
    }
}

/// One install request, consumed by a single fetch.
#[derive(Debug, Clone, Default)]
pub struct FetchConfig {
    /// The destination root directory; must exist and be writable.
    pub dest: String,
    /// The base URL of the distribution index, no trailing slash
    /// assumed.
    pub mirror: String,
    /// The version to install; must parse as semver.
    pub version: String,
    /// An architecture override; the host's architecture when
    /// absent.
    pub arch: Option<String>,
    /// An explicit proxy endpoint.
    pub proxy: Option<Proxy>,
    /// Forces a direct connection when set.
    pub no_proxy: Option<bool>,
    /// The whole-request timeout; twenty seconds when absent.
    pub timeout_ms: Option<u64>,
}

/// Everything the application needs to run one fetch: the engine,
/// the download URL, the temporary file path and the client plan.
#[derive(Debug, Clone)]
pub struct FetchPlan {
    pub engine: FetchEngine,
    pub url: String,
    pub temp_file: String,
    pub client: ClientPlan,
}

/// The architecture one fetch uses: the override when given, else
/// the host's.
pub open spec fn spec_requested_arch(over: Option<Seq<char>>, host_arch: Arch) -> Option<Arch> {
    match over {
        Some(id) => spec_arch_from_id(id),
        None => Some(host_arch),
    }
}

/// Prepares one fetch: parses the version, resolves the platform
/// coordinates, and builds the URL, the temporary file path and the
/// client plan.  Configuration errors are raised here, before any
/// I/O: an unparsable version, an unknown architecture override, or
/// an unsupported platform.
pub fn prepare_fetch(config: FetchConfig, os: Os, host_arch: Arch) -> (r: Result<
    FetchPlan,
    FetchError,
>)
    ensures
        ({
            let parsed = semver_of(config.version@);
            let arch_opt = spec_requested_arch(
                match config.arch {
                    Some(a) => Some(a@),
                    None => None,
                },
                host_arch,
            );
            match r {
                Err(e) => if parsed is None {
                    e is InvalidVersion
                } else if arch_opt is None {
                    e is UnsupportedPlatform
                } else {
                    e is UnsupportedPlatform && !spec_supported(os, arch_opt->0)
                },
                Ok(plan) => parsed matches Some((major, minor, patch)) && arch_opt matches Some(
                    arch,
                ) && spec_supported(os, arch) && {
                    let v = NodeVersion { major, minor, patch };
                    &&& plan.engine.phase is AwaitingResponse
                    &&& plan.engine.format == (if os is Windows {
                        ArchiveFormat::Zip
                    } else {
                        ArchiveFormat::TarGz
                    })
                    &&& plan.engine.dest@ == config.dest@
                    &&& plan.engine.version@ == config.version@
                    &&& plan.engine.basename@ == spec_archive_basename(os, arch, v)
                    &&& plan.engine.full_filename@ == spec_archive_filename(os, arch, v)
                    &&& plan.url@ == config.mirror@ + "/v"@ + config.version@ + seq!['/']
                        + spec_archive_filename(os, arch, v)
                    &&& plan.temp_file@ == config.dest@ + seq!['/'] + spec_archive_filename(
                        os,
                        arch,
                        v,
                    )
                    &&& plan.client.timeout_ms == match config.timeout_ms {
                        Some(t) => t,
                        None => spec_default_timeout_ms(),
                    }
                    &&& (config.no_proxy == Some(true) ==> plan.client.proxy is Direct)
                    &&& (config.no_proxy != Some(true) ==> match config.proxy {
                        Some(p) => plan.client.proxy matches ProxyPlan::Explicit { url } && url@
                            == spec_proxy_url(p.ip@, p.port@),
                        None => plan.client.proxy is System,
                    })
                },
            }
        }),
{
    proof {
        reveal_strlit("/v");
        reveal_strlit("/");
    }
    let version = match parse_version(config.version.as_str()) {
        Ok(v) => v,
        Err(e) => {
            return Err(e);
        },
    };
    let arch = match &config.arch {
        Some(id) => match arch_from_id(id.as_str()) {
            Some(a) => a,
            None => {
                return Err(FetchError::UnsupportedPlatform);
            },
        },
        None => host_arch,
    };
    let coords = match resolve_coordinates(os, arch, &version) {
        Ok(c) => c,
        Err(e) => {
            return Err(e);
        },
    };
    let format = match os {
        Os::Windows => ArchiveFormat::Zip,
        _ => ArchiveFormat::TarGz,
    };
    let client = create_client(&config.proxy, config.no_proxy, config.timeout_ms);
    let ghost mirror0 = config.mirror@;
    let ghost version0 = config.version@;
    let mut url = config.mirror;
    url.append("/v");
    url.append(config.version.as_str());
    url.append("/");
    url.append(coords.full_filename.as_str());
    let temp_file = join_path(config.dest.as_str(), coords.full_filename.as_str());
    proof {
        assert(url@ =~= mirror0 + "/v"@ + version0 + seq!['/'] + coords.full_filename@);
    }
    let engine = FetchEngine {
        phase: Phase::AwaitingResponse,
        format,
        dest: config.dest,
        version: config.version,
        basename: coords.archive_basename,
        full_filename: coords.full_filename,
    };
    Ok(FetchPlan { engine, url, temp_file, client })
}

/// The run of the engine over a whole event sequence: the final
/// phase and every progress event emitted, in order.
pub open spec fn spec_run(phase: Phase, format: ArchiveFormat, evs: Seq<FetchEvent>) -> (
    Phase,
    Seq<(Seq<char>, int, int)>,
)
    decreases evs.len(),
{
    if evs.len() == 0 {
        (phase, Seq::empty())
    } else {
        let (p1, em) = spec_step(phase, format, evs[0]);
        let (pf, rest) = spec_run(p1, format, evs.drop_first());
        (
            pf,
            match em {
                Some(e) => seq![e] + rest,
                None => rest,
            },
        )
    }
}

/// A terminal phase absorbs every event without emitting anything.
pub proof fn lemma_terminal_emits_nothing(phase: Phase, format: ArchiveFormat, evs: Seq<
    FetchEvent,
>)
    requires
        spec_terminal(phase),
    ensures
        spec_run(phase, format, evs).0 == phase,
        spec_run(phase, format, evs).1.len() == 0,
    decreases evs.len(),
{
    if evs.len() > 0 {
        lemma_terminal_emits_nothing(phase, format, evs.drop_first());
    }
}

/// Cancellation observed in a cancellable phase fails the fetch as
/// `Cancelled`, and no progress event is emitted then or by any
/// later event.
pub proof fn lemma_cancel_silences(phase: Phase, format: ArchiveFormat, evs: Seq<FetchEvent>)
    requires
        spec_cancellable(phase),
    ensures
        ({
            let (p1, em) = spec_step(phase, format, FetchEvent::Cancel);
            p1 == (Phase::Failed { error: FetchError::Cancelled }) && em is None && spec_run(
                p1,
                format,
                evs,
            ).1.len() == 0
        }),
{
    let (p1, em) = spec_step(phase, format, FetchEvent::Cancel);
    lemma_terminal_emits_nothing(p1, format, evs);
}

/// The values of the download-stage events in an emission sequence.
pub open spec fn spec_download_values(ems: Seq<(Seq<char>, int, int)>) -> Seq<int>
    decreases ems.len(),
{
    if ems.len() == 0 {
        Seq::empty()
    } else {
        let rest = spec_download_values(ems.drop_first());
        if ems[0].0 == "download"@ {
            seq![ems[0].1] + rest
        } else {
            rest
        }
    }
}

/// A sequence that never goes down.
pub open spec fn spec_non_decreasing(v: Seq<int>) -> bool {
    forall|i: int, j: int| 0 <= i <= j < v.len() ==> v[i] <= v[j]
}

/// Whether download-stage events can still be emitted, and if so
/// the floor below which no later report can fall.
pub open spec fn spec_download_floor(phase: Phase) -> Option<int> {
    match phase {
        Phase::AwaitingResponse => Some(0),
        Phase::Downloading { downloaded, total } => Some(downloaded as int),
        _ => None,
    }
}

/// In every run of the engine, the reported download byte counts
/// never decrease, never fall below the count already reached, and
/// stop once the download stage is over.
pub proof fn lemma_download_monotone(phase: Phase, format: ArchiveFormat, evs: Seq<FetchEvent>)
    ensures
        ({
            let dl = spec_download_values(spec_run(phase, format, evs).1);
            spec_non_decreasing(dl) && match spec_download_floor(phase) {
                Some(floor) => forall|i: int| 0 <= i < dl.len() ==> floor <= #[trigger] dl[i],
                None => dl.len() == 0,
            }
        }),
    decreases evs.len(),
{
    if evs.len() > 0 {
        let ev = evs[0];
        let (p1, em) = spec_step(phase, format, ev);
        let rest = spec_run(p1, format, evs.drop_first()).1;
        lemma_download_monotone(p1, format, evs.drop_first());
        let dl_rest = spec_download_values(rest);
        let ems = spec_run(phase, format, evs).1;
        let dl = spec_download_values(ems);
        reveal_strlit("download");
        reveal_strlit("unzip");
        assert("unzip"@ != "download"@) by {
            assert("unzip"@.len() == 5);
            assert("download"@.len() == 8);
        }
        match em {
            Some(e) => {
                assert(ems == seq![e] + rest);
                assert(ems.drop_first() =~= rest);
                if e.0 == "download"@ {
                    let d1 = e.1;
                    assert(phase is Downloading && ev is Chunk);
                    assert(p1 == (Phase::Downloading {
                        downloaded: d1 as usize,
                        total: phase->Downloading_total,
                    }));
                    assert(spec_download_floor(p1) == Some(d1));
                    assert(dl =~= seq![d1] + dl_rest);
                    assert(forall|i: int| 0 <= i < dl_rest.len() ==> d1 <= #[trigger] dl_rest[i]);
                    assert forall|i: int, j: int| 0 <= i <= j < dl.len() implies dl[i]
                        <= dl[j] by {
                        if 0 < i {
                            assert(dl[i] == dl_rest[i - 1]);
                        }
                        if 0 < j {
                            assert(dl[j] == dl_rest[j - 1]);
                        }
                    }
                    assert(spec_download_floor(phase) == Some(
                        phase->Downloading_downloaded as int,
                    ));
                    assert(phase->Downloading_downloaded <= d1);
                } else {
                    assert(dl =~= dl_rest);
                    assert(spec_download_floor(phase) is None);
                    assert(spec_download_floor(p1) is None);
                }
            },
            None => {
                assert(dl =~= dl_rest);
                match spec_download_floor(phase) {
                    Some(floor) => {
                        match spec_download_floor(p1) {
                            Some(floor1) => {
                                assert(floor <= floor1);
                            },
                            None => {
                                assert(dl_rest.len() == 0);
                            },
                        }
                    },
                    None => {
                        assert(spec_download_floor(p1) is None);
                    },
                }
            },
        }
    }
}

/// The values of the extraction-stage events in an emission
/// sequence.
pub open spec fn spec_unzip_values(ems: Seq<(Seq<char>, int, int)>) -> Seq<int>
    decreases ems.len(),
{
    if ems.len() == 0 {
        Seq::empty()
    } else {
        let rest = spec_unzip_values(ems.drop_first());
        if ems[0].0 == "unzip"@ {
            seq![ems[0].1] + rest
        } else {
            rest
        }
    }
}

/// Whether extraction-stage events can still be emitted, and if so
/// the floor below which no later report can fall.
pub open spec fn spec_unzip_floor(phase: Phase) -> Option<int> {
    match phase {
        Phase::AwaitingResponse => Some(0),
        Phase::Downloading { .. } => Some(0),
        Phase::DownloadDone { .. } => Some(0),
        Phase::TarExtracting { unpacked, total } => Some(unpacked as int),
        Phase::ZipExtracting { entries_done, entries_total } => Some(entries_done as int),
        _ => None,
    }
}

/// In every run of the engine, the reported extraction counts never
/// decrease, never fall below the count already reached, and stop
/// once finalization begins.
pub proof fn lemma_unzip_monotone(phase: Phase, format: ArchiveFormat, evs: Seq<FetchEvent>)
    ensures
        ({
            let uz = spec_unzip_values(spec_run(phase, format, evs).1);
            spec_non_decreasing(uz) && match spec_unzip_floor(phase) {
                Some(floor) => forall|i: int| 0 <= i < uz.len() ==> floor <= #[trigger] uz[i],
                None => uz.len() == 0,
            }
        }),
    decreases evs.len(),
{
    if evs.len() > 0 {
        let ev = evs[0];
        let (p1, em) = spec_step(phase, format, ev);
        let rest = spec_run(p1, format, evs.drop_first()).1;
        lemma_unzip_monotone(p1, format, evs.drop_first());
        let uz_rest = spec_unzip_values(rest);
        let ems = spec_run(phase, format, evs).1;
        let uz = spec_unzip_values(ems);
        reveal_strlit("download");
        reveal_strlit("unzip");
        assert("unzip"@ != "download"@) by {
            assert("unzip"@.len() == 5);
            assert("download"@.len() == 8);
        }
        match em {
            Some(e) => {
                assert(ems == seq![e] + rest);
                assert(ems.drop_first() =~= rest);
                if e.0 == "unzip"@ {
                    let u1 = e.1;
                    assert(uz =~= seq![u1] + uz_rest);
                    match spec_unzip_floor(p1) {
                        Some(f1) => {
                            assert(f1 == u1);
                            assert(forall|i: int|
                                0 <= i < uz_rest.len() ==> u1 <= #[trigger] uz_rest[i]);
                        },
                        None => {
                            assert(uz_rest.len() == 0);
                        },
                    }
                    assert forall|i: int, j: int| 0 <= i <= j < uz.len() implies uz[i]
                        <= uz[j] by {
                        if 0 < i {
                            assert(uz[i] == uz_rest[i - 1]);
                        }
                        if 0 < j {
                            assert(uz[j] == uz_rest[j - 1]);
                        }
                    }
                } else {
                    assert(uz =~= uz_rest);
                    assert(phase is Downloading);
                }
            },
            None => {
                assert(uz =~= uz_rest);
                match spec_unzip_floor(phase) {
                    Some(floor) => {
                        match spec_unzip_floor(p1) {
                            Some(floor1) => {
                                assert(floor <= floor1);
                            },
                            None => {
                                assert(uz_rest.len() == 0);
                            },
                        }
                    },
                    None => {
                        assert(spec_unzip_floor(p1) is None);
                    },
                }
            },
        }
    }
}

/// The sum of a sequence of chunk sizes.
pub open spec fn spec_sum(chunks: Seq<usize>) -> int
    decreases chunks.len(),
{
    if chunks.len() == 0 {
        0
    } else {
        chunks[0] + spec_sum(chunks.drop_first())
    }
}

/// The event sequence of a download body delivered in the given
/// chunks, ending with the end of the stream.
pub open spec fn spec_chunk_events(chunks: Seq<usize>) -> Seq<FetchEvent>
    decreases chunks.len(),
{
    if chunks.len() == 0 {
        seq![FetchEvent::StreamEnd]
    } else {
        seq![FetchEvent::Chunk { len: chunks[0] }] + spec_chunk_events(chunks.drop_first())
    }
}

/// A download whose chunks sum exactly to the remaining bytes emits
/// one report per chunk, ends in `DownloadDone`, and its last
/// report carries the full total.
pub proof fn lemma_download_reports_total(
    downloaded: usize,
    total: usize,
    format: ArchiveFormat,
    chunks: Seq<usize>,
)
    requires
        downloaded + spec_sum(chunks) == total,
    ensures
        ({
            let (p, ems) = spec_run(
                Phase::Downloading { downloaded, total },
                format,
                spec_chunk_events(chunks),
            );
            p == (Phase::DownloadDone { total }) && ems.len() == chunks.len() && (chunks.len() > 0
                ==> ems.last() == ("download"@, total as int, total as int)) && (forall|i: int|
                0 <= i < ems.len() ==> (#[trigger] ems[i]).0 == "download"@ && ems[i].2
                    == total as int)
        }),
    decreases chunks.len(),
{
    let phase = Phase::Downloading { downloaded, total };
    let evs = spec_chunk_events(chunks);
    if chunks.len() == 0 {
        assert(evs =~= seq![FetchEvent::StreamEnd]);
        assert(evs.drop_first() =~= Seq::<FetchEvent>::empty());
        assert(spec_step(phase, format, FetchEvent::StreamEnd).0 == (Phase::DownloadDone {
            total,
        }));
        assert(spec_run(Phase::DownloadDone { total }, format, evs.drop_first()).0
            == (Phase::DownloadDone { total }));
        assert(spec_run(phase, format, evs).0 == (Phase::DownloadDone { total }));
    } else {
        let len0 = chunks[0];
        proof_sum_bounds(chunks);
        proof_sum_bounds(chunks.drop_first());
        assert(downloaded + len0 <= total);
        let d1 = (downloaded + len0) as usize;
        let (p1, em) = spec_step(phase, format, evs[0]);
        assert(evs[0] == (FetchEvent::Chunk { len: len0 }));
        assert(spec_sat_add(downloaded as int, len0 as int) == d1 as int);
        assert(p1 == (Phase::Downloading { downloaded: d1, total }));
        assert(em == Some(("download"@, d1 as int, total as int)));
        assert(evs.drop_first() =~= spec_chunk_events(chunks.drop_first()));
        lemma_download_reports_total(d1, total, format, chunks.drop_first());
        let rest = spec_run(p1, format, evs.drop_first()).1;
        let e = ("download"@, d1 as int, total as int);
        let ems = spec_run(phase, format, evs).1;
        assert(ems == seq![e] + rest);
        assert(ems.len() == chunks.len());
        assert forall|i: int| 0 <= i < ems.len() implies (#[trigger] ems[i]).0 == "download"@
            && ems[i].2 == total as int by {
            if 0 < i {
                assert(ems[i] == rest[i - 1]);
            }
        }
        assert(spec_run(phase, format, evs).0 == spec_run(p1, format, evs.drop_first()).0);
        assert(spec_run(p1, format, evs.drop_first()).0 == (Phase::DownloadDone { total }));
        if chunks.len() == 1 {
            assert(spec_sum(chunks.drop_first()) == 0);
            assert(rest.len() == 0);
            assert(ems.last() == e);
        } else {
            assert(rest.len() > 0);
            assert(ems.last() == rest.last());
        }
    }
}

/// Every element of a chunk sequence, and every suffix sum, is
/// nonnegative and at most the whole sum.
proof fn proof_sum_bounds(chunks: Seq<usize>)
    ensures
        0 <= spec_sum(chunks),
        chunks.len() > 0 ==> chunks[0] <= spec_sum(chunks),
    decreases chunks.len(),
{
    if chunks.len() > 0 {
        proof_sum_bounds(chunks.drop_first());
    }
}

} // verus!
