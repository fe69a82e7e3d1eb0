use vstd::prelude::*;

verus! {

/// Seconds the unattended flow waits after start-up before it checks.
pub const STARTUP_DELAY_SECS: u64 = 2;

/// One event of a download, in the order a sink receives them:
/// one `Started`, any number of `Progress`, then one `Finished`.
#[derive(Clone, Copy, Debug, PartialEq, Eq, Structural)]
pub enum DownloadEvent {
    Started { content_length: Option<u64> },
    Progress { chunk_length: u64 },
    Finished,
}

/// What a successful check reports: the version on offer and the running one.
#[derive(Clone, Debug, PartialEq, Eq)]
pub struct UpdateMetadata {
    pub version: String,
    pub current_version: String,
}

/// A manifest entry as the update provider hands it over.
#[derive(Clone, Debug, PartialEq, Eq)]
pub struct ManifestEntry {
    pub version: String,
    pub current_version: String,
    pub download_url: String,
}

/// Everything that can go wrong in an update cycle.
#[derive(Clone, Debug, PartialEq, Eq)]
pub enum UpdaterError {
    /// The provider could not be reached, or its manifest was rejected.
    CheckFailed { detail: String },
    /// The transfer broke off before the payload was complete.
    DownloadFailed { detail: String },
    /// The installer refused the downloaded payload.
    InstallFailed { detail: String },
    /// The handle was already used for an install attempt.
    HandleAlreadyConsumed,
    /// Another check or install is still running.
    UpdateInProgress,
    /// No check handed out this handle.
    NoPendingUpdate,
}

impl UpdaterError {
    /// A human-readable description of the error.
    pub fn message(&self) -> (r: String)
        ensures
            match self {
                UpdaterError::CheckFailed { detail } => r@ == detail@,
                UpdaterError::DownloadFailed { detail } => r@ == detail@,
                UpdaterError::InstallFailed { detail } => r@ == detail@,
                UpdaterError::HandleAlreadyConsumed => r@ == "this update was already installed or attempted"@,
                UpdaterError::UpdateInProgress => r@ == "an update is already in progress"@,
                UpdaterError::NoPendingUpdate => r@ == "there is no pending update"@,
            },
    {
        match self {
            UpdaterError::CheckFailed { detail } => detail.clone(),
            UpdaterError::DownloadFailed { detail } => detail.clone(),
            UpdaterError::InstallFailed { detail } => detail.clone(),
            UpdaterError::HandleAlreadyConsumed => String::from_str("this update was already installed or attempted"),
            UpdaterError::UpdateInProgress => String::from_str("an update is already in progress"),
            UpdaterError::NoPendingUpdate => String::from_str("there is no pending update"),
        }
    }
}

/// A single-use token for one update found by a check.
#[derive(Clone, Copy, Debug, PartialEq, Eq, Structural)]
pub struct UpdateHandle {
    pub id: usize,
}

impl UpdateHandle {
    /// The handle with the given number, as the UI layer passes it back.
    pub fn from_id(id: usize) -> (r: UpdateHandle)
        ensures
            r.id == id,
    {
        UpdateHandle { id }
    }
}

/// Where an update cycle stands.
#[derive(Clone, Copy, Debug, PartialEq, Eq, Structural)]
pub enum Phase {
    Idle,
    Checking,
    Downloading,
    RestartPending,
}

/// How far the events of the current download have gone.
#[derive(Clone, Copy, Debug, PartialEq, Eq, Structural)]
pub enum Stream {
    Pending,
    Streaming,
    Done,
}

/// The events of one download form a prefix of `Started Progress* Finished`.
pub open spec fn valid_events(s: Seq<DownloadEvent>) -> bool {
    s.len() > 0 ==> {
        &&& s[0] is Started
        &&& forall|i: int|
            0 < i < s.len() ==> (s[i] is Progress || (s[i] is Finished && i == s.len() - 1))
    }
}

/// The process-wide update agent: at most one check or download at a time,
/// and each handle good for one install attempt.
pub struct UpdateAgent {
    phase: Phase,
    stream: Stream,
    consumed: Vec<bool>,
    emitted: Ghost<Seq<DownloadEvent>>,
}

impl UpdateAgent {
    pub closed spec fn phase(&self) -> Phase {
        self.phase
    }

    pub closed spec fn stream(&self) -> Stream {
        self.stream
    }

    /// For each handle handed out so far, whether it has been used.
    pub closed spec fn consumed(&self) -> Seq<bool> {
        self.consumed@
    }

    /// The events sent for the current (or last) download.
    pub closed spec fn emitted(&self) -> Seq<DownloadEvent> {
        self.emitted@
    }

    pub open spec fn in_flight(&self) -> bool {
        self.phase() == Phase::Checking || self.phase() == Phase::Downloading
    }

    pub open spec fn wf(&self) -> bool {
        &&& valid_events(self.emitted())
        &&& (self.stream() == Stream::Pending ==> self.emitted().len() == 0)
        &&& (self.stream() == Stream::Streaming ==> self.emitted().len() > 0
            && !(self.emitted().last() is Finished))
        &&& (self.stream() == Stream::Done ==> self.emitted().len() > 1
            && self.emitted().last() is Finished)
    }

    /// Every handle used before is still marked as used.
    pub open spec fn keeps_consumed(&self, before: UpdateAgent) -> bool {
        &&& before.consumed().len() <= self.consumed().len()
        &&& forall|i: int|
            0 <= i < before.consumed().len() && #[trigger] before.consumed()[i]
                ==> self.consumed()[i]
    }

    pub open spec fn same_download(&self, before: UpdateAgent) -> bool {
        &&& self.stream() == before.stream()
        &&& self.consumed() == before.consumed()
        &&& self.emitted() == before.emitted()
    }

    /// The agent at start-up: idle, no handles, nothing sent.
    pub fn new() -> (r: UpdateAgent)
        ensures
            r.wf(),
            r.phase() == Phase::Idle,
            r.stream() == Stream::Pending,
            r.consumed().len() == 0,
            r.emitted().len() == 0,
    {
        UpdateAgent {
            phase: Phase::Idle,
            stream: Stream::Pending,
            consumed: Vec::new(),
            emitted: Ghost(Seq::empty()),
        }
    }

    /// Whether a check or a download is running.
    pub fn is_in_flight(&self) -> (r: bool)
        ensures
            r == self.in_flight(),
    {
        match self.phase {
            Phase::Checking | Phase::Downloading => true,
            _ => false,
        }
    }

    pub fn current_phase(&self) -> (r: Phase)
        ensures
            r == self.phase(),
    {
        self.phase
    }
}

/// What starting a check does to the agent.
pub open spec fn begin_check_step(
    pre: UpdateAgent,
    post: UpdateAgent,
    r: Result<(), UpdaterError>,
) -> bool {
    if pre.in_flight() {
        r == Err::<(), UpdaterError>(UpdaterError::UpdateInProgress) && post == pre
    } else {
        r is Ok && post.phase() == Phase::Checking && post.same_download(pre)
    }
}

impl UpdateAgent {
    /// Enters `Checking`, unless a check or download is already running.
    pub fn begin_check(&mut self) -> (r: Result<(), UpdaterError>)
        requires
            old(self).wf(),
        ensures
            final(self).wf(),
            begin_check_step(*old(self), *final(self), r),
    {
        if self.is_in_flight() {
            return Err(UpdaterError::UpdateInProgress);
        }
        self.phase = Phase::Checking;
        Ok(())
    }
}

/// The versions a check result reports, if it found an update.
pub open spec fn reported(
    r: Result<Option<(UpdateMetadata, UpdateHandle)>, UpdaterError>,
) -> Option<(Seq<char>, Seq<char>)> {
    match r {
        Ok(Some((m, _))) => Some((m.version@, m.current_version@)),
        _ => None,
    }
}

/// The versions a provider answer offers, if it offers an update.
pub open spec fn offered(provider: Result<Option<ManifestEntry>, String>) -> Option<
    (Seq<char>, Seq<char>),
> {
    match provider {
        Ok(Some(e)) => Some((e.version@, e.current_version@)),
        _ => None,
    }
}

/// What the provider's answer to a check does to the agent.
pub open spec fn finish_check_step(
    pre: UpdateAgent,
    post: UpdateAgent,
    provider: Result<Option<ManifestEntry>, String>,
    r: Result<Option<(UpdateMetadata, UpdateHandle)>, UpdaterError>,
) -> bool {
    &&& post.phase() == Phase::Idle
    &&& post.stream() == pre.stream()
    &&& post.emitted() == pre.emitted()
    &&& reported(r) == offered(provider)
    &&& match provider {
        Err(d) => r == Err::<Option<(UpdateMetadata, UpdateHandle)>, UpdaterError>(
            UpdaterError::CheckFailed { detail: d },
        ) && post.consumed() == pre.consumed(),
        Ok(None) => r == Ok::<Option<(UpdateMetadata, UpdateHandle)>, UpdaterError>(None)
            && post.consumed() == pre.consumed(),
        Ok(Some(_)) => match r {
            Ok(Some((_, h))) => h.id == pre.consumed().len() && post.consumed()
                == pre.consumed().push(false),
            _ => false,
        },
    }
}

/// What starting an install with a handle does to the agent.
pub open spec fn begin_install_step(
    pre: UpdateAgent,
    post: UpdateAgent,
    id: usize,
    r: Result<(), UpdaterError>,
) -> bool {
    if id >= pre.consumed().len() {
        r == Err::<(), UpdaterError>(UpdaterError::NoPendingUpdate) && post == pre
    } else if pre.consumed()[id as int] {
        r == Err::<(), UpdaterError>(UpdaterError::HandleAlreadyConsumed) && post == pre
    } else if pre.in_flight() {
        r == Err::<(), UpdaterError>(UpdaterError::UpdateInProgress) && post == pre
    } else {
        &&& r is Ok
        &&& post.phase() == Phase::Downloading
        &&& post.stream() == Stream::Pending
        &&& post.consumed() == pre.consumed().update(id as int, true)
        &&& post.emitted().len() == 0
    }
}

/// What reporting a download event does: `due` is the stream state in which
/// the event is due, `ev` the event, `after` the stream state it leads to.
pub open spec fn event_step(
    pre: UpdateAgent,
    post: UpdateAgent,
    due: Stream,
    ev: DownloadEvent,
    after: Stream,
    r: Option<DownloadEvent>,
) -> bool {
    if pre.phase() == Phase::Downloading && pre.stream() == due {
        &&& r == Some(ev)
        &&& post.phase() == pre.phase()
        &&& post.stream() == after
        &&& post.consumed() == pre.consumed()
        &&& post.emitted() == pre.emitted().push(ev)
    } else {
        r is None && post == pre
    }
}

/// What the installer's result does to the agent.
pub open spec fn finish_install_step(
    pre: UpdateAgent,
    post: UpdateAgent,
    installer: Result<(), String>,
    r: Result<(), UpdaterError>,
) -> bool {
    &&& post.same_download(pre)
    &&& match installer {
        Ok(()) => r is Ok && post.phase() == Phase::RestartPending,
        Err(d) => post.phase() == Phase::Idle && r == Err::<(), UpdaterError>(
            if pre.stream() == Stream::Done {
                UpdaterError::InstallFailed { detail: d }
            } else {
                UpdaterError::DownloadFailed { detail: d }
            },
        ),
    }
}

impl UpdateAgent {
    /// Takes the provider's answer to the running check. An offered update
    /// gets a fresh handle; the agent is idle again in every case.
    pub fn finish_check(&mut self, provider: Result<Option<ManifestEntry>, String>) -> (r: Result<
        Option<(UpdateMetadata, UpdateHandle)>,
        UpdaterError,
    >)
        requires
            old(self).wf(),
            old(self).phase() == Phase::Checking,
        ensures
            final(self).wf(),
            final(self).keeps_consumed(*old(self)),
            finish_check_step(*old(self), *final(self), provider, r),
    {
        self.phase = Phase::Idle;
        match provider {
            Err(detail) => Err(UpdaterError::CheckFailed { detail }),
            Ok(None) => Ok(None),
            Ok(Some(entry)) => {
                let id = self.consumed.len();
                self.consumed.push(false);
                let meta = UpdateMetadata {
                    version: entry.version,
                    current_version: entry.current_version,
                };
                Ok(Some((meta, UpdateHandle { id })))
            },
        }
    }

    /// Uses up `handle` and enters `Downloading`, unless the handle is
    /// unknown or used, or another check or download is running.
    pub fn begin_install(&mut self, handle: &UpdateHandle) -> (r: Result<(), UpdaterError>)
        requires
            old(self).wf(),
        ensures
            final(self).wf(),
            final(self).keeps_consumed(*old(self)),
            begin_install_step(*old(self), *final(self), handle.id, r),
    {
        let id = handle.id;
        if id >= self.consumed.len() {
            return Err(UpdaterError::NoPendingUpdate);
        }
        if self.consumed[id] {
            return Err(UpdaterError::HandleAlreadyConsumed);
        }
        if self.is_in_flight() {
            return Err(UpdaterError::UpdateInProgress);
        }
        self.consumed.set(id, true);
        self.phase = Phase::Downloading;
        self.stream = Stream::Pending;
        self.emitted = Ghost(Seq::empty());
        Ok(())
    }

    /// The transfer has begun: `Started`, once per download.
    pub fn start_download(&mut self, content_length: Option<u64>) -> (r: Option<DownloadEvent>)
        requires
            old(self).wf(),
        ensures
            final(self).wf(),
            event_step(
                *old(self),
                *final(self),
                Stream::Pending,
                DownloadEvent::Started { content_length },
                Stream::Streaming,
                r,
            ),
    {
        if self.phase == Phase::Downloading && self.stream == Stream::Pending {
            let ev = DownloadEvent::Started { content_length };
            self.stream = Stream::Streaming;
            self.emitted = Ghost(self.emitted@.push(ev));
            Some(ev)
        } else {
            None
        }
    }

    /// A chunk arrived: `Progress` with its size, after `Started`.
    pub fn chunk_received(&mut self, chunk_length: u64) -> (r: Option<DownloadEvent>)
        requires
            old(self).wf(),
        ensures
            final(self).wf(),
            event_step(
                *old(self),
                *final(self),
                Stream::Streaming,
                DownloadEvent::Progress { chunk_length },
                Stream::Streaming,
                r,
            ),
    {
        if self.phase == Phase::Downloading && self.stream == Stream::Streaming {
            let ev = DownloadEvent::Progress { chunk_length };
            self.emitted = Ghost(self.emitted@.push(ev));
            Some(ev)
        } else {
            None
        }
    }

    /// The payload is complete: `Finished`, once, after `Started`.
    pub fn download_finished(&mut self) -> (r: Option<DownloadEvent>)
        requires
            old(self).wf(),
        ensures
            final(self).wf(),
            event_step(
                *old(self),
                *final(self),
                Stream::Streaming,
                DownloadEvent::Finished,
                Stream::Done,
                r,
            ),
    {
        if self.phase == Phase::Downloading && self.stream == Stream::Streaming {
            let ev = DownloadEvent::Finished;
            self.stream = Stream::Done;
            self.emitted = Ghost(self.emitted@.push(ev));
            Some(ev)
        } else {
            None
        }
    }

    /// Takes the installer's result on the running download. A failure
    /// before `Finished` is a download failure, one after it an install
    /// failure; success leaves a restart pending.
    pub fn finish_install(&mut self, installer: Result<(), String>) -> (r: Result<(), UpdaterError>)
        requires
            old(self).wf(),
            old(self).phase() == Phase::Downloading,
        ensures
            final(self).wf(),
            final(self).keeps_consumed(*old(self)),
            finish_install_step(*old(self), *final(self), installer, r),
    {
        match installer {
            Ok(()) => {
                self.phase = Phase::RestartPending;
                Ok(())
            },
            Err(detail) => {
                self.phase = Phase::Idle;
                if self.stream == Stream::Done {
                    Err(UpdaterError::InstallFailed { detail })
                } else {
                    Err(UpdaterError::DownloadFailed { detail })
                }
            },
        }
    }
}

} // verus!
