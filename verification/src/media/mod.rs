//! Asynchronous media uploads: chunked upload sessions, their progress and
//! state, the processing tasks queued for a complete upload, per-user
//! bandwidth records, and upload statistics.
use vstd::prelude::*;
use vstd::string::*;

use crate::counters::{add64, bump64, sum64};
use crate::error::{ErrorKind, ServiceError, is_error, make_error};
use crate::external::{spec_path_join, path_join, random_u32};
use crate::strmap::StrMap;
use crate::text::{decimal, has_prefix, str_eq, u64_to_decimal};

pub mod upload;

verus! {

/// Per-user and server bandwidth limits, in bytes per second.
#[derive(Debug, Clone, Copy, PartialEq, Eq, Structural)]
pub struct BandwidthConfig {
    pub max_upload_speed: u64,
    pub max_download_speed: u64,
    pub server_bandwidth_limit: u64,
    pub qos_enabled: bool,
}

/// Where and how media is stored.
#[derive(Debug)]
pub struct StorageConfig {
    pub base_path: String,
    pub compression_enabled: bool,
    pub compression_level: u32,
    pub deduplication_enabled: bool,
    pub cleanup_after_days: u32,
}

/// Media service configuration: sizes in bytes, the upload timeout in
/// seconds.
#[derive(Debug)]
pub struct AsyncMediaConfig {
    pub enabled: bool,
    pub max_file_size: u64,
    pub chunk_size: u64,
    pub upload_timeout: u64,
    pub transcoding_enabled: bool,
    pub virus_scanning_enabled: bool,
    pub bandwidth_limits: BandwidthConfig,
    pub storage_config: StorageConfig,
}

/// The state of an upload session.
#[derive(Debug, Clone, Copy, PartialEq, Eq, Structural)]
pub enum UploadState {
    Initialized,
    Uploading,
    Processing,
    Transcoding,
    Scanning,
    Completed,
    Failed,
    Expired,
}

/// An upload session; times are milliseconds since the Unix epoch.
#[derive(Debug)]
pub struct UploadSession {
    pub session_id: String,
    pub user_id: String,
    pub filename: String,
    pub content_type: String,
    pub total_size: u64,
    pub uploaded_size: u64,
    pub chunk_count: u32,
    pub uploaded_chunks: Vec<bool>,
    pub state: UploadState,
    pub mxc_uri: Option<String>,
    pub file_hash: Option<String>,
    pub created_at_ms: u64,
    pub updated_at_ms: u64,
    pub expires_at_ms: u64,
}

/// Kinds of processing a complete upload goes through.
#[derive(Debug, Clone, Copy, PartialEq, Eq, Structural)]
pub enum TaskType {
    Transcoding,
    VirusScanning,
    ThumbnailGeneration,
    MetadataExtraction,
    Validation,
}

/// Status of a processing task.
#[derive(Debug, Clone, Copy, PartialEq, Eq, Structural)]
pub enum TaskStatus {
    Pending,
    Running,
    Completed,
    Failed,
    Cancelled,
}

/// What a task works with and found.
#[derive(Debug)]
pub struct TaskMetadata {
    pub original_format: Option<String>,
    pub target_format: Option<String>,
    pub quality_settings: Option<String>,
    pub scan_results: Option<String>,
    pub extracted_metadata: Option<String>,
}

/// A processing task; progress is in percent, times in milliseconds.
#[derive(Debug)]
pub struct ProcessingTask {
    pub task_id: String,
    pub session_id: String,
    pub task_type: TaskType,
    pub status: TaskStatus,
    pub progress_percent: u32,
    pub input_path: String,
    pub output_path: Option<String>,
    pub metadata: TaskMetadata,
    pub created_at_ms: u64,
    pub started_at_ms: Option<u64>,
    pub completed_at_ms: Option<u64>,
}

/// Progress of an upload (the percentage is the caller's to compute from
/// the byte counts).
#[derive(Debug)]
pub struct UploadProgress {
    pub session_id: String,
    pub uploaded_bytes: u64,
    pub total_bytes: u64,
    pub upload_speed: u64,
    pub eta_seconds: Option<u64>,
    pub state: UploadState,
    pub current_task: Option<String>,
}

/// Upload counters.
#[derive(Debug, Clone, Copy, PartialEq, Eq, Structural)]
pub struct UploadStats {
    pub total_uploads: u64,
    pub successful_uploads: u64,
    pub failed_uploads: u64,
    pub total_bytes_uploaded: u64,
    pub active_sessions: u32,
    pub transcoding_queue_size: u32,
    pub scanning_queue_size: u32,
}

/// A user's bandwidth record; speeds in bytes per second, time in
/// milliseconds.
#[derive(Debug, Clone, Copy, PartialEq, Eq, Structural)]
pub struct BandwidthInfo {
    pub current_upload_speed: u64,
    pub current_download_speed: u64,
    pub allocated_upload: u64,
    pub allocated_download: u64,
    pub last_update_ms: u64,
}

/// The server's bandwidth record.
#[derive(Debug, Clone, Copy, PartialEq, Eq, Structural)]
pub struct ServerBandwidthInfo {
    pub total_upload_speed: u64,
    pub total_download_speed: u64,
    pub peak_upload_speed: u64,
    pub peak_download_speed: u64,
    pub last_update_ms: u64,
}

/// The number of chunks of a file: its size divided by the chunk size,
/// rounded up, as a `u32`.
pub open spec fn chunk_count_of(total: u64, chunk_size: u64) -> u32 {
    ((total + chunk_size - 1) / chunk_size as int) as u32
}

/// Number of chunks marked uploaded.
pub open spec fn uploaded_count(v: Seq<bool>) -> nat
    decreases v.len(),
{
    if v.len() == 0 {
        0
    } else {
        uploaded_count(v.drop_last()) + if v.last() { 1nat } else { 0nat }
    }
}

/// The marks count at most their number, and count all of them exactly
/// when every chunk is marked.
proof fn lemma_uploaded_count_full(v: Seq<bool>)
    ensures
        uploaded_count(v) <= v.len(),
        uploaded_count(v) == v.len() <==> forall|i: int| 0 <= i < v.len() ==> #[trigger] v[i],
    decreases v.len(),
{
    if v.len() > 0 {
        let w = v.drop_last();
        lemma_uploaded_count_full(w);
        if forall|i: int| 0 <= i < v.len() ==> #[trigger] v[i] {
            assert forall|i: int| 0 <= i < w.len() implies #[trigger] w[i] by {
                assert(v[i]);
            }
            assert(v[v.len() - 1]);
        }
        if uploaded_count(v) == v.len() {
            assert forall|i: int| 0 <= i < v.len() implies #[trigger] v[i] by {
                if i < w.len() {
                    assert(w[i]);
                }
            }
        }
    }
}

/// Marking a chunk that was not marked counts it once more.
proof fn lemma_uploaded_count_mark(v: Seq<bool>, i: int)
    requires
        0 <= i < v.len(),
        !v[i],
    ensures
        uploaded_count(v.update(i, true)) == uploaded_count(v) + 1,
    decreases v.len(),
{
    let u = v.update(i, true);
    if i == v.len() - 1 {
        assert(u.drop_last() =~= v.drop_last());
    } else {
        assert(u.drop_last() =~= v.drop_last().update(i, true));
        lemma_uploaded_count_mark(v.drop_last(), i);
    }
}

/// An upload completes when, and only when, its last missing chunk
/// arrives: accepting a chunk not yet uploaded counts it once, and the
/// upload of a session's chunk completes it exactly when every chunk of
/// the session is then uploaded.
pub proof fn lemma_upload_completes_with_last_chunk(marks: Seq<bool>, chunk_index: int)
    requires
        0 <= chunk_index < marks.len(),
        !marks[chunk_index],
    ensures
        uploaded_count(marks.update(chunk_index, true)) == uploaded_count(marks) + 1,
        uploaded_count(marks.update(chunk_index, true)) == marks.len() <==> forall|i: int|
            0 <= i < marks.len() && i != chunk_index ==> #[trigger] marks[i],
{
    lemma_uploaded_count_mark(marks, chunk_index);
    let u = marks.update(chunk_index, true);
    lemma_uploaded_count_full(u);
    if forall|i: int| 0 <= i < marks.len() && i != chunk_index ==> #[trigger] marks[i] {
        assert forall|i: int| 0 <= i < u.len() implies #[trigger] u[i] by {
            if i != chunk_index {
                assert(marks[i]);
            }
        }
    }
    if uploaded_count(u) == marks.len() {
        assert forall|i: int| 0 <= i < marks.len() && i != chunk_index implies #[trigger] marks[i] by {
            assert(u[i]);
        }
    }
}

/// The name of a task type, as `Debug` writes it.
pub open spec fn task_type_text(t: TaskType) -> Seq<char> {
    match t {
        TaskType::Transcoding => "Transcoding"@,
        TaskType::VirusScanning => "VirusScanning"@,
        TaskType::ThumbnailGeneration => "ThumbnailGeneration"@,
        TaskType::MetadataExtraction => "MetadataExtraction"@,
        TaskType::Validation => "Validation"@,
    }
}

/// The bandwidth a user gets when an upload starts.
pub open spec fn default_bandwidth(b: BandwidthInfo, now: u64) -> bool {
    b == BandwidthInfo {
        current_upload_speed: 0,
        current_download_speed: 0,
        allocated_upload: 10485760,
        allocated_download: 52428800,
        last_update_ms: now,
    }
}

/// The session an upload starts with.
pub open spec fn fresh_session(
    s: UploadSession,
    session_id: Seq<char>,
    user: Seq<char>,
    filename: Seq<char>,
    content_type: Seq<char>,
    total_size: u64,
    chunk_size: u64,
    now: u64,
) -> bool {
    &&& s.session_id@ == session_id
    &&& s.user_id@ == user
    &&& s.filename@ == filename
    &&& s.content_type@ == content_type
    &&& s.total_size == total_size
    &&& s.uploaded_size == 0
    &&& s.chunk_count == chunk_count_of(total_size, chunk_size)
    &&& s.uploaded_chunks@.len() == s.chunk_count
    &&& forall|i: int| 0 <= i < s.uploaded_chunks@.len() ==> !#[trigger] s.uploaded_chunks@[i]
    &&& s.state == UploadState::Initialized
    &&& s.mxc_uri is None
    &&& s.file_hash is None
    &&& s.created_at_ms == now
    &&& s.updated_at_ms == now
    &&& s.expires_at_ms == now + 3600000
}

/// Task types queued for a complete upload: virus scanning and transcoding
/// where enabled, then metadata extraction.
pub open spec fn queued_types(c: AsyncMediaConfig) -> Seq<TaskType> {
    (if c.virus_scanning_enabled { seq![TaskType::VirusScanning] } else { Seq::empty() }) + (if c.transcoding_enabled {
        seq![TaskType::Transcoding]
    } else {
        Seq::empty()
    }) + seq![TaskType::MetadataExtraction]
}

/// Number of pending or running tasks of type `t`.
pub open spec fn queue_size(s: Seq<(String, ProcessingTask)>, t: TaskType) -> nat
    decreases s.len(),
{
    if s.len() == 0 {
        0
    } else {
        queue_size(s.drop_last(), t) + if s.last().1.task_type == t && (s.last().1.status == TaskStatus::Pending
            || s.last().1.status == TaskStatus::Running) {
            1nat
        } else {
            0nat
        }
    }
}

/// One of the first `n` ids is `k`.
pub open spec fn named_before(ids: Seq<String>, n: int, k: Seq<char>) -> bool {
    exists|j: int| 0 <= j < n && #[trigger] ids[j]@ == k
}

/// The ids of the sessions of `user` among `s`, in order.
pub open spec fn user_session_ids(s: Seq<(String, UploadSession)>, user: Seq<char>) -> Seq<Seq<char>>
    decreases s.len(),
{
    if s.len() == 0 {
        Seq::empty()
    } else {
        let rest = user_session_ids(s.drop_last(), user);
        if s.last().1.user_id@ == user { rest.push(s.last().1.session_id@) } else { rest }
    }
}

/// The keys of the pending tasks among `s`, in order.
pub open spec fn pending_ids(s: Seq<(String, ProcessingTask)>) -> Seq<Seq<char>>
    decreases s.len(),
{
    if s.len() == 0 {
        Seq::empty()
    } else {
        let rest = pending_ids(s.drop_last());
        if s.last().1.status == TaskStatus::Pending { rest.push(s.last().0@) } else { rest }
    }
}

/// A task as cancelling the processing of session `session_id` leaves it:
/// cancelled if it belongs to that session, unchanged otherwise.
pub open spec fn after_cancel(t: ProcessingTask, session_id: Seq<char>) -> ProcessingTask {
    if t.session_id@ == session_id {
        ProcessingTask { status: TaskStatus::Cancelled, ..t }
    } else {
        t
    }
}

/// A copy of a media configuration.
pub fn copy_config(c: &AsyncMediaConfig) -> (r: AsyncMediaConfig)
    ensures
        r == *c,
{
    AsyncMediaConfig {
        enabled: c.enabled,
        max_file_size: c.max_file_size,
        chunk_size: c.chunk_size,
        upload_timeout: c.upload_timeout,
        transcoding_enabled: c.transcoding_enabled,
        virus_scanning_enabled: c.virus_scanning_enabled,
        bandwidth_limits: c.bandwidth_limits,
        storage_config: StorageConfig {
            base_path: c.storage_config.base_path.clone(),
            compression_enabled: c.storage_config.compression_enabled,
            compression_level: c.storage_config.compression_level,
            deduplication_enabled: c.storage_config.deduplication_enabled,
            cleanup_after_days: c.storage_config.cleanup_after_days,
        },
    }
}

/// The name of a task type.
pub fn task_type_name(t: TaskType) -> (s: &'static str)
    ensures
        s@ == task_type_text(t),
{
    match t {
        TaskType::Transcoding => "Transcoding",
        TaskType::VirusScanning => "VirusScanning",
        TaskType::ThumbnailGeneration => "ThumbnailGeneration",
        TaskType::MetadataExtraction => "MetadataExtraction",
        TaskType::Validation => "Validation",
    }
}

/// Per-user bandwidth records and the server's totals.
pub struct BandwidthManager {
    user_bandwidth: StrMap<BandwidthInfo>,
    server_bandwidth: ServerBandwidthInfo,
}

/// Sum of the current upload (or, with `download`, download) speeds,
/// stopping at `u64::MAX`.
pub open spec fn speed_sum(s: Seq<(String, BandwidthInfo)>, download: bool) -> u64
    decreases s.len(),
{
    if s.len() == 0 {
        0
    } else {
        add64(
            speed_sum(s.drop_last(), download),
            if download { s.last().1.current_download_speed } else { s.last().1.current_upload_speed },
        )
    }
}

/// The server's record refreshed at `now` from the user records
/// `entries`: the totals are the sums of the current speeds, the peaks the
/// larger of the old peak and the new total.
pub open spec fn refreshed_server(old: ServerBandwidthInfo, entries: Seq<(String, BandwidthInfo)>, now: u64) -> ServerBandwidthInfo {
    let up = speed_sum(entries, false);
    let down = speed_sum(entries, true);
    ServerBandwidthInfo {
        total_upload_speed: up,
        total_download_speed: down,
        peak_upload_speed: if old.peak_upload_speed >= up { old.peak_upload_speed } else { up },
        peak_download_speed: if old.peak_download_speed >= down { old.peak_download_speed } else { down },
        last_update_ms: now,
    }
}

impl BandwidthManager {
    /// Bandwidth records by user.
    pub closed spec fn users(&self) -> Map<Seq<char>, BandwidthInfo> {
        self.user_bandwidth@
    }

    /// The records in the order they are kept.
    pub closed spec fn user_entries(&self) -> Seq<(String, BandwidthInfo)> {
        self.user_bandwidth.entries_seq()
    }

    /// The server's record.
    pub closed spec fn server(&self) -> ServerBandwidthInfo {
        self.server_bandwidth
    }

    /// Well-formedness: users are distinct.
    pub closed spec fn wf(&self) -> bool {
        self.user_bandwidth.wf()
    }

    /// No users and zero totals at `now`.
    pub fn new(now: u64) -> (b: Self)
        ensures
            b.wf(),
            b.users() == Map::<Seq<char>, BandwidthInfo>::empty(),
            b.server() == (ServerBandwidthInfo {
                total_upload_speed: 0,
                total_download_speed: 0,
                peak_upload_speed: 0,
                peak_download_speed: 0,
                last_update_ms: now,
            }),
    {
        BandwidthManager {
            user_bandwidth: StrMap::new(),
            server_bandwidth: ServerBandwidthInfo {
                total_upload_speed: 0,
                total_download_speed: 0,
                peak_upload_speed: 0,
                peak_download_speed: 0,
                last_update_ms: now,
            },
        }
    }

    /// Gives `user` the default allocation at `now` unless it has one.
    pub fn allocate_bandwidth(&mut self, user: &str, now: u64)
        requires
            old(self).wf(),
        ensures
            final(self).wf(),
            final(self).server() == old(self).server(),
            old(self).users().contains_key(user@) ==> final(self).users() == old(self).users(),
            !old(self).users().contains_key(user@) ==> final(self).users() == old(self).users().insert(
                user@,
                final(self).users()[user@],
            ) && default_bandwidth(final(self).users()[user@], now),
    {
        if !self.user_bandwidth.contains_key(user) {
            self.user_bandwidth.insert(
                user,
                BandwidthInfo {
                    current_upload_speed: 0,
                    current_download_speed: 0,
                    allocated_upload: 10485760,
                    allocated_download: 52428800,
                    last_update_ms: now,
                },
            );
        }
    }

    /// Drops the record of `user`.
    pub fn release_bandwidth(&mut self, user: &str)
        requires
            old(self).wf(),
        ensures
            final(self).wf(),
            final(self).server() == old(self).server(),
            final(self).users() == old(self).users().remove(user@),
    {
        self.user_bandwidth.remove(user);
    }

    /// Recomputes the server totals at `now` from the users' current speeds;
    /// the peaks keep the highest totals seen.
    pub fn update_bandwidth_stats(&mut self, now: u64)
        requires
            old(self).wf(),
        ensures
            final(self).wf(),
            final(self).users() == old(self).users(),
            final(self).user_entries() == old(self).user_entries(),
            final(self).server() == refreshed_server(old(self).server(), old(self).user_entries(), now),
    {
        let ghost s = self.user_bandwidth.entries_seq();
        let n = self.user_bandwidth.len();
        let mut up: u64 = 0;
        let mut down: u64 = 0;
        let mut i: usize = 0;
        while i < n
            invariant
                n == s.len(),
                s == self.user_bandwidth.entries_seq(),
                i <= n,
                up == speed_sum(s.subrange(0, i as int), false),
                down == speed_sum(s.subrange(0, i as int), true),
            decreases n - i,
        {
            proof {
                let t = s.subrange(0, i + 1);
                assert(t.drop_last() =~= s.subrange(0, i as int));
            }
            let info = self.user_bandwidth.value_at_index(i);
            up = sum64(up, info.current_upload_speed);
            down = sum64(down, info.current_download_speed);
            i = i + 1;
        }
        assert(s.subrange(0, n as int) =~= s);
        self.server_bandwidth.total_upload_speed = up;
        self.server_bandwidth.total_download_speed = down;
        if up > self.server_bandwidth.peak_upload_speed {
            self.server_bandwidth.peak_upload_speed = up;
        }
        if down > self.server_bandwidth.peak_download_speed {
            self.server_bandwidth.peak_download_speed = down;
        }
        self.server_bandwidth.last_update_ms = now;
    }
}

/// The media service: upload sessions, the processing queue, bandwidth
/// records and counters.
pub struct AsyncMediaService {
    config: AsyncMediaConfig,
    sessions: StrMap<UploadSession>,
    task_queue: StrMap<ProcessingTask>,
    stats: UploadStats,
    bandwidth_manager: BandwidthManager,
}

impl AsyncMediaService {
    /// The configuration.
    pub closed spec fn config_view(&self) -> AsyncMediaConfig {
        self.config
    }

    /// Upload sessions by id.
    pub closed spec fn session_map(&self) -> Map<Seq<char>, UploadSession> {
        self.sessions@
    }

    /// The sessions in the order they are kept.
    pub closed spec fn session_entries(&self) -> Seq<(String, UploadSession)> {
        self.sessions.entries_seq()
    }

    /// Processing tasks by id.
    pub closed spec fn task_map(&self) -> Map<Seq<char>, ProcessingTask> {
        self.task_queue@
    }

    /// The tasks in the order they are kept.
    pub closed spec fn task_entries(&self) -> Seq<(String, ProcessingTask)> {
        self.task_queue.entries_seq()
    }

    /// The counters.
    pub closed spec fn stats_view(&self) -> UploadStats {
        self.stats
    }

    /// The bandwidth records and the server's totals.
    pub closed spec fn bandwidth_view(&self) -> BandwidthManager {
        self.bandwidth_manager
    }

    /// Bandwidth records by user.
    pub closed spec fn bandwidth_users(&self) -> Map<Seq<char>, BandwidthInfo> {
        self.bandwidth_manager.users()
    }

    /// Well-formedness: maps keep distinct keys, the chunk size is positive,
    /// and each session has one mark per chunk.
    pub closed spec fn wf(&self) -> bool {
        &&& self.sessions.wf()
        &&& self.task_queue.wf()
        &&& self.bandwidth_manager.wf()
        &&& self.config.chunk_size > 0
        &&& forall|k: Seq<char>| #[trigger] self.sessions@.contains_key(k) ==> self.sessions@[k].uploaded_chunks@.len()
            == self.sessions@[k].chunk_count
    }

    /// A service with no sessions, tasks or users (the storage directory is
    /// created by the caller); the chunk size must be positive.
    pub fn new(config: AsyncMediaConfig, now: u64) -> (s: Self)
        requires
            config.chunk_size > 0,
        ensures
            s.wf(),
            s.config_view() == config,
            s.session_map() == Map::<Seq<char>, UploadSession>::empty(),
            s.task_map() == Map::<Seq<char>, ProcessingTask>::empty(),
            s.bandwidth_users() == Map::<Seq<char>, BandwidthInfo>::empty(),
            s.stats_view() == (UploadStats {
                total_uploads: 0,
                successful_uploads: 0,
                failed_uploads: 0,
                total_bytes_uploaded: 0,
                active_sessions: 0,
                transcoding_queue_size: 0,
                scanning_queue_size: 0,
            }),
    {
        AsyncMediaService {
            config,
            sessions: StrMap::new(),
            task_queue: StrMap::new(),
            stats: UploadStats {
                total_uploads: 0,
                successful_uploads: 0,
                failed_uploads: 0,
                total_bytes_uploaded: 0,
                active_sessions: 0,
                transcoding_queue_size: 0,
                scanning_queue_size: 0,
            },
            bandwidth_manager: BandwidthManager::new(now),
        }
    }

    /// `after` is this service after `user` started uploading `filename`
    /// (`content_type`, `total_size` bytes) at `now` under `session_id`,
    /// answering `r`: a file over the size limit is refused; otherwise a
    /// fresh session is recorded, the user gets a bandwidth record, and the
    /// upload is counted. Tasks are untouched.
    pub open spec fn upload_started(
        self,
        after: Self,
        user: Seq<char>,
        filename: Seq<char>,
        content_type: Seq<char>,
        total_size: u64,
        now: u64,
        session_id: Seq<char>,
        r: Result<String, ServiceError>,
    ) -> bool {
        &&& after.config_view() == self.config_view()
        &&& after.task_map() == self.task_map()
        &&& total_size > self.config_view().max_file_size ==> {
            &&& r matches Err(e) && is_error(e, ErrorKind::Unknown, "File too large"@)
            &&& after.session_map() == self.session_map()
            &&& after.stats_view() == self.stats_view()
            &&& after.bandwidth_users() == self.bandwidth_users()
        }
        &&& total_size <= self.config_view().max_file_size ==> {
            let s = after.session_map()[session_id];
            &&& r matches Ok(id) && id@ == session_id
            &&& after.session_map() == self.session_map().insert(session_id, s)
            &&& fresh_session(s, session_id, user, filename, content_type, total_size, self.config_view().chunk_size, now)
            &&& after.bandwidth_users().contains_key(user)
            &&& after.stats_view() == (UploadStats {
                total_uploads: crate::counters::inc64(self.stats_view().total_uploads),
                active_sessions: crate::counters::inc32(self.stats_view().active_sessions),
                ..self.stats_view()
            })
        }
    }

    /// Starts an upload session for `user` at `now` under `session_id`:
    /// files over the maximum size are refused; otherwise the user gets a
    /// bandwidth allocation and the session, with one mark per chunk, lives
    /// for an hour.
    pub fn start_upload_session_with(
        &mut self,
        user: &str,
        filename: &str,
        content_type: &str,
        total_size: u64,
        now: u64,
        session_id: String,
    ) -> (r: Result<String, ServiceError>)
        requires
            old(self).wf(),
            total_size <= old(self).config_view().max_file_size ==> total_size + old(self).config_view().chunk_size - 1
                <= u64::MAX,
            now + 3600000 <= u64::MAX,
        ensures
            final(self).wf(),
            old(self).upload_started(*final(self), user@, filename@, content_type@, total_size, now, session_id@, r),
    {
        if total_size > self.config.max_file_size {
            return Err(make_error(ErrorKind::Unknown, "File too large"));
        }
        self.bandwidth_manager.allocate_bandwidth(user, now);
        let cs = self.config.chunk_size;
        let chunk_count = ((total_size + (cs - 1)) / cs) as u32;
        let mut marks: Vec<bool> = Vec::new();
        let mut i: u32 = 0;
        while i < chunk_count
            invariant
                i <= chunk_count,
                marks@.len() == i,
                forall|j: int| 0 <= j < marks@.len() ==> !#[trigger] marks@[j],
            decreases chunk_count - i,
        {
            marks.push(false);
            i = i + 1;
        }
        let session = UploadSession {
            session_id: session_id.clone(),
            user_id: String::from_str(user),
            filename: String::from_str(filename),
            content_type: String::from_str(content_type),
            total_size,
            uploaded_size: 0,
            chunk_count,
            uploaded_chunks: marks,
            state: UploadState::Initialized,
            mxc_uri: None,
            file_hash: None,
            created_at_ms: now,
            updated_at_ms: now,
            expires_at_ms: now + 3600000,
        };
        let ghost old_sessions = self.sessions@;
        self.sessions.insert(session_id.as_str(), session);
        proof {
            assert forall|k: Seq<char>| #[trigger] self.sessions@.contains_key(k) implies self.sessions@[k].uploaded_chunks@.len()
                == self.sessions@[k].chunk_count by {
                if k != session_id@ {
                    assert(old_sessions.contains_key(k));
                }
            }
        }
        self.stats.total_uploads = bump64(self.stats.total_uploads);
        self.stats.active_sessions = crate::counters::bump32(self.stats.active_sessions);
        Ok(session_id)
    }

    /// Starts an upload session under a fresh id (`upload_`, the time in
    /// milliseconds, `_` and a random number); see
    /// `start_upload_session_with`.
    pub fn start_upload_session(
        &mut self,
        user: &str,
        filename: &str,
        content_type: &str,
        total_size: u64,
        now: u64,
    ) -> (r: Result<String, ServiceError>)
        requires
            old(self).wf(),
            total_size <= old(self).config_view().max_file_size ==> total_size + old(self).config_view().chunk_size - 1
                <= u64::MAX,
            now + 3600000 <= u64::MAX,
        ensures
            final(self).wf(),
            exists|n: u32|
                #[trigger] old(self).upload_started(
                    *final(self),
                    user@,
                    filename@,
                    content_type@,
                    total_size,
                    now,
                    "upload_"@ + decimal(now as nat) + "_"@ + decimal(n as nat),
                    r,
                ),
    {
        let mut session_id = String::from_str("upload_");
        let millis = u64_to_decimal(now);
        session_id.append(millis.as_str());
        session_id.append("_");
        let k = random_u32();
        let n = u64_to_decimal(k as u64);
        session_id.append(n.as_str());
        proof {
            reveal_strlit("upload_");
            reveal_strlit("_");
        }
        let ghost sid = session_id@;
        assert(sid == "upload_"@ + decimal(now as nat) + "_"@ + decimal(k as nat));
        let r = self.start_upload_session_with(user, filename, content_type, total_size, now, session_id);
        proof {
            assert(old(self).upload_started(*self, user@, filename@, content_type@, total_size, now, sid, r));
        }
        r
    }

    /// Records chunk `chunk_index` of `chunk_len` bytes for a session at
    /// `now` (the caller saves its data). Unknown sessions, indices past the
    /// last chunk and chunks already uploaded are refused. The session is
    /// then uploading; the progress returned says so. When every chunk is
    /// in, the session moves on to processing and `true` is returned with
    /// the progress: the caller assembles the file and queues its
    /// processing.
    pub fn upload_chunk(&mut self, session_id: &str, chunk_index: u32, chunk_len: u64, now: u64) -> (r: Result<
        (UploadProgress, bool),
        ServiceError,
    >)
        requires
            old(self).wf(),
        ensures
            final(self).wf(),
            final(self).config_view() == old(self).config_view(),
            final(self).task_map() == old(self).task_map(),
            final(self).stats_view() == old(self).stats_view(),
            !old(self).session_map().contains_key(session_id@) ==> {
                &&& r matches Err(e) && is_error(e, ErrorKind::NotFound, "Upload session not found"@)
                &&& final(self).session_map() == old(self).session_map()
            },
            old(self).session_map().contains_key(session_id@) ==> {
                let s = old(self).session_map()[session_id@];
                if chunk_index >= s.uploaded_chunks@.len() {
                    &&& r matches Err(e) && is_error(e, ErrorKind::Unknown, "Invalid chunk index"@)
                    &&& final(self).session_map() == old(self).session_map()
                } else if s.uploaded_chunks@[chunk_index as int] {
                    &&& r matches Err(e) && is_error(e, ErrorKind::Unknown, "Chunk already uploaded"@)
                    &&& final(self).session_map() == old(self).session_map()
                } else {
                    let t = final(self).session_map()[session_id@];
                    let marks = s.uploaded_chunks@.update(chunk_index as int, true);
                    let done = uploaded_count(marks) == s.chunk_count;
                    &&& final(self).session_map() == old(self).session_map().insert(session_id@, t)
                    &&& t.uploaded_chunks@ == marks
                    &&& t.uploaded_size == add64(s.uploaded_size, chunk_len)
                    &&& t.updated_at_ms == now
                    &&& t.state == (if done { UploadState::Processing } else { UploadState::Uploading })
                    &&& t.session_id == s.session_id && t.user_id == s.user_id && t.total_size == s.total_size
                    &&& t.chunk_count == s.chunk_count && t.expires_at_ms == s.expires_at_ms
                    &&& t.created_at_ms == s.created_at_ms
                    &&& t.filename == s.filename && t.content_type == s.content_type
                    &&& t.mxc_uri == s.mxc_uri && t.file_hash == s.file_hash
                    &&& r matches Ok((p, complete)) && complete == done && p.session_id@ == session_id@
                        && p.uploaded_bytes == t.uploaded_size && p.total_bytes == s.total_size && p.upload_speed == 0
                        && p.eta_seconds is None && p.state == UploadState::Uploading && p.current_task is None
                }
            },
    {
        let ghost old_sessions = self.sessions@;
        let mut s = match self.sessions.remove(session_id) {
            None => {
                return Err(make_error(ErrorKind::NotFound, "Upload session not found"));
            },
            Some(s) => s,
        };
        if chunk_index as usize >= s.uploaded_chunks.len() {
            self.sessions.insert(session_id, s);
            proof {
                assert(self.sessions@ =~= old_sessions);
            }
            return Err(make_error(ErrorKind::Unknown, "Invalid chunk index"));
        }
        if s.uploaded_chunks[chunk_index as usize] {
            self.sessions.insert(session_id, s);
            proof {
                assert(self.sessions@ =~= old_sessions);
            }
            return Err(make_error(ErrorKind::Unknown, "Chunk already uploaded"));
        }
        s.state = UploadState::Uploading;
        s.uploaded_chunks.set(chunk_index as usize, true);
        s.uploaded_size = sum64(s.uploaded_size, chunk_len);
        s.updated_at_ms = now;
        let n = s.uploaded_chunks.len();
        let mut count: usize = 0;
        let mut i: usize = 0;
        while i < n
            invariant
                n == s.uploaded_chunks@.len(),
                i <= n,
                count <= i,
                count == uploaded_count(s.uploaded_chunks@.subrange(0, i as int)),
            decreases n - i,
        {
            proof {
                let t = s.uploaded_chunks@.subrange(0, i + 1);
                assert(t.drop_last() =~= s.uploaded_chunks@.subrange(0, i as int));
            }
            if s.uploaded_chunks[i] {
                count = count + 1;
            }
            i = i + 1;
        }
        assert(s.uploaded_chunks@.subrange(0, n as int) =~= s.uploaded_chunks@);
        let progress = UploadProgress {
            session_id: String::from_str(session_id),
            uploaded_bytes: s.uploaded_size,
            total_bytes: s.total_size,
            upload_speed: 0,
            eta_seconds: None,
            state: UploadState::Uploading,
            current_task: None,
        };
        let complete = count == s.chunk_count as usize;
        if complete {
            s.state = UploadState::Processing;
        }
        self.sessions.insert(session_id, s);
        proof {
            assert(self.sessions@ =~= old_sessions.insert(session_id@, self.sessions@[session_id@]));
            assert forall|k: Seq<char>| #[trigger] self.sessions@.contains_key(k) implies self.sessions@[k].uploaded_chunks@.len()
                == self.sessions@[k].chunk_count by {
                if k != session_id@ {
                    assert(old_sessions.contains_key(k));
                }
            }
        }
        Ok((progress, complete))
    }

    /// The name of the first running task of a session, if any.
    fn get_current_task(&self, session_id: &str) -> (r: Option<String>)
        requires
            self.wf(),
        ensures
            match r {
                Some(name) => exists|i: int| 0 <= i < self.task_entries().len() && #[trigger] self.task_entries()[i].1.session_id@
                    == session_id@ && self.task_entries()[i].1.status == TaskStatus::Running && name@ == task_type_text(
                    self.task_entries()[i].1.task_type,
                ),
                None => forall|i: int| 0 <= i < self.task_entries().len() ==> !(#[trigger] self.task_entries()[i].1.session_id@
                    == session_id@ && self.task_entries()[i].1.status == TaskStatus::Running),
            },
    {
        let n = self.task_queue.len();
        let mut i: usize = 0;
        while i < n
            invariant
                n == self.task_queue.spec_len(),
                i <= n,
                forall|j: int| 0 <= j < i ==> !(#[trigger] self.task_queue.entries_seq()[j].1.session_id@ == session_id@
                    && self.task_queue.entries_seq()[j].1.status == TaskStatus::Running),
            decreases n - i,
        {
            let t = self.task_queue.value_at_index(i);
            if str_eq(t.session_id.as_str(), session_id) && t.status == TaskStatus::Running {
                return Some(String::from_str(task_type_name(t.task_type)));
            }
            i = i + 1;
        }
        None
    }

    /// The progress of a session, with the task it is running, if any.
    pub fn get_upload_progress(&self, session_id: &str) -> (r: Option<UploadProgress>)
        requires
            self.wf(),
        ensures
            !self.session_map().contains_key(session_id@) ==> r is None,
            self.session_map().contains_key(session_id@) ==> (r matches Some(p) && p.session_id@ == session_id@
                && p.uploaded_bytes == self.session_map()[session_id@].uploaded_size && p.total_bytes
                == self.session_map()[session_id@].total_size && p.state == self.session_map()[session_id@].state
                && p.upload_speed == 0 && p.eta_seconds is None),
    {
        match self.sessions.get(session_id) {
            None => None,
            Some(s) => Some(
                UploadProgress {
                    session_id: String::from_str(session_id),
                    uploaded_bytes: s.uploaded_size,
                    total_bytes: s.total_size,
                    upload_speed: 0,
                    eta_seconds: None,
                    state: s.state,
                    current_task: self.get_current_task(session_id),
                },
            ),
        }
    }

    /// Cancels a session of `user`: the session is dropped, its tasks are
    /// cancelled, the user's bandwidth record released and the active count
    /// lowered (the caller removes the session's files). Someone else's
    /// session is refused.
    pub fn cancel_upload(&mut self, session_id: &str, user: &str) -> (r: Result<(), ServiceError>)
        requires
            old(self).wf(),
        ensures
            final(self).wf(),
            final(self).config_view() == old(self).config_view(),
            !old(self).session_map().contains_key(session_id@) ==> {
                &&& r matches Err(e) && is_error(e, ErrorKind::NotFound, "Upload session not found"@)
                &&& final(self).session_map() == old(self).session_map()
                &&& final(self).task_map() == old(self).task_map()
            },
            old(self).session_map().contains_key(session_id@) && old(self).session_map()[session_id@].user_id@ != user@ ==> {
                &&& r matches Err(e) && is_error(e, ErrorKind::Forbidden, "Not authorized"@)
                &&& final(self).session_map() == old(self).session_map()
                &&& final(self).task_map() == old(self).task_map()
            },
            old(self).session_map().contains_key(session_id@) && old(self).session_map()[session_id@].user_id@ == user@ ==> {
                &&& r is Ok
                &&& final(self).session_map() == old(self).session_map().remove(session_id@)
                &&& final(self).bandwidth_users() == old(self).bandwidth_users().remove(user@)
                &&& final(self).stats_view() == (UploadStats {
                    active_sessions: crate::counters::dec32(old(self).stats_view().active_sessions),
                    ..old(self).stats_view()
                })
                &&& final(self).task_map().dom() == old(self).task_map().dom()
                &&& forall|k: Seq<char>| #[trigger] final(self).task_map().contains_key(k) ==> {
                    let t0 = old(self).task_map()[k];
                    let t1 = final(self).task_map()[k];
                    &&& t1 == after_cancel(t0, session_id@)
                }
            },
    {
        let owner_ok = match self.sessions.get(session_id) {
            None => {
                return Err(make_error(ErrorKind::NotFound, "Upload session not found"));
            },
            Some(s) => str_eq(s.user_id.as_str(), user),
        };
        if !owner_ok {
            return Err(make_error(ErrorKind::Forbidden, "Not authorized"));
        }
        let ghost old_sessions = self.sessions@;
        self.sessions.remove(session_id);
        proof {
            assert forall|k: Seq<char>| #[trigger] self.sessions@.contains_key(k) implies self.sessions@[k].uploaded_chunks@.len()
                == self.sessions@[k].chunk_count by {
                assert(old_sessions.contains_key(k));
            }
        }
        self.cancel_processing_tasks(session_id);
        self.bandwidth_manager.release_bandwidth(user);
        self.stats.active_sessions = crate::counters::drop32(self.stats.active_sessions);
        Ok(())
    }

    /// The counters.
    pub fn get_upload_stats(&self) -> (s: UploadStats)
        ensures
            s == self.stats_view(),
    {
        self.stats
    }

    /// The ids of the sessions of `user`, in the order they are kept.
    pub fn get_user_sessions(&self, user: &str) -> (r: Vec<String>)
        requires
            self.wf(),
        ensures
            crate::enterprise::audit::string_views(r@) == user_session_ids(self.session_entries(), user@),
    {
        let ghost s = self.sessions.entries_seq();
        let n = self.sessions.len();
        let mut out: Vec<String> = Vec::new();
        let mut i: usize = 0;
        while i < n
            invariant
                n == s.len(),
                s == self.sessions.entries_seq(),
                i <= n,
                crate::enterprise::audit::string_views(out@) == user_session_ids(s.subrange(0, i as int), user@),
            decreases n - i,
        {
            proof {
                let t = s.subrange(0, i + 1);
                assert(t.drop_last() =~= s.subrange(0, i as int));
            }
            let x = self.sessions.value_at_index(i);
            if str_eq(x.user_id.as_str(), user) {
                let ghost before = out@;
                out.push(x.session_id.clone());
                assert(crate::enterprise::audit::string_views(out@) =~= crate::enterprise::audit::string_views(before).push(
                    x.session_id@,
                ));
            }
            i = i + 1;
        }
        assert(s.subrange(0, n as int) =~= s);
        out
    }

    /// `after` is this service after the processing of session
    /// `session_id` was queued at `now` under `task_ids`, one per task the
    /// configuration asks for: each new task is pending on the session's
    /// temporary file; the other tasks stay as they were.
    pub open spec fn processing_queued(self, after: Self, session_id: Seq<char>, now: u64, task_ids: Seq<String>) -> bool {
        &&& after.config_view() == self.config_view()
        &&& after.session_map() == self.session_map()
        &&& after.stats_view() == self.stats_view()
        &&& after.bandwidth_users() == self.bandwidth_users()
        &&& forall|k: Seq<char>| #[trigger] after.task_map().contains_key(k) ==> self.task_map().contains_key(k)
            || named_before(task_ids, task_ids.len() as int, k)
        &&& forall|k: Seq<char>| self.task_map().contains_key(k) && !named_before(task_ids, task_ids.len() as int, k)
            ==> #[trigger] after.task_map().contains_key(k) && after.task_map()[k] == self.task_map()[k]
        &&& forall|i: int| 0 <= i < task_ids.len() && (forall|j: int| i < j < task_ids.len() ==> task_ids[j]@ != task_ids[i]@) ==> {
            let t = #[trigger] after.task_map()[task_ids[i]@];
            &&& after.task_map().contains_key(task_ids[i]@)
            &&& t.task_id@ == task_ids[i]@
            &&& t.session_id@ == session_id
            &&& t.task_type == queued_types(self.config_view())[i]
            &&& t.status == TaskStatus::Pending
            &&& t.progress_percent == 0
            &&& t.input_path@ == spec_path_join(self.config_view().storage_config.base_path@, session_id + ".tmp"@)
            &&& t.output_path is None
            &&& t.created_at_ms == now
            &&& t.started_at_ms is None
            &&& t.completed_at_ms is None
        }
    }

    /// Queues the processing of a session whose file was assembled, at
    /// `now`: virus scanning and transcoding where enabled, then metadata
    /// extraction, each pending, reading the session's temporary file. The
    /// task ids are taken from `task_ids`, one per task, in that order.
    #[verifier::spinoff_prover]
    pub fn start_file_processing_with(&mut self, session_id: &str, now: u64, task_ids: &Vec<String>)
        requires
            old(self).wf(),
            task_ids@.len() == queued_types(old(self).config_view()).len(),
        ensures
            final(self).wf(),
            old(self).processing_queued(*final(self), session_id@, now, task_ids@),
    {
        let ghost types = queued_types(self.config);
        let mut kinds: Vec<TaskType> = Vec::new();
        if self.config.virus_scanning_enabled {
            kinds.push(TaskType::VirusScanning);
        }
        if self.config.transcoding_enabled {
            kinds.push(TaskType::Transcoding);
        }
        kinds.push(TaskType::MetadataExtraction);
        assert(kinds@ =~= types);
        let mut name = String::from_str(session_id);
        name.append(".tmp");
        let input_path = path_join(self.config.storage_config.base_path.as_str(), name.as_str());
        let ghost old_map = self.task_queue@;
        let mut i: usize = 0;
        while i < kinds.len()
            invariant
                kinds@ == types,
                task_ids@.len() == types.len(),
                i <= kinds@.len(),
                input_path@ == spec_path_join(self.config.storage_config.base_path@, session_id@ + ".tmp"@),
                self.task_queue.wf(),
                self.sessions == old(self).sessions,
                self.stats == old(self).stats,
                self.config == old(self).config,
                self.bandwidth_manager == old(self).bandwidth_manager,
                self.config.chunk_size > 0,
                types == queued_types(self.config),
                forall|k: Seq<char>| #[trigger] self.task_queue@.contains_key(k) ==> old_map.contains_key(k) || named_before(
                    task_ids@,
                    i as int,
                    k,
                ),
                forall|k: Seq<char>| old_map.contains_key(k) && !named_before(task_ids@, i as int, k)
                    ==> #[trigger] self.task_queue@.contains_key(k) && self.task_queue@[k] == old_map[k],
                forall|a: int| 0 <= a < i && (forall|j: int| a < j < i ==> task_ids@[j]@ != task_ids@[a]@) ==> {
                    let t = #[trigger] self.task_queue@[task_ids@[a]@];
                    &&& self.task_queue@.contains_key(task_ids@[a]@)
                    &&& t.task_id@ == task_ids@[a]@
                    &&& t.session_id@ == session_id@
                    &&& t.task_type == types[a]
                    &&& t.status == TaskStatus::Pending
                    &&& t.progress_percent == 0
                    &&& t.input_path@ == spec_path_join(self.config.storage_config.base_path@, session_id@ + ".tmp"@)
                    &&& t.output_path is None
                    &&& t.created_at_ms == now
                    &&& t.started_at_ms is None
                    &&& t.completed_at_ms is None
                },
            decreases kinds@.len() - i,
        {
            let task = ProcessingTask {
                task_id: task_ids[i].clone(),
                session_id: String::from_str(session_id),
                task_type: kinds[i],
                status: TaskStatus::Pending,
                progress_percent: 0,
                input_path: input_path.clone(),
                output_path: None,
                metadata: TaskMetadata {
                    original_format: None,
                    target_format: None,
                    quality_settings: None,
                    scan_results: None,
                    extracted_metadata: None,
                },
                created_at_ms: now,
                started_at_ms: None,
                completed_at_ms: None,
            };
            let ghost prev = self.task_queue@;
            self.task_queue.insert(task_ids[i].as_str(), task);
            proof {
                let ki = task_ids@[i as int]@;
                assert forall|k: Seq<char>| #[trigger] self.task_queue@.contains_key(k) implies old_map.contains_key(k) || named_before(
                    task_ids@,
                    i + 1,
                    k,
                ) by {
                    if k != ki {
                        assert(prev.contains_key(k));
                        if named_before(task_ids@, i as int, k) {
                            let j = choose|j: int| 0 <= j < i && #[trigger] task_ids@[j]@ == k;
                            assert(0 <= j < i + 1 && task_ids@[j]@ == k);
                        }
                    } else {
                        assert(task_ids@[i as int]@ == k);
                    }
                }
                assert forall|k: Seq<char>| old_map.contains_key(k) && !named_before(task_ids@, i + 1, k)
                    implies #[trigger] self.task_queue@.contains_key(k) && self.task_queue@[k] == old_map[k] by {
                    if k == ki {
                        assert(task_ids@[i as int]@ == k);
                    }
                    if named_before(task_ids@, i as int, k) {
                        let j = choose|j: int| 0 <= j < i && #[trigger] task_ids@[j]@ == k;
                        assert(0 <= j < i + 1 && task_ids@[j]@ == k);
                    }
                }
                assert forall|a: int| 0 <= a < i + 1 && (forall|j: int| a < j < i + 1 ==> task_ids@[j]@ != task_ids@[a]@) implies {
                    let t = #[trigger] self.task_queue@[task_ids@[a]@];
                    &&& self.task_queue@.contains_key(task_ids@[a]@)
                    &&& t.task_id@ == task_ids@[a]@
                    &&& t.session_id@ == session_id@
                    &&& t.task_type == types[a]
                    &&& t.status == TaskStatus::Pending
                    &&& t.progress_percent == 0
                    &&& t.input_path@ == spec_path_join(self.config.storage_config.base_path@, session_id@ + ".tmp"@)
                    &&& t.output_path is None
                    &&& t.created_at_ms == now
                    &&& t.started_at_ms is None
                    &&& t.completed_at_ms is None
                } by {
                    if a < i {
                        assert(task_ids@[i as int]@ != task_ids@[a]@);
                        assert(forall|j: int| a < j < i ==> task_ids@[j]@ != task_ids@[a]@);
                    }
                }
            }
            i = i + 1;
        }
        proof {
            assert forall|k: Seq<char>| old(self).task_map().contains_key(k) && !named_before(task_ids@, task_ids@.len() as int, k)
                implies #[trigger] self.task_map().contains_key(k) && self.task_map()[k] == old(self).task_map()[k] by {
                assert(old_map.contains_key(k));
                assert(i as int == task_ids@.len());
                assert(self.task_queue@.contains_key(k) && self.task_queue@[k] == old_map[k]);
            }
        }
    }

    /// Queues the processing of a session at `now` under fresh task ids
    /// (`task_`, the time in milliseconds, `_` and a random number); see
    /// `start_file_processing_with`.
    pub fn start_file_processing(&mut self, session_id: &str, now: u64)
        requires
            old(self).wf(),
        ensures
            final(self).wf(),
            exists|task_ids: Seq<String>|
                #[trigger] old(self).processing_queued(*final(self), session_id@, now, task_ids) && task_ids.len()
                    == queued_types(old(self).config_view()).len() && forall|i: int|
                    0 <= i < task_ids.len() ==> has_prefix(#[trigger] task_ids[i]@, "task_"@ + decimal(now as nat) + "_"@),
    {
        let mut ids: Vec<String> = Vec::new();
        let mut count: usize = 1;
        if self.config.virus_scanning_enabled {
            count = count + 1;
        }
        if self.config.transcoding_enabled {
            count = count + 1;
        }
        let millis = u64_to_decimal(now);
        let mut i: usize = 0;
        proof {
            reveal_strlit("task_");
            reveal_strlit("_");
        }
        let ghost prefix = "task_"@ + decimal(now as nat) + "_"@;
        while i < count
            invariant
                i <= count,
                ids@.len() == i,
                millis@ == decimal(now as nat),
                prefix == "task_"@ + decimal(now as nat) + "_"@,
                forall|j: int| 0 <= j < i ==> has_prefix(#[trigger] ids@[j]@, prefix),
            decreases count - i,
        {
            let mut id = String::from_str("task_");
            id.append(millis.as_str());
            id.append("_");
            let n = u64_to_decimal(random_u32() as u64);
            id.append(n.as_str());
            assert(id@.subrange(0, prefix.len() as int) =~= prefix);
            ids.push(id);
            i = i + 1;
        }
        proof {
            let t = queued_types(self.config);
            assert(t.len() == count);
        }
        self.start_file_processing_with(session_id, now, &ids);
    }

    /// The ids of the pending tasks, in the order they are kept.
    pub fn pending_task_ids(&self) -> (r: Vec<String>)
        requires
            self.wf(),
        ensures
            crate::enterprise::audit::string_views(r@) == pending_ids(self.task_entries()),
    {
        let ghost s = self.task_queue.entries_seq();
        let n = self.task_queue.len();
        let mut out: Vec<String> = Vec::new();
        let mut i: usize = 0;
        while i < n
            invariant
                n == s.len(),
                s == self.task_queue.entries_seq(),
                i <= n,
                crate::enterprise::audit::string_views(out@) == pending_ids(s.subrange(0, i as int)),
            decreases n - i,
        {
            proof {
                let t = s.subrange(0, i + 1);
                assert(t.drop_last() =~= s.subrange(0, i as int));
            }
            if self.task_queue.value_at_index(i).status == TaskStatus::Pending {
                let ghost before = out@;
                let key = self.task_queue.key_at_index(i).clone();
                out.push(key);
                assert(crate::enterprise::audit::string_views(out@) =~= crate::enterprise::audit::string_views(before).push(
                    s[i as int].0@,
                ));
            }
            i = i + 1;
        }
        assert(s.subrange(0, n as int) =~= s);
        out
    }

    /// What task `task_id` does and the file it works on, where it exists.
    pub fn task_work(&self, task_id: &str) -> (r: Option<(TaskType, String)>)
        requires
            self.wf(),
        ensures
            !self.task_map().contains_key(task_id@) ==> r is None,
            self.task_map().contains_key(task_id@) ==> (r matches Some(w) && w.0 == self.task_map()[task_id@].task_type
                && w.1@ == self.task_map()[task_id@].input_path@),
    {
        match self.task_queue.get(task_id) {
            Some(t) => Some((t.task_type, t.input_path.clone())),
            None => None,
        }
    }

    /// Marks task `task_id` running from `now`, if it is queued.
    pub fn mark_task_running(&mut self, task_id: &str, now: u64)
        requires
            old(self).wf(),
        ensures
            final(self).wf(),
            final(self).config_view() == old(self).config_view(),
            final(self).session_map() == old(self).session_map(),
            final(self).stats_view() == old(self).stats_view(),
            !old(self).task_map().contains_key(task_id@) ==> final(self).task_map() == old(self).task_map(),
            old(self).task_map().contains_key(task_id@) ==> {
                let t0 = old(self).task_map()[task_id@];
                let t1 = final(self).task_map()[task_id@];
                &&& final(self).task_map() == old(self).task_map().insert(task_id@, t1)
                &&& t1 == (ProcessingTask { status: TaskStatus::Running, started_at_ms: Some(now), ..t0 })
            },
    {
        match self.task_queue.remove(task_id) {
            Some(mut t) => {
                t.status = TaskStatus::Running;
                t.started_at_ms = Some(now);
                self.task_queue.insert(task_id, t);
                proof {
                    assert(self.task_queue@ =~= old(self).task_queue@.insert(task_id@, self.task_queue@[task_id@]));
                }
            },
            None => {},
        }
    }

    /// Records at `now` that task `task_id` ran, successfully or not: it is
    /// completed or failed, at full progress.
    pub fn finish_task(&mut self, task_id: &str, succeeded: bool, now: u64)
        requires
            old(self).wf(),
        ensures
            final(self).wf(),
            final(self).config_view() == old(self).config_view(),
            final(self).session_map() == old(self).session_map(),
            final(self).stats_view() == old(self).stats_view(),
            !old(self).task_map().contains_key(task_id@) ==> final(self).task_map() == old(self).task_map(),
            old(self).task_map().contains_key(task_id@) ==> {
                let t0 = old(self).task_map()[task_id@];
                let t1 = final(self).task_map()[task_id@];
                &&& final(self).task_map() == old(self).task_map().insert(task_id@, t1)
                &&& t1 == (ProcessingTask {
                    status: if succeeded { TaskStatus::Completed } else { TaskStatus::Failed },
                    completed_at_ms: Some(now),
                    progress_percent: 100,
                    ..t0
                })
            },
    {
        match self.task_queue.remove(task_id) {
            Some(mut t) => {
                t.status = if succeeded { TaskStatus::Completed } else { TaskStatus::Failed };
                t.completed_at_ms = Some(now);
                t.progress_percent = 100;
                self.task_queue.insert(task_id, t);
                proof {
                    assert(self.task_queue@ =~= old(self).task_queue@.insert(task_id@, self.task_queue@[task_id@]));
                }
            },
            None => {},
        }
    }

    /// Drops the sessions past their expiry at `now`, lowering the active
    /// count by one for each; returns how many were dropped.
    pub fn cleanup_expired_sessions(&mut self, now: u64) -> (removed: usize)
        requires
            old(self).wf(),
        ensures
            final(self).wf(),
            final(self).config_view() == old(self).config_view(),
            final(self).task_map() == old(self).task_map(),
            forall|k: Seq<char>| #[trigger] final(self).session_map().contains_key(k) == (old(self).session_map().contains_key(
                k,
            ) && now <= old(self).session_map()[k].expires_at_ms),
            forall|k: Seq<char>| #[trigger] final(self).session_map().contains_key(k) ==> final(self).session_map()[k]
                == old(self).session_map()[k],
            final(self).stats_view() == (UploadStats {
                active_sessions: (if old(self).stats_view().active_sessions >= removed {
                    old(self).stats_view().active_sessions - removed
                } else {
                    0
                }) as u32,
                ..old(self).stats_view()
            }),
    {
        let n = self.sessions.len();
        let mut keep: Vec<bool> = Vec::new();
        let ghost pred = |s: UploadSession| now <= s.expires_at_ms;
        let mut i: usize = 0;
        while i < n
            invariant
                n == self.sessions.spec_len(),
                i <= n,
                keep@.len() == i,
                pred == (|s: UploadSession| now <= s.expires_at_ms),
                forall|j: int| 0 <= j < i ==> keep@[j] == pred(#[trigger] self.sessions.entries_seq()[j].1),
            decreases n - i,
        {
            keep.push(now <= self.sessions.value_at_index(i).expires_at_ms);
            i = i + 1;
        }
        let ghost old_sessions = self.sessions@;
        let removed = self.sessions.retain_marked(&keep, Ghost(pred));
        proof {
            assert forall|k: Seq<char>| #[trigger] self.sessions@.contains_key(k) implies self.sessions@[k].uploaded_chunks@.len()
                == self.sessions@[k].chunk_count by {
                assert(old_sessions.contains_key(k));
            }
        }
        let active = self.stats.active_sessions;
        self.stats.active_sessions = if (active as usize) >= removed {
            ((active as usize) - removed) as u32
        } else {
            0
        };
        removed
    }

    /// Refreshes the gauges: active sessions, and pending or running
    /// transcoding and scanning tasks (each count cut to `u32`).
    pub fn update_stats(&mut self)
        requires
            old(self).wf(),
        ensures
            final(self).wf(),
            final(self).config_view() == old(self).config_view(),
            final(self).session_map() == old(self).session_map(),
            final(self).task_map() == old(self).task_map(),
            final(self).stats_view() == (UploadStats {
                active_sessions: old(self).session_entries().len() as u32,
                transcoding_queue_size: queue_size(old(self).task_entries(), TaskType::Transcoding) as u32,
                scanning_queue_size: queue_size(old(self).task_entries(), TaskType::VirusScanning) as u32,
                ..old(self).stats_view()
            }),
    {
        let ghost s = self.task_queue.entries_seq();
        let n = self.task_queue.len();
        let mut transcoding: usize = 0;
        let mut scanning: usize = 0;
        let mut i: usize = 0;
        while i < n
            invariant
                n == s.len(),
                s == self.task_queue.entries_seq(),
                i <= n,
                transcoding == queue_size(s.subrange(0, i as int), TaskType::Transcoding),
                scanning == queue_size(s.subrange(0, i as int), TaskType::VirusScanning),
                transcoding <= i,
                scanning <= i,
            decreases n - i,
        {
            proof {
                let t = s.subrange(0, i + 1);
                assert(t.drop_last() =~= s.subrange(0, i as int));
            }
            let t = self.task_queue.value_at_index(i);
            let live = t.status == TaskStatus::Pending || t.status == TaskStatus::Running;
            if live && t.task_type == TaskType::Transcoding {
                transcoding = transcoding + 1;
            }
            if live && t.task_type == TaskType::VirusScanning {
                scanning = scanning + 1;
            }
            i = i + 1;
        }
        assert(s.subrange(0, n as int) =~= s);
        self.stats.active_sessions = self.sessions.len() as u32;
        self.stats.transcoding_queue_size = transcoding as u32;
        self.stats.scanning_queue_size = scanning as u32;
    }

    /// Refreshes the server bandwidth totals at `now` from the user
    /// records.
    pub fn update_bandwidth_stats(&mut self, now: u64)
        requires
            old(self).wf(),
        ensures
            final(self).wf(),
            final(self).config_view() == old(self).config_view(),
            final(self).stats_view() == old(self).stats_view(),
            final(self).session_map() == old(self).session_map(),
            final(self).task_map() == old(self).task_map(),
            final(self).bandwidth_users() == old(self).bandwidth_users(),
            final(self).bandwidth_view().user_entries() == old(self).bandwidth_view().user_entries(),
            final(self).bandwidth_view().server() == refreshed_server(
                old(self).bandwidth_view().server(),
                old(self).bandwidth_view().user_entries(),
                now,
            ),
    {
        self.bandwidth_manager.update_bandwidth_stats(now);
    }

    /// Marks every task of a session cancelled.
    fn cancel_processing_tasks(&mut self, session_id: &str)
        requires
            old(self).wf(),
        ensures
            final(self).wf(),
            final(self).config_view() == old(self).config_view(),
            final(self).session_map() == old(self).session_map(),
            final(self).stats_view() == old(self).stats_view(),
            final(self).bandwidth_users() == old(self).bandwidth_users(),
            final(self).task_map().dom() == old(self).task_map().dom(),
            forall|k: Seq<char>| #[trigger] final(self).task_map().contains_key(k) ==> {
                let t0 = old(self).task_map()[k];
                let t1 = final(self).task_map()[k];
                &&& t1 == after_cancel(t0, session_id@)
            },
    {
        let ghost old_map = self.task_queue@;
        let ghost s0 = self.task_queue.entries_seq();
        let n = self.task_queue.len();
        let mut i: usize = 0;
        while i < n
            invariant
                n == s0.len(),
                self.task_queue.wf(),
                self.sessions == old(self).sessions,
                self.stats == old(self).stats,
                self.config == old(self).config,
                self.bandwidth_manager == old(self).bandwidth_manager,
                self.config.chunk_size > 0,
                i <= n,
                self.task_queue@.dom() == old_map.dom(),
                self.task_queue.entries_seq().len() == n,
                forall|j: int| 0 <= j < n ==> (#[trigger] self.task_queue.entries_seq()[j]).0 == s0[j].0,
                forall|j: int| i <= j < n ==> (#[trigger] self.task_queue.entries_seq()[j]).1 == s0[j].1,
                forall|j: int| 0 <= j < i ==> {
                    let t0 = s0[j].1;
                    let t1 = (#[trigger] self.task_queue.entries_seq()[j]).1;
                    &&& t1 == after_cancel(t0, session_id@)
                },
            decreases n - i,
        {
            let matches = str_eq(self.task_queue.value_at_index(i).session_id.as_str(), session_id);
            if matches {
                let mut t = copy_task(self.task_queue.value_at_index(i));
                t.status = TaskStatus::Cancelled;
                proof {
                    self.task_queue.lemma_entry_in_map(i as int);
                }
                self.task_queue.set_value_at_index(i, t);
            }
            i = i + 1;
        }
        proof {
            assert forall|k: Seq<char>| #[trigger] self.task_queue@.contains_key(k) implies {
                let t0 = old(self).task_queue@[k];
                let t1 = self.task_queue@[k];
                &&& t1 == after_cancel(t0, session_id@)
            } by {
                let j = self.task_queue.lemma_key_has_entry(k);
                self.task_queue.lemma_entry_in_map(j);
                assert(s0[j].0@ == k);
                old(self).task_queue.lemma_entry_in_map(j);
            }
        }
    }
}

/// A copy of a processing task.
fn copy_task(t: &ProcessingTask) -> (r: ProcessingTask)
    ensures
        r == *t,
{
    let copy = |s: &Option<String>| -> (r: Option<String>)
        ensures
            r == *s,
        {
            match s {
                Some(x) => Some(x.clone()),
                None => None,
            }
        };
    ProcessingTask {
        task_id: t.task_id.clone(),
        session_id: t.session_id.clone(),
        task_type: t.task_type,
        status: t.status,
        progress_percent: t.progress_percent,
        input_path: t.input_path.clone(),
        output_path: copy(&t.output_path),
        metadata: TaskMetadata {
            original_format: copy(&t.metadata.original_format),
            target_format: copy(&t.metadata.target_format),
            quality_settings: copy(&t.metadata.quality_settings),
            scan_results: copy(&t.metadata.scan_results),
            extracted_metadata: copy(&t.metadata.extracted_metadata),
        },
        created_at_ms: t.created_at_ms,
        started_at_ms: t.started_at_ms,
        completed_at_ms: t.completed_at_ms,
    }
}

} // verus!
