//! The upload handler's bookkeeping: per-session chunk records, chunk
//! offsets and hashes, missing chunks, and the paths of the temporary and
//! final files. Reading and writing those files is the caller's part.
use vstd::prelude::*;
use vstd::string::*;

use crate::counters::add64;
use crate::error::{ErrorKind, ServiceError, is_error, make_error};
use crate::external::{spec_path_join, spec_sha256, path_join, sha256};
use crate::media::{AsyncMediaConfig, copy_config, chunk_count_of};
use crate::strmap::StrMap;

verus! {

/// A saved chunk; saved at a time in milliseconds.
#[derive(Debug)]
pub struct ChunkInfo {
    pub chunk_index: u32,
    pub offset: u64,
    pub size: u64,
    pub hash: String,
    pub uploaded_at_ms: u64,
}

/// Bookkeeping of one upload: `chunks` has one slot per chunk, filled once
/// the chunk is saved.
#[derive(Debug)]
pub struct UploadMetadata {
    pub session_id: String,
    pub filename: String,
    pub content_type: String,
    pub total_size: u64,
    pub chunk_size: u64,
    pub chunk_count: u32,
    pub chunks: Vec<Option<ChunkInfo>>,
    pub file_hash: Option<String>,
    pub temp_path: String,
    pub final_path: Option<String>,
}

/// Storage counters.
#[derive(Debug, Clone, Copy, PartialEq, Eq, Structural)]
pub struct StorageStats {
    pub total_size: u64,
    pub active_sessions: u32,
    pub temp_files: u32,
}

/// The lower-case hexadecimal digit of a value below 16.
pub open spec fn hex_lower_digit(d: u8) -> char {
    if d < 10 { ((48 + d) as u8) as char } else { ((87 + d) as u8) as char }
}

/// Lower-case hexadecimal text of bytes, two digits per byte.
pub open spec fn hex_lower(b: Seq<u8>) -> Seq<char>
    decreases b.len(),
{
    if b.len() == 0 {
        Seq::empty()
    } else {
        hex_lower(b.drop_last()) + seq![hex_lower_digit(b.last() / 16), hex_lower_digit(b.last() % 16)]
    }
}

/// The hash of chunk or file contents: lower-case hex of their SHA-256.
pub open spec fn content_hash(data: Seq<u8>) -> Seq<char> {
    hex_lower(spec_sha256(data))
}

/// Number of saved chunks.
pub open spec fn saved_count(c: Seq<Option<ChunkInfo>>) -> nat
    decreases c.len(),
{
    if c.len() == 0 {
        0
    } else {
        saved_count(c.drop_last()) + if c.last() is Some { 1nat } else { 0nat }
    }
}

/// Sum of the sizes of the saved chunks.
pub open spec fn saved_bytes(c: Seq<Option<ChunkInfo>>) -> nat
    decreases c.len(),
{
    if c.len() == 0 {
        0
    } else {
        saved_bytes(c.drop_last()) + match c.last() {
            Some(i) => i.size as nat,
            None => 0nat,
        }
    }
}

/// Indices, from 0 up to `n`, of the chunks not saved yet, in order.
pub open spec fn missing(c: Seq<Option<ChunkInfo>>, n: int) -> Seq<u32>
    decreases n,
{
    if n <= 0 || n > c.len() {
        Seq::empty()
    } else {
        let rest = missing(c, n - 1);
        if c[n - 1] is None { rest.push((n - 1) as u32) } else { rest }
    }
}

/// The temporary file of a session: `uploads/<session>.tmp` under the
/// storage directory.
pub open spec fn temp_path_of(base: Seq<char>, session_id: Seq<char>) -> Seq<char> {
    spec_path_join(spec_path_join(base, "uploads"@), session_id + ".tmp"@)
}

/// The metadata a session starts with.
pub open spec fn fresh_metadata(
    m: UploadMetadata,
    c: AsyncMediaConfig,
    session_id: Seq<char>,
    filename: Seq<char>,
    content_type: Seq<char>,
    total_size: u64,
) -> bool {
    &&& m.session_id@ == session_id
    &&& m.filename@ == filename
    &&& m.content_type@ == content_type
    &&& m.total_size == total_size
    &&& m.chunk_size == c.chunk_size
    &&& m.chunk_count == chunk_count_of(total_size, c.chunk_size)
    &&& m.chunks@.len() == m.chunk_count
    &&& forall|i: int| 0 <= i < m.chunks@.len() ==> #[trigger] m.chunks@[i] is None
    &&& m.file_hash is None
    &&& m.temp_path@ == temp_path_of(c.storage_config.base_path@, session_id)
    &&& m.final_path is None
}

/// The hash of `data`: lower-case hex of its SHA-256.
pub fn calculate_hash(data: &[u8]) -> (h: String)
    ensures
        h@ == content_hash(data@),
{
    let digest = sha256(data);
    hex_lower_of(&digest)
}

/// Lower-case hexadecimal text of bytes.
pub fn hex_lower_of(b: &Vec<u8>) -> (h: String)
    ensures
        h@ == hex_lower(b@),
{
    let mut h = String::new();
    let mut i: usize = 0;
    while i < b.len()
        invariant
            i <= b@.len(),
            h@ == hex_lower(b@.subrange(0, i as int)),
        decreases b@.len() - i,
    {
        let x = b[i];
        let hi = hex_digit_str(x / 16);
        let lo = hex_digit_str(x % 16);
        proof {
            let t = b@.subrange(0, i + 1);
            assert(t.drop_last() =~= b@.subrange(0, i as int));
            assert(t.last() == x);
        }
        let ghost before = h@;
        h.append(hi);
        h.append(lo);
        assert(h@ =~= before + seq![hex_lower_digit(x / 16), hex_lower_digit(x % 16)]);
        i = i + 1;
    }
    assert(b@.subrange(0, b@.len() as int) =~= b@);
    h
}

/// The text of one lower-case hexadecimal digit.
fn hex_digit_str(d: u8) -> (s: &'static str)
    requires
        d < 16,
    ensures
        s@ == seq![hex_lower_digit(d)],
{
    proof {
        reveal_strlit("0");
        reveal_strlit("1");
        reveal_strlit("2");
        reveal_strlit("3");
        reveal_strlit("4");
        reveal_strlit("5");
        reveal_strlit("6");
        reveal_strlit("7");
        reveal_strlit("8");
        reveal_strlit("9");
        reveal_strlit("a");
        reveal_strlit("b");
        reveal_strlit("c");
        reveal_strlit("d");
        reveal_strlit("e");
        reveal_strlit("f");
    }
    if d == 0 {
        "0"
    } else if d == 1 {
        "1"
    } else if d == 2 {
        "2"
    } else if d == 3 {
        "3"
    } else if d == 4 {
        "4"
    } else if d == 5 {
        "5"
    } else if d == 6 {
        "6"
    } else if d == 7 {
        "7"
    } else if d == 8 {
        "8"
    } else if d == 9 {
        "9"
    } else if d == 10 {
        "a"
    } else if d == 11 {
        "b"
    } else if d == 12 {
        "c"
    } else if d == 13 {
        "d"
    } else if d == 14 {
        "e"
    } else {
        "f"
    }
}

/// The chunk records of the uploads in progress.
pub struct UploadHandler {
    config: AsyncMediaConfig,
    upload_metadata: StrMap<UploadMetadata>,
}

impl UploadHandler {
    /// The configuration.
    pub closed spec fn config_view(&self) -> AsyncMediaConfig {
        self.config
    }

    /// Upload records by session id.
    pub closed spec fn uploads(&self) -> Map<Seq<char>, UploadMetadata> {
        self.upload_metadata@
    }

    /// Number of upload records.
    pub closed spec fn upload_count(&self) -> nat {
        self.upload_metadata.spec_len()
    }

    /// Well-formedness: keys are distinct, the chunk size is positive, and
    /// each record has one slot per chunk.
    pub closed spec fn wf(&self) -> bool {
        &&& self.upload_metadata.wf()
        &&& self.config.chunk_size > 0
        &&& forall|k: Seq<char>| #[trigger] self.upload_metadata@.contains_key(k) ==> {
            let m = self.upload_metadata@[k];
            &&& m.chunks@.len() == m.chunk_count
            &&& m.chunk_size == self.config.chunk_size
            &&& m.chunk_count as int * m.chunk_size <= m.total_size + m.chunk_size
        }
    }

    /// A handler with no uploads for `config` (whose chunk size must be
    /// positive: chunk counts divide by it).
    pub fn new(config: &AsyncMediaConfig) -> (h: Self)
        requires
            config.chunk_size > 0,
        ensures
            h.wf(),
            h.config_view() == *config,
            h.upload_count() == 0,
    {
        UploadHandler { config: copy_config(config), upload_metadata: StrMap::new() }
    }

    /// The temporary file of a session.
    pub fn get_temp_path(&self, session_id: &str) -> (p: String)
        ensures
            p@ == temp_path_of(self.config_view().storage_config.base_path@, session_id@),
    {
        let uploads = path_join(self.config.storage_config.base_path.as_str(), "uploads");
        let mut name = String::from_str(session_id);
        name.append(".tmp");
        path_join(uploads.as_str(), name.as_str())
    }

    /// Starts the record of an upload (its temporary file is created by the
    /// caller): one empty slot per chunk.
    pub fn initialize_session(&mut self, session_id: &str, filename: &str, content_type: &str, total_size: u64)
        requires
            old(self).wf(),
            total_size + old(self).config_view().chunk_size - 1 <= u64::MAX,
        ensures
            final(self).wf(),
            final(self).config_view() == old(self).config_view(),
            final(self).uploads() == old(self).uploads().insert(session_id@, final(self).uploads()[session_id@]),
            fresh_metadata(
                final(self).uploads()[session_id@],
                old(self).config_view(),
                session_id@,
                filename@,
                content_type@,
                total_size,
            ),
    {
        let cs = self.config.chunk_size;
        let chunk_count = ((total_size + (cs - 1)) / cs) as u32;
        proof {
            lemma_chunk_bound(total_size, cs);
        }
        let mut chunks: Vec<Option<ChunkInfo>> = Vec::new();
        let mut i: u32 = 0;
        while i < chunk_count
            invariant
                i <= chunk_count,
                chunks@.len() == i,
                forall|j: int| 0 <= j < chunks@.len() ==> #[trigger] chunks@[j] is None,
            decreases chunk_count - i,
        {
            chunks.push(None);
            i = i + 1;
        }
        let metadata = UploadMetadata {
            session_id: String::from_str(session_id),
            filename: String::from_str(filename),
            content_type: String::from_str(content_type),
            total_size,
            chunk_size: cs,
            chunk_count,
            chunks,
            file_hash: None,
            temp_path: self.get_temp_path(session_id),
            final_path: None,
        };
        let ghost old_map = self.upload_metadata@;
        self.upload_metadata.insert(session_id, metadata);
        proof {
            assert forall|k: Seq<char>| #[trigger] self.upload_metadata@.contains_key(k) implies {
                let m = self.upload_metadata@[k];
                &&& m.chunks@.len() == m.chunk_count
                &&& m.chunk_size == self.config.chunk_size
                &&& m.chunk_count as int * m.chunk_size <= m.total_size + m.chunk_size
            } by {
                if k != session_id@ {
                    assert(old_map.contains_key(k));
                }
            }
        }
    }

    /// Where chunk `chunk_index` of a session is written: the temporary file
    /// and the offset (index times chunk size). Unknown sessions and indices
    /// past the last chunk are refused.
    pub fn chunk_location(&self, session_id: &str, chunk_index: u32) -> (r: Result<(String, u64), ServiceError>)
        requires
            self.wf(),
        ensures
            !self.uploads().contains_key(session_id@) ==> (r matches Err(e) && is_error(
                e,
                ErrorKind::NotFound,
                "Upload session not found"@,
            )),
            self.uploads().contains_key(session_id@) ==> {
                let m = self.uploads()[session_id@];
                if chunk_index >= m.chunk_count {
                    r matches Err(e) && is_error(e, ErrorKind::Unknown, "Invalid chunk index"@)
                } else {
                    r matches Ok((p, off)) && p@ == m.temp_path@ && off == chunk_index * m.chunk_size
                }
            },
    {
        match self.upload_metadata.get(session_id) {
            None => Err(make_error(ErrorKind::NotFound, "Upload session not found")),
            Some(m) => {
                if chunk_index >= m.chunk_count {
                    return Err(make_error(ErrorKind::Unknown, "Invalid chunk index"));
                }
                proof {
                    assert(self.upload_metadata@.contains_key(session_id@));
                    lemma_offset_fits(chunk_index, m.chunk_count, m.chunk_size, m.total_size);
                }
                let offset = (chunk_index as u64) * m.chunk_size;
                Ok((m.temp_path.clone(), offset))
            },
        }
    }

    /// `after` is this handler after chunk `chunk_index` of upload
    /// `session_id`, `size` bytes with hash `hash`, was recorded at `now`,
    /// answering `r`: unknown uploads and indices past the last chunk are
    /// refused; otherwise the chunk's record (at its offset) replaces any
    /// earlier one.
    pub open spec fn chunk_recorded(
        self,
        after: Self,
        session_id: Seq<char>,
        chunk_index: u32,
        size: u64,
        hash: Seq<char>,
        now: u64,
        r: Result<(), ServiceError>,
    ) -> bool {
        &&& after.config_view() == self.config_view()
        &&& !self.uploads().contains_key(session_id) ==> {
            &&& r matches Err(e) && is_error(e, ErrorKind::NotFound, "Upload session not found"@)
            &&& after.uploads() == self.uploads()
        }
        &&& self.uploads().contains_key(session_id) ==> {
            let m = self.uploads()[session_id];
            if chunk_index >= m.chunk_count {
                &&& r matches Err(e) && is_error(e, ErrorKind::Unknown, "Invalid chunk index"@)
                &&& after.uploads() == self.uploads()
            } else {
                let m2 = after.uploads()[session_id];
                &&& r is Ok
                &&& after.uploads() == self.uploads().insert(session_id, m2)
                &&& m2.chunks@ == m.chunks@.update(chunk_index as int, m2.chunks@[chunk_index as int])
                &&& m2.chunks@[chunk_index as int] matches Some(info) && info.chunk_index == chunk_index
                    && info.offset == chunk_index * m.chunk_size && info.size == size && info.hash@ == hash
                    && info.uploaded_at_ms == now
                &&& m2.session_id == m.session_id && m2.filename == m.filename && m2.total_size == m.total_size
                &&& m2.content_type == m.content_type
                &&& m2.chunk_count == m.chunk_count && m2.chunk_size == m.chunk_size
                &&& m2.temp_path == m.temp_path && m2.final_path == m.final_path && m2.file_hash == m.file_hash
            }
        }
    }

    /// Records that chunk `chunk_index` of a session, `size` bytes with hash
    /// `hash`, was written at `now` at its offset.
    pub fn record_chunk(&mut self, session_id: &str, chunk_index: u32, size: u64, hash: String, now: u64) -> (r: Result<(), ServiceError>)
        requires
            old(self).wf(),
        ensures
            final(self).wf(),
            old(self).chunk_recorded(*final(self), session_id@, chunk_index, size, hash@, now, r),
    {
        let mut m = match self.upload_metadata.remove(session_id) {
            None => {
                assert(self.upload_metadata@ =~= old(self).upload_metadata@);
                return Err(make_error(ErrorKind::NotFound, "Upload session not found"));
            },
            Some(m) => m,
        };
        let ghost old_map = old(self).upload_metadata@;
        if chunk_index >= m.chunk_count {
            self.upload_metadata.insert(session_id, m);
            proof {
                assert(self.upload_metadata@ =~= old_map);
            }
            return Err(make_error(ErrorKind::Unknown, "Invalid chunk index"));
        }
        proof {
            lemma_offset_fits(chunk_index, m.chunk_count, m.chunk_size, m.total_size);
        }
        let offset = (chunk_index as u64) * m.chunk_size;
        let info = ChunkInfo { chunk_index, offset, size, hash, uploaded_at_ms: now };
        m.chunks.set(chunk_index as usize, Some(info));
        self.upload_metadata.insert(session_id, m);
        proof {
            assert(self.upload_metadata@ =~= old_map.insert(session_id@, self.upload_metadata@[session_id@]));
            assert forall|k: Seq<char>| #[trigger] self.upload_metadata@.contains_key(k) implies {
                let m = self.upload_metadata@[k];
                &&& m.chunks@.len() == m.chunk_count
                &&& m.chunk_size == self.config.chunk_size
                &&& m.chunk_count as int * m.chunk_size <= m.total_size + m.chunk_size
            } by {
                if k != session_id@ {
                    assert(old_map.contains_key(k));
                }
            }
        }
        Ok(())
    }

    /// Records chunk `chunk_index` of upload `session_id` from its bytes
    /// `data` at `now`: its size is their number and its hash their
    /// SHA-256 in lowercase hexadecimal, which is returned (see
    /// `record_chunk`).
    pub fn record_chunk_data(&mut self, session_id: &str, chunk_index: u32, data: &[u8], now: u64) -> (r: Result<String, ServiceError>)
        requires
            old(self).wf(),
        ensures
            final(self).wf(),
            old(self).chunk_recorded(
                *final(self),
                session_id@,
                chunk_index,
                data@.len() as u64,
                content_hash(data@),
                now,
                match r {
                    Ok(_) => Ok(()),
                    Err(e) => Err(e),
                },
            ),
            r matches Ok(h) ==> h@ == content_hash(data@),
    {
        let hash = calculate_hash(data);
        let result = hash.clone();
        match self.record_chunk(session_id, chunk_index, data.len() as u64, hash, now) {
            Ok(()) => Ok(result),
            Err(e) => Err(e),
        }
    }

    /// Whether the hash of `data` is `expected_hash`.
    pub fn chunk_hash_matches(data: &[u8], expected_hash: &str) -> (ok: bool)
        ensures
            ok == (content_hash(data@) == expected_hash@),
    {
        let h = calculate_hash(data);
        crate::text::str_eq(h.as_str(), expected_hash)
    }

    /// Number of saved chunks of a record.
    fn count_saved(chunks: &Vec<Option<ChunkInfo>>) -> (n: usize)
        ensures
            n == saved_count(chunks@),
    {
        let mut n: usize = 0;
        let mut i: usize = 0;
        while i < chunks.len()
            invariant
                i <= chunks@.len(),
                n == saved_count(chunks@.subrange(0, i as int)),
                n <= i,
            decreases chunks@.len() - i,
        {
            proof {
                let t = chunks@.subrange(0, i + 1);
                assert(t.drop_last() =~= chunks@.subrange(0, i as int));
            }
            if chunks[i].is_some() {
                n = n + 1;
            }
            i = i + 1;
        }
        assert(chunks@.subrange(0, chunks@.len() as int) =~= chunks@);
        n
    }

    /// Prepares assembling a session's file: all chunks must be saved; the
    /// final path, `<session>_<filename>` under the storage directory, is
    /// recorded. Returns the temporary path, the final path and the total
    /// size, for the caller to truncate, move and hash the file.
    pub fn assemble_file(&mut self, session_id: &str) -> (r: Result<(String, String, u64), ServiceError>)
        requires
            old(self).wf(),
        ensures
            final(self).wf(),
            final(self).config_view() == old(self).config_view(),
            !old(self).uploads().contains_key(session_id@) ==> {
                &&& r matches Err(e) && is_error(e, ErrorKind::NotFound, "Upload session not found"@)
                &&& final(self).uploads() == old(self).uploads()
            },
            old(self).uploads().contains_key(session_id@) ==> {
                let m = old(self).uploads()[session_id@];
                if saved_count(m.chunks@) != m.chunk_count {
                    &&& r matches Err(e) && is_error(e, ErrorKind::Unknown, "Not all chunks uploaded"@)
                    &&& final(self).uploads() == old(self).uploads()
                } else {
                    let fp = spec_path_join(
                        old(self).config_view().storage_config.base_path@,
                        session_id@ + "_"@ + m.filename@,
                    );
                    &&& r matches Ok((t, f, size)) && t@ == m.temp_path@ && f@ == fp && size == m.total_size
                    &&& final(self).uploads() == old(self).uploads().insert(
                        session_id@,
                        UploadMetadata { final_path: Some(r->Ok_0.1), ..m },
                    )
                }
            },
    {
        let ghost old_map = old(self).upload_metadata@;
        let mut m = match self.upload_metadata.remove(session_id) {
            None => {
                return Err(make_error(ErrorKind::NotFound, "Upload session not found"));
            },
            Some(m) => m,
        };
        let saved = Self::count_saved(&m.chunks);
        if saved != m.chunk_count as usize {
            self.upload_metadata.insert(session_id, m);
            proof {
                assert(self.upload_metadata@ =~= old_map);
            }
            return Err(make_error(ErrorKind::Unknown, "Not all chunks uploaded"));
        }
        let mut name = String::from_str(session_id);
        name.append("_");
        name.append(m.filename.as_str());
        let final_path = path_join(self.config.storage_config.base_path.as_str(), name.as_str());
        let result = (m.temp_path.clone(), final_path.clone(), m.total_size);
        m.final_path = Some(final_path);
        self.upload_metadata.insert(session_id, m);
        proof {
            assert forall|k: Seq<char>| #[trigger] self.upload_metadata@.contains_key(k) implies {
                let m = self.upload_metadata@[k];
                &&& m.chunks@.len() == m.chunk_count
                &&& m.chunk_size == self.config.chunk_size
                &&& m.chunk_count as int * m.chunk_size <= m.total_size + m.chunk_size
            } by {
                if k != session_id@ {
                    assert(old_map.contains_key(k));
                }
            }
        }
        Ok(result)
    }

    /// Records the hash of a session's assembled file.
    pub fn set_file_hash(&mut self, session_id: &str, file_hash: String)
        requires
            old(self).wf(),
        ensures
            final(self).wf(),
            final(self).config_view() == old(self).config_view(),
            !old(self).uploads().contains_key(session_id@) ==> final(self).uploads() == old(self).uploads(),
            old(self).uploads().contains_key(session_id@) ==> final(self).uploads() == old(self).uploads().insert(
                session_id@,
                UploadMetadata { file_hash: Some(file_hash), ..old(self).uploads()[session_id@] },
            ),
    {
        let ghost old_map = old(self).upload_metadata@;
        match self.upload_metadata.remove(session_id) {
            None => {},
            Some(mut m) => {
                m.file_hash = Some(file_hash);
                self.upload_metadata.insert(session_id, m);
                proof {
                    assert forall|k: Seq<char>| #[trigger] self.upload_metadata@.contains_key(k) implies {
                        let m = self.upload_metadata@[k];
                        &&& m.chunks@.len() == m.chunk_count
                        &&& m.chunk_size == self.config.chunk_size
                        &&& m.chunk_count as int * m.chunk_size <= m.total_size + m.chunk_size
                    } by {
                        if k != session_id@ {
                            assert(old_map.contains_key(k));
                        }
                    }
                }
            },
        }
    }

    /// Bytes saved so far and the total size of a session (the sum stops at
    /// `u64::MAX`).
    pub fn get_upload_progress(&self, session_id: &str) -> (r: Option<(u64, u64)>)
        requires
            self.wf(),
        ensures
            !self.uploads().contains_key(session_id@) ==> r is None,
            self.uploads().contains_key(session_id@) ==> (r matches Some((b, t)) && t
                == self.uploads()[session_id@].total_size && b == (if saved_bytes(self.uploads()[session_id@].chunks@)
                <= u64::MAX { saved_bytes(self.uploads()[session_id@].chunks@) } else { u64::MAX as nat })),
    {
        match self.upload_metadata.get(session_id) {
            None => None,
            Some(m) => {
                let mut total: u64 = 0;
                let mut i: usize = 0;
                while i < m.chunks.len()
                    invariant
                        i <= m.chunks@.len(),
                        total == (if saved_bytes(m.chunks@.subrange(0, i as int)) <= u64::MAX {
                            saved_bytes(m.chunks@.subrange(0, i as int))
                        } else {
                            u64::MAX as nat
                        }),
                    decreases m.chunks@.len() - i,
                {
                    proof {
                        let t = m.chunks@.subrange(0, i + 1);
                        assert(t.drop_last() =~= m.chunks@.subrange(0, i as int));
                    }
                    match &m.chunks[i] {
                        Some(c) => {
                            total = total.saturating_add(c.size);
                        },
                        None => {},
                    }
                    i = i + 1;
                }
                assert(m.chunks@.subrange(0, m.chunks@.len() as int) =~= m.chunks@);
                Some((total, m.total_size))
            },
        }
    }

    /// The indices of the chunks of a session not saved yet, ascending.
    pub fn get_missing_chunks(&self, session_id: &str) -> (r: Option<Vec<u32>>)
        requires
            self.wf(),
        ensures
            !self.uploads().contains_key(session_id@) ==> r is None,
            self.uploads().contains_key(session_id@) ==> (r matches Some(v) && v@ == missing(
                self.uploads()[session_id@].chunks@,
                self.uploads()[session_id@].chunk_count as int,
            )),
    {
        match self.upload_metadata.get(session_id) {
            None => None,
            Some(m) => {
                proof {
                    assert(self.upload_metadata@.contains_key(session_id@));
                }
                let mut out: Vec<u32> = Vec::new();
                let mut i: u32 = 0;
                while i < m.chunk_count
                    invariant
                        m.chunks@.len() == m.chunk_count,
                        i <= m.chunk_count,
                        out@ == missing(m.chunks@, i as int),
                    decreases m.chunk_count - i,
                {
                    if m.chunks[i as usize].is_none() {
                        out.push(i);
                    }
                    i = i + 1;
                }
                Some(out)
            },
        }
    }

    /// The chunks still to upload for a session that is resumed.
    pub fn resume_upload(&self, session_id: &str) -> (r: Result<Vec<u32>, ServiceError>)
        requires
            self.wf(),
        ensures
            !self.uploads().contains_key(session_id@) ==> (r matches Err(e) && is_error(
                e,
                ErrorKind::NotFound,
                "Upload session not found"@,
            )),
            self.uploads().contains_key(session_id@) ==> (r matches Ok(v) && v@ == missing(
                self.uploads()[session_id@].chunks@,
                self.uploads()[session_id@].chunk_count as int,
            )),
    {
        match self.get_missing_chunks(session_id) {
            Some(v) => Ok(v),
            None => Err(make_error(ErrorKind::NotFound, "Upload session not found")),
        }
    }

    /// Drops the record of a session and returns the files to delete: the
    /// temporary file and, once assembled, the final one.
    pub fn cleanup_session(&mut self, session_id: &str) -> (paths: Vec<String>)
        requires
            old(self).wf(),
        ensures
            final(self).wf(),
            final(self).config_view() == old(self).config_view(),
            final(self).uploads() == old(self).uploads().remove(session_id@),
            !old(self).uploads().contains_key(session_id@) ==> paths@.len() == 0,
            old(self).uploads().contains_key(session_id@) ==> {
                let m = old(self).uploads()[session_id@];
                &&& paths@.len() == (if m.final_path is Some { 2int } else { 1int })
                &&& paths@[0] == m.temp_path
                &&& m.final_path matches Some(f) ==> paths@[1] == f
            },
    {
        let ghost old_map = old(self).upload_metadata@;
        let mut paths: Vec<String> = Vec::new();
        match self.upload_metadata.remove(session_id) {
            Some(m) => {
                paths.push(m.temp_path);
                match m.final_path {
                    Some(f) => paths.push(f),
                    None => {},
                }
            },
            None => {},
        }
        proof {
            assert forall|k: Seq<char>| #[trigger] self.upload_metadata@.contains_key(k) implies {
                let m = self.upload_metadata@[k];
                &&& m.chunks@.len() == m.chunk_count
                &&& m.chunk_size == self.config.chunk_size
                &&& m.chunk_count as int * m.chunk_size <= m.total_size + m.chunk_size
            } by {
                assert(old_map.contains_key(k));
            }
        }
        paths
    }

    /// A file already stored with hash `file_hash`; none is ever found, with
    /// or without deduplication.
    pub fn check_duplicate(&self, file_hash: &str) -> (r: Option<String>)
        ensures
            r is None,
    {
        None
    }

    /// Storage counters, given the size of the storage directory and the
    /// number of temporary files (which the caller measures on disk).
    pub fn get_storage_stats(&self, total_size: u64, temp_files: u32) -> (s: StorageStats)
        requires
            self.wf(),
        ensures
            s.total_size == total_size,
            s.active_sessions == self.upload_count() as u32,
            s.temp_files == temp_files,
    {
        StorageStats { total_size, active_sessions: self.upload_metadata.len() as u32, temp_files }
    }
}

/// The chunk count of a size is at most one chunk beyond the size.
proof fn lemma_chunk_bound(total: u64, cs: u64)
    requires
        cs > 0,
        total + cs - 1 <= u64::MAX,
    ensures
        (chunk_count_of(total, cs) as int) * cs <= total + cs,
{
    let x: int = total + cs - 1;
    let q: int = x / (cs as int);
    assert(q * cs <= x && 0 <= q <= x) by (nonlinear_arith)
        requires
            q == x / (cs as int),
            cs > 0,
            x >= 0,
    ;
    let qq: u64 = q as u64;
    assert((qq as u32) as u64 <= qq) by (bit_vector);
    let t: int = (qq as u32) as int;
    assert(t * cs <= q * cs) by (nonlinear_arith)
        requires
            0 <= t <= q,
            cs > 0,
    ;
}

/// A chunk below the chunk count starts inside the file's bound.
proof fn lemma_offset_fits(i: u32, count: u32, cs: u64, total: u64)
    requires
        i < count,
        count as int * cs <= total + cs,
    ensures
        i as int * cs <= total,
        i as int * cs <= u64::MAX,
{
    assert(i as int * cs + cs <= count as int * cs) by (nonlinear_arith)
        requires
            i < count,
            cs >= 0,
    ;
}

} // verus!
