//! Server-wide settings: configuration checks, the server's own user and
//! admin room alias, supported room versions, filtering of other servers'
//! signing keys, and the layout of media files on disk.
use vstd::prelude::*;
use vstd::string::*;

use crate::error::{ErrorKind, ServiceError, is_error, make_error};
use crate::external::{spec_path_join, spec_valid_room_alias, spec_valid_user_id, path_join, valid_room_alias, valid_user_id};
use crate::strmap::StrMap;
use crate::text::str_eq;

verus! {

/// Matrix room versions.
#[derive(Debug, Clone, Copy, PartialEq, Eq, Structural)]
pub enum RoomVersion {
    V1,
    V2,
    V3,
    V4,
    V5,
    V6,
    V7,
    V8,
    V9,
    V10,
    V11,
}

/// The server configuration the globals read. The database cache capacity
/// is in thousandths of a megabyte, rounded up, so any positive capacity is
/// at least one.
#[derive(Debug)]
pub struct GlobalsConfig {
    pub server_name: String,
    pub max_request_size: u32,
    pub max_fetch_prev_events: u16,
    pub database_path: String,
    pub db_cache_capacity_mb_milli: u64,
    pub allow_registration: bool,
    pub allow_encryption: bool,
    pub allow_federation: bool,
    pub allow_room_creation: bool,
    pub allow_unstable_room_versions: bool,
    pub default_room_version: RoomVersion,
    pub enable_lightning_bolt: bool,
    pub allow_check_for_updates: bool,
    pub trusted_servers: Vec<String>,
    pub emergency_password: Option<String>,
}

/// A current signing key of another server.
#[derive(Debug)]
pub struct OldVerifyKey {
    pub expired_ts: u64,
    pub key: String,
}

/// Another server's signing keys: current keys by id, old keys by id with
/// their expiry, and until when the set is valid (milliseconds).
#[derive(Debug)]
pub struct SigningKeys {
    pub verify_keys: StrMap<String>,
    pub old_verify_keys: StrMap<OldVerifyKey>,
    pub valid_until_ts: u64,
}

/// The server's own signing keys at `now` (milliseconds): its current
/// public key (`public_key`, as key text) under the id `ed25519:` followed
/// by the key's version, no old keys, valid for seven days.
pub fn own_signing_keys(key_version: &str, public_key: String, now: u64) -> (k: SigningKeys)
    requires
        now <= u64::MAX - 604800000,
    ensures
        k.verify_keys.wf(),
        k.old_verify_keys.wf(),
        k.verify_keys@ == Map::<Seq<char>, String>::empty().insert("ed25519:"@ + key_version@, public_key),
        k.old_verify_keys@ == Map::<Seq<char>, OldVerifyKey>::empty(),
        k.valid_until_ts == now + 604800000,
{
    let mut id = String::from_str("ed25519:");
    id.append(key_version);
    let mut verify_keys: StrMap<String> = StrMap::new();
    verify_keys.insert(id.as_str(), public_key);
    SigningKeys { verify_keys, old_verify_keys: StrMap::new(), valid_until_ts: now + 604800000 }
}

/// How media files are laid out under the media directory: flat, or in
/// `depth` levels of directories named by successive `length`-character
/// slices of the file's hash.
#[derive(Debug, Clone, Copy, PartialEq, Eq, Structural)]
pub enum DirectoryStructure {
    Flat,
    Deep { length: usize, depth: usize },
}

/// The problem `validate_config` reports, if any.
pub open spec fn globals_config_problem(c: GlobalsConfig) -> Option<Seq<char>> {
    if c.server_name@.len() == 0 {
        Some("Server name cannot be empty"@)
    } else if c.max_request_size == 0 {
        Some("Max request size must be greater than 0"@)
    } else if c.database_path@.len() == 0 {
        Some("Database path cannot be empty"@)
    } else if c.db_cache_capacity_mb_milli == 0 {
        Some("Database cache capacity must be greater than 0"@)
    } else {
        None
    }
}

/// The server's own user: `@matrixon:` and the server name.
pub open spec fn server_user_of(server_name: Seq<char>) -> Seq<char> {
    "@matrixon:"@ + server_name
}

/// The admin room alias: `#admins:` and the server name.
pub open spec fn admin_alias_of(server_name: Seq<char>) -> Seq<char> {
    "#admins:"@ + server_name
}

/// The room versions the server supports: versions 6 to 11, then 3 to 5
/// when unstable versions are allowed.
pub open spec fn supported_versions(allow_unstable: bool) -> Seq<RoomVersion> {
    let stable = seq![RoomVersion::V6, RoomVersion::V7, RoomVersion::V8, RoomVersion::V9, RoomVersion::V10, RoomVersion::V11];
    if allow_unstable {
        stable + seq![RoomVersion::V3, RoomVersion::V4, RoomVersion::V5]
    } else {
        stable
    }
}

/// Room versions 1 to 4 ignore `valid_until_ts`.
pub open spec fn ignores_validity(v: RoomVersion) -> bool {
    v == RoomVersion::V1 || v == RoomVersion::V2 || v == RoomVersion::V3 || v == RoomVersion::V4
}

/// The keys accepted at `timestamp` for a room of version `v`: when the set
/// is still valid or the version ignores validity, every current key and
/// every old key that had not expired at `timestamp` (old keys win over a
/// current key of the same id); otherwise none.
pub open spec fn accepted_keys(k: SigningKeys, timestamp: u64, v: RoomVersion) -> Option<Map<Seq<char>, String>> {
    if k.valid_until_ts > timestamp || ignores_validity(v) {
        Some(
            Map::new(
                |id: Seq<char>| k.verify_keys@.contains_key(id) || (k.old_verify_keys@.contains_key(id)
                    && k.old_verify_keys@[id].expired_ts > timestamp),
                |id: Seq<char>| if k.old_verify_keys@.contains_key(id) && k.old_verify_keys@[id].expired_ts > timestamp {
                    k.old_verify_keys@[id].key
                } else {
                    k.verify_keys@[id]
                },
            ),
        )
    } else {
        None
    }
}

/// The media path of a file with hash `name` under `dir` with `depth` more
/// levels of `length`-character directories.
pub open spec fn deep_path(dir: Seq<char>, name: Seq<char>, length: nat, depth: nat) -> Seq<char>
    decreases depth,
{
    if depth == 0 {
        spec_path_join(dir, name)
    } else {
        deep_path(
            spec_path_join(dir, name.subrange(0, length as int)),
            name.subrange(length as int, name.len() as int),
            length,
            (depth - 1) as nat,
        )
    }
}

/// The directories of a deep media path (without the file).
pub open spec fn deep_dirs(dir: Seq<char>, name: Seq<char>, length: nat, depth: nat) -> Seq<char>
    decreases depth,
{
    if depth == 0 {
        dir
    } else {
        deep_dirs(
            spec_path_join(dir, name.subrange(0, length as int)),
            name.subrange(length as int, name.len() as int),
            length,
            (depth - 1) as nat,
        )
    }
}

/// Checks the configuration: a server name, a positive request size limit,
/// a database path and a positive cache capacity are required.
pub fn validate_config(config: &GlobalsConfig) -> (r: Result<(), ServiceError>)
    ensures
        match globals_config_problem(*config) {
            None => r is Ok,
            Some(m) => r matches Err(e) && is_error(e, ErrorKind::BadConfig, m),
        },
{
    if config.server_name.as_str().unicode_len() == 0 {
        return Err(make_error(ErrorKind::BadConfig, "Server name cannot be empty"));
    }
    if config.max_request_size == 0 {
        return Err(make_error(ErrorKind::BadConfig, "Max request size must be greater than 0"));
    }
    if config.database_path.as_str().unicode_len() == 0 {
        return Err(make_error(ErrorKind::BadConfig, "Database path cannot be empty"));
    }
    if config.db_cache_capacity_mb_milli == 0 {
        return Err(make_error(ErrorKind::BadConfig, "Database cache capacity must be greater than 0"));
    }
    Ok(())
}

/// The server's own user and the admin room alias, each checked as Matrix
/// identifiers.
pub fn validate_identifiers(server_name: &str) -> (r: Result<(String, String), ServiceError>)
    ensures
        !spec_valid_user_id(server_user_of(server_name@)) ==> (r matches Err(e) && is_error(
            e,
            ErrorKind::BadConfig,
            "@matrixon:server_name is not a valid user ID"@,
        )),
        spec_valid_user_id(server_user_of(server_name@)) && !spec_valid_room_alias(admin_alias_of(server_name@)) ==> (
        r matches Err(e) && is_error(e, ErrorKind::BadConfig, "#admins:server_name is not a valid alias name"@)),
        spec_valid_user_id(server_user_of(server_name@)) && spec_valid_room_alias(admin_alias_of(server_name@)) ==> (
        r matches Ok((u, a)) && u@ == server_user_of(server_name@) && a@ == admin_alias_of(server_name@)),
{
    let mut user = String::from_str("@matrixon:");
    user.append(server_name);
    if !valid_user_id(user.as_str()) {
        return Err(make_error(ErrorKind::BadConfig, "@matrixon:server_name is not a valid user ID"));
    }
    let mut alias = String::from_str("#admins:");
    alias.append(server_name);
    if !valid_room_alias(alias.as_str()) {
        return Err(make_error(ErrorKind::BadConfig, "#admins:server_name is not a valid alias name"));
    }
    Ok((user, alias))
}

/// The supported room versions.
pub fn supported_room_versions(allow_unstable: bool) -> (r: Vec<RoomVersion>)
    ensures
        r@ == supported_versions(allow_unstable),
{
    let mut r: Vec<RoomVersion> = Vec::new();
    r.push(RoomVersion::V6);
    r.push(RoomVersion::V7);
    r.push(RoomVersion::V8);
    r.push(RoomVersion::V9);
    r.push(RoomVersion::V10);
    r.push(RoomVersion::V11);
    if allow_unstable {
        r.push(RoomVersion::V3);
        r.push(RoomVersion::V4);
        r.push(RoomVersion::V5);
    }
    assert(r@ =~= supported_versions(allow_unstable));
    r
}

/// Whether `v` is among the supported room versions.
pub fn is_supported(v: RoomVersion, allow_unstable: bool) -> (r: bool)
    ensures
        r == supported_versions(allow_unstable).contains(v),
{
    let versions = supported_room_versions(allow_unstable);
    let mut i: usize = 0;
    while i < versions.len()
        invariant
            versions@ == supported_versions(allow_unstable),
            i <= versions@.len(),
            forall|j: int| 0 <= j < i ==> versions@[j] != v,
        decreases versions@.len() - i,
    {
        if versions[i] == v {
            assert(versions@[i as int] == v);
            return true;
        }
        i = i + 1;
    }
    false
}

/// The keys of one server accepted at `timestamp` for a room of version
/// `room_version` (see `accepted_keys`).
pub fn filter_keys_single_server(keys: &SigningKeys, timestamp: u64, room_version: RoomVersion) -> (r: Option<StrMap<String>>)
    requires
        keys.verify_keys.wf(),
        keys.old_verify_keys.wf(),
    ensures
        match accepted_keys(*keys, timestamp, room_version) {
            None => r is None,
            Some(m) => r matches Some(out) && out.wf() && out@ == m,
        },
{
    let valid = keys.valid_until_ts > timestamp || room_version == RoomVersion::V1 || room_version == RoomVersion::V2
        || room_version == RoomVersion::V4 || room_version == RoomVersion::V3;
    if !valid {
        return None;
    }
    let mut out: StrMap<String> = StrMap::new();
    let n = keys.verify_keys.len();
    let mut i: usize = 0;
    while i < n
        invariant
            n == keys.verify_keys.spec_len(),
            keys.verify_keys.wf(),
            i <= n,
            out.wf(),
            forall|id: Seq<char>| #[trigger] out@.contains_key(id) <==> exists|j: int| 0 <= j < i && #[trigger] keys.verify_keys.entries_seq()[j].0@ == id,
            forall|id: Seq<char>| #[trigger] out@.contains_key(id) ==> out@[id] == keys.verify_keys@[id],
        decreases n - i,
    {
        let id = keys.verify_keys.key_at_index(i);
        let key = keys.verify_keys.value_at_index(i);
        proof {
            keys.verify_keys.lemma_entry_in_map(i as int);
        }
        let ghost before = out@;
        out.insert(id.as_str(), key.clone());
        proof {
            assert forall|x: Seq<char>| #[trigger] out@.contains_key(x) <==> exists|j: int| 0 <= j < i + 1 && #[trigger] keys.verify_keys.entries_seq()[j].0@ == x by {
                if out@.contains_key(x) && x != id@ {
                    assert(before.contains_key(x));
                }
                if exists|j: int| 0 <= j < i + 1 && #[trigger] keys.verify_keys.entries_seq()[j].0@ == x {
                    let j = choose|j: int| 0 <= j < i + 1 && #[trigger] keys.verify_keys.entries_seq()[j].0@ == x;
                    if j < i {
                        assert(before.contains_key(x));
                    }
                }
            }
        }
        i = i + 1;
    }
    proof {
        assert forall|id: Seq<char>| out@.contains_key(id) <==> keys.verify_keys@.contains_key(id) by {
            if keys.verify_keys@.contains_key(id) {
                let j = keys.verify_keys.lemma_key_has_entry(id);
                assert(keys.verify_keys.entries_seq()[j].0@ == id);
            }
            if out@.contains_key(id) {
                let j = choose|j: int| 0 <= j < n && #[trigger] keys.verify_keys.entries_seq()[j].0@ == id;
                keys.verify_keys.lemma_entry_in_map(j);
            }
        }
    }
    let ghost after_current = out@;
    let m = keys.old_verify_keys.len();
    let mut i: usize = 0;
    while i < m
        invariant
            m == keys.old_verify_keys.spec_len(),
            keys.old_verify_keys.wf(),
            i <= m,
            out.wf(),
            forall|id: Seq<char>| #[trigger] out@.contains_key(id) <==> (after_current.contains_key(id) || exists|j: int|
                0 <= j < i && #[trigger] keys.old_verify_keys.entries_seq()[j].0@ == id && keys.old_verify_keys.entries_seq()[j].1.expired_ts > timestamp),
            forall|id: Seq<char>| #[trigger] out@.contains_key(id) ==> out@[id] == (if exists|j: int| 0 <= j < i
                && #[trigger] keys.old_verify_keys.entries_seq()[j].0@ == id && keys.old_verify_keys.entries_seq()[j].1.expired_ts
                > timestamp {
                keys.old_verify_keys@[id].key
            } else {
                after_current[id]
            }),
        decreases m - i,
    {
        let id = keys.old_verify_keys.key_at_index(i);
        let old_key = keys.old_verify_keys.value_at_index(i);
        proof {
            keys.old_verify_keys.lemma_entry_in_map(i as int);
        }
        if old_key.expired_ts > timestamp {
            let ghost before = out@;
            out.insert(id.as_str(), old_key.key.clone());
            proof {
                assert forall|x: Seq<char>| #[trigger] out@.contains_key(x) implies out@[x] == (if exists|j: int| 0 <= j < i + 1
                    && #[trigger] keys.old_verify_keys.entries_seq()[j].0@ == x && keys.old_verify_keys.entries_seq()[j].1.expired_ts
                    > timestamp {
                    keys.old_verify_keys@[x].key
                } else {
                    after_current[x]
                }) by {
                    if x == id@ {
                        assert(keys.old_verify_keys.entries_seq()[i as int].0@ == x);
                    } else {
                        assert(before.contains_key(x));
                        if exists|j: int| 0 <= j < i + 1 && #[trigger] keys.old_verify_keys.entries_seq()[j].0@ == x
                            && keys.old_verify_keys.entries_seq()[j].1.expired_ts > timestamp {
                            let j = choose|j: int| 0 <= j < i + 1 && #[trigger] keys.old_verify_keys.entries_seq()[j].0@ == x
                                && keys.old_verify_keys.entries_seq()[j].1.expired_ts > timestamp;
                            assert(j != i);
                        }
                    }
                }
                assert forall|x: Seq<char>| #[trigger] out@.contains_key(x) <==> (after_current.contains_key(x) || exists|j: int|
                    0 <= j < i + 1 && #[trigger] keys.old_verify_keys.entries_seq()[j].0@ == x && keys.old_verify_keys.entries_seq()[j].1.expired_ts > timestamp) by {
                    if x == id@ {
                        assert(keys.old_verify_keys.entries_seq()[i as int].0@ == x);
                    } else if exists|j: int| 0 <= j < i + 1 && #[trigger] keys.old_verify_keys.entries_seq()[j].0@ == x
                        && keys.old_verify_keys.entries_seq()[j].1.expired_ts > timestamp {
                        let j = choose|j: int| 0 <= j < i + 1 && #[trigger] keys.old_verify_keys.entries_seq()[j].0@ == x
                            && keys.old_verify_keys.entries_seq()[j].1.expired_ts > timestamp;
                        assert(j != i);
                    }
                }
            }
        } else {
            proof {
                assert forall|x: Seq<char>| #[trigger] out@.contains_key(x) implies out@[x] == (if exists|j: int| 0 <= j < i + 1
                    && #[trigger] keys.old_verify_keys.entries_seq()[j].0@ == x && keys.old_verify_keys.entries_seq()[j].1.expired_ts
                    > timestamp {
                    keys.old_verify_keys@[x].key
                } else {
                    after_current[x]
                }) by {
                    if exists|j: int| 0 <= j < i + 1 && #[trigger] keys.old_verify_keys.entries_seq()[j].0@ == x
                        && keys.old_verify_keys.entries_seq()[j].1.expired_ts > timestamp {
                        let j = choose|j: int| 0 <= j < i + 1 && #[trigger] keys.old_verify_keys.entries_seq()[j].0@ == x
                            && keys.old_verify_keys.entries_seq()[j].1.expired_ts > timestamp;
                        assert(j != i);
                    }
                }
                assert forall|x: Seq<char>| #[trigger] out@.contains_key(x) <==> (after_current.contains_key(x) || exists|j: int|
                    0 <= j < i + 1 && #[trigger] keys.old_verify_keys.entries_seq()[j].0@ == x && keys.old_verify_keys.entries_seq()[j].1.expired_ts > timestamp) by {
                    if exists|j: int| 0 <= j < i + 1 && #[trigger] keys.old_verify_keys.entries_seq()[j].0@ == x
                        && keys.old_verify_keys.entries_seq()[j].1.expired_ts > timestamp {
                        let j = choose|j: int| 0 <= j < i + 1 && #[trigger] keys.old_verify_keys.entries_seq()[j].0@ == x
                            && keys.old_verify_keys.entries_seq()[j].1.expired_ts > timestamp;
                        assert(j != i);
                    }
                }
            }
        }
        i = i + 1;
    }
    proof {
        let target = accepted_keys(*keys, timestamp, room_version)->Some_0;
        assert forall|id: Seq<char>| #[trigger] out@.contains_key(id) <==> target.contains_key(id) by {
            if keys.old_verify_keys@.contains_key(id) && keys.old_verify_keys@[id].expired_ts > timestamp {
                let j = keys.old_verify_keys.lemma_key_has_entry(id);
                keys.old_verify_keys.lemma_entry_in_map(j);
            }
            if exists|j: int| 0 <= j < m && #[trigger] keys.old_verify_keys.entries_seq()[j].0@ == id
                && keys.old_verify_keys.entries_seq()[j].1.expired_ts > timestamp {
                let j = choose|j: int| 0 <= j < m && #[trigger] keys.old_verify_keys.entries_seq()[j].0@ == id
                    && keys.old_verify_keys.entries_seq()[j].1.expired_ts > timestamp;
                keys.old_verify_keys.lemma_entry_in_map(j);
            }
        }
        assert forall|id: Seq<char>| #[trigger] out@.contains_key(id) implies out@[id] == target[id] by {
            if keys.old_verify_keys@.contains_key(id) && keys.old_verify_keys@[id].expired_ts > timestamp {
                let j = keys.old_verify_keys.lemma_key_has_entry(id);
                keys.old_verify_keys.lemma_entry_in_map(j);
            }
            if exists|j: int| 0 <= j < m && #[trigger] keys.old_verify_keys.entries_seq()[j].0@ == id
                && keys.old_verify_keys.entries_seq()[j].1.expired_ts > timestamp {
                let j = choose|j: int| 0 <= j < m && #[trigger] keys.old_verify_keys.entries_seq()[j].0@ == id
                    && keys.old_verify_keys.entries_seq()[j].1.expired_ts > timestamp;
                keys.old_verify_keys.lemma_entry_in_map(j);
            }
        }
        assert(out@ =~= target);
    }
    Some(out)
}

/// The path of a media file with hash `sha256_hex` under
/// `media_directory`, with the directories to create first (for the deep
/// layout).
pub fn get_media_path(media_directory: &str, structure: DirectoryStructure, sha256_hex: &str) -> (r: (Option<String>, String))
    requires
        structure matches DirectoryStructure::Deep { length, depth } ==> length * depth <= sha256_hex@.len(),
        vstd::string::is_ascii(sha256_hex),
    ensures
        match structure {
            DirectoryStructure::Flat => r.0 is None && r.1@ == spec_path_join(media_directory@, sha256_hex@),
            DirectoryStructure::Deep { length, depth } => (r.0 matches Some(d) && d@ == deep_dirs(
                media_directory@,
                sha256_hex@,
                length as nat,
                depth as nat,
            )) && r.1@ == deep_path(media_directory@, sha256_hex@, length as nat, depth as nat),
        },
{
    match structure {
        DirectoryStructure::Flat => (None, path_join(media_directory, sha256_hex)),
        DirectoryStructure::Deep { length, depth } => {
            let mut dir = String::from_str(media_directory);
            let mut rest = String::from_str(sha256_hex);
            let mut k: usize = 0;
            while k < depth
                invariant
                    k <= depth,
                    rest@.len() + length * k == sha256_hex@.len(),
                    length * depth <= sha256_hex@.len(),
                    deep_path(dir@, rest@, length as nat, (depth - k) as nat) == deep_path(
                        media_directory@,
                        sha256_hex@,
                        length as nat,
                        depth as nat,
                    ),
                    deep_dirs(dir@, rest@, length as nat, (depth - k) as nat) == deep_dirs(
                        media_directory@,
                        sha256_hex@,
                        length as nat,
                        depth as nat,
                    ),
                decreases depth - k,
            {
                proof {
                    assert(length * k + length <= length * depth) by (nonlinear_arith)
                        requires
                            k < depth,
                    ;
                }
                let n = rest.as_str().unicode_len();
                let head = rest.as_str().substring_char(0, length);
                let tail = rest.as_str().substring_char(length, n);
                let next_dir = path_join(dir.as_str(), head);
                proof {
                    assert(length * (k + 1) == length * k + length) by (nonlinear_arith);
                }
                dir = next_dir;
                rest = String::from_str(tail);
                k = k + 1;
            }
            (Some(dir.clone()), path_join(dir.as_str(), rest.as_str()))
        },
    }
}

/// The outcome of loading the server's signing key pair (its bytes as
/// stored), and whether the stored key pair must be removed: a key pair that
/// does not load is invalid, is removed, and the load fails with its error.
pub fn initialize_keypair(loaded: Result<Vec<u8>, ServiceError>) -> (r: (Result<Vec<u8>, ServiceError>, bool))
    ensures
        r.0 == loaded,
        r.1 == loaded is Err,
{
    let remove = loaded.is_err();
    (loaded, remove)
}

/// The server's global state: its configuration, own user and admin alias,
/// and whether registration is open.
pub struct Globals {
    config: GlobalsConfig,
    server_user: String,
    admin_alias: String,
    allow_registration: bool,
}

impl Globals {
    /// The configuration in force.
    pub closed spec fn config_view(&self) -> GlobalsConfig {
        self.config
    }

    /// The server's own user.
    pub closed spec fn server_user_view(&self) -> Seq<char> {
        self.server_user@
    }

    /// The admin room alias.
    pub closed spec fn admin_alias_view(&self) -> Seq<char> {
        self.admin_alias@
    }

    /// Whether registration is open.
    pub closed spec fn registration_open(&self) -> bool {
        self.allow_registration
    }

    /// Loads the globals from `config`: it must pass `validate_config` and
    /// give valid identifiers; a default room version that is not supported
    /// falls back to version 10.
    pub fn load(config: GlobalsConfig) -> (r: Result<Self, ServiceError>)
        ensures
            globals_config_problem(config) matches Some(m) ==> (r matches Err(e) && is_error(e, ErrorKind::BadConfig, m)),
            globals_config_problem(config) is None ==> match r {
                Ok(g) => {
                    &&& g.server_user_view() == server_user_of(config.server_name@)
                    &&& g.admin_alias_view() == admin_alias_of(config.server_name@)
                    &&& g.registration_open() == config.allow_registration
                    &&& g.config_view().default_room_version == (if supported_versions(config.allow_unstable_room_versions).contains(
                        config.default_room_version,
                    ) {
                        config.default_room_version
                    } else {
                        RoomVersion::V10
                    })
                    &&& g.config_view().server_name == config.server_name
                    &&& g.config_view().max_request_size == config.max_request_size
                    &&& g.config_view().allow_unstable_room_versions == config.allow_unstable_room_versions
                    &&& spec_valid_user_id(server_user_of(config.server_name@))
                    &&& spec_valid_room_alias(admin_alias_of(config.server_name@))
                },
                Err(e) => e.kind == ErrorKind::BadConfig && !(spec_valid_user_id(server_user_of(config.server_name@))
                    && spec_valid_room_alias(admin_alias_of(config.server_name@))),
            },
    {
        match validate_config(&config) {
            Err(e) => {
                return Err(e);
            },
            Ok(()) => {},
        }
        let (server_user, admin_alias) = match validate_identifiers(config.server_name.as_str()) {
            Err(e) => {
                return Err(e);
            },
            Ok(p) => p,
        };
        let allow_registration = config.allow_registration;
        let mut config = config;
        if !is_supported(config.default_room_version, config.allow_unstable_room_versions) {
            config.default_room_version = RoomVersion::V10;
        }
        Ok(Globals { config, server_user, admin_alias, allow_registration })
    }

    /// The server name.
    pub fn server_name(&self) -> (s: &str)
        ensures
            s@ == self.config_view().server_name@,
    {
        self.config.server_name.as_str()
    }

    /// The server's own user.
    pub fn server_user(&self) -> (s: &str)
        ensures
            s@ == self.server_user_view(),
    {
        self.server_user.as_str()
    }

    /// The admin room alias.
    pub fn admin_alias(&self) -> (s: &str)
        ensures
            s@ == self.admin_alias_view(),
    {
        self.admin_alias.as_str()
    }

    /// The request size limit.
    pub fn max_request_size(&self) -> (n: u32)
        ensures
            n == self.config_view().max_request_size,
    {
        self.config.max_request_size
    }

    /// How many previous events may be fetched.
    pub fn max_fetch_prev_events(&self) -> (n: u16)
        ensures
            n == self.config_view().max_fetch_prev_events,
    {
        self.config.max_fetch_prev_events
    }

    /// Opens or closes registration.
    pub fn set_registration(&mut self, status: bool)
        ensures
            final(self).registration_open() == status,
            final(self).config_view() == old(self).config_view(),
            final(self).server_user_view() == old(self).server_user_view(),
            final(self).admin_alias_view() == old(self).admin_alias_view(),
    {
        self.allow_registration = status;
    }

    /// Whether registration is open.
    pub fn allow_registration(&self) -> (b: bool)
        ensures
            b == self.registration_open(),
    {
        self.allow_registration
    }

    /// Whether encryption is allowed.
    pub fn allow_encryption(&self) -> (b: bool)
        ensures
            b == self.config_view().allow_encryption,
    {
        self.config.allow_encryption
    }

    /// Whether federation is allowed.
    pub fn allow_federation(&self) -> (b: bool)
        ensures
            b == self.config_view().allow_federation,
    {
        self.config.allow_federation
    }

    /// Whether users may create rooms.
    pub fn allow_room_creation(&self) -> (b: bool)
        ensures
            b == self.config_view().allow_room_creation,
    {
        self.config.allow_room_creation
    }

    /// Whether unstable room versions are allowed.
    pub fn allow_unstable_room_versions(&self) -> (b: bool)
        ensures
            b == self.config_view().allow_unstable_room_versions,
    {
        self.config.allow_unstable_room_versions
    }

    /// The room version new rooms get.
    pub fn default_room_version(&self) -> (v: RoomVersion)
        ensures
            v == self.config_view().default_room_version,
    {
        self.config.default_room_version
    }

    /// Whether display names get a lightning bolt.
    pub fn enable_lightning_bolt(&self) -> (b: bool)
        ensures
            b == self.config_view().enable_lightning_bolt,
    {
        self.config.enable_lightning_bolt
    }

    /// Whether the server checks for updates.
    pub fn allow_check_for_updates(&self) -> (b: bool)
        ensures
            b == self.config_view().allow_check_for_updates,
    {
        self.config.allow_check_for_updates
    }

    /// The room versions this server supports.
    pub fn supported_room_versions(&self) -> (r: Vec<RoomVersion>)
        ensures
            r@ == supported_versions(self.config_view().allow_unstable_room_versions),
    {
        supported_room_versions(self.config.allow_unstable_room_versions)
    }

    /// The signing keys known for `origin`: those stored for it (`stored`,
    /// as the database returned them) or, when none are stored and `origin`
    /// is this server, its own keys (`own`); `None` when there are neither.
    pub fn signing_keys_for(&self, origin: &str, stored: Option<SigningKeys>, own: SigningKeys) -> (r: Option<SigningKeys>)
        ensures
            r == match stored {
                Some(k) => Some(k),
                None => if origin@ == self.config_view().server_name@ {
                    Some(own)
                } else {
                    None
                },
            },
    {
        match stored {
            Some(k) => Some(k),
            None => if str_eq(origin, self.config.server_name.as_str()) {
                Some(own)
            } else {
                None
            },
        }
    }
}

} // verus!
