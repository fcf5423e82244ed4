use vstd::prelude::*;
use vstd::string::StrSliceExecFns;

use crate::error::ConfigError;
use crate::yaml::{field, lookup, Yaml};

verus! {

/// The root configuration record.
#[derive(Debug, PartialEq, Eq)]
pub struct CratisConfig {
    pub client: ClientConfig,
    pub backup: BackupConfig,
    pub server: ServerConfig,
    pub advanced: Option<AdvancedConfig>,
}

/// Identity of this client instance.
#[derive(Debug, PartialEq, Eq)]
pub struct ClientConfig {
    /// Unique identifier for this client instance.
    pub id: String,
    /// Human-readable label.
    pub name: String,
}

/// What to back up and how often.
#[derive(Debug, PartialEq, Eq)]
pub struct BackupConfig {
    pub mode: BackupMode,
    /// Paths to scan, in scan order.
    pub watch_directories: Vec<String>,
    /// Patterns excluded from the scan.
    pub exclude: Option<Vec<String>>,
    /// Backup cadence.
    pub interval_seconds: Option<u64>,
}

/// How much of the watched data a backup run transfers.
#[derive(Debug, Clone, Copy, PartialEq, Eq, Structural)]
pub enum BackupMode {
    /// Every watched file is backed up regardless of prior state.
    Full,
    /// Only files changed since a prior backup are transferred.
    Incremental,
}

/// Where to send backups.
#[derive(Debug, PartialEq, Eq)]
pub struct ServerConfig {
    /// Network endpoint of the backup server.
    pub address: String,
    /// Secret credential; must never appear in error output.
    pub auth_token: String,
}

/// Optional tuning knobs.
#[derive(Debug, PartialEq, Eq)]
pub struct AdvancedConfig {
    pub max_file_size_mb: Option<u64>,
    pub retry_attempts: Option<u32>,
    pub retry_delay_seconds: Option<u64>,
    pub enable_notifications: Option<bool>,
}

/// `c` is `lower` or its upper-case form `upper`.
pub open spec fn ci_eq(c: char, lower: char, upper: char) -> bool {
    c == lower || c == upper
}

/// `s` spells `full`, matched case-insensitively.
pub open spec fn is_full_token(s: Seq<char>) -> bool {
    &&& s.len() == 4
    &&& ci_eq(s[0], 'f', 'F')
    &&& ci_eq(s[1], 'u', 'U')
    &&& ci_eq(s[2], 'l', 'L')
    &&& ci_eq(s[3], 'l', 'L')
}

/// `s` spells `incremental`, matched case-insensitively.
pub open spec fn is_incremental_token(s: Seq<char>) -> bool {
    &&& s.len() == 11
    &&& ci_eq(s[0], 'i', 'I')
    &&& ci_eq(s[1], 'n', 'N')
    &&& ci_eq(s[2], 'c', 'C')
    &&& ci_eq(s[3], 'r', 'R')
    &&& ci_eq(s[4], 'e', 'E')
    &&& ci_eq(s[5], 'm', 'M')
    &&& ci_eq(s[6], 'e', 'E')
    &&& ci_eq(s[7], 'n', 'N')
    &&& ci_eq(s[8], 't', 'T')
    &&& ci_eq(s[9], 'a', 'A')
    &&& ci_eq(s[10], 'l', 'L')
}

/// The backup mode a token denotes: a case-insensitive match against the
/// two mode names; any other token denotes no mode.
pub open spec fn mode_of(s: Seq<char>) -> Option<BackupMode> {
    if is_full_token(s) {
        Some(BackupMode::Full)
    } else if is_incremental_token(s) {
        Some(BackupMode::Incremental)
    } else {
        None
    }
}

impl BackupMode {
    /// Parse a backup mode token.
    pub fn parse(s: &str) -> (r: Option<BackupMode>)
        ensures
            r == mode_of(s@),
    {
        let n = s.unicode_len();
        if n == 4 {
            let c0 = s.get_char(0);
            let c1 = s.get_char(1);
            let c2 = s.get_char(2);
            let c3 = s.get_char(3);
            if (c0 == 'f' || c0 == 'F') && (c1 == 'u' || c1 == 'U') && (c2 == 'l' || c2 == 'L')
                && (c3 == 'l' || c3 == 'L') {
                Some(BackupMode::Full)
            } else {
                None
            }
        } else if n == 11 {
            let c0 = s.get_char(0);
            let c1 = s.get_char(1);
            let c2 = s.get_char(2);
            let c3 = s.get_char(3);
            let c4 = s.get_char(4);
            let c5 = s.get_char(5);
            let c6 = s.get_char(6);
            let c7 = s.get_char(7);
            let c8 = s.get_char(8);
            let c9 = s.get_char(9);
            let c10 = s.get_char(10);
            if (c0 == 'i' || c0 == 'I') && (c1 == 'n' || c1 == 'N') && (c2 == 'c' || c2 == 'C')
                && (c3 == 'r' || c3 == 'R') && (c4 == 'e' || c4 == 'E') && (c5 == 'm' || c5 == 'M')
                && (c6 == 'e' || c6 == 'E') && (c7 == 'n' || c7 == 'N') && (c8 == 't' || c8 == 'T')
                && (c9 == 'a' || c9 == 'A') && (c10 == 'l' || c10 == 'L') {
                Some(BackupMode::Incremental)
            } else {
                None
            }
        } else {
            None
        }
    }
}

/// The mapping `y` holds a string under `k`.
pub open spec fn str_field_ok(y: Yaml, k: Seq<char>) -> bool {
    field(y, k) matches Some(v) && v is Str
}

/// The characters of the string stored under `k` in the mapping `y`.
pub open spec fn str_field(y: Yaml, k: Seq<char>) -> Seq<char> {
    field(y, k).unwrap()->Str_0@
}

/// Under `k` the mapping `y` holds nothing, null, or an unsigned integer.
pub open spec fn uint_field_opt_ok(y: Yaml, k: Seq<char>) -> bool {
    match field(y, k) {
        Option::None => true,
        Option::Some(v) => v is Null || v is UInt,
    }
}

/// The unsigned integer stored under `k` in the mapping `y`, if one is.
pub open spec fn opt_uint_value(y: Yaml, k: Seq<char>) -> Option<u64> {
    match field(y, k) {
        Option::None => None,
        Option::Some(v) => if v is UInt {
            Some(v->UInt_0)
        } else {
            None
        },
    }
}

/// Under `k` the mapping `y` holds nothing, null, or an unsigned integer
/// that fits in 32 bits.
pub open spec fn u32_field_opt_ok(y: Yaml, k: Seq<char>) -> bool {
    match field(y, k) {
        Option::None => true,
        Option::Some(v) => v is Null || (v is UInt && v->UInt_0 <= u32::MAX),
    }
}

/// The 32-bit integer stored under `k` in the mapping `y`, if one is.
pub open spec fn opt_u32_value(y: Yaml, k: Seq<char>) -> Option<u32> {
    match field(y, k) {
        Option::None => None,
        Option::Some(v) => if v is UInt && v->UInt_0 <= u32::MAX {
            Some(v->UInt_0 as u32)
        } else {
            None
        },
    }
}

/// Under `k` the mapping `y` holds nothing, null, or a boolean.
pub open spec fn bool_field_opt_ok(y: Yaml, k: Seq<char>) -> bool {
    match field(y, k) {
        Option::None => true,
        Option::Some(v) => v is Null || v is Bool,
    }
}

/// The boolean stored under `k` in the mapping `y`, if one is.
pub open spec fn opt_bool_value(y: Yaml, k: Seq<char>) -> Option<bool> {
    match field(y, k) {
        Option::None => None,
        Option::Some(v) => if v is Bool {
            Some(v->Bool_0)
        } else {
            None
        },
    }
}

/// `v` is a sequence whose elements are all strings.
pub open spec fn string_list_ok(v: Yaml) -> bool {
    &&& v is List
    &&& forall|i: int| 0 <= i < v->List_0@.len() ==> v->List_0@[i] is Str
}

/// The characters of each string in a sequence of strings.
pub open spec fn string_views(items: Seq<Yaml>) -> Seq<Seq<char>> {
    Seq::new(items.len(), |i: int| items[i]->Str_0@)
}

/// `y` matches the `client` block: required string fields `id` and `name`.
pub open spec fn client_ok(y: Yaml) -> bool {
    &&& y is Mapping
    &&& str_field_ok(y, "id"@)
    &&& str_field_ok(y, "name"@)
}

/// `c` holds exactly the values of the `client` block `y`.
pub open spec fn client_repr(c: ClientConfig, y: Yaml) -> bool {
    &&& c.id@ == str_field(y, "id"@)
    &&& c.name@ == str_field(y, "name"@)
}

/// `y` matches the `backup` block: a required mode token, a required
/// sequence of directory paths, and optional excludes and cadence.
pub open spec fn backup_ok(y: Yaml) -> bool {
    &&& y is Mapping
    &&& str_field_ok(y, "mode"@)
    &&& mode_of(str_field(y, "mode"@)) is Some
    &&& (field(y, "watch_directories"@) matches Some(w) && string_list_ok(w))
    &&& match field(y, "exclude"@) {
        Option::None => true,
        Option::Some(v) => v is Null || string_list_ok(v),
    }
    &&& uint_field_opt_ok(y, "interval_seconds"@)
}

/// `b` holds exactly the values of the `backup` block `y`.
pub open spec fn backup_repr(b: BackupConfig, y: Yaml) -> bool {
    &&& Some(b.mode) == mode_of(str_field(y, "mode"@))
    &&& b.watch_directories.deep_view() == string_views(
        field(y, "watch_directories"@).unwrap()->List_0@,
    )
    &&& match field(y, "exclude"@) {
        Option::None => b.exclude is None,
        Option::Some(v) => if v is Null {
            b.exclude is None
        } else {
            b.exclude matches Some(e) && e.deep_view() == string_views(v->List_0@)
        },
    }
    &&& b.interval_seconds == opt_uint_value(y, "interval_seconds"@)
}

/// `y` matches the `server` block: required string fields `address` and
/// `auth_token`.
pub open spec fn server_ok(y: Yaml) -> bool {
    &&& y is Mapping
    &&& str_field_ok(y, "address"@)
    &&& str_field_ok(y, "auth_token"@)
}

/// `s` holds exactly the values of the `server` block `y`.
pub open spec fn server_repr(s: ServerConfig, y: Yaml) -> bool {
    &&& s.address@ == str_field(y, "address"@)
    &&& s.auth_token@ == str_field(y, "auth_token"@)
}

/// `y` matches the `advanced` block: four optional fields.
pub open spec fn advanced_ok(y: Yaml) -> bool {
    &&& y is Mapping
    &&& uint_field_opt_ok(y, "max_file_size_mb"@)
    &&& u32_field_opt_ok(y, "retry_attempts"@)
    &&& uint_field_opt_ok(y, "retry_delay_seconds"@)
    &&& bool_field_opt_ok(y, "enable_notifications"@)
}

/// `a` holds exactly the values of the `advanced` block `y`.
pub open spec fn advanced_repr(a: AdvancedConfig, y: Yaml) -> bool {
    &&& a.max_file_size_mb == opt_uint_value(y, "max_file_size_mb"@)
    &&& a.retry_attempts == opt_u32_value(y, "retry_attempts"@)
    &&& a.retry_delay_seconds == opt_uint_value(y, "retry_delay_seconds"@)
    &&& a.enable_notifications == opt_bool_value(y, "enable_notifications"@)
}

/// `y` matches the whole configuration schema: required `client`,
/// `backup` and `server` blocks, and an optional `advanced` block.
pub open spec fn schema_ok(y: Yaml) -> bool {
    &&& y is Mapping
    &&& (field(y, "client"@) matches Some(c) && client_ok(c))
    &&& (field(y, "backup"@) matches Some(b) && backup_ok(b))
    &&& (field(y, "server"@) matches Some(s) && server_ok(s))
    &&& match field(y, "advanced"@) {
        Option::None => true,
        Option::Some(a) => a is Null || advanced_ok(a),
    }
}

/// `c`'s fields equal the document `y`'s values exactly.
pub open spec fn represents(c: CratisConfig, y: Yaml) -> bool {
    &&& client_repr(c.client, field(y, "client"@).unwrap())
    &&& backup_repr(c.backup, field(y, "backup"@).unwrap())
    &&& server_repr(c.server, field(y, "server"@).unwrap())
    &&& match field(y, "advanced"@) {
        Option::None => c.advanced is None,
        Option::Some(a) => if a is Null {
            c.advanced is None
        } else {
            c.advanced matches Some(ac) && advanced_repr(ac, a)
        },
    }
}

/// A document whose `server` block lacks the required `auth_token` field
/// does not match the schema, so reading a configuration out of it fails.
pub proof fn lemma_missing_auth_token_rejected(y: Yaml)
    requires
        field(y, "server"@) matches Some(s) ==> field(s, "auth_token"@) is None,
    ensures
        !schema_ok(y),
{
}

/// A document whose backup mode token names neither of the two modes (for
/// instance `weekly`) does not match the schema, so reading a
/// configuration out of it fails.
pub proof fn lemma_unknown_mode_rejected(y: Yaml)
    requires
        field(y, "backup"@) matches Some(b) && (field(b, "mode"@) matches Some(m) && m is Str
            && mode_of(m->Str_0@) is None),
    ensures
        !schema_ok(y),
{
}

/// Copy a sequence of strings out of a document.
fn string_list(items: &Vec<Yaml>) -> (r: Result<Vec<String>, ConfigError>)
    ensures
        r is Ok <==> (forall|i: int| 0 <= i < items@.len() ==> items@[i] is Str),
        r matches Ok(v) ==> v.deep_view() == string_views(items@),
        r matches Err(e) ==> e == ConfigError::Parse,
{
    let mut out: Vec<String> = Vec::new();
    let mut i: usize = 0;
    while i < items.len()
        invariant
            i <= items@.len(),
            out@.len() == i,
            forall|j: int| 0 <= j < i ==> items@[j] is Str,
            forall|j: int| 0 <= j < i ==> out@[j]@ == items@[j]->Str_0@,
        decreases items@.len() - i,
    {
        match &items[i] {
            Yaml::Str(s) => out.push(s.clone()),
            _ => {
                return Err(ConfigError::Parse);
            }
        }
        i += 1;
    }
    proof {
        assert(out.deep_view() =~= string_views(items@));
    }
    Ok(out)
}

impl ClientConfig {
    /// Read the `client` block out of a document.
    pub fn from_yaml(y: &Yaml) -> (r: Result<ClientConfig, ConfigError>)
        ensures
            r is Ok <==> client_ok(*y),
            r matches Ok(c) ==> client_repr(c, *y),
            r matches Err(e) ==> e == ConfigError::Parse,
    {
        let es = match y {
            Yaml::Mapping(es) => es,
            _ => {
                return Err(ConfigError::Parse);
            }
        };
        let id = match lookup(es, "id") {
            Some(Yaml::Str(s)) => s.clone(),
            _ => {
                return Err(ConfigError::Parse);
            }
        };
        let name = match lookup(es, "name") {
            Some(Yaml::Str(s)) => s.clone(),
            _ => {
                return Err(ConfigError::Parse);
            }
        };
        Ok(ClientConfig { id, name })
    }
}

impl ServerConfig {
    /// Read the `server` block out of a document.
    pub fn from_yaml(y: &Yaml) -> (r: Result<ServerConfig, ConfigError>)
        ensures
            r is Ok <==> server_ok(*y),
            r matches Ok(s) ==> server_repr(s, *y),
            r matches Err(e) ==> e == ConfigError::Parse,
    {
        let es = match y {
            Yaml::Mapping(es) => es,
            _ => {
                return Err(ConfigError::Parse);
            }
        };
        let address = match lookup(es, "address") {
            Some(Yaml::Str(s)) => s.clone(),
            _ => {
                return Err(ConfigError::Parse);
            }
        };
        let auth_token = match lookup(es, "auth_token") {
            Some(Yaml::Str(s)) => s.clone(),
            _ => {
                return Err(ConfigError::Parse);
            }
        };
        Ok(ServerConfig { address, auth_token })
    }
}

impl BackupConfig {
    /// Read the `backup` block out of a document.
    pub fn from_yaml(y: &Yaml) -> (r: Result<BackupConfig, ConfigError>)
        ensures
            r is Ok <==> backup_ok(*y),
            r matches Ok(b) ==> backup_repr(b, *y),
            r matches Err(e) ==> e == ConfigError::Parse,
    {
        let es = match y {
            Yaml::Mapping(es) => es,
            _ => {
                return Err(ConfigError::Parse);
            }
        };
        let mode = match lookup(es, "mode") {
            Some(Yaml::Str(s)) => match BackupMode::parse(s.as_str()) {
                Some(m) => m,
                None => {
                    return Err(ConfigError::Parse);
                }
            },
            _ => {
                return Err(ConfigError::Parse);
            }
        };
        let watch_directories = match lookup(es, "watch_directories") {
            Some(Yaml::List(items)) => match string_list(items) {
                Ok(v) => v,
                Err(e) => {
                    return Err(e);
                }
            },
            _ => {
                return Err(ConfigError::Parse);
            }
        };
        let exclude = match lookup(es, "exclude") {
            None => None,
            Some(Yaml::Null) => None,
            Some(Yaml::List(items)) => match string_list(items) {
                Ok(v) => Some(v),
                Err(e) => {
                    return Err(e);
                }
            },
            Some(_) => {
                return Err(ConfigError::Parse);
            }
        };
        let interval_seconds = match lookup(es, "interval_seconds") {
            None => None,
            Some(Yaml::Null) => None,
            Some(Yaml::UInt(u)) => Some(*u),
            Some(_) => {
                return Err(ConfigError::Parse);
            }
        };
        Ok(BackupConfig { mode, watch_directories, exclude, interval_seconds })
    }
}

impl AdvancedConfig {
    /// Read the `advanced` block out of a document.
    pub fn from_yaml(y: &Yaml) -> (r: Result<AdvancedConfig, ConfigError>)
        ensures
            r is Ok <==> advanced_ok(*y),
            r matches Ok(a) ==> advanced_repr(a, *y),
            r matches Err(e) ==> e == ConfigError::Parse,
    {
        let es = match y {
            Yaml::Mapping(es) => es,
            _ => {
                return Err(ConfigError::Parse);
            }
        };
        let max_file_size_mb = match lookup(es, "max_file_size_mb") {
            None => None,
            Some(Yaml::Null) => None,
            Some(Yaml::UInt(u)) => Some(*u),
            Some(_) => {
                return Err(ConfigError::Parse);
            }
        };
        let retry_attempts = match lookup(es, "retry_attempts") {
            None => None,
            Some(Yaml::Null) => None,
            Some(Yaml::UInt(u)) => {
                if *u <= u32::MAX as u64 {
                    Some(*u as u32)
                } else {
                    return Err(ConfigError::Parse);
                }
            }
            Some(_) => {
                return Err(ConfigError::Parse);
            }
        };
        let retry_delay_seconds = match lookup(es, "retry_delay_seconds") {
            None => None,
            Some(Yaml::Null) => None,
            Some(Yaml::UInt(u)) => Some(*u),
            Some(_) => {
                return Err(ConfigError::Parse);
            }
        };
        let enable_notifications = match lookup(es, "enable_notifications") {
            None => None,
            Some(Yaml::Null) => None,
            Some(Yaml::Bool(b)) => Some(*b),
            Some(_) => {
                return Err(ConfigError::Parse);
            }
        };
        Ok(AdvancedConfig {
            max_file_size_mb,
            retry_attempts,
            retry_delay_seconds,
            enable_notifications,
        })
    }
}

impl CratisConfig {
    /// Read a whole configuration out of a document.
    ///
    /// Succeeds exactly on documents that match the schema, and then
    /// returns a configuration whose fields equal the document's values.
    pub fn from_yaml(y: &Yaml) -> (r: Result<CratisConfig, ConfigError>)
        ensures
            r is Ok <==> schema_ok(*y),
            r matches Ok(c) ==> represents(c, *y),
            r matches Err(e) ==> e == ConfigError::Parse,
    {
        let es = match y {
            Yaml::Mapping(es) => es,
            _ => {
                return Err(ConfigError::Parse);
            }
        };
        let client = match lookup(es, "client") {
            Some(v) => match ClientConfig::from_yaml(v) {
                Ok(c) => c,
                Err(e) => {
                    return Err(e);
                }
            },
            None => {
                return Err(ConfigError::Parse);
            }
        };
        let backup = match lookup(es, "backup") {
            Some(v) => match BackupConfig::from_yaml(v) {
                Ok(b) => b,
                Err(e) => {
                    return Err(e);
                }
            },
            None => {
                return Err(ConfigError::Parse);
            }
        };
        let server = match lookup(es, "server") {
            Some(v) => match ServerConfig::from_yaml(v) {
                Ok(s) => s,
                Err(e) => {
                    return Err(e);
                }
            },
            None => {
                return Err(ConfigError::Parse);
            }
        };
        let advanced = match lookup(es, "advanced") {
            None => None,
            Some(Yaml::Null) => None,
            Some(v) => match AdvancedConfig::from_yaml(v) {
                Ok(a) => Some(a),
                Err(e) => {
                    return Err(e);
                }
            },
        };
        Ok(CratisConfig { client, backup, server, advanced })
    }
}

} // verus!
