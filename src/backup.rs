//! Account backups: the session value of the signed-in account and how a
//! backup is named, locating the store, and the password scrambling used when
//! backups are exported.
use vstd::prelude::*;
use vstd::string::StringSliceAdditionalSpecFns;
use vstd::utf8::{decode_utf8, encode_utf8, valid_utf8};
use base64::Engine;
use crate::account::{backup_for, json_field_of, json_string_field, AgentError, BackupFile, AGENT_STATE_KEY};

verus! {

/// What the standard base64 alphabet, with padding, makes of some bytes.
pub uninterp spec fn base64_encoded(b: Seq<u8>) -> Seq<char>;

/// The bytes that a text in the standard base64 alphabet, with padding,
/// stands for; `None` where it is no such text.
pub uninterp spec fn base64_decoded(s: Seq<char>) -> Option<Seq<u8>>;

/// A text without its leading and trailing whitespace.
pub uninterp spec fn trimmed(s: Seq<char>) -> Seq<char>;

/// Relies on base64's `STANDARD` engine, `Engine::encode`.
#[verifier::external_body]
fn base64_encode(b: &[u8]) -> (r: String)
    ensures
        r@ == base64_encoded(b@),
{
    base64::engine::general_purpose::STANDARD.encode(b)
}

/// Relies on base64's `STANDARD` engine, `Engine::decode`, which fails on a
/// text that is not padded standard base64.
#[verifier::external_body]
fn base64_decode(s: &str) -> (r: Option<Vec<u8>>)
    ensures
        match r {
            Some(b) => base64_decoded(s@) == Some(b@),
            None => base64_decoded(s@).is_none(),
        },
{
    base64::engine::general_purpose::STANDARD.decode(s).ok()
}

/// Relies on `str::trim`.
#[verifier::external_body]
fn trim_text(s: &str) -> (r: String)
    ensures
        r@ == trimmed(s@),
{
    s.trim().to_string()
}

/// Relies on `String::from_utf8`, which fails exactly on bytes that are not
/// UTF-8.
#[verifier::external_body]
fn utf8_string(bytes: Vec<u8>) -> (r: Option<String>)
    ensures
        r.is_some() == valid_utf8(bytes@),
        r matches Some(s) ==> s@ == decode_utf8(bytes@),
{
    String::from_utf8(bytes).ok()
}

/// The message bytes that a session value holds.
pub fn decode_session(value: &str) -> (r: Result<Vec<u8>, AgentError>)
    ensures
        match base64_decoded(trimmed(value@)) {
            Some(b) => r is Ok && r->Ok_0@ == b,
            None => r is Err && r->Err_0 is DecodeFailure,
        },
{
    let t = trim_text(value);
    match base64_decode(t.as_str()) {
        Some(b) => Ok(b),
        None => Err(AgentError::DecodeFailure(String::from_str("session value is not valid base64"))),
    }
}

/// Backs up the signed-in account, given the session value that the store
/// holds (if any) and the email address that its decoded message names. No
/// session is `NotFound`; a value that is no base64, or a message without an
/// email address, is `DecodeFailure`. The backup keeps the value verbatim.
pub fn save_antigravity_current_account(session: Option<String>, email: &str) -> (r: Result<
    BackupFile,
    AgentError,
>)
    ensures
        match session {
            None => r is Err && r->Err_0 is NotFound,
            Some(v) => if base64_decoded(trimmed(v@)).is_none() || email@.len() == 0 {
                r is Err && r->Err_0 is DecodeFailure
            } else {
                r is Ok && r->Ok_0.file_name@ == crate::account::backup_file_text(email@)
                    && r->Ok_0.content@ == crate::account::backup_document_of(AGENT_STATE_KEY@, v@)
            },
        },
{
    let v = match session {
        Some(v) => v,
        None => {
            return Err(AgentError::NotFound(String::from_str("session value not found in the store")));
        },
    };
    decode_session(v.as_str())?;
    backup_for(email, v.as_str())
}

/// The store file to work on: the detected one, else the first one found
/// elsewhere. None at all is `NotFound`.
pub fn resolve_store_path(primary: Option<String>, candidates: &Vec<String>) -> (r: Result<
    String,
    AgentError,
>)
    ensures
        match primary {
            Some(p) => r is Ok && r->Ok_0@ == p@,
            None => if candidates@.len() > 0 {
                r is Ok && r->Ok_0@ == candidates@[0]@
            } else {
                r is Err && r->Err_0 is NotFound
            },
        },
{
    match primary {
        Some(p) => Ok(p),
        None => if candidates.len() > 0 {
            Ok(candidates[0].clone())
        } else {
            Err(AgentError::NotFound(String::from_str("Antigravity installation not found")))
        },
    }
}

/// Each byte combined by exclusive or with the password byte at the same
/// position, the password repeated.
pub open spec fn xor_with(data: Seq<u8>, key: Seq<u8>) -> Seq<u8> {
    Seq::new(data.len(), |i: int| data[i] ^ key[i % key.len() as int])
}

pub fn xor_bytes(data: &[u8], key: &[u8]) -> (r: Vec<u8>)
    requires
        key@.len() > 0,
    ensures
        r@ == xor_with(data@, key@),
{
    let mut r: Vec<u8> = Vec::new();
    let mut i: usize = 0;
    while i < data.len()
        invariant
            i <= data@.len(),
            key@.len() > 0,
            r@ == xor_with(data@.subrange(0, i as int), key@),
        decreases data@.len() - i,
    {
        let b = data[i] ^ key[i % key.len()];
        r.push(b);
        assert(r@ =~= xor_with(data@.subrange(0, i + 1), key@));
        i = i + 1;
    }
    assert(data@.subrange(0, data@.len() as int) =~= data@);
    r
}

/// Scrambles exported data with a password: its UTF-8 bytes combined with the
/// password's, in base64. An empty password is refused.
pub fn encrypt_config_data(json_data: &str, password: &str) -> (r: Result<String, String>)
    ensures
        password.spec_bytes().len() == 0 ==> r is Err,
        password.spec_bytes().len() > 0 ==> r is Ok && r->Ok_0@ == base64_encoded(
            xor_with(json_data.spec_bytes(), password.spec_bytes()),
        ),
{
    let key = password.as_bytes();
    if key.len() == 0 {
        return Err(String::from_str("Password cannot be empty"));
    }
    let scrambled = xor_bytes(json_data.as_bytes(), key);
    Ok(base64_encode(scrambled.as_slice()))
}

/// Unscrambles bytes of an export with a password. Bytes that do not come back
/// as UTF-8 text are refused, as is an empty password.
pub fn decrypt_bytes(decoded: &[u8], password: &str) -> (r: Result<String, String>)
    ensures
        password.spec_bytes().len() == 0 ==> r is Err,
        password.spec_bytes().len() > 0 ==> {
            let x = xor_with(decoded@, password.spec_bytes());
            &&& valid_utf8(x) ==> r is Ok && r->Ok_0@ == decode_utf8(x)
            &&& !valid_utf8(x) ==> r is Err
        },
{
    let key = password.as_bytes();
    if key.len() == 0 {
        return Err(String::from_str("Password cannot be empty"));
    }
    let plain = xor_bytes(decoded, key);
    match utf8_string(plain) {
        Some(s) => Ok(s),
        None => Err(String::from_str("Decryption failed, data may be corrupted")),
    }
}

/// Unscrambles an export: base64 first, then as `decrypt_bytes`.
pub fn decrypt_config_data(encrypted_data: &str, password: &str) -> (r: Result<String, String>)
    ensures
        password.spec_bytes().len() == 0 ==> r is Err,
        password.spec_bytes().len() > 0 ==> match base64_decoded(encrypted_data@) {
            None => r is Err,
            Some(b) => {
                let x = xor_with(b, password.spec_bytes());
                &&& valid_utf8(x) ==> r is Ok && r->Ok_0@ == decode_utf8(x)
                &&& !valid_utf8(x) ==> r is Err
            },
        },
{
    if password.as_bytes().len() == 0 {
        return Err(String::from_str("Password cannot be empty"));
    }
    match base64_decode(encrypted_data) {
        Some(b) => decrypt_bytes(b.as_slice(), password),
        None => Err(String::from_str("Base64 decoding failed")),
    }
}

/// Unscrambling what was scrambled with the same password gives the text back.
pub proof fn lemma_config_cipher_round_trip(text: Seq<char>, key: Seq<u8>)
    requires
        key.len() > 0,
    ensures
        xor_with(xor_with(encode_utf8(text), key), key) == encode_utf8(text),
        valid_utf8(xor_with(xor_with(encode_utf8(text), key), key)),
        decode_utf8(xor_with(xor_with(encode_utf8(text), key), key)) == text,
{
    let d = encode_utf8(text);
    let once = xor_with(d, key);
    let twice = xor_with(once, key);
    assert forall|i: int| 0 <= i < d.len() implies #[trigger] twice[i] == d[i] by {
        let a = d[i];
        let k = key[i % key.len() as int];
        assert((a ^ k) ^ k == a) by (bit_vector);
    }
    assert(twice =~= d);
    vstd::utf8::encode_utf8_valid_utf8(text);
    vstd::utf8::encode_utf8_decode_utf8(text);
}

/// One backup file of the accounts directory: when it was last written, as a
/// number that grows with time, and its text.
pub struct BackupListing {
    pub modified: u64,
    pub content: String,
}

/// The session value a backup file holds, if it holds one.
pub open spec fn listing_session(l: BackupListing) -> Option<Seq<char>> {
    json_field_of(l.content@, AGENT_STATE_KEY@)
}

/// The backups that hold a session value, with their times, in the given order.
pub open spec fn valid_sessions(files: Seq<BackupListing>) -> Seq<(u64, Seq<char>)>
    decreases files.len(),
{
    if files.len() == 0 {
        Seq::empty()
    } else {
        let rest = valid_sessions(files.drop_last());
        match listing_session(files.last()) {
            Some(v) => rest.push((files.last().modified, v)),
            None => rest,
        }
    }
}

pub open spec fn newest_first(s: Seq<(u64, Seq<char>)>) -> bool {
    forall|i: int, j: int| 0 <= i < j < s.len() ==> s[i].0 >= s[j].0
}

pub open spec fn pairs_view(r: Seq<(u64, String)>) -> Seq<(u64, Seq<char>)> {
    r.map_values(|p: (u64, String)| (p.0, p.1@))
}

/// The saved accounts: the session value of each backup file that holds one,
/// newest first. A file without one is passed over; it does not stop the list.
pub fn get_antigravity_accounts(files: &Vec<BackupListing>) -> (r: Vec<(u64, String)>)
    ensures
        newest_first(pairs_view(r@)),
        pairs_view(r@).to_multiset() == valid_sessions(files@).to_multiset(),
{
    let mut out: Vec<(u64, String)> = Vec::new();
    let mut i: usize = 0;
    proof {
        assert(pairs_view(out@) =~= Seq::<(u64, Seq<char>)>::empty());
        assert(files@.subrange(0, 0) =~= Seq::<BackupListing>::empty());
    }
    while i < files.len()
        invariant
            i <= files@.len(),
            newest_first(pairs_view(out@)),
            pairs_view(out@).to_multiset() == valid_sessions(files@.subrange(0, i as int)).to_multiset(),
        decreases files@.len() - i,
    {
        let ghost prefix = files@.subrange(0, i + 1);
        proof {
            assert(prefix.drop_last() =~= files@.subrange(0, i as int));
            assert(prefix.last() == files@[i as int]);
        }
        match json_string_field(files[i].content.as_str(), AGENT_STATE_KEY) {
            Some(v) => {
                let m = files[i].modified;
                let mut p: usize = 0;
                while p < out.len() && out[p].0 >= m
                    invariant
                        p <= out@.len(),
                        forall|j: int| 0 <= j < p ==> out@[j].0 >= m,
                    decreases out@.len() - p,
                {
                    p = p + 1;
                }
                let ghost before = pairs_view(out@);
                let ghost e = (m, v@);
                out.insert(p, (m, v));
                proof {
                    assert(pairs_view(out@) =~= before.insert(p as int, e));
                    vstd::seq_lib::to_multiset_insert(before, p as int, e);
                    vstd::seq_lib::to_multiset_build(valid_sessions(files@.subrange(0, i as int)), e);
                    let now = pairs_view(out@);
                    assert forall|a: int, b: int| 0 <= a < b < now.len() implies now[a].0
                        >= now[b].0 by {
                        if b < p {
                            assert(now[a] == before[a] && now[b] == before[b]);
                        } else if b == p {
                            assert(now[a] == before[a]);
                        } else if a < p {
                            assert(now[a] == before[a] && now[b] == before[b - 1]);
                            assert(before[p as int].0 < m);
                        } else if a == p {
                            assert(now[b] == before[b - 1]);
                            assert(before[p as int].0 < m);
                        } else {
                            assert(now[a] == before[a - 1] && now[b] == before[b - 1]);
                        }
                    }
                }
            },
            None => {},
        }
        i = i + 1;
    }
    assert(files@.subrange(0, files@.len() as int) =~= files@);
    out
}

/// `c` is `e`, or its ASCII capital where `e` is a small letter.
pub open spec fn same_ignoring_case(c: char, e: char) -> bool {
    c == e || ('A' <= c <= 'Z' && c as u32 + 32 == e as u32)
}

/// The character `i` places before the last five of `name` fits `".json"`.
pub open spec fn ext_char_fits(name: Seq<char>, i: int, ignore_case: bool) -> bool {
    let c = name[name.len() - 5 + i];
    let e = ".json"@[i];
    if ignore_case {
        same_ignoring_case(c, e)
    } else {
        c == e
    }
}

/// A file name whose extension is `json` (in any case where `ignore_case`): a
/// name of more than the five characters of `".json"` that ends in them.
pub open spec fn is_json_name_spec(name: Seq<char>, ignore_case: bool) -> bool {
    name.len() > 5 && forall|i: int| 0 <= i < 5 ==> #[trigger] ext_char_fits(name, i, ignore_case)
}

pub fn is_json_name(name: &str, ignore_case: bool) -> (r: bool)
    ensures
        r == is_json_name_spec(name@, ignore_case),
{
    proof {
        reveal_strlit(".json");
    }
    let n = name.unicode_len();
    if n <= 5 {
        return false;
    }
    let ext = ".json";
    let mut i: usize = 0;
    while i < 5
        invariant
            n == name@.len(),
            n > 5,
            i <= 5,
            ext@ == ".json"@,
            ext@.len() == 5,
            forall|j: int| 0 <= j < i ==> #[trigger] ext_char_fits(name@, j, ignore_case),
        decreases 5 - i,
    {
        let c = name.get_char(n - 5 + i);
        let e = ext.get_char(i);
        let same = if ignore_case {
            c == e || ('A' <= c && c <= 'Z' && (c as u32) + 32 == (e as u32))
        } else {
            c == e
        };
        if !same {
            assert(!ext_char_fits(name@, i as int, ignore_case));
            return false;
        }
        i = i + 1;
    }
    true
}

/// The text a legacy backup is rewritten to: its session field alone.
pub uninterp spec fn filtered_document_of(content: Seq<char>, field: Seq<char>) -> Option<Seq<char>>;

/// Relies on serde_json: `from_str::<Value>`, `Value::get`, and a one-field
/// object written by `to_string_pretty`. `None` where the text is no JSON or
/// has no such field.
#[verifier::external_body]
fn filtered_document(content: &str, field: &str) -> (r: Option<String>)
    ensures
        match r {
            Some(t) => filtered_document_of(content@, field@) == Some(t@),
            None => filtered_document_of(content@, field@).is_none(),
        },
{
    let v: serde_json::Value = serde_json::from_str(content).ok()?;
    let state = v.get(field)?.clone();
    let mut doc = serde_json::Map::new();
    doc.insert(field.to_string(), state);
    serde_json::to_string_pretty(&serde_json::Value::Object(doc)).ok()
}

/// What to do with one backup of the legacy accounts directory.
pub enum MigrationStep {
    /// Write this text under the same name in the accounts directory.
    Write(String),
    /// A backup of that name is there already: leave it.
    SkipExisting,
    /// The file could not be read or holds no session: pass it over.
    Ignore,
}

/// Decides on one legacy backup from what reading it gave and whether the
/// accounts directory has a file of its name. Whatever the step, the legacy
/// file is then renamed to `.bak`.
pub fn migration_step(read: &Result<String, String>, target_exists: bool) -> (r: MigrationStep)
    ensures
        match read {
            Err(_) => r is Ignore,
            Ok(c) => match filtered_document_of(c@, AGENT_STATE_KEY@) {
                None => r is Ignore,
                Some(d) => if target_exists {
                    r is SkipExisting
                } else {
                    match r {
                        MigrationStep::Write(t) => t@ == d,
                        _ => false,
                    }
                },
            },
        },
{
    match read {
        Err(_) => MigrationStep::Ignore,
        Ok(c) => match filtered_document(c.as_str(), AGENT_STATE_KEY) {
            None => MigrationStep::Ignore,
            Some(d) => if target_exists {
                MigrationStep::SkipExisting
            } else {
                MigrationStep::Write(d)
            },
        },
    }
}

/// A backup that could not be written back during an import.
pub struct FailedAccountExportedData {
    pub filename: String,
    pub error: String,
}

/// The outcome of importing backups.
pub struct RestoreResult {
    pub restored_count: u32,
    pub failed: Vec<FailedAccountExportedData>,
}

impl RestoreResult {
    pub fn new() -> (r: RestoreResult)
        ensures
            r.restored_count == 0,
            r.failed@.len() == 0,
    {
        RestoreResult { restored_count: 0, failed: Vec::new() }
    }

    /// One more backup was written back.
    pub fn record_restored(&mut self)
        requires
            old(self).restored_count < u32::MAX,
        ensures
            final(self).restored_count == old(self).restored_count + 1,
            final(self).failed@ == old(self).failed@,
    {
        self.restored_count = self.restored_count + 1;
    }

    /// A backup could not be written back, for this reason.
    pub fn record_failed(&mut self, filename: String, error: String)
        ensures
            final(self).restored_count == old(self).restored_count,
            final(self).failed@.len() == old(self).failed@.len() + 1,
            final(self).failed@.last().filename@ == filename@,
            final(self).failed@.last().error@ == error@,
            forall|i: int| 0 <= i < old(self).failed@.len() ==> final(self).failed@[i] == old(self).failed@[i],
    {
        self.failed.push(FailedAccountExportedData { filename, error });
    }
}

} // verus!
