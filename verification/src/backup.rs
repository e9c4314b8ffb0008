//! Backups: where they go, what their files are called and hold, and what is recorded of
//! them.
use sha2::Digest;
use vstd::prelude::*;
use vstd::string::*;

use crate::location::{below, Location, LocationView};
use crate::text::{
    chars_of, decimal, hex, hex_text, joined, opt_view, same_text, views,
};
use crate::text_laws::{bytes_are_read_back, hex_read};

verus! {

/// Why an operation on backups failed.
#[derive(Debug)]
pub enum BackupError {
    /// A file operation failed.
    Gateway(String),
    /// Something does not exist.
    NotFound(String),
    /// The database reports an error.
    Database(String),
}

/// An error, its text as a sequence of characters.
pub enum BackupErrorView {
    Gateway(Seq<char>),
    NotFound(Seq<char>),
    Database(Seq<char>),
}

impl View for BackupError {
    type V = BackupErrorView;

    open spec fn view(&self) -> BackupErrorView {
        match self {
            BackupError::Gateway(message) => BackupErrorView::Gateway(message@),
            BackupError::NotFound(message) => BackupErrorView::NotFound(message@),
            BackupError::Database(message) => BackupErrorView::Database(message@),
        }
    }
}

/// The error of a file operation: what failed and why.
pub fn gateway_error(what: &str, why: &str) -> (error: BackupError)
    ensures
        error@ == BackupErrorView::Gateway(what@ + why@),
{
    let mut message = what.to_owned();
    message.append(why);
    BackupError::Gateway(message)
}

/// The error of a backup that is not recorded.
pub fn unknown_backup(id: &str) -> (error: BackupError)
    ensures
        error@ == unknown_backup_error(id@),
{
    let mut message = "BackupManifest ".to_owned();
    message.append(id);
    BackupError::NotFound(message)
}

/// The error of a backup that is not recorded.
pub open spec fn unknown_backup_error(id: Seq<char>) -> BackupErrorView {
    BackupErrorView::NotFound("BackupManifest "@ + id)
}

// ---------------------------------------------------------------------------------------
// Manifests
// ---------------------------------------------------------------------------------------

/// A stored record of a backup. The path of its file has been decoded.
#[derive(Debug)]
pub struct BackupRecord {
    pub id: String,
    pub version: String,
    pub created_at: String,
    pub encrypted: i32,
    pub checksum: String,
    pub object_counts_json: String,
    pub source_app_version: String,
    pub file_path: Option<String>,
    pub file_size: i64,
}

/// What the user sees of a backup.
#[derive(Debug)]
pub struct BackupManifest {
    pub id: String,
    pub version: String,
    pub created_at: String,
    pub encrypted: bool,
    pub checksum: String,
    pub object_counts_json: String,
    pub source_app_version: String,
    pub file_path: Option<String>,
    pub file_size: i64,
}

/// A record, its texts as sequences of characters.
pub struct RecordView {
    pub id: Seq<char>,
    pub version: Seq<char>,
    pub created_at: Seq<char>,
    pub encrypted: i32,
    pub checksum: Seq<char>,
    pub object_counts_json: Seq<char>,
    pub source_app_version: Seq<char>,
    pub file_path: Option<Seq<char>>,
    pub file_size: i64,
}

/// A manifest, its texts as sequences of characters.
pub struct ManifestView {
    pub id: Seq<char>,
    pub version: Seq<char>,
    pub created_at: Seq<char>,
    pub encrypted: bool,
    pub checksum: Seq<char>,
    pub object_counts_json: Seq<char>,
    pub source_app_version: Seq<char>,
    pub file_path: Option<Seq<char>>,
    pub file_size: i64,
}

impl View for BackupRecord {
    type V = RecordView;

    open spec fn view(&self) -> RecordView {
        RecordView {
            id: self.id@,
            version: self.version@,
            created_at: self.created_at@,
            encrypted: self.encrypted,
            checksum: self.checksum@,
            object_counts_json: self.object_counts_json@,
            source_app_version: self.source_app_version@,
            file_path: opt_view(self.file_path),
            file_size: self.file_size,
        }
    }
}

impl View for BackupManifest {
    type V = ManifestView;

    open spec fn view(&self) -> ManifestView {
        ManifestView {
            id: self.id@,
            version: self.version@,
            created_at: self.created_at@,
            encrypted: self.encrypted,
            checksum: self.checksum@,
            object_counts_json: self.object_counts_json@,
            source_app_version: self.source_app_version@,
            file_path: opt_view(self.file_path),
            file_size: self.file_size,
        }
    }
}

/// The manifest of a record: any number but zero means that the backup is encrypted.
pub open spec fn manifest_of(record: RecordView) -> ManifestView {
    ManifestView {
        id: record.id,
        version: record.version,
        created_at: record.created_at,
        encrypted: record.encrypted != 0,
        checksum: record.checksum,
        object_counts_json: record.object_counts_json,
        source_app_version: record.source_app_version,
        file_path: record.file_path,
        file_size: record.file_size,
    }
}

/// Makes the manifest of a record.
pub fn model_to_manifest(record: BackupRecord) -> (manifest: BackupManifest)
    ensures
        manifest@ == manifest_of(record@),
{
    BackupManifest {
        id: record.id,
        version: record.version,
        created_at: record.created_at,
        encrypted: record.encrypted != 0,
        checksum: record.checksum,
        object_counts_json: record.object_counts_json,
        source_app_version: record.source_app_version,
        file_path: record.file_path,
        file_size: record.file_size,
    }
}

/// The manifests of records, in order.
pub open spec fn manifests_of(records: Seq<RecordView>) -> Seq<ManifestView> {
    Seq::new(records.len(), |i: int| manifest_of(records[i]))
}

/// Lists the backups whose records the database gave, in its order.
pub fn list_backups(records: Result<Vec<BackupRecord>, String>) -> (result: Result<
    Vec<BackupManifest>,
    BackupError,
>)
    ensures
        match records {
            Ok(records) => result matches Ok(manifests) && views(manifests@) == manifests_of(
                views(records@),
            ),
            Err(error) => result matches Err(shown) && shown@ == BackupErrorView::Database(error@),
        },
{
    let records = match records {
        Ok(records) => records,
        Err(error) => {
            return Err(BackupError::Database(error));
        },
    };
    let ghost all = views(records@);
    let mut manifests: Vec<BackupManifest> = Vec::new();
    for record in it: records.into_iter()
        invariant
            it.seq() == records@,
            all == views(records@),
            views(manifests@) =~= manifests_of(all).take(it.index()),
    {
        let ghost done = views(manifests@);
        let manifest = model_to_manifest(record);
        manifests.push(manifest);
        assert(views(manifests@) =~= done.push(manifest@));
        assert(manifests_of(all)[it.index()] == manifest@);
    }
    assert(manifests_of(all).take(all.len() as int) =~= manifests_of(all));
    Ok(manifests)
}

/// Reads the backup whose record the database gave, if it has one.
pub fn get_backup(id: &str, record: Result<Option<BackupRecord>, String>) -> (result: Result<
    BackupManifest,
    BackupError,
>)
    ensures
        match record {
            Ok(Some(record)) => result matches Ok(manifest) && manifest@ == manifest_of(record@),
            Ok(None) => result matches Err(error) && error@ == unknown_backup_error(id@),
            Err(error) => result matches Err(shown) && shown@ == BackupErrorView::Database(error@),
        },
{
    match record {
        Ok(Some(record)) => Ok(model_to_manifest(record)),
        Ok(None) => Err(unknown_backup(id)),
        Err(error) => Err(BackupError::Database(error)),
    }
}

// ---------------------------------------------------------------------------------------
// Places and names
// ---------------------------------------------------------------------------------------

/// The directory of the backups: the configured one, unless that is empty, else one below the
/// data directory of the application.
pub open spec fn backup_place<B>(setting: Option<Seq<char>>, app_data_dir: B) -> LocationView<B> {
    match setting {
        Some(dir) if dir.len() > 0 => LocationView::Explicit(dir),
        _ => LocationView::Below { base: app_data_dir, steps: seq!["backups"@] },
    }
}

/// Finds the directory of the backups.
pub fn resolve_backup_dir<'a, B>(
    backup_dir_setting: Option<&str>,
    app_data_dir: &'a B,
) -> (place: Location<'a, B>)
    ensures
        place@ == backup_place(opt_view(backup_dir_setting), *app_data_dir),
{
    if let Some(dir) = backup_dir_setting {
        if !dir.is_empty() {
            return Location::Explicit(dir.to_owned());
        }
    }
    below(app_data_dir, "backups")
}

/// What the creation of the directory of the backups comes to.
pub fn ensure_backup_dir(error: Option<String>) -> (result: Result<(), BackupError>)
    ensures
        match error {
            Some(error) => result matches Err(shown) && shown@ == BackupErrorView::Gateway(
                "Failed to create backup directory: "@ + error@,
            ),
            None => result is Ok,
        },
{
    match error {
        Some(error) => Err(gateway_error("Failed to create backup directory: ", error.as_str())),
        None => Ok(()),
    }
}

/// The extension of the file of a backup in a format.
pub open spec fn extension_of(format: Seq<char>) -> Seq<char> {
    if format == "sqlite"@ {
        "db"@
    } else {
        "json"@
    }
}

/// The name of the file of a backup.
pub open spec fn file_name_of(stamp: Seq<char>, format: Seq<char>) -> Seq<char> {
    "aqbot-backup-"@ + stamp + "."@ + extension_of(format)
}

/// Names the file of a backup.
pub fn backup_file_name(stamp: &str, format: &str) -> (name: String)
    ensures
        name@ == file_name_of(stamp@, format@),
{
    let mut name = "aqbot-backup-".to_owned();
    name.append(stamp);
    name.append(".");
    if same_text(format, "sqlite") {
        name.append("db");
    } else {
        name.append("json");
    }
    name
}

/// The path of the database in its connection string.
pub open spec fn database_path(connection: Seq<char>) -> Seq<char> {
    let prefix = "sqlite:"@;
    if prefix.is_prefix_of(connection) {
        connection.skip(prefix.len() as int)
    } else {
        connection
    }
}

/// Finds the path of the database in its connection string.
pub fn strip_sqlite_prefix(connection: &str) -> (path: String)
    ensures
        path@ == database_path(connection@),
{
    let prefix = "sqlite:";
    let size: usize = prefix.unicode_len();
    if connection.unicode_len() < size {
        assert(!prefix@.is_prefix_of(connection@));
        return connection.to_owned();
    }
    let head = connection.substring_char(0, size);
    if same_text(head, prefix) {
        let rest = connection.substring_char(size, connection.unicode_len());
        assert(prefix@.is_prefix_of(connection@)) by {
            assert(prefix@ =~= connection@.subrange(0, size as int));
        }
        assert(rest@ =~= connection@.skip(size as int));
        rest.to_owned()
    } else {
        assert(!prefix@.is_prefix_of(connection@)) by {
            if prefix@.is_prefix_of(connection@) {
                assert(connection@.subrange(0, size as int) =~= prefix@);
            }
        }
        connection.to_owned()
    }
}

// ---------------------------------------------------------------------------------------
// The statement that copies the database
// ---------------------------------------------------------------------------------------

/// A text with each quote doubled.
pub open spec fn quotes_doubled(text: Seq<char>) -> Seq<char>
    decreases text.len(),
{
    if text.len() == 0 {
        Seq::empty()
    } else if text.last() == '\'' {
        quotes_doubled(text.drop_last()).push('\'').push('\'')
    } else {
        quotes_doubled(text.drop_last()).push(text.last())
    }
}

/// The statement that copies the database to a file.
pub open spec fn vacuum_statement(dest: Seq<char>) -> Seq<char> {
    "VACUUM INTO '"@ + quotes_doubled(dest) + "'"@
}

fn double_quotes(text: &str) -> (doubled: String)
    ensures
        doubled@ == quotes_doubled(text@),
{
    let chars = chars_of(text);
    let mut doubled = String::new();
    assert(text@.take(0) =~= Seq::empty());
    assert(doubled@ =~= Seq::empty());
    proof {
        reveal_strlit("''");
    }
    let mut i: usize = 0;
    while i < chars.len()
        invariant
            i <= chars.len(),
            chars@ == text@,
            "''"@ == seq!['\'', '\''],
            doubled@ == quotes_doubled(text@.take(i as int)),
        decreases chars.len() - i,
    {
        let ghost before = doubled@;
        assert(text@.take(i + 1).drop_last() =~= text@.take(i as int));
        if chars[i] == '\'' {
            doubled.append("''");
            assert(doubled@ =~= before.push('\'').push('\''));
        } else {
            let part = text.substring_char(i, i + 1);
            doubled.append(part);
            assert(part@ =~= seq![chars@[i as int]]);
            assert(doubled@ =~= before.push(chars@[i as int]));
        }
        i = i + 1;
    }
    assert(text@.take(i as int) =~= text@);
    doubled
}

/// Writes the statement that copies the database to a file.
pub fn vacuum_into(dest: &str) -> (statement: String)
    ensures
        statement@ == vacuum_statement(dest@),
{
    let mut statement = "VACUUM INTO '".to_owned();
    statement.append(double_quotes(dest).as_str());
    statement.append("'");
    statement
}

/// The text that a quoted text stands for: of each two quotes in a row, one. A single quote
/// ends the quoted text, so it stands for nothing.
pub open spec fn unquoted(text: Seq<char>) -> Option<Seq<char>>
    decreases text.len(),
{
    if text.len() == 0 {
        Some(Seq::empty())
    } else if text.last() != '\'' {
        match unquoted(text.drop_last()) {
            Some(before) => Some(before.push(text.last())),
            None => None,
        }
    } else if text.len() >= 2 && text.drop_last().last() == '\'' {
        match unquoted(text.drop_last().drop_last()) {
            Some(before) => Some(before.push('\'')),
            None => None,
        }
    } else {
        None
    }
}

/// The quoted destination stands for the destination itself, whatever it holds: no quote in a
/// path ends the quoted text early.
pub proof fn quoted_path_stands_for_the_path(dest: Seq<char>)
    ensures
        unquoted(quotes_doubled(dest)) == Some(dest),
    decreases dest.len(),
{
    if dest.len() > 0 {
        let before = dest.drop_last();
        quoted_path_stands_for_the_path(before);
        let q = quotes_doubled(before);
        if dest.last() == '\'' {
            assert(q.push('\'').push('\'').drop_last() =~= q.push('\''));
            assert(q.push('\'').drop_last() =~= q);
        } else {
            assert(q.push(dest.last()).drop_last() =~= q);
        }
        assert(before.push(dest.last()) =~= dest);
    } else {
        assert(dest =~= Seq::empty());
    }
}

// ---------------------------------------------------------------------------------------
// Checksums and counts
// ---------------------------------------------------------------------------------------

/// The SHA-256 digest of bytes, as `sha2::Sha256` computes it.
pub uninterp spec fn sha256(data: Seq<u8>) -> Seq<u8>;

/// Calls `sha2::Sha256::digest`. The digest depends on the bytes alone and has 32 bytes.
#[verifier::external_body]
fn sha256_digest(data: &Vec<u8>) -> (digest: Vec<u8>)
    ensures
        digest@ == sha256(data@),
        digest@.len() == 32,
{
    sha2::Sha256::digest(data).to_vec()
}

/// The checksum of a file that holds the given bytes: its SHA-256 digest in hexadecimal.
pub open spec fn checksum_of(data: Seq<u8>) -> Seq<char> {
    hex(sha256(data))
}

/// Computes the checksum of a file from what was read of it.
pub fn compute_file_checksum(data: Result<Vec<u8>, String>) -> (result: Result<String, BackupError>)
    ensures
        match data {
            Ok(data) => result matches Ok(checksum) && checksum@ == checksum_of(data@)
                && checksum@.len() == 64,
            Err(error) => result matches Err(shown) && shown@ == BackupErrorView::Gateway(
                "Failed to read file for checksum: "@ + error@,
            ),
        },
{
    match data {
        Ok(data) => {
            let digest = sha256_digest(&data);
            Ok(hex_text(&digest))
        },
        Err(error) => Err(gateway_error("Failed to read file for checksum: ", error.as_str())),
    }
}

/// Whether a key can be written in JSON as it is: lower-case letters only.
pub open spec fn plain_key(key: Seq<char>) -> bool {
    key.len() > 0 && forall|i: int| 0 <= i < key.len() ==> 'a' <= #[trigger] key[i] <= 'z'
}

/// Keys and numbers.
pub open spec fn count_views(entries: Seq<(String, u64)>) -> Seq<(Seq<char>, u64)> {
    Seq::new(entries.len(), |i: int| (entries[i].0@, entries[i].1))
}

/// Whether the keys can be written as they are and stand in the order of their first letters,
/// which all differ.
pub open spec fn keys_in_order(entries: Seq<(Seq<char>, u64)>) -> bool {
    &&& forall|i: int| 0 <= i < entries.len() ==> plain_key((#[trigger] entries[i]).0)
    &&& forall|i: int, j: int|
        0 <= i < j < entries.len() ==> (#[trigger] entries[i]).0[0] < (#[trigger] entries[j]).0[0]
}

/// The JSON text of an object of numbers.
pub open spec fn object_of_numbers(entries: Seq<(Seq<char>, u64)>) -> Seq<char> {
    let members = Seq::new(
        entries.len(),
        |i: int| "\""@ + entries[i].0 + "\":"@ + decimal(entries[i].1 as nat),
    );
    "{"@ + joined(members, ","@) + "}"@
}

/// Calls the `Display` impl of `serde_json::Value` on an object of numbers: the compact JSON
/// text, its members in the order of their keys. Keys of lower-case letters need no escapes,
/// and keys with ascending first letters stand in the order of `serde_json`'s map.
#[verifier::external_body]
fn json_object_of_numbers(entries: Vec<(String, u64)>) -> (text: String)
    requires
        keys_in_order(count_views(entries@)),
    ensures
        text@ == object_of_numbers(count_views(entries@)),
{
    let members = entries.into_iter().map(|(key, n)| (key, serde_json::Value::from(n)));
    serde_json::Value::Object(members.collect()).to_string()
}

/// How many objects of each kind a backup holds. A number that could not be found counts as
/// zero.
pub open spec fn counts_view(
    conversations: Option<u64>,
    messages: Option<u64>,
    providers: Option<u64>,
) -> Seq<char> {
    object_of_numbers(
        seq![
            ("conversations"@, or_zero(conversations)),
            ("messages"@, or_zero(messages)),
            ("providers"@, or_zero(providers)),
        ],
    )
}

/// A number, zero where it is missing.
pub open spec fn or_zero(count: Option<u64>) -> u64 {
    match count {
        Some(count) => count,
        None => 0,
    }
}

fn known_or_zero(count: Option<u64>) -> (n: u64)
    ensures
        n == or_zero(count),
{
    match count {
        Some(count) => count,
        None => 0,
    }
}

/// Writes how many objects of each kind a backup holds.
pub fn count_objects(
    conversations: Option<u64>,
    messages: Option<u64>,
    providers: Option<u64>,
) -> (text: String)
    ensures
        text@ == counts_view(conversations, messages, providers),
{
    let mut entries: Vec<(String, u64)> = Vec::new();
    entries.push(("conversations".to_owned(), known_or_zero(conversations)));
    entries.push(("messages".to_owned(), known_or_zero(messages)));
    entries.push(("providers".to_owned(), known_or_zero(providers)));
    proof {
        reveal_strlit("conversations");
        reveal_strlit("messages");
        reveal_strlit("providers");
        assert(count_views(entries@) =~= seq![
            ("conversations"@, or_zero(conversations)),
            ("messages"@, or_zero(messages)),
            ("providers"@, or_zero(providers)),
        ]);
        assert(plain_key("conversations"@));
        assert(plain_key("messages"@));
        assert(plain_key("providers"@));
        assert("conversations"@[0] == 'c');
        assert("messages"@[0] == 'm');
        assert("providers"@[0] == 'p');
    }
    json_object_of_numbers(entries)
}

/// A manifest tells what the record of its backup holds, and manifests stand in the order of
/// their records.
pub proof fn a_manifest_tells_what_is_recorded(records: Seq<RecordView>, at: int)
    requires
        0 <= at < records.len(),
    ensures
        manifests_of(records).len() == records.len(),
        ({
            let record = records[at];
            let manifest = manifests_of(records)[at];
            &&& manifest == manifest_of(record)
            &&& manifest.id == record.id
            &&& manifest.version == record.version
            &&& manifest.created_at == record.created_at
            &&& manifest.encrypted <==> record.encrypted != 0
            &&& manifest.checksum == record.checksum
            &&& manifest.object_counts_json == record.object_counts_json
            &&& manifest.source_app_version == record.source_app_version
            &&& manifest.file_path == record.file_path
            &&& manifest.file_size == record.file_size
        }),
{
}

/// A directory that is set is used as it is, and an empty setting is none.
pub proof fn a_set_directory_is_used<B>(setting: Seq<char>, app_data_dir: B)
    ensures
        setting.len() > 0 ==> backup_place(Some(setting), app_data_dir) == LocationView::<
            B,
        >::Explicit(setting),
        setting.len() == 0 ==> backup_place(Some(setting), app_data_dir) == backup_place(
            None,
            app_data_dir,
        ),
        backup_place(None, app_data_dir) == (LocationView::Below {
            base: app_data_dir,
            steps: seq!["backups"@],
        }),
{
}

/// The path of a database is what follows the scheme of its connection, once; a connection
/// without the scheme is a path.
pub proof fn a_path_follows_the_scheme(path: Seq<char>)
    ensures
        database_path("sqlite:"@ + path) == path,
        !"sqlite:"@.is_prefix_of(path) ==> database_path(path) == path,
{
    let prefix = "sqlite:"@;
    assert(prefix =~= (prefix + path).subrange(0, prefix.len() as int));
    assert((prefix + path).skip(prefix.len() as int) =~= path);
}

/// The statement copies the database into a file whose quoted name stands for the destination.
pub proof fn the_statement_quotes_the_destination(dest: Seq<char>) -> (quoted: Seq<char>)
    ensures
        vacuum_statement(dest) == "VACUUM INTO '"@ + quoted + "'"@,
        unquoted(quoted) == Some(dest),
{
    quoted_path_stands_for_the_path(dest);
    quotes_doubled(dest)
}

/// The file of a database copy and that of an export differ in their ending alone, and both are
/// named after their time.
pub proof fn a_file_is_named_after_its_time(stamp: Seq<char>, format: Seq<char>)
    ensures
        format == "sqlite"@ ==> file_name_of(stamp, format) == "aqbot-backup-"@ + stamp + "."@
            + "db"@,
        format != "sqlite"@ ==> file_name_of(stamp, format) == "aqbot-backup-"@ + stamp + "."@
            + "json"@,
{
}

/// The counts name each kind with its number, and a number that is not known is zero.
pub proof fn counts_name_each_kind(conversations: u64, messages: u64, providers: u64)
    ensures
        counts_view(Some(conversations), Some(messages), Some(providers)) == "{"@ + ("\""@
            + "conversations"@ + "\":"@ + decimal(conversations as nat) + ","@ + ("\""@
            + "messages"@ + "\":"@ + decimal(messages as nat)) + ","@ + ("\""@ + "providers"@
            + "\":"@ + decimal(providers as nat))) + "}"@,
        counts_view(None, Some(messages), Some(providers)) == counts_view(
            Some(0),
            Some(messages),
            Some(providers),
        ),
        counts_view(Some(conversations), None, Some(providers)) == counts_view(
            Some(conversations),
            Some(0),
            Some(providers),
        ),
        counts_view(Some(conversations), Some(messages), None) == counts_view(
            Some(conversations),
            Some(messages),
            Some(0),
        ),
{
    let one = "\""@ + "conversations"@ + "\":"@ + decimal(conversations as nat);
    let two = "\""@ + "messages"@ + "\":"@ + decimal(messages as nat);
    let three = "\""@ + "providers"@ + "\":"@ + decimal(providers as nat);
    let entries = seq![
        ("conversations"@, conversations),
        ("messages"@, messages),
        ("providers"@, providers),
    ];
    let members = Seq::new(
        entries.len(),
        |i: int| "\""@ + entries[i].0 + "\":"@ + decimal(entries[i].1 as nat),
    );
    assert(members =~= seq![one, two, three]);
    assert(members.drop_last() =~= seq![one, two]);
    assert(members.drop_last().drop_last() =~= seq![one]);
    reveal_with_fuel(joined, 3);
    assert(joined(members, ","@) =~= one + ","@ + two + ","@ + three);
    assert("{"@ + joined(members, ","@) + "}"@ =~= "{"@ + (one + ","@ + two + ","@ + three)
        + "}"@);
}

/// A checksum spells the digest of what a file holds, two digits for each byte.
pub proof fn a_checksum_spells_the_digest(data: Seq<u8>, at: int)
    requires
        0 <= at < sha256(data).len(),
    ensures
        checksum_of(data).len() == 2 * sha256(data).len(),
        hex_read(checksum_of(data)[2 * at]) * 16 + hex_read(checksum_of(data)[2 * at + 1])
            == sha256(data)[at],
{
    bytes_are_read_back(sha256(data), at);
}

} // verus!
