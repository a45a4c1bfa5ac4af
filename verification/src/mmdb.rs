use vstd::prelude::*;

use crate::addr::IpAddress;
use crate::error::{Error, ErrorView};
use crate::mmdb_format::{check_lookup, check_opens, lookup_safe, opens_safely};
use crate::text::{decimal, decimal_text};
use maxminddb::MaxMindDBError;
use std::collections::BTreeMap;

verus! {

broadcast use vstd::string::group_string_axioms;

/// A reader of `maxminddb` over the bytes of a database, held in a field that
/// proofs do not look into.
#[verifier::external_body]
pub struct DatabaseReader {
    inner: maxminddb::Reader<Vec<u8>>,
}

#[verifier::external_type_specification]
#[verifier::external_body]
pub struct ExGeoCountry<'a>(maxminddb::geoip2::Country<'a>);

#[verifier::external_type_specification]
#[verifier::external_body]
pub struct ExGeoContinent<'a>(maxminddb::geoip2::country::Continent<'a>);

#[verifier::external_type_specification]
#[verifier::external_body]
pub struct ExGeoCountryInfo<'a>(maxminddb::geoip2::country::Country<'a>);

#[verifier::external_type_specification]
#[verifier::external_body]
pub struct ExGeoRepresentedCountry<'a>(maxminddb::geoip2::country::RepresentedCountry<'a>);

#[verifier::external_type_specification]
#[verifier::external_body]
pub struct ExGeoTraits(maxminddb::geoip2::country::Traits);

/// The text of an optional string.
pub open spec fn opt_text(s: Option<String>) -> Option<Seq<char>> {
    match s {
        Some(t) => Some(t@),
        None => None,
    }
}

/// Localized names, as pairs of a language code and a name, in the order of
/// the language codes.
pub open spec fn names_view(n: Option<Vec<(String, String)>>) -> Option<Seq<(Seq<char>, Seq<char>)>> {
    match n {
        Some(v) => Some(v@.map_values(|p: (String, String)| (p.0@, p.1@))),
        None => None,
    }
}

/// The continent of a country record.
#[derive(Clone, Debug, PartialEq, Eq)]
pub struct ContinentInfo {
    pub code: Option<String>,
    pub geoname_id: Option<u32>,
    pub names: Option<Vec<(String, String)>>,
}

/// A continent as a mathematical value.
pub ghost struct ContinentInfoView {
    pub code: Option<Seq<char>>,
    pub geoname_id: Option<u32>,
    pub names: Option<Seq<(Seq<char>, Seq<char>)>>,
}

impl View for ContinentInfo {
    type V = ContinentInfoView;

    open spec fn view(&self) -> ContinentInfoView {
        ContinentInfoView { code: opt_text(self.code), geoname_id: self.geoname_id, names: names_view(self.names) }
    }
}

/// A country of a country record: where the address is, or where it is
/// registered.
#[derive(Clone, Debug, PartialEq, Eq)]
pub struct CountryInfo {
    pub geoname_id: Option<u32>,
    pub is_in_european_union: Option<bool>,
    pub iso_code: Option<String>,
    pub names: Option<Vec<(String, String)>>,
}

/// A country as a mathematical value.
pub ghost struct CountryInfoView {
    pub geoname_id: Option<u32>,
    pub is_in_european_union: Option<bool>,
    pub iso_code: Option<Seq<char>>,
    pub names: Option<Seq<(Seq<char>, Seq<char>)>>,
}

impl View for CountryInfo {
    type V = CountryInfoView;

    open spec fn view(&self) -> CountryInfoView {
        CountryInfoView {
            geoname_id: self.geoname_id,
            is_in_european_union: self.is_in_european_union,
            iso_code: opt_text(self.iso_code),
            names: names_view(self.names),
        }
    }
}

/// The country that a represented population (such as troops abroad)
/// belongs to, with the kind of representation.
#[derive(Clone, Debug, PartialEq, Eq)]
pub struct RepresentedInfo {
    pub geoname_id: Option<u32>,
    pub is_in_european_union: Option<bool>,
    pub iso_code: Option<String>,
    pub names: Option<Vec<(String, String)>>,
    pub representation_type: Option<String>,
}

/// A represented country as a mathematical value.
pub ghost struct RepresentedInfoView {
    pub geoname_id: Option<u32>,
    pub is_in_european_union: Option<bool>,
    pub iso_code: Option<Seq<char>>,
    pub names: Option<Seq<(Seq<char>, Seq<char>)>>,
    pub representation_type: Option<Seq<char>>,
}

impl View for RepresentedInfo {
    type V = RepresentedInfoView;

    open spec fn view(&self) -> RepresentedInfoView {
        RepresentedInfoView {
            geoname_id: self.geoname_id,
            is_in_european_union: self.is_in_european_union,
            iso_code: opt_text(self.iso_code),
            names: names_view(self.names),
            representation_type: opt_text(self.representation_type),
        }
    }
}

/// Traits of the network of an address.
#[derive(Clone, Copy, Debug, PartialEq, Eq, Structural)]
pub struct NetworkTraits {
    pub is_anonymous_proxy: Option<bool>,
    pub is_satellite_provider: Option<bool>,
}

/// The country record of an address.
#[derive(Clone, Debug, PartialEq, Eq)]
pub struct CountryRecord {
    pub continent: Option<ContinentInfo>,
    pub country: Option<CountryInfo>,
    pub registered_country: Option<CountryInfo>,
    pub represented_country: Option<RepresentedInfo>,
    pub traits: Option<NetworkTraits>,
}

/// A country record as a mathematical value.
pub ghost struct CountryRecordView {
    pub continent: Option<ContinentInfoView>,
    pub country: Option<CountryInfoView>,
    pub registered_country: Option<CountryInfoView>,
    pub represented_country: Option<RepresentedInfoView>,
    pub traits: Option<NetworkTraits>,
}

/// The view of an optional country.
pub open spec fn country_view(c: Option<CountryInfo>) -> Option<CountryInfoView> {
    match c {
        Some(x) => Some(x@),
        None => None,
    }
}

impl View for CountryRecord {
    type V = CountryRecordView;

    open spec fn view(&self) -> CountryRecordView {
        CountryRecordView {
            continent: match self.continent {
                Some(x) => Some(x@),
                None => None,
            },
            country: country_view(self.country),
            registered_country: country_view(self.registered_country),
            represented_country: match self.represented_country {
                Some(x) => Some(x@),
                None => None,
            },
            traits: self.traits,
        }
    }
}

/// Copies localized names out of a record of `maxminddb`, in the order of
/// the language codes.
#[verifier::external_body]
fn names_of(n: Option<BTreeMap<&str, &str>>) -> Option<Vec<(String, String)>> {
    n.map(|m| m.into_iter().map(|(k, v)| (k.to_string(), v.to_string())).collect())
}

/// Copies the continent of a record of `maxminddb`, field by field.
#[verifier::external_body]
fn continent_of(c: maxminddb::geoip2::country::Continent<'_>) -> ContinentInfo {
    ContinentInfo { code: c.code.map(String::from), geoname_id: c.geoname_id, names: names_of(c.names) }
}

/// Copies a country of a record of `maxminddb`, field by field.
#[verifier::external_body]
fn country_info_of(c: maxminddb::geoip2::country::Country<'_>) -> CountryInfo {
    CountryInfo {
        geoname_id: c.geoname_id,
        is_in_european_union: c.is_in_european_union,
        iso_code: c.iso_code.map(String::from),
        names: names_of(c.names),
    }
}

/// Copies the represented country of a record of `maxminddb`, field by field.
#[verifier::external_body]
fn represented_of(c: maxminddb::geoip2::country::RepresentedCountry<'_>) -> RepresentedInfo {
    RepresentedInfo {
        geoname_id: c.geoname_id,
        is_in_european_union: c.is_in_european_union,
        iso_code: c.iso_code.map(String::from),
        names: names_of(c.names),
        representation_type: c.representation_type.map(String::from),
    }
}

/// Copies the traits of a record of `maxminddb`, field by field.
#[verifier::external_body]
fn traits_of(t: maxminddb::geoip2::country::Traits) -> NetworkTraits {
    NetworkTraits { is_anonymous_proxy: t.is_anonymous_proxy, is_satellite_provider: t.is_satellite_provider }
}

/// Copies a country record of `maxminddb`, field by field.
#[verifier::external_body]
fn record_of(c: maxminddb::geoip2::Country<'_>) -> CountryRecord {
    CountryRecord {
        continent: c.continent.map(continent_of),
        country: c.country.map(country_info_of),
        registered_country: c.registered_country.map(country_info_of),
        represented_country: c.represented_country.map(represented_of),
        traits: c.traits.map(traits_of),
    }
}

/// The kinds of failure of a country database.
#[derive(Clone, Copy, Debug, PartialEq, Eq, Structural)]
pub enum FailureKind {
    AddressNotFound,
    InvalidDatabase,
    Io,
    Mapping,
    Decoding,
    InvalidNetwork,
    /// Reading the database would go past the end of its bytes.
    OutOfBounds,
}

/// A failure of a country database: its kind and its message.
#[derive(Debug, Clone, PartialEq, Eq)]
pub struct DatabaseFailure {
    pub kind: FailureKind,
    pub message: String,
}

impl View for DatabaseFailure {
    type V = (FailureKind, Seq<char>);

    open spec fn view(&self) -> (FailureKind, Seq<char>) {
        (self.kind, self.message@)
    }
}

/// The failure of the given kind with the given message.
pub fn failure(kind: FailureKind, message: String) -> (f: DatabaseFailure)
    ensures
        f@ == (kind, message@),
{
    DatabaseFailure { kind, message }
}

#[verifier::external_type_specification]
#[verifier::external_body]
pub struct ExMaxMindDBError(maxminddb::MaxMindDBError);

/// Converts an error of `maxminddb` into the failure of the same kind
/// (variant) and message. Nothing is stated, as the error is not visible to
/// proofs; the wrappers below state the outcome of the calls they make.
#[verifier::external_body]
fn failure_of(e: MaxMindDBError) -> DatabaseFailure {
    match e {
        MaxMindDBError::AddressNotFoundError(m) => DatabaseFailure { kind: FailureKind::AddressNotFound, message: m },
        MaxMindDBError::InvalidDatabaseError(m) => DatabaseFailure { kind: FailureKind::InvalidDatabase, message: m },
        MaxMindDBError::IoError(m) => DatabaseFailure { kind: FailureKind::Io, message: m },
        MaxMindDBError::MapError(m) => DatabaseFailure { kind: FailureKind::Mapping, message: m },
        MaxMindDBError::DecodingError(m) => DatabaseFailure { kind: FailureKind::Decoding, message: m },
        MaxMindDBError::InvalidNetworkError(m) => DatabaseFailure { kind: FailureKind::InvalidNetwork, message: m },
    }
}

/// How `maxminddb::Reader::from_source` fails on the bytes of a database, or
/// `None` when it accepts them.
pub uninterp spec fn open_failure(db: Seq<u8>) -> Option<(FailureKind, Seq<char>)>;

/// What `maxminddb::Reader::lookup` gives for a country record on a database
/// (given by its bytes) and an address: the record, or how it fails.
pub uninterp spec fn country_lookup(db: Seq<u8>, ip: IpAddress) -> Result<CountryRecordView, (FailureKind, Seq<char>)>;

/// Builds a reader over the bytes of a database by
/// `maxminddb::Reader::from_source`, and gives its error as a
/// [`DatabaseFailure`] of the same kind and message. Claims that the outcome is
/// [`open_failure`] of the bytes. `from_source` decodes the metadata and, for
/// a database of IPv6 addresses, reads the search tree by indexing the bytes
/// without bounds checks, so it panics on bytes that end too early; hence the
/// requirement that the metadata decode inside the bytes and the tree it
/// declares lie inside them ([`opens_safely`]).
#[verifier::external_body]
fn open_reader(db: Vec<u8>) -> (r: Result<DatabaseReader, DatabaseFailure>)
    requires
        opens_safely(db@),
    ensures
        match r {
            Ok(_) => open_failure(db@) is None,
            Err(f) => open_failure(db@) == Some(f@),
        },
{
    match maxminddb::Reader::from_source(db) {
        Ok(inner) => Ok(DatabaseReader { inner }),
        Err(e) => Err(failure_of(e)),
    }
}

/// An opened country database, with a copy of its bytes for the checks made
/// before each lookup.
pub struct MMDB {
    reader: DatabaseReader,
    bytes: Vec<u8>,
}

/// The node count, record size and IP version that
/// `maxminddb::Reader::from_source` read from the metadata of a database
/// (given by its bytes) that it opened.
pub uninterp spec fn tree_shape(db: Seq<u8>) -> (u32, u16, u16);

/// The fields `node_count`, `record_size` and `ip_version` of the metadata of
/// the reader (`maxminddb::Reader::metadata`), which was opened on the bytes
/// the database holds. Claims that they are [`tree_shape`] of those bytes.
#[verifier::external_body]
fn shape_of(m: &MMDB) -> (r: (u32, u16, u16))
    ensures
        r == tree_shape(m.database()),
{
    let md = &m.reader.inner.metadata;
    (md.node_count, md.record_size, md.ip_version)
}

/// Looks an address up by `maxminddb::Reader::lookup` for a country record,
/// converting the address to the standard one of the same value, the record to
/// a [`CountryRecord`] field by field and the error to a [`DatabaseFailure`] of
/// the same kind and message. Claims that the outcome is [`country_lookup`] of
/// the database the reader was opened on and the address. `lookup` follows the
/// search tree, subtracts the node count and sixteen from the record it ends
/// on, and decodes the data there, all without bounds checks, so it panics
/// where one of these reads lies outside the bytes, or the record is less than
/// sixteen past the node count; hence the requirement ([`lookup_safe`]).
#[verifier::external_body]
fn lookup_country(m: &MMDB, ip: IpAddress) -> (r: Result<CountryRecord, DatabaseFailure>)
    requires
        lookup_safe(m.database(), tree_shape(m.database()), ip),
    ensures
        match r {
            Ok(c) => country_lookup(m.database(), ip) == Ok::<CountryRecordView, (FailureKind, Seq<char>)>(c@),
            Err(f) => country_lookup(m.database(), ip) == Err::<CountryRecordView, (FailureKind, Seq<char>)>(f@),
        },
{
    let found = match ip {
        IpAddress::V4(v) => m.reader.inner.lookup(v.to_be_bytes().into()),
        IpAddress::V6(v) => m.reader.inner.lookup(v.to_be_bytes().into()),
    };
    match found {
        Ok(c) => Ok(record_of(c)),
        Err(e) => Err(failure_of(e)),
    }
}

/// The name under which a failure of the given kind is displayed.
pub open spec fn kind_label(k: FailureKind) -> Seq<char> {
    match k {
        FailureKind::AddressNotFound => "AddressNotFoundError"@,
        FailureKind::InvalidDatabase => "InvalidDatabaseError"@,
        FailureKind::Io => "IoError"@,
        FailureKind::Mapping => "MapError"@,
        FailureKind::Decoding => "DecodingError"@,
        FailureKind::InvalidNetwork => "InvalidNetworkError"@,
        FailureKind::OutOfBounds => "OutOfBoundsError"@,
    }
}

/// The displayed text of a failure: its kind's label, ": " and its message.
pub open spec fn failure_text(f: (FailureKind, Seq<char>)) -> Seq<char> {
    kind_label(f.0) + ": "@ + f.1
}

impl DatabaseFailure {
    /// Renders the failure as [`failure_text`] says.
    pub fn to_text(&self) -> (s: String)
        ensures
            s@ == failure_text(self@),
    {
        let mut s = match self.kind {
            FailureKind::AddressNotFound => String::from_str("AddressNotFoundError"),
            FailureKind::InvalidDatabase => String::from_str("InvalidDatabaseError"),
            FailureKind::Io => String::from_str("IoError"),
            FailureKind::Mapping => String::from_str("MapError"),
            FailureKind::Decoding => String::from_str("DecodingError"),
            FailureKind::InvalidNetwork => String::from_str("InvalidNetworkError"),
            FailureKind::OutOfBounds => String::from_str("OutOfBoundsError"),
        };
        s.append(": ");
        s.append(self.message.as_str());
        s
    }
}

/// The message for a database whose opening would read past its end.
pub open spec fn out_of_bounds_open_text() -> Seq<char> {
    "the metadata or the search tree of the MaxMind DB file lies beyond its end"@
}

/// The message for a lookup that would read past the end of the database.
pub open spec fn out_of_bounds_lookup_text() -> Seq<char> {
    "OutOfBoundsError: the search tree or data record for the address lies beyond the end of the MaxMind DB file"@
}

/// How opening the bytes of a database fails, or `None` when they open: bytes
/// whose opening would read past their end are refused; others fail as
/// `maxminddb` does.
pub open spec fn database_failure(db: Seq<u8>) -> Option<(FailureKind, Seq<char>)> {
    if !opens_safely(db) {
        Some((FailureKind::OutOfBounds, out_of_bounds_open_text()))
    } else {
        open_failure(db)
    }
}

impl MMDB {
    /// The bytes the database was opened from.
    pub closed spec fn database(&self) -> Seq<u8> {
        self.bytes@
    }

    /// Opens a database from its bytes, as [`database_failure`] says.
    pub fn from_database(db: Vec<u8>) -> (r: Result<MMDB, DatabaseFailure>)
        ensures
            match database_failure(db@) {
                None => r matches Ok(m) && m.database() == db@,
                Some(f) => r matches Err(g) && g@ == f,
            },
    {
        if !check_opens(db.as_slice()) {
            return Err(failure(FailureKind::OutOfBounds, String::from_str(
                "the metadata or the search tree of the MaxMind DB file lies beyond its end",
            )));
        }
        let bytes = db.clone();
        assert(bytes@ =~= db@);
        match open_reader(db) {
            Ok(reader) => Ok(MMDB { reader, bytes }),
            Err(f) => Err(f),
        }
    }

    /// Looks up the country record of an address. A lookup that would read
    /// past the end of the database fails with an input/output error saying
    /// so; other failures of the lookup are reported as input/output errors
    /// carrying the failure's text.
    pub fn lookup(&self, ip: IpAddress) -> (r: Result<CountryRecord, Error>)
        ensures
            !lookup_safe(self.database(), tree_shape(self.database()), ip) ==> (r matches Err(e) && e@
                == ErrorView::Io(out_of_bounds_lookup_text())),
            lookup_safe(self.database(), tree_shape(self.database()), ip) ==> match country_lookup(
                self.database(),
                ip,
            ) {
                Ok(c) => r matches Ok(x) && x@ == c,
                Err(f) => r matches Err(e) && e@ == ErrorView::Io(failure_text(f)),
            },
    {
        let shape = shape_of(self);
        if !check_lookup(self.bytes.as_slice(), shape, ip) {
            return Err(Error::Io(String::from_str(
                "OutOfBoundsError: the search tree or data record for the address lies beyond the end of the MaxMind DB file",
            )));
        }
        match lookup_country(self, ip) {
            Ok(c) => Ok(c),
            Err(f) => Err(Error::Io(f.to_text())),
        }
    }
}

/// The message for a missing database that cannot be downloaded.
pub open spec fn not_found_text(path: Seq<char>) -> Seq<char> {
    "mmdb `"@ + path + "` not found and mmdb_download_url is not set"@
}

/// The message for a failed download.
pub open spec fn download_failed_text(reason: Seq<char>) -> Seq<char> {
    "mmdb download failed: "@ + reason
}

/// The message for a database file that cannot be opened.
pub open spec fn cant_open_text(path: Seq<char>, f: (FailureKind, Seq<char>)) -> Seq<char> {
    "cant open mmdb `"@ + path + "`: "@ + failure_text(f)
}

/// Where the loading of a database stands.
#[derive(Clone, Copy, Debug, PartialEq, Eq, Structural)]
pub enum LoadPhase {
    /// Waiting to learn whether the database file exists.
    Checking,
    /// Downloading the missing file.
    Downloading,
    /// Reading the file.
    Reading,
    /// Removing a file that could not be opened.
    Removing,
    /// Downloading the file again.
    Redownloading,
    /// Reading the downloaded file again.
    Rereading,
    Done,
}

/// What happened since the last action.
#[derive(Debug, PartialEq, Eq)]
pub enum LoadEvent {
    /// Whether the database file exists.
    Exists(bool),
    /// The download ended, or failed with this message.
    Downloaded(Result<(), String>),
    /// The file's bytes, or the message of the failure to read it.
    Read(Result<Vec<u8>, String>),
    /// The file was removed, or could not be, with this message.
    Removed(Result<(), String>),
}

/// What to do next.
pub enum LoadAction {
    /// Download the database from this address into the file.
    Download(String),
    /// Read the file.
    Read,
    /// Remove the file.
    Remove,
    /// The database is open.
    Ready(MMDB),
    /// Loading failed with this error.
    Fail(Error),
}

/// An event as a mathematical value.
pub ghost enum LoadEventView {
    Exists(bool),
    Downloaded(Result<(), Seq<char>>),
    Read(Result<Seq<u8>, Seq<char>>),
    Removed(Result<(), Seq<char>>),
}

/// An action as a mathematical value; an open database by its bytes.
pub ghost enum LoadActionView {
    Download(Seq<char>),
    Read,
    Remove,
    Ready(Seq<u8>),
    Fail(ErrorView),
}

impl View for LoadEvent {
    type V = LoadEventView;

    open spec fn view(&self) -> LoadEventView {
        match self {
            LoadEvent::Exists(b) => LoadEventView::Exists(*b),
            LoadEvent::Downloaded(r) => LoadEventView::Downloaded(
                match r {
                    Ok(_) => Ok(()),
                    Err(x) => Err(x@),
                },
            ),
            LoadEvent::Read(r) => LoadEventView::Read(
                match r {
                    Ok(b) => Ok(b@),
                    Err(x) => Err(x@),
                },
            ),
            LoadEvent::Removed(r) => LoadEventView::Removed(
                match r {
                    Ok(_) => Ok(()),
                    Err(x) => Err(x@),
                },
            ),
        }
    }
}

impl View for LoadAction {
    type V = LoadActionView;

    open spec fn view(&self) -> LoadActionView {
        match self {
            LoadAction::Download(u) => LoadActionView::Download(u@),
            LoadAction::Read => LoadActionView::Read,
            LoadAction::Remove => LoadActionView::Remove,
            LoadAction::Ready(m) => LoadActionView::Ready(m.database()),
            LoadAction::Fail(e) => LoadActionView::Fail(e@),
        }
    }
}

/// How reading the file turned out for opening it: the failure to open the
/// bytes read, or an input/output failure with the reading's message.
pub open spec fn read_failure(r: Result<Seq<u8>, Seq<char>>) -> Option<(FailureKind, Seq<char>)> {
    match r {
        Ok(b) => database_failure(b),
        Err(x) => Some((FailureKind::Io, x)),
    }
}

/// Whether an event can happen in a phase.
pub open spec fn load_accepts(phase: LoadPhase, ev: LoadEventView) -> bool {
    match phase {
        LoadPhase::Checking => ev is Exists,
        LoadPhase::Downloading => ev is Downloaded,
        LoadPhase::Redownloading => ev is Downloaded,
        LoadPhase::Reading => ev is Read,
        LoadPhase::Rereading => ev is Read,
        LoadPhase::Removing => ev is Removed,
        LoadPhase::Done => false,
    }
}

/// The next phase and action of loading the database at `path` (as text),
/// with the optional download address `url`:
/// a missing file is downloaded first, or loading fails when there is no
/// address; a file that cannot be opened because it is not a valid database or
/// cannot be read is removed and downloaded once more (failing when there is
/// no address), and any other failure to open it, or a second failure, ends
/// loading with "cant open mmdb"; a failed download ends it with "mmdb
/// download failed".
pub open spec fn load_next(path: Seq<char>, url: Option<Seq<char>>, phase: LoadPhase, ev: LoadEventView) -> (
    LoadPhase,
    LoadActionView,
) {
    let not_found = LoadActionView::Fail(ErrorView::InvalidConfig(not_found_text(path)));
    match (phase, ev) {
        (LoadPhase::Checking, LoadEventView::Exists(true)) => (LoadPhase::Reading, LoadActionView::Read),
        (LoadPhase::Checking, LoadEventView::Exists(false)) => match url {
            Some(u) => (LoadPhase::Downloading, LoadActionView::Download(u)),
            None => (LoadPhase::Done, not_found),
        },
        (LoadPhase::Downloading, LoadEventView::Downloaded(Ok(_))) => (LoadPhase::Reading, LoadActionView::Read),
        (LoadPhase::Redownloading, LoadEventView::Downloaded(Ok(_))) => (
            LoadPhase::Rereading,
            LoadActionView::Read,
        ),
        (_, LoadEventView::Downloaded(Err(x))) => (
            LoadPhase::Done,
            LoadActionView::Fail(ErrorView::InvalidConfig(download_failed_text(x))),
        ),
        (LoadPhase::Reading, LoadEventView::Read(r)) => match read_failure(r) {
            None => (LoadPhase::Done, LoadActionView::Ready(r->Ok_0)),
            Some(f) => if f.0 == FailureKind::InvalidDatabase || f.0 == FailureKind::Io {
                (LoadPhase::Removing, LoadActionView::Remove)
            } else {
                (LoadPhase::Done, LoadActionView::Fail(ErrorView::InvalidConfig(cant_open_text(path, f))))
            },
        },
        (_, LoadEventView::Read(r)) => match read_failure(r) {
            None => (LoadPhase::Done, LoadActionView::Ready(r->Ok_0)),
            Some(f) => (LoadPhase::Done, LoadActionView::Fail(ErrorView::InvalidConfig(cant_open_text(path, f)))),
        },
        (_, LoadEventView::Removed(Ok(_))) => match url {
            Some(u) => (LoadPhase::Redownloading, LoadActionView::Download(u)),
            None => (LoadPhase::Done, not_found),
        },
        (_, LoadEventView::Removed(Err(x))) => (LoadPhase::Done, LoadActionView::Fail(ErrorView::Io(x))),
        _ => (LoadPhase::Done, not_found),
    }
}

/// The loading of a database file, step by step: the caller performs each
/// action (starting by checking whether the file exists) and reports what
/// came of it.
pub struct MmdbLoader {
    /// The file's path, as text.
    pub path: String,
    /// Where to download the database from, if anywhere.
    pub download_url: Option<String>,
    pub phase: LoadPhase,
}

impl MmdbLoader {
    /// A loader that first needs to know whether the file exists.
    pub fn new(path: String, download_url: Option<String>) -> (l: MmdbLoader)
        ensures
            l.path == path,
            l.download_url == download_url,
            l.phase == LoadPhase::Checking,
    {
        MmdbLoader { path, download_url, phase: LoadPhase::Checking }
    }

    fn fail_not_found(&mut self) -> (a: LoadAction)
        ensures
            final(self).path == old(self).path,
            final(self).download_url == old(self).download_url,
            final(self).phase == LoadPhase::Done,
            a@ == LoadActionView::Fail(ErrorView::InvalidConfig(not_found_text(old(self).path@))),
    {
        self.phase = LoadPhase::Done;
        let mut m = String::from_str("mmdb `");
        m.append(self.path.as_str());
        m.append("` not found and mmdb_download_url is not set");
        LoadAction::Fail(Error::InvalidConfig(m))
    }

    fn cant_open(&mut self, f: DatabaseFailure) -> (a: LoadAction)
        ensures
            final(self).path == old(self).path,
            final(self).download_url == old(self).download_url,
            final(self).phase == LoadPhase::Done,
            a@ == LoadActionView::Fail(ErrorView::InvalidConfig(cant_open_text(old(self).path@, f@))),
    {
        self.phase = LoadPhase::Done;
        let mut m = String::from_str("cant open mmdb `");
        m.append(self.path.as_str());
        m.append("`: ");
        let t = f.to_text();
        m.append(t.as_str());
        LoadAction::Fail(Error::InvalidConfig(m))
    }

    fn open_read(r: Result<Vec<u8>, String>) -> (o: Result<MMDB, DatabaseFailure>)
        ensures
            match read_failure(
                match r {
                    Ok(b) => Ok(b@),
                    Err(x) => Err(x@),
                },
            ) {
                None => o matches Ok(m) && r matches Ok(b) && m.database() == b@,
                Some(f) => o matches Err(g) && g@ == f,
            },
    {
        match r {
            Ok(bytes) => MMDB::from_database(bytes),
            Err(x) => Err(failure(FailureKind::Io, x)),
        }
    }

    /// Takes what came of the last action and returns the next one.
    pub fn step(&mut self, ev: LoadEvent) -> (a: LoadAction)
        requires
            load_accepts(old(self).phase, ev@),
        ensures
            final(self).path == old(self).path,
            final(self).download_url == old(self).download_url,
            (final(self).phase, a@) == load_next(
                old(self).path@,
                opt_text(old(self).download_url),
                old(self).phase,
                ev@,
            ),
    {
        let ghost ev_view = ev@;
        match ev {
            LoadEvent::Exists(true) => {
                self.phase = LoadPhase::Reading;
                LoadAction::Read
            },
            LoadEvent::Exists(false) => match &self.download_url {
                Some(u) => {
                    let u = u.clone();
                    self.phase = LoadPhase::Downloading;
                    LoadAction::Download(u)
                },
                None => self.fail_not_found(),
            },
            LoadEvent::Downloaded(Ok(())) => {
                if self.phase == LoadPhase::Downloading {
                    self.phase = LoadPhase::Reading;
                } else {
                    self.phase = LoadPhase::Rereading;
                }
                LoadAction::Read
            },
            LoadEvent::Downloaded(Err(x)) => {
                self.phase = LoadPhase::Done;
                let mut m = String::from_str("mmdb download failed: ");
                m.append(x.as_str());
                LoadAction::Fail(Error::InvalidConfig(m))
            },
            LoadEvent::Read(r) => {
                let first = self.phase == LoadPhase::Reading;
                match Self::open_read(r) {
                    Ok(m) => {
                        self.phase = LoadPhase::Done;
                        LoadAction::Ready(m)
                    },
                    Err(f) => {
                        if first && (f.kind == FailureKind::InvalidDatabase || f.kind == FailureKind::Io) {
                            self.phase = LoadPhase::Removing;
                            LoadAction::Remove
                        } else {
                            self.cant_open(f)
                        }
                    },
                }
            },
            LoadEvent::Removed(Ok(())) => match &self.download_url {
                Some(u) => {
                    let u = u.clone();
                    self.phase = LoadPhase::Redownloading;
                    LoadAction::Download(u)
                },
                None => self.fail_not_found(),
            },
            LoadEvent::Removed(Err(x)) => {
                self.phase = LoadPhase::Done;
                LoadAction::Fail(Error::Io(x))
            },
        }
    }
}

/// The number of steps loading can still take from a phase.
pub open spec fn load_rank(phase: LoadPhase) -> nat {
    match phase {
        LoadPhase::Checking => 6,
        LoadPhase::Downloading => 5,
        LoadPhase::Reading => 4,
        LoadPhase::Removing => 3,
        LoadPhase::Redownloading => 2,
        LoadPhase::Rereading => 1,
        LoadPhase::Done => 0,
    }
}

/// Loading ends: every step moves to a phase of smaller rank, so a load takes
/// at most six steps and downloads at most twice; a step ends loading exactly
/// when it yields the open database or an error; a download is asked for only
/// from the configured address; and a database is handed out only when its
/// bytes open.
pub proof fn lemma_load_steps(path: Seq<char>, url: Option<Seq<char>>, phase: LoadPhase, ev: LoadEventView)
    requires
        load_accepts(phase, ev),
    ensures
        load_rank(load_next(path, url, phase, ev).0) < load_rank(phase),
        (load_next(path, url, phase, ev).0 == LoadPhase::Done) == (load_next(path, url, phase, ev).1 is Ready
            || load_next(path, url, phase, ev).1 is Fail),
        load_next(path, url, phase, ev).1 matches LoadActionView::Download(u) ==> url == Some(u),
        load_next(path, url, phase, ev).1 matches LoadActionView::Ready(b) ==> database_failure(b) is None,
{
}

/// The steps of loading around the reads: an existing file is read; a
/// missing one is downloaded from the configured address, or loading fails
/// with "mmdb `path` not found and mmdb_download_url is not set" when there
/// is none; a finished download is read; a failed download ends loading with
/// "mmdb download failed: " and its message; a removed file is downloaded
/// again (failing the same way without an address); a failed removal ends
/// loading with its input/output error.
pub proof fn lemma_loader_paths(path: Seq<char>, url: Option<Seq<char>>, x: Seq<char>)
    ensures
        load_next(path, url, LoadPhase::Checking, LoadEventView::Exists(true)) == (
            LoadPhase::Reading,
            LoadActionView::Read,
        ),
        url matches Some(u) ==> load_next(path, url, LoadPhase::Checking, LoadEventView::Exists(false))
            == (LoadPhase::Downloading, LoadActionView::Download(u)),
        url is None ==> load_next(path, url, LoadPhase::Checking, LoadEventView::Exists(false)) == (
            LoadPhase::Done,
            LoadActionView::Fail(ErrorView::InvalidConfig(
                "mmdb `"@ + path + "` not found and mmdb_download_url is not set"@,
            )),
        ),
        load_next(path, url, LoadPhase::Downloading, LoadEventView::Downloaded(Ok(()))) == (
            LoadPhase::Reading,
            LoadActionView::Read,
        ),
        load_next(path, url, LoadPhase::Redownloading, LoadEventView::Downloaded(Ok(()))) == (
            LoadPhase::Rereading,
            LoadActionView::Read,
        ),
        load_next(path, url, LoadPhase::Downloading, LoadEventView::Downloaded(Err(x))) == (
            LoadPhase::Done,
            LoadActionView::Fail(ErrorView::InvalidConfig("mmdb download failed: "@ + x)),
        ),
        load_next(path, url, LoadPhase::Redownloading, LoadEventView::Downloaded(Err(x))) == (
            LoadPhase::Done,
            LoadActionView::Fail(ErrorView::InvalidConfig("mmdb download failed: "@ + x)),
        ),
        url matches Some(u) ==> load_next(path, url, LoadPhase::Removing, LoadEventView::Removed(Ok(())))
            == (LoadPhase::Redownloading, LoadActionView::Download(u)),
        url is None ==> load_next(path, url, LoadPhase::Removing, LoadEventView::Removed(Ok(()))) == (
            LoadPhase::Done,
            LoadActionView::Fail(ErrorView::InvalidConfig(
                "mmdb `"@ + path + "` not found and mmdb_download_url is not set"@,
            )),
        ),
        load_next(path, url, LoadPhase::Removing, LoadEventView::Removed(Err(x))) == (
            LoadPhase::Done,
            LoadActionView::Fail(ErrorView::Io(x)),
        ),
{
}

/// A read file that opens is used: in either phase that reads the file, bytes
/// that open as a database end loading with that database, opened on exactly
/// those bytes, whatever the path and the download address.
pub proof fn lemma_opening_read_is_used(path: Seq<char>, url: Option<Seq<char>>, phase: LoadPhase, b: Seq<u8>)
    requires
        phase == LoadPhase::Reading || phase == LoadPhase::Rereading,
        database_failure(b) is None,
    ensures
        load_next(path, url, phase, LoadEventView::Read(Ok(b))) == (LoadPhase::Done, LoadActionView::Ready(b)),
{
}

/// A file that does not open is removed and downloaded again only after the
/// first read, and only when `maxminddb` finds it invalid or it cannot be
/// read; any other failure, or a failure after the second download, ends
/// loading with the "cant open mmdb" message naming the path and the failure.
pub proof fn lemma_failed_read(
    path: Seq<char>,
    url: Option<Seq<char>>,
    phase: LoadPhase,
    r: Result<Seq<u8>, Seq<char>>,
    f: (FailureKind, Seq<char>),
)
    requires
        phase == LoadPhase::Reading || phase == LoadPhase::Rereading,
        read_failure(r) == Some(f),
    ensures
        (phase == LoadPhase::Reading && (f.0 == FailureKind::InvalidDatabase || f.0 == FailureKind::Io))
            ==> load_next(path, url, phase, LoadEventView::Read(r)) == (
            LoadPhase::Removing,
            LoadActionView::Remove,
        ),
        !(phase == LoadPhase::Reading && (f.0 == FailureKind::InvalidDatabase || f.0 == FailureKind::Io))
            ==> load_next(path, url, phase, LoadEventView::Read(r)) == (
            LoadPhase::Done,
            LoadActionView::Fail(ErrorView::InvalidConfig("cant open mmdb `"@ + path + "`: "@ + kind_label(f.0) + ": "@ + f.1)),
        ),
{
    assert(cant_open_text(path, f) == "cant open mmdb `"@ + path + "`: "@ + kind_label(f.0) + ": "@ + f.1);
}

/// The canonical reason phrase of an HTTP status code, as
/// `http::StatusCode::canonical_reason` gives it.
pub uninterp spec fn canonical_reason(code: u16) -> Option<Seq<char>>;

/// The canonical reason phrase of a status code (from 100 to 999) by
/// `http::StatusCode::canonical_reason`; claims that it is
/// [`canonical_reason`] of the code.
#[verifier::external_body]
fn reason_phrase(code: u16) -> (r: Option<&'static str>)
    requires
        100 <= code < 1000,
    ensures
        match r {
            Some(p) => canonical_reason(code) == Some(p@),
            None => canonical_reason(code) is None,
        },
{
    http::StatusCode::from_u16(code).unwrap().canonical_reason()
}

/// How a status code is displayed: the code, a space, and its reason phrase
/// or "<unknown status code>".
pub open spec fn status_text(code: u16) -> Seq<char> {
    decimal(code as nat) + " "@ + match canonical_reason(code) {
        Some(p) => p,
        None => "<unknown status code>"@,
    }
}

/// Renders a status code as [`status_text`] says.
pub fn status_to_text(code: u16) -> (s: String)
    requires
        100 <= code < 1000,
    ensures
        s@ == status_text(code),
{
    let mut s = decimal_text(code as u64);
    s.append(" ");
    match reason_phrase(code) {
        Some(p) => s.append(p),
        None => s.append("<unknown status code>"),
    }
    s
}

/// Whether a header byte may appear in a header read as text: visible ASCII
/// or a tab.
pub open spec fn is_visible_ascii(b: u8) -> bool {
    (32 <= b && b < 127) || b == 9
}

/// Whether all bytes may appear in a header read as text.
pub fn all_visible_ascii(b: &Vec<u8>) -> (r: bool)
    ensures
        r == forall|i: int| 0 <= i < b.len() ==> is_visible_ascii(#[trigger] b@[i]),
{
    let mut i: usize = 0;
    while i < b.len()
        invariant
            i <= b.len(),
            forall|j: int| 0 <= j < i ==> is_visible_ascii(#[trigger] b@[j]),
        decreases b.len() - i,
    {
        let c = b[i];
        if !((32 <= c && c < 127) || c == 9) {
            assert(!is_visible_ascii(b@[i as int]));
            return false;
        }
        i += 1;
    }
    true
}

/// The message with which `http::Uri` refuses a text as an address, or
/// `None` when the text parses as one.
pub uninterp spec fn uri_parse_error(url: Seq<char>) -> Option<Seq<char>>;

/// Parses a text as an address by `str::parse::<http::Uri>`, giving the
/// displayed message of the error. Claims that the outcome is
/// [`uri_parse_error`] of the text.
#[verifier::external_body]
fn check_uri(url: &str) -> (r: Result<(), String>)
    ensures
        match r {
            Ok(_) => uri_parse_error(url@) is None,
            Err(m) => uri_parse_error(url@) == Some(m@),
        },
{
    match url.parse::<http::Uri>() {
        Ok(_) => Ok(()),
        Err(e) => Err(e.to_string()),
    }
}

/// The first step of a download from `url`: the address must parse as one,
/// and the download fails with the parser's message when it does not.
pub fn download_start(url: &str) -> (r: Result<(), Error>)
    ensures
        match uri_parse_error(url@) {
            None => r is Ok,
            Some(m) => r matches Err(e) && e@ == ErrorView::Other(m),
        },
{
    match check_uri(url) {
        Ok(()) => Ok(()),
        Err(m) => Err(Error::Other(m)),
    }
}

/// What to do with the answer to a download request.
#[derive(Debug, PartialEq, Eq)]
pub enum DownloadStep {
    /// Download from this address instead (the bytes of the location header).
    Redirect(Vec<u8>),
    /// Save the body to the file.
    Save,
    /// Stop with this error.
    Fail(Error),
}

/// The step after a download request to `url` was answered with `status`
/// and, if present, the bytes of the location header: a redirection
/// (300 to 399) is followed to the location, failing with the input/output
/// error "failed to download from " and the address when there is none, and
/// with "failed to convert header to a str" when it is not visible ASCII; any
/// other status outside 200 to 299 fails with the invalid configuration
/// "mmdb download failed: " and the status; a success saves the body.
pub fn download_step(url: &str, status: u16, location: Option<Vec<u8>>) -> (step: DownloadStep)
    requires
        100 <= status < 1000,
    ensures
        300 <= status < 400 ==> match location {
            None => step matches DownloadStep::Fail(e) && e@ == ErrorView::Io(
                "failed to download from "@ + url@,
            ),
            Some(b) => if forall|i: int| 0 <= i < b.len() ==> is_visible_ascii(#[trigger] b@[i]) {
                step matches DownloadStep::Redirect(t) && t@ == b@
            } else {
                step matches DownloadStep::Fail(e) && e@ == ErrorView::Other(
                    "failed to convert header to a str"@,
                )
            },
        },
        !(300 <= status < 400) && !(200 <= status < 300) ==> (step matches DownloadStep::Fail(e) && e@
            == ErrorView::InvalidConfig("mmdb download failed: "@ + status_text(status))),
        200 <= status < 300 ==> step is Save,
{
    if 300 <= status && status < 400 {
        match location {
            None => {
                let mut m = String::from_str("failed to download from ");
                m.append(url);
                DownloadStep::Fail(Error::Io(m))
            },
            Some(b) => {
                if all_visible_ascii(&b) {
                    DownloadStep::Redirect(b)
                } else {
                    DownloadStep::Fail(Error::Other(String::from_str("failed to convert header to a str")))
                }
            },
        }
    } else if !(200 <= status && status < 300) {
        let mut m = String::from_str("mmdb download failed: ");
        let t = status_to_text(status);
        m.append(t.as_str());
        DownloadStep::Fail(Error::InvalidConfig(m))
    } else {
        DownloadStep::Save
    }
}

} // verus!
