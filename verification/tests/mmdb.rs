use clash_lib::addr::IpAddress;
use clash_lib::error::Error;
use clash_lib::mmdb::{
    download_start, download_step, status_to_text, CountryInfo, CountryRecord, DatabaseFailure,
    DownloadStep, FailureKind, LoadAction, LoadEvent, LoadPhase, MmdbLoader, MMDB,
};
use clash_lib::mmdb_format::check_opens;

fn key(out: &mut Vec<u8>, k: &str) {
    out.push(0x40 | k.len() as u8);
    out.extend_from_slice(k.as_bytes());
}

/// Metadata for a tree of record size 24 with the given node count and IP
/// version, leaving out the field `left_out` (if any).
fn metadata(node_count: u8, ip_version: u8, left_out: &str) -> Vec<u8> {
    let fields: Vec<(&str, Vec<u8>)> = vec![
        ("binary_format_major_version", vec![0xA1, 0x02]),
        ("binary_format_minor_version", vec![0xA0]),
        ("build_epoch", vec![0x01, 0x02, 0x01]),
        ("database_type", vec![0x44, b'T', b'e', b's', b't']),
        ("description", vec![0xE0]),
        ("ip_version", vec![0xA1, ip_version]),
        ("languages", vec![0x00, 0x04]),
        ("node_count", vec![0xC1, node_count]),
        ("record_size", vec![0xA1, 0x18]),
    ];
    let kept: Vec<&(&str, Vec<u8>)> = fields.iter().filter(|(k, _)| *k != left_out).collect();
    let mut m = vec![0xE0 | kept.len() as u8];
    for (k, v) in kept {
        key(&mut m, k);
        m.extend_from_slice(v);
    }
    m
}

/// A database of one node with record size 24: the left record (addresses
/// whose first bit is 0) is `left`, the right one is 1 (no data); `data` is
/// the data section and `meta` the metadata.
fn assemble(left: [u8; 3], data: &[u8], meta: &[u8]) -> Vec<u8> {
    let mut db = left.to_vec();
    db.extend_from_slice(&[0x00, 0x00, 0x01]);
    db.extend_from_slice(&[0u8; 16]);
    db.extend_from_slice(data);
    db.extend_from_slice(b"\xab\xcd\xefMaxMind.com");
    db.extend_from_slice(meta);
    db
}

fn database(left: [u8; 3], data: &[u8], node_count: u8, ip_version: u8) -> Vec<u8> {
    assemble(left, data, &metadata(node_count, ip_version, ""))
}

/// A database of one node: addresses whose first bit is 0 have an empty
/// country record, the others have none.
fn tiny_database() -> Vec<u8> {
    database([0x00, 0x00, 0x11], &[0xE0], 1, 4)
}

/// The data of a record whose country is Germany.
fn germany() -> Vec<u8> {
    let mut d = vec![0xE1];
    key(&mut d, "country");
    d.push(0xE3);
    key(&mut d, "geoname_id");
    d.extend_from_slice(&[0xC3, 0x2C, 0x92, 0x54]);
    key(&mut d, "iso_code");
    key(&mut d, "DE");
    key(&mut d, "names");
    d.push(0xE2);
    key(&mut d, "de");
    key(&mut d, "Deutschland");
    key(&mut d, "en");
    key(&mut d, "Germany");
    d
}

const OPEN_OUT_OF_BOUNDS: &str =
    "the metadata or the search tree of the MaxMind DB file lies beyond its end";
const LOOKUP_OUT_OF_BOUNDS: &str = "OutOfBoundsError: the search tree or data record for the address lies beyond the end of the MaxMind DB file";

fn refused_as_out_of_bounds(db: Vec<u8>) {
    assert!(!check_opens(&db));
    match MMDB::from_database(db) {
        Err(f) => assert_eq!(
            f,
            DatabaseFailure { kind: FailureKind::OutOfBounds, message: OPEN_OUT_OF_BOUNDS.to_string() }
        ),
        Ok(_) => panic!("database opened"),
    }
}

fn lookup_out_of_bounds(db: Vec<u8>) {
    assert!(check_opens(&db));
    let m = MMDB::from_database(db).ok().expect("database opens");
    assert_eq!(
        m.lookup(IpAddress::V4(0x0102_0304)),
        Err(Error::Io(LOOKUP_OUT_OF_BOUNDS.to_string()))
    );
    assert_eq!(
        m.lookup(IpAddress::V4(0xc800_0001)),
        Err(Error::Io("AddressNotFoundError: Address not found in database".to_string()))
    );
}

fn not_a_database() -> Vec<u8> {
    b"definitely not a database".to_vec()
}

const NO_METADATA: &str = "Could not find MaxMind DB metadata in file.";

#[test]
fn garbage_is_an_invalid_database() {
    match MMDB::from_database(not_a_database()) {
        Err(f) => assert_eq!(
            f,
            DatabaseFailure { kind: FailureKind::InvalidDatabase, message: NO_METADATA.to_string() }
        ),
        Ok(_) => panic!("garbage opened"),
    }
}

#[test]
fn failure_text() {
    let f = DatabaseFailure { kind: FailureKind::Mapping, message: "m".to_string() };
    assert_eq!(f.to_text(), "MapError: m");
    let f = DatabaseFailure { kind: FailureKind::AddressNotFound, message: "x".to_string() };
    assert_eq!(f.to_text(), "AddressNotFoundError: x");
}

#[test]
fn lookup_in_a_tiny_database() {
    let m = match MMDB::from_database(tiny_database()) {
        Ok(m) => m,
        Err(f) => panic!("tiny database refused: {:?}", f),
    };
    let c = m.lookup(IpAddress::V4(0x0a00_0001)).expect("10.0.0.1 is in the database");
    assert!(c.country.is_none());
    assert!(m.lookup(IpAddress::V6(1)).is_ok());
    match m.lookup(IpAddress::V4(0xc800_0001)) {
        Err(e) => assert_eq!(
            e,
            Error::Io("AddressNotFoundError: Address not found in database".to_string())
        ),
        Ok(_) => panic!("200.0.0.1 found"),
    }
}

#[test]
fn existing_valid_file_is_used() {
    let mut l = MmdbLoader::new("geo.mmdb".to_string(), None);
    assert_eq!(l.phase, LoadPhase::Checking);
    assert!(matches!(l.step(LoadEvent::Exists(true)), LoadAction::Read));
    assert!(matches!(l.step(LoadEvent::Read(Ok(tiny_database()))), LoadAction::Ready(_)));
    assert_eq!(l.phase, LoadPhase::Done);
}

#[test]
fn missing_file_without_address() {
    let mut l = MmdbLoader::new("geo.mmdb".to_string(), None);
    match l.step(LoadEvent::Exists(false)) {
        LoadAction::Fail(e) => assert_eq!(
            e,
            Error::InvalidConfig(
                "mmdb `geo.mmdb` not found and mmdb_download_url is not set".to_string()
            )
        ),
        _ => panic!("expected a failure"),
    }
}

#[test]
fn missing_file_is_downloaded() {
    let mut l = MmdbLoader::new("geo.mmdb".to_string(), Some("http://x/geo".to_string()));
    match l.step(LoadEvent::Exists(false)) {
        LoadAction::Download(u) => assert_eq!(u, "http://x/geo"),
        _ => panic!("expected a download"),
    }
    assert!(matches!(l.step(LoadEvent::Downloaded(Ok(()))), LoadAction::Read));
    assert!(matches!(l.step(LoadEvent::Read(Ok(tiny_database()))), LoadAction::Ready(_)));
}

#[test]
fn failed_download() {
    let mut l = MmdbLoader::new("geo.mmdb".to_string(), Some("http://x/geo".to_string()));
    l.step(LoadEvent::Exists(false));
    match l.step(LoadEvent::Downloaded(Err("connection refused".to_string()))) {
        LoadAction::Fail(e) => assert_eq!(
            e,
            Error::InvalidConfig("mmdb download failed: connection refused".to_string())
        ),
        _ => panic!("expected a failure"),
    }
    assert_eq!(l.phase, LoadPhase::Done);
}

#[test]
fn invalid_file_is_replaced_once() {
    let mut l = MmdbLoader::new("geo.mmdb".to_string(), Some("http://x/geo".to_string()));
    assert!(matches!(l.step(LoadEvent::Exists(true)), LoadAction::Read));
    assert!(matches!(l.step(LoadEvent::Read(Ok(not_a_database()))), LoadAction::Remove));
    match l.step(LoadEvent::Removed(Ok(()))) {
        LoadAction::Download(u) => assert_eq!(u, "http://x/geo"),
        _ => panic!("expected a download"),
    }
    assert!(matches!(l.step(LoadEvent::Downloaded(Ok(()))), LoadAction::Read));
    match l.step(LoadEvent::Read(Ok(not_a_database()))) {
        LoadAction::Fail(e) => assert_eq!(
            e,
            Error::InvalidConfig(format!(
                "cant open mmdb `geo.mmdb`: InvalidDatabaseError: {}",
                NO_METADATA
            ))
        ),
        _ => panic!("expected a failure"),
    }
}

#[test]
fn unreadable_file_without_address() {
    let mut l = MmdbLoader::new("geo.mmdb".to_string(), None);
    l.step(LoadEvent::Exists(true));
    assert!(matches!(l.step(LoadEvent::Read(Err("permission denied".to_string()))), LoadAction::Remove));
    match l.step(LoadEvent::Removed(Ok(()))) {
        LoadAction::Fail(e) => assert_eq!(
            e,
            Error::InvalidConfig(
                "mmdb `geo.mmdb` not found and mmdb_download_url is not set".to_string()
            )
        ),
        _ => panic!("expected a failure"),
    }
}

#[test]
fn failed_removal() {
    let mut l = MmdbLoader::new("geo.mmdb".to_string(), None);
    l.step(LoadEvent::Exists(true));
    l.step(LoadEvent::Read(Ok(not_a_database())));
    match l.step(LoadEvent::Removed(Err("read-only file system".to_string()))) {
        LoadAction::Fail(e) => assert_eq!(e, Error::Io("read-only file system".to_string())),
        _ => panic!("expected a failure"),
    }
}

#[test]
fn download_answers() {
    assert_eq!(download_step("http://x/geo", 200, None), DownloadStep::Save);
    assert_eq!(download_step("http://x/geo", 204, None), DownloadStep::Save);
    assert_eq!(
        download_step("http://x/geo", 301, None),
        DownloadStep::Fail(Error::Io("failed to download from http://x/geo".to_string()))
    );
    assert_eq!(
        download_step("http://x/geo", 302, Some(b"http://y/geo".to_vec())),
        DownloadStep::Redirect(b"http://y/geo".to_vec())
    );
    assert_eq!(
        download_step("http://x/geo", 307, Some(vec![b'h', 0x80])),
        DownloadStep::Fail(Error::Other("failed to convert header to a str".to_string()))
    );
    assert_eq!(
        download_step("http://x/geo", 404, Some(b"http://y/geo".to_vec())),
        DownloadStep::Fail(Error::InvalidConfig("mmdb download failed: 404 Not Found".to_string()))
    );
    assert_eq!(
        download_step("http://x/geo", 599, None),
        DownloadStep::Fail(Error::InvalidConfig(
            "mmdb download failed: 599 <unknown status code>".to_string()
        ))
    );
    assert_eq!(
        download_step("http://x/geo", 101, None),
        DownloadStep::Fail(Error::InvalidConfig(
            "mmdb download failed: 101 Switching Protocols".to_string()
        ))
    );
}

#[test]
fn status_texts() {
    assert_eq!(status_to_text(200), "200 OK");
    assert_eq!(status_to_text(503), "503 Service Unavailable");
    assert_eq!(status_to_text(999), "999 <unknown status code>");
}

#[test]
fn tab_is_allowed_in_the_location() {
    assert_eq!(
        download_step("http://x/geo", 308, Some(b"http://y/\tgeo".to_vec())),
        DownloadStep::Redirect(b"http://y/\tgeo".to_vec())
    );
    assert_eq!(
        download_step("http://x/geo", 303, Some(vec![0x1f])),
        DownloadStep::Fail(Error::Other("failed to convert header to a str".to_string()))
    );
}

#[test]
fn the_longest_load_takes_six_steps() {
    let mut l = MmdbLoader::new("geo.mmdb".to_string(), Some("http://x/geo".to_string()));
    let mut steps = 0;
    let mut downloads = 0;
    let mut event = LoadEvent::Exists(false);
    loop {
        steps += 1;
        event = match l.step(event) {
            LoadAction::Download(_) => {
                downloads += 1;
                LoadEvent::Downloaded(Ok(()))
            }
            LoadAction::Read => LoadEvent::Read(Ok(not_a_database())),
            LoadAction::Remove => LoadEvent::Removed(Ok(())),
            LoadAction::Ready(_) => panic!("garbage opened"),
            LoadAction::Fail(_) => break,
        };
    }
    assert_eq!(steps, 6);
    assert_eq!(downloads, 2);
    assert_eq!(l.phase, LoadPhase::Done);
}

#[test]
fn empty_record_is_found() {
    let m = MMDB::from_database(tiny_database()).ok().expect("tiny database opens");
    let c = m.lookup(IpAddress::V4(0x0102_0304)).expect("1.2.3.4 is in the database");
    assert_eq!(
        c,
        CountryRecord {
            continent: None,
            country: None,
            registered_country: None,
            represented_country: None,
            traits: None,
        }
    );
}

#[test]
fn country_record_is_copied() {
    let db = database([0x00, 0x00, 0x11], &germany(), 1, 4);
    assert!(check_opens(&db));
    let m = MMDB::from_database(db).ok().expect("database opens");
    let c = m.lookup(IpAddress::V4(0x0a00_0001)).expect("10.0.0.1 is in the database");
    let want = CountryInfo {
        geoname_id: Some(2921044),
        is_in_european_union: None,
        iso_code: Some("DE".to_string()),
        names: Some(vec![
            ("de".to_string(), "Deutschland".to_string()),
            ("en".to_string(), "Germany".to_string()),
        ]),
    };
    assert_eq!(c.country, Some(want));
    assert!(c.continent.is_none());
    assert!(c.registered_country.is_none());
    assert_eq!(m.lookup(IpAddress::V4(0x0a00_0001)).ok(), Some(c));
}

#[test]
fn ipv6_tree_past_the_end_is_refused() {
    refused_as_out_of_bounds(database([0x00, 0x00, 0x96], &[0xE0], 200, 6));
}

#[test]
fn ipv4_tree_larger_than_the_file_opens() {
    let db = database([0x00, 0x00, 0x11], &[0xE0], 200, 4);
    assert!(check_opens(&db));
    let m = MMDB::from_database(db).ok().expect("database opens");
    for ip in [0x0102_0304u32, 0x8000_0000, 0xffff_ffff] {
        let _ = m.lookup(IpAddress::V4(ip));
    }
}

#[test]
fn truncated_metadata_is_refused() {
    refused_as_out_of_bounds(assemble([0x00, 0x00, 0x11], &[0xE0], &[0xE9]));
}

#[test]
fn record_below_the_data_section_fails_that_lookup() {
    lookup_out_of_bounds(database([0x00, 0x00, 0x05], &[0xE0], 1, 4));
}

#[test]
fn pointer_loop_fails_that_lookup() {
    lookup_out_of_bounds(database([0x00, 0x00, 0x11], &[0x20, 0x00], 1, 4));
}

#[test]
fn truncated_value_fails_that_lookup() {
    lookup_out_of_bounds(database([0x00, 0x00, 0x11], &[0x5F, 0xFF, 0xFF, 0xFF], 1, 4));
}

#[test]
fn record_past_the_end_is_reported_by_maxminddb() {
    let db = database([0x00, 0x01, 0x11], &[0xE0], 1, 4);
    assert!(db.len() < 0x111 - 17);
    let m = MMDB::from_database(db).ok().expect("database opens");
    assert_eq!(
        m.lookup(IpAddress::V4(0x0102_0304)),
        Err(Error::Io(
            "InvalidDatabaseError: the MaxMind DB file's search tree is corrupt".to_string()
        ))
    );
}

#[test]
fn metadata_behind_a_pointer_opens() {
    let mut meta = vec![0x20, 0x02];
    meta.extend_from_slice(&metadata(1, 4, ""));
    let db = assemble([0x00, 0x00, 0x11], &[0xE0], &meta);
    assert!(check_opens(&db));
    let m = MMDB::from_database(db).ok().expect("database opens");
    assert!(m.lookup(IpAddress::V4(0x0102_0304)).is_ok());
}

#[test]
fn missing_metadata_field_is_a_decoding_error() {
    let db = assemble([0x00, 0x00, 0x11], &[0xE0], &metadata(1, 4, "database_type"));
    assert!(check_opens(&db));
    match MMDB::from_database(db) {
        Err(f) => assert_eq!(
            f,
            DatabaseFailure {
                kind: FailureKind::Decoding,
                message: "missing field `database_type`".to_string()
            }
        ),
        Ok(_) => panic!("database opened"),
    }
}

#[test]
fn decoding_error_ends_loading_without_removal() {
    let db = assemble([0x00, 0x00, 0x11], &[0xE0], &metadata(1, 4, "database_type"));
    let mut l = MmdbLoader::new("geo.mmdb".to_string(), Some("http://x/geo".to_string()));
    assert!(matches!(l.step(LoadEvent::Exists(true)), LoadAction::Read));
    match l.step(LoadEvent::Read(Ok(db))) {
        LoadAction::Fail(e) => assert_eq!(
            e,
            Error::InvalidConfig(
                "cant open mmdb `geo.mmdb`: DecodingError: missing field `database_type`"
                    .to_string()
            )
        ),
        _ => panic!("expected a failure"),
    }
    assert_eq!(l.phase, LoadPhase::Done);
}

#[test]
fn out_of_bounds_file_ends_loading_without_removal() {
    let db = assemble([0x00, 0x00, 0x11], &[0xE0], &[0xE9]);
    let mut l = MmdbLoader::new("geo.mmdb".to_string(), Some("http://x/geo".to_string()));
    l.step(LoadEvent::Exists(true));
    match l.step(LoadEvent::Read(Ok(db))) {
        LoadAction::Fail(e) => assert_eq!(
            e,
            Error::InvalidConfig(format!(
                "cant open mmdb `geo.mmdb`: OutOfBoundsError: {}",
                OPEN_OUT_OF_BOUNDS
            ))
        ),
        _ => panic!("expected a failure"),
    }
}

#[test]
fn garbage_passes_the_check() {
    assert!(check_opens(&not_a_database()));
}

#[test]
fn download_addresses() {
    assert_eq!(download_start("http://x/geo"), Ok(()));
    assert_eq!(download_start(""), Err(Error::Other("empty string".to_string())));
    assert!(matches!(download_start("http://exa mple/geo"), Err(Error::Other(_))));
}

#[test]
fn record_reached_through_a_pointer() {
    let mut d = vec![0xE1];
    key(&mut d, "country");
    let target = d.len() + 2;
    d.extend_from_slice(&[0x20, target as u8]);
    d.push(0xE1);
    key(&mut d, "iso_code");
    key(&mut d, "FR");
    let db = database([0x00, 0x00, 0x11], &d, 1, 4);
    assert!(check_opens(&db));
    let m = MMDB::from_database(db).ok().expect("database opens");
    let c = m.lookup(IpAddress::V4(0x0101_0101)).expect("1.1.1.1 is in the database");
    assert_eq!(c.country.and_then(|x| x.iso_code), Some("FR".to_string()));
}
