use sat_composites::archive::{
    archive_band_payloads, band_payloads, entry_names, read_bands, unzip_in_memory,
};
use sat_composites::bands::{
    assign_bands, contains_bytes, entry_carries_band, find_band, lies_in_granule_tree, matches_at,
    pattern_of,
};
use sat_composites::sat_data::DecodeError;
use std::io::Write;

const TREE: &str = "S2A_X.SAFE/GRANULE/L1C_T31UFT/IMG_DATA/";

fn archive(entries: &[(String, Vec<u8>)]) -> Vec<u8> {
    let mut w = zip::ZipWriter::new(std::io::Cursor::new(Vec::new()));
    for (name, content) in entries {
        w.start_file(name.as_str(), zip::write::FileOptions::default()).unwrap();
        w.write_all(content).unwrap();
    }
    w.finish().unwrap().into_inner()
}

fn band_entry(k: usize) -> (String, Vec<u8>) {
    (format!("{}T31UFT_20240101_B{:02}.jp2", TREE, k), vec![k as u8; 3 + k])
}

fn bytes(s: &str) -> Vec<u8> {
    s.as_bytes().to_vec()
}

#[test]
fn pattern_of_each_band() {
    assert_eq!(pattern_of(1), bytes("_B01.jp2"));
    assert_eq!(pattern_of(9), bytes("_B09.jp2"));
    assert_eq!(pattern_of(10), bytes("_B10.jp2"));
    assert_eq!(pattern_of(12), bytes("_B12.jp2"));
}

#[test]
fn substring_search() {
    assert!(contains_bytes(&bytes("abcabd"), &bytes("abd")));
    assert!(contains_bytes(&bytes("abcabd"), &bytes("abc")));
    assert!(!contains_bytes(&bytes("abcabd"), &bytes("abe")));
    assert!(!contains_bytes(&bytes("ab"), &bytes("abc")));
    assert!(contains_bytes(&bytes("ab"), &bytes("")));
    assert!(contains_bytes(&bytes(""), &bytes("")));
    assert!(matches_at(&bytes("abcabd"), &bytes("abd"), 3));
    assert!(!matches_at(&bytes("abcabd"), &bytes("abd"), 0));
    assert!(!matches_at(&bytes("abcabd"), &bytes("abd"), 4));
    assert!(!matches_at(&bytes("abcabd"), &bytes("abd"), 100));
}

#[test]
fn granule_tree_is_the_fourth_component_from_the_end() {
    assert!(lies_in_granule_tree(&bytes("S2A.SAFE/GRANULE/L1C/IMG_DATA/T_B01.jp2")));
    assert!(lies_in_granule_tree(&bytes("GRANULE/L1C/IMG_DATA/T_B01.jp2")));
    assert!(!lies_in_granule_tree(&bytes("S2A.SAFE/GRANULE/L1C/T_B01.jp2")));
    assert!(!lies_in_granule_tree(&bytes("S2A.SAFE/GRANULE/L1C/IMG_DATA/R10m/T_B01.jp2")));
    assert!(!lies_in_granule_tree(&bytes("S2A.SAFE/XGRANULE/L1C/IMG_DATA/T_B01.jp2")));
    assert!(!lies_in_granule_tree(&bytes("S2A.SAFE/GRANULEX/L1C/IMG_DATA/T_B01.jp2")));
    assert!(!lies_in_granule_tree(&bytes("S2A.SAFE/thumbs/T_B01.jp2")));
    assert!(!lies_in_granule_tree(&bytes("T_B01.jp2")));
    assert!(!lies_in_granule_tree(&bytes("")));
    assert!(!lies_in_granule_tree(&bytes("a/b/c")));
}

#[test]
fn an_entry_carries_a_band_by_pattern_and_place() {
    let name = bytes("S2A.SAFE/GRANULE/L1C/IMG_DATA/T_B03.jp2");
    assert!(entry_carries_band(&name, 3));
    assert!(!entry_carries_band(&name, 4));
    assert!(!entry_carries_band(&bytes("S2A.SAFE/thumbs/T_B03.jp2"), 3));
    assert!(!entry_carries_band(&bytes("S2A.SAFE/GRANULE/L1C/IMG_DATA/T_B8A.jp2"), 8));
    assert!(!entry_carries_band(&bytes("S2A.SAFE/GRANULE/L1C/IMG_DATA/T_B03.jpg"), 3));
}

#[test]
fn find_band_reports_none_and_several() {
    let names = vec![
        bytes("S.SAFE/GRANULE/L/IMG_DATA/T_B02.jp2"),
        bytes("S.SAFE/thumbs/T_B01.jp2"),
        bytes("S.SAFE/GRANULE/L/IMG_DATA/T_B01.jp2"),
        bytes("S.SAFE/GRANULE/L/QI_DATA/U_B02.jp2"),
    ];
    assert_eq!(find_band(&names, 1), Ok(2));
    assert_eq!(find_band(&names, 2), Err(DecodeError::DuplicateBand(2)));
    assert_eq!(find_band(&names, 3), Err(DecodeError::MissingBand(3)));
    assert_eq!(find_band(&Vec::new(), 12), Err(DecodeError::MissingBand(12)));
}

#[test]
fn assign_bands_orders_by_band_not_by_entry() {
    let mut names = Vec::new();
    for k in (1..=12).rev() {
        names.push(bytes(&band_entry(k).0));
    }
    names.insert(4, bytes("S2A_X.SAFE/GRANULE/L1C_T31UFT/IMG_DATA/T31UFT_20240101_B8A.jp2"));
    names.insert(0, bytes("S2A_X.SAFE/MTD_MSIL1C.xml"));
    // Entry 0 is the metadata file, entries 1 to 4 are bands 12 to 9, entry 5 is
    // band 8A, entries 6 to 13 are bands 8 to 1.
    assert_eq!(assign_bands(&names), Ok(vec![13, 12, 11, 10, 9, 8, 7, 6, 4, 3, 2, 1]));
}

#[test]
fn assign_bands_reports_the_first_failing_band() {
    let mut names = Vec::new();
    for k in 1..=12 {
        if k != 4 && k != 7 {
            names.push(bytes(&band_entry(k).0));
        }
    }
    names.push(bytes(&band_entry(2).0));
    assert_eq!(assign_bands(&names), Err(DecodeError::DuplicateBand(2)));
    names.pop();
    assert_eq!(assign_bands(&names), Err(DecodeError::MissingBand(4)));
    assert_eq!(assign_bands(&Vec::new()), Err(DecodeError::MissingBand(1)));
}

#[test]
fn unzip_refuses_what_is_no_archive() {
    assert_eq!(unzip_in_memory(vec![1, 2, 3, 4]).unwrap_err(), DecodeError::InvalidArchive);
    assert_eq!(unzip_in_memory(Vec::new()).unwrap_err(), DecodeError::InvalidArchive);
}

#[test]
fn entry_names_lists_the_archive_in_order() {
    let data = archive(&[
        ("b.txt".to_string(), vec![1]),
        ("a/c.txt".to_string(), vec![2, 3]),
    ]);
    let mut a = unzip_in_memory(data).unwrap();
    assert_eq!(entry_names(&mut a), Ok(vec![bytes("b.txt"), bytes("a/c.txt")]));
    let mut empty = unzip_in_memory(archive(&[])).unwrap();
    assert_eq!(entry_names(&mut empty), Ok(Vec::new()));
}

#[test]
fn band_payloads_come_out_in_band_order() {
    let mut entries = vec![("S2A_X.SAFE/MTD_MSIL1C.xml".to_string(), vec![9, 9])];
    for k in (1..=12).rev() {
        entries.push(band_entry(k));
    }
    entries.push((format!("{}T31UFT_20240101_B8A.jp2", TREE), vec![0xA; 5]));
    entries.push(("S2A_X.SAFE/thumbs/T31UFT_B01.jp2".to_string(), vec![0xEE; 2]));
    let mut a = unzip_in_memory(archive(&entries)).unwrap();
    let payloads = band_payloads(&mut a).unwrap();
    assert_eq!(payloads.len(), 12);
    for k in 1..=12 {
        assert_eq!(payloads[k - 1], vec![k as u8; 3 + k]);
    }
    // The archive can be read again.
    assert_eq!(band_payloads(&mut a).unwrap(), payloads);
}

#[test]
fn band_payloads_fail_on_a_missing_band() {
    let mut entries = Vec::new();
    for k in 1..=12 {
        if k != 11 {
            entries.push(band_entry(k));
        }
    }
    let mut a = unzip_in_memory(archive(&entries)).unwrap();
    assert_eq!(band_payloads(&mut a), Err(DecodeError::MissingBand(11)));
}

#[test]
fn band_payloads_fail_on_a_band_carried_twice() {
    let mut entries = Vec::new();
    for k in 1..=12 {
        entries.push(band_entry(k));
    }
    entries.push((format!("{}OTHER_20240101_B06.jp2", TREE), vec![1]));
    let mut a = unzip_in_memory(archive(&entries)).unwrap();
    assert_eq!(band_payloads(&mut a), Err(DecodeError::DuplicateBand(6)));
}

#[test]
fn band_payloads_fail_on_a_corrupt_payload() {
    let mut entries = Vec::new();
    for k in 1..=12 {
        entries.push((band_entry(k).0, vec![(k * 7) as u8; 4000]));
    }
    let mut w = zip::ZipWriter::new(std::io::Cursor::new(Vec::new()));
    for (name, content) in &entries {
        let stored = zip::write::FileOptions::default()
            .compression_method(zip::CompressionMethod::Stored);
        w.start_file(name.as_str(), stored).unwrap();
        w.write_all(content).unwrap();
    }
    let mut data = w.finish().unwrap().into_inner();
    // Change one stored byte of band 3: its checksum no longer matches.
    let needle = vec![21u8; 4000];
    let at = data.windows(4000).position(|w| w == &needle[..]).unwrap();
    data[at + 10] = 0;
    let mut a = unzip_in_memory(data).unwrap();
    assert_eq!(band_payloads(&mut a), Err(DecodeError::CorruptBand(3)));
}

#[test]
fn read_bands_reads_the_entries_asked_for() {
    let mut entries = Vec::new();
    for k in 1..=12 {
        entries.push(band_entry(k));
    }
    let mut a = unzip_in_memory(archive(&entries)).unwrap();
    let at: Vec<usize> = (0..12).rev().collect();
    let got = read_bands(&mut a, &at).unwrap();
    for k in 0..12 {
        assert_eq!(got[k], vec![(12 - k) as u8; 3 + 12 - k]);
    }
    let mut beyond = at.clone();
    beyond[5] = 40;
    assert_eq!(read_bands(&mut a, &beyond), Err(DecodeError::CorruptBand(6)));
}

#[test]
fn archive_bytes_decode_to_the_band_payloads() {
    let mut entries = Vec::new();
    for k in [3, 1, 2, 12, 11, 10, 9, 8, 7, 6, 5, 4] {
        entries.push(band_entry(k));
    }
    let payloads = archive_band_payloads(archive(&entries)).unwrap();
    for k in 1..=12 {
        assert_eq!(payloads[k - 1], vec![k as u8; 3 + k]);
    }
    assert_eq!(archive_band_payloads(vec![0; 64]), Err(DecodeError::InvalidArchive));
    assert_eq!(archive_band_payloads(archive(&[])), Err(DecodeError::MissingBand(1)));
}

#[test]
fn band_payloads_fail_on_an_entry_that_cannot_be_opened() {
    let mut entries = vec![("first.txt".to_string(), vec![1, 2, 3])];
    for k in 1..=12 {
        entries.push(band_entry(k));
    }
    let mut data = archive(&entries);
    // Give the third entry of the central directory a compression method
    // that the reader does not know.
    let headers: Vec<usize> = (0..data.len() - 4)
        .filter(|&i| data[i..i + 4] == [b'P', b'K', 1, 2])
        .collect();
    assert_eq!(headers.len(), 13);
    data[headers[2] + 10] = 50;
    data[headers[2] + 11] = 0;
    let mut a = unzip_in_memory(data.clone()).unwrap();
    assert_eq!(entry_names(&mut a), Err(DecodeError::UnreadableEntry(2)));
    assert_eq!(band_payloads(&mut a), Err(DecodeError::UnreadableEntry(2)));
    assert_eq!(archive_band_payloads(data), Err(DecodeError::UnreadableEntry(2)));
}

#[test]
fn an_entry_marked_for_aes_counts_as_one_that_cannot_be_opened() {
    let stored =
        zip::write::FileOptions::default().compression_method(zip::CompressionMethod::Stored);
    let mut w = zip::ZipWriter::new(std::io::Cursor::new(Vec::new()));
    let (name, content) = band_entry(1);
    w.start_file(name.as_str(), stored).unwrap();
    w.write_all(&content).unwrap();
    // An extra field of seven bytes under a private id: version 2, vendor
    // "AE", strength 3, method 0.
    let field = [0xFE, 0xCA, 7, 0, 2, 0, 0x41, 0x45, 3, 0, 0];
    w.start_file_with_extra_data("notes.txt", stored).unwrap();
    w.write_all(&field).unwrap();
    w.end_extra_data().unwrap();
    w.write_all(b"plain").unwrap();
    for k in 2..=12 {
        let (name, content) = band_entry(k);
        w.start_file(name.as_str(), stored).unwrap();
        w.write_all(&content).unwrap();
    }
    let mut data = w.finish().unwrap().into_inner();
    // Give the field the id of the AES extra field; the entry stays
    // unencrypted.
    let places: Vec<usize> =
        (0..data.len() - field.len()).filter(|&i| data[i..i + field.len()] == field).collect();
    assert!(!places.is_empty());
    for at in places {
        data[at] = 0x01;
        data[at + 1] = 0x99;
    }
    let mut a = unzip_in_memory(data.clone()).unwrap();
    assert_eq!(entry_names(&mut a), Err(DecodeError::UnreadableEntry(1)));
    assert_eq!(band_payloads(&mut a), Err(DecodeError::UnreadableEntry(1)));
    let mut at: Vec<usize> = (0..12).collect();
    assert_eq!(read_bands(&mut a, &at), Err(DecodeError::CorruptBand(2)));
    at[1] = 12;
    assert!(read_bands(&mut a, &at).is_ok());
    assert_eq!(archive_band_payloads(data), Err(DecodeError::UnreadableEntry(1)));
}
