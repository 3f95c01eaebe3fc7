use sat_composites::authenticate::{access_token, token_request};
use sat_composites::download::{is_redirect, on_probe, on_transfer, DownloadStep};
use sat_composites::encoder::{next_attempt, smallest_attempt, Attempt, SIZE_CEILING};
use sat_composites::errors::ErrorKind;
use sat_composites::fetch::{precache_jobs, start, step, FetchAction, FetchEvent, FetchState};
use sat_composites::keys::{archive_key_of, content_url_of, image_key_of};
use sat_composites::request::{command_in, command_in_input, requested_filter, Command};
use sat_composites::search::{
    geometry_to_odata, latest, parse_search_response, search_url, CDSESearch,
};
use sat_composites::search_result::{parse_search_result, SearchResult};
use sat_composites::transport::{compress, compress_and_encode, encode_compressed, encode_text};
use sat_composites::variant::FilterVariant;
use std::collections::HashMap;
use std::io::Read;

const URL_X: &str = "https://catalogue.dataspace.copernicus.eu/odata/v1/Products(X)/$value";

#[test]
fn variant_names() {
    assert_eq!(FilterVariant::TrueColor.name(), "True Color");
    assert_eq!(FilterVariant::FalseColor.name(), "False Color");
    assert_eq!(FilterVariant::Ndwi.name(), "NDWI");
    assert_eq!(FilterVariant::Swir.name(), "SWIR");
    for v in FilterVariant::all() {
        assert_eq!(FilterVariant::from_name(v.name()), v);
    }
    assert_eq!(
        FilterVariant::all(),
        vec![
            FilterVariant::TrueColor,
            FilterVariant::FalseColor,
            FilterVariant::Ndwi,
            FilterVariant::Swir
        ]
    );
}

#[test]
fn unknown_variant_defaults_to_true_color() {
    assert_eq!(FilterVariant::from_name("Unknown"), FilterVariant::TrueColor);
    assert_eq!(FilterVariant::from_name(""), FilterVariant::TrueColor);
    assert_eq!(FilterVariant::from_name("ndwi"), FilterVariant::TrueColor);
    assert_eq!(FilterVariant::from_name("NDWI"), FilterVariant::Ndwi);
    assert_eq!(FilterVariant::from_name("SWIR"), FilterVariant::Swir);
    assert_eq!(FilterVariant::from_name("False Color"), FilterVariant::FalseColor);
}

#[test]
fn siblings_are_the_other_three() {
    assert_eq!(
        FilterVariant::Ndwi.siblings(),
        vec![FilterVariant::TrueColor, FilterVariant::FalseColor, FilterVariant::Swir]
    );
    assert_eq!(
        FilterVariant::TrueColor.siblings(),
        vec![FilterVariant::FalseColor, FilterVariant::Ndwi, FilterVariant::Swir]
    );
    for v in FilterVariant::all() {
        let s = v.siblings();
        assert_eq!(s.len(), 3);
        assert!(!s.contains(&v));
    }
}

#[test]
fn keys_and_address() {
    assert_eq!(image_key_of("X", FilterVariant::Ndwi), "X/NDWI.jpg");
    assert_eq!(image_key_of("abc-1", FilterVariant::TrueColor), "abc-1/True Color.jpg");
    assert_eq!(image_key_of("", FilterVariant::FalseColor), "/False Color.jpg");
    assert_eq!(image_key_of("X", FilterVariant::Swir), "X/SWIR.jpg");
    assert_eq!(archive_key_of("X"), "X.zip");
    assert_eq!(content_url_of("X"), URL_X);
}

#[test]
fn cold_ndwi_request_fetches_derives_stores_and_precaches() {
    let id = "X";
    let v = FilterVariant::from_name("NDWI");
    let (s0, a0) = start(id, v);
    assert_eq!(s0, FetchState::AwaitImage);
    assert!(matches!(a0, FetchAction::LookupImage { key } if key == "X/NDWI.jpg"));

    let (s1, a1) = step(id, v, s0, FetchEvent::Image(None));
    assert_eq!(s1, FetchState::AwaitArchive);
    assert!(matches!(a1, FetchAction::LookupArchive { key } if key == "X.zip"));

    let (s2, a2) = step(id, v, s1, FetchEvent::Archive(None));
    assert_eq!(s2, FetchState::AwaitDownload);
    assert!(matches!(a2, FetchAction::Download { url } if url == URL_X));

    let (s3, a3) = step(id, v, s2, FetchEvent::Downloaded(vec![80, 75, 3, 4]));
    assert_eq!(s3, FetchState::AwaitComposite);
    match a3 {
        FetchAction::Derive { archive, store_as } => {
            assert_eq!(archive, vec![80, 75, 3, 4]);
            assert_eq!(store_as, Some("X.zip".to_string()));
        }
        other => panic!("{:?}", other),
    }

    let (s4, a4) = step(id, v, s3, FetchEvent::Composite(vec![0xFF, 0xD8, 1]));
    assert_eq!(s4, FetchState::Done);
    match a4 {
        FetchAction::StoreAndRespond { key, bytes, precache } => {
            assert_eq!(key, "X/NDWI.jpg");
            assert_eq!(bytes, vec![0xFF, 0xD8, 1]);
            let jobs: Vec<(FilterVariant, String)> =
                precache.into_iter().map(|j| (j.variant, j.key)).collect();
            assert_eq!(
                jobs,
                vec![
                    (FilterVariant::TrueColor, "X/True Color.jpg".to_string()),
                    (FilterVariant::FalseColor, "X/False Color.jpg".to_string()),
                    (FilterVariant::Swir, "X/SWIR.jpg".to_string()),
                ]
            );
        }
        other => panic!("{:?}", other),
    }
}

#[test]
fn cached_swir_is_served_without_a_fetch() {
    let v = FilterVariant::from_name("SWIR");
    let (s0, a0) = start("X", v);
    assert!(matches!(a0, FetchAction::LookupImage { key } if key == "X/SWIR.jpg"));
    let (s1, a1) = step("X", v, s0, FetchEvent::Image(Some(vec![5, 6, 7])));
    assert_eq!(s1, FetchState::Done);
    assert!(matches!(a1, FetchAction::Respond { bytes } if bytes == vec![5, 6, 7]));
}

#[test]
fn stored_archive_is_decoded_without_a_download() {
    let v = FilterVariant::TrueColor;
    let (s, a) = step("X", v, FetchState::AwaitArchive, FetchEvent::Archive(Some(vec![1, 2])));
    assert_eq!(s, FetchState::AwaitComposite);
    match a {
        FetchAction::Derive { archive, store_as } => {
            assert_eq!(archive, vec![1, 2]);
            assert_eq!(store_as, None);
        }
        other => panic!("{:?}", other),
    }
}

#[test]
fn unreachable_store_counts_as_a_miss() {
    let v = FilterVariant::TrueColor;
    let (s, a) =
        step("X", v, FetchState::AwaitImage, FetchEvent::Failed(ErrorKind::CacheIoFailure));
    assert_eq!(s, FetchState::AwaitArchive);
    assert!(matches!(a, FetchAction::LookupArchive { key } if key == "X.zip"));
    let (s, a) =
        step("X", v, FetchState::AwaitArchive, FetchEvent::Failed(ErrorKind::CacheIoFailure));
    assert_eq!(s, FetchState::AwaitDownload);
    assert!(matches!(a, FetchAction::Download { url } if url == URL_X));
}

#[test]
fn fatal_failures_end_the_request() {
    let v = FilterVariant::TrueColor;
    for (state, kind) in [
        (FetchState::AwaitImage, ErrorKind::NetworkFailure),
        (FetchState::AwaitArchive, ErrorKind::AuthFailure),
        (FetchState::AwaitDownload, ErrorKind::NetworkFailure),
        (FetchState::AwaitDownload, ErrorKind::AuthFailure),
        (FetchState::AwaitDownload, ErrorKind::CacheIoFailure),
        (FetchState::AwaitComposite, ErrorKind::DecodeFailure),
        (FetchState::AwaitComposite, ErrorKind::EncodeFailure),
    ] {
        let (s, a) = step("X", v, state, FetchEvent::Failed(kind));
        assert_eq!(s, FetchState::Done);
        assert!(matches!(a, FetchAction::Fail { kind: k } if k == kind));
    }
}

#[test]
fn events_out_of_turn_end_the_request() {
    let v = FilterVariant::Swir;
    for (state, event) in [
        (FetchState::AwaitImage, FetchEvent::Archive(None)),
        (FetchState::AwaitImage, FetchEvent::Composite(vec![1])),
        (FetchState::AwaitArchive, FetchEvent::Image(Some(vec![1]))),
        (FetchState::AwaitDownload, FetchEvent::Archive(Some(vec![1]))),
        (FetchState::AwaitComposite, FetchEvent::Downloaded(vec![1])),
        (FetchState::Done, FetchEvent::Image(None)),
        (FetchState::Done, FetchEvent::Failed(ErrorKind::NetworkFailure)),
    ] {
        let (s, a) = step("X", v, state, event);
        assert_eq!(s, FetchState::Done);
        assert!(matches!(a, FetchAction::Fail { kind: ErrorKind::OutOfTurn }));
    }
}

#[test]
fn precache_jobs_name_the_other_variants() {
    let jobs = precache_jobs("S2B", FilterVariant::Swir);
    let pairs: Vec<(FilterVariant, String)> =
        jobs.into_iter().map(|j| (j.variant, j.key)).collect();
    assert_eq!(
        pairs,
        vec![
            (FilterVariant::TrueColor, "S2B/True Color.jpg".to_string()),
            (FilterVariant::FalseColor, "S2B/False Color.jpg".to_string()),
            (FilterVariant::Ndwi, "S2B/NDWI.jpg".to_string()),
        ]
    );
}

/// Serves one request against a store in memory; the composite of an archive
/// is its bytes followed by the variant's name. Returns the answer and the
/// number of downloads.
fn serve(store: &mut HashMap<String, Vec<u8>>, id: &str, filter: &str) -> (Option<Vec<u8>>, usize) {
    let v = FilterVariant::from_name(filter);
    let mut downloads = 0;
    let (mut state, mut action) = start(id, v);
    loop {
        let event = match action {
            FetchAction::LookupImage { key } => FetchEvent::Image(store.get(&key).cloned()),
            FetchAction::LookupArchive { key } => FetchEvent::Archive(store.get(&key).cloned()),
            FetchAction::Download { url } => {
                downloads += 1;
                FetchEvent::Downloaded(url.into_bytes())
            }
            FetchAction::Derive { archive, store_as } => {
                if let Some(key) = store_as {
                    store.insert(key, archive.clone());
                }
                let mut bytes = archive;
                bytes.extend_from_slice(v.name().as_bytes());
                FetchEvent::Composite(bytes)
            }
            FetchAction::Respond { bytes } => return (Some(bytes), downloads),
            FetchAction::StoreAndRespond { key, bytes, precache } => {
                assert_eq!(precache.len(), 3);
                store.insert(key, bytes.clone());
                return (Some(bytes), downloads);
            }
            FetchAction::Fail { .. } => return (None, downloads),
        };
        let next = step(id, v, state, event);
        state = next.0;
        action = next.1;
    }
}

#[test]
fn the_same_request_twice_gets_the_same_bytes() {
    let mut store = HashMap::new();
    let (first, downloads) = serve(&mut store, "X", "NDWI");
    assert_eq!(downloads, 1);
    let mut expected = URL_X.as_bytes().to_vec();
    expected.extend_from_slice(b"NDWI");
    assert_eq!(first, Some(expected.clone()));
    assert_eq!(store.get("X/NDWI.jpg"), Some(&expected));
    assert_eq!(store.get("X.zip"), Some(&URL_X.as_bytes().to_vec()));

    let (second, downloads) = serve(&mut store, "X", "NDWI");
    assert_eq!(downloads, 0);
    assert_eq!(second, first);

    // Another variant of the same product is derived from the stored archive.
    let (other, downloads) = serve(&mut store, "X", "SWIR");
    assert_eq!(downloads, 0);
    let mut swir = URL_X.as_bytes().to_vec();
    swir.extend_from_slice(b"SWIR");
    assert_eq!(other, Some(swir));
}

#[test]
fn error_kinds() {
    assert!(ErrorKind::NetworkFailure.is_fatal());
    assert!(ErrorKind::AuthFailure.is_fatal());
    assert!(ErrorKind::DecodeFailure.is_fatal());
    assert!(ErrorKind::EncodeFailure.is_fatal());
    assert!(ErrorKind::OutOfTurn.is_fatal());
    assert!(!ErrorKind::CacheIoFailure.is_fatal());
    assert!(!ErrorKind::SizeBudgetExceeded.is_fatal());
}

#[test]
fn redirects_are_followed_to_their_location() {
    for status in [301u16, 302, 303, 307] {
        assert!(is_redirect(status));
        let next = on_probe("a".to_string(), status, Some("b".to_string()));
        assert!(matches!(next, DownloadStep::Follow { url } if url == "b"));
        let lost = on_probe("a".to_string(), status, None);
        assert!(matches!(lost, DownloadStep::Fail { kind: ErrorKind::NetworkFailure }));
    }
    for status in [200u16, 204, 300, 304, 305, 308, 404, 500] {
        assert!(!is_redirect(status));
        let next = on_probe("a".to_string(), status, Some("b".to_string()));
        assert!(matches!(next, DownloadStep::Transfer { url } if url == "a"));
    }
}

#[test]
fn transfer_status() {
    assert_eq!(on_transfer(200), Ok(()));
    assert_eq!(on_transfer(299), Ok(()));
    assert_eq!(on_transfer(199), Err(ErrorKind::NetworkFailure));
    assert_eq!(on_transfer(300), Err(ErrorKind::NetworkFailure));
    assert_eq!(on_transfer(401), Err(ErrorKind::AuthFailure));
    assert_eq!(on_transfer(403), Err(ErrorKind::AuthFailure));
    assert_eq!(on_transfer(404), Err(ErrorKind::NetworkFailure));
    assert_eq!(on_transfer(500), Err(ErrorKind::NetworkFailure));
}

#[test]
fn encoder_starts_at_95_and_steps_down_by_10() {
    let mut sizes = Vec::new();
    let mut tried = Vec::new();
    loop {
        match next_attempt(&sizes, 100) {
            Attempt::Encode { quality } => {
                tried.push(quality);
                sizes.push(1000 - 10 * sizes.len());
            }
            Attempt::Return { index, exceeded } => {
                assert_eq!(index, 8);
                assert!(exceeded);
                break;
            }
        }
    }
    assert_eq!(tried, vec![95, 85, 75, 65, 55, 45, 35, 25, 15]);
}

#[test]
fn encoder_returns_the_first_encoding_within_budget() {
    assert_eq!(next_attempt(&Vec::new(), 0), Attempt::Encode { quality: 95 });
    assert_eq!(next_attempt(&vec![50], 50), Attempt::Return { index: 0, exceeded: false });
    assert_eq!(next_attempt(&vec![51], 50), Attempt::Encode { quality: 85 });
    assert_eq!(next_attempt(&vec![90, 70, 50], 60), Attempt::Return { index: 2, exceeded: false });
    assert_eq!(next_attempt(&vec![90, 70, 61], 60), Attempt::Encode { quality: 65 });
    assert_eq!(
        next_attempt(&vec![9, 9, 9, 9, 9, 9, 9, 9, 5], 5),
        Attempt::Return { index: 8, exceeded: false }
    );
}

#[test]
fn encoder_gives_up_with_the_smallest_encoding() {
    let sizes = vec![90, 80, 70, 60, 50, 40, 30, 20, 10];
    assert_eq!(next_attempt(&sizes, 5), Attempt::Return { index: 8, exceeded: true });
    let uneven = vec![90, 80, 30, 60, 50, 40, 30, 35, 31];
    assert_eq!(next_attempt(&uneven, 5), Attempt::Return { index: 6, exceeded: true });
    assert_eq!(smallest_attempt(&uneven), 6);
    let level = vec![90, 80, 70, 70, 70, 70, 70, 70, 70];
    assert_eq!(next_attempt(&level, 5), Attempt::Return { index: 8, exceeded: true });
    assert_eq!(smallest_attempt(&vec![4]), 0);
    assert_eq!(SIZE_CEILING, 32 * 1024 * 1024);
}

#[test]
fn search_for_sentinel_2_picks_the_newest() {
    let s = CDSESearch {
        satellite: Some("SENTINEL-2".to_string()),
        area: Some("POLYGON((4 51,5 51,5 52,4 51))".to_string()),
        max_cloud_cover: Some("20".to_string()),
    };
    assert_eq!(
        search_url(&s),
        "https://catalogue.dataspace.copernicus.eu/odata/v1/Products?$filter=\
         Collection/Name eq 'SENTINEL-2' and \
         OData.CSC.Intersects(area=geography'SRID=4326;POLYGON((4 51,5 51,5 52,4 51))') and \
         Attributes/OData.CSC.DoubleAttribute/any(att:att/Name eq 'cloudCover' and \
         att/OData.CSC.DoubleAttribute/Value le 20)\
         &$orderby=ContentDate/Start desc"
    );
    let body = "{\"value\":[\
        {\"Id\":\"new\",\"ContentLength\":700,\"Online\":true,\
         \"GeoFootprint\":{\"type\":\"Polygon\",\"coordinates\":[[[4,51],[5,51],[5,52],[4,51]]]}},\
        {\"Id\":\"old\",\"ContentLength\":5,\"Online\":false,\
         \"GeoFootprint\":{\"type\":\"Polygon\",\"coordinates\":[[[1,1],[2,2],[1,1]]]}}]}";
    let results = parse_search_response(body).unwrap();
    assert_eq!(results.len(), 2);
    assert_eq!(results[0].id, "new");
    assert_eq!(results[0].file_size, 700);
    assert!(results[0].online);
    assert_eq!(results[0].num_points, 4);
    assert_eq!(results[1].id, "old");
    assert_eq!(results[1].file_size, 5);
    assert!(!results[1].online);
    assert_eq!(results[1].num_points, 3);
    assert_eq!(latest(&results), Some("new".to_string()));
    assert_eq!(latest(&Vec::new()), None);
}

#[test]
fn search_url_with_fewer_criteria() {
    let only_satellite = CDSESearch {
        satellite: Some("SENTINEL-2".to_string()),
        area: None,
        max_cloud_cover: None,
    };
    assert_eq!(
        search_url(&only_satellite),
        "https://catalogue.dataspace.copernicus.eu/odata/v1/Products?$filter=\
         Collection/Name eq 'SENTINEL-2'&$orderby=ContentDate/Start desc"
    );
    let none = CDSESearch { satellite: None, area: None, max_cloud_cover: None };
    assert_eq!(
        search_url(&none),
        "https://catalogue.dataspace.copernicus.eu/odata/v1/Products?$fi\
         &$orderby=ContentDate/Start desc"
    );
}

#[test]
fn search_results_need_every_field() {
    let entry = |text: &str| SearchResult::new(&serde_json::from_str(text).unwrap());
    let full = "{\"Id\":\"a\",\"ContentLength\":1,\"Online\":true,\
                \"GeoFootprint\":{\"coordinates\":[[]]}}";
    let r = entry(full).unwrap();
    assert_eq!((r.id.as_str(), r.file_size, r.online, r.num_points), ("a", 1, true, 0));
    assert!(entry("{\"ContentLength\":1,\"Online\":true,\"GeoFootprint\":{\"coordinates\":[[]]}}")
        .is_none());
    assert!(entry("{\"Id\":7,\"ContentLength\":1,\"Online\":true,\
                   \"GeoFootprint\":{\"coordinates\":[[]]}}")
        .is_none());
    assert!(entry("{\"Id\":\"a\",\"ContentLength\":-1,\"Online\":true,\
                   \"GeoFootprint\":{\"coordinates\":[[]]}}")
        .is_none());
    assert!(entry("{\"Id\":\"a\",\"ContentLength\":1,\"Online\":\"yes\",\
                   \"GeoFootprint\":{\"coordinates\":[[]]}}")
        .is_none());
    assert!(entry("{\"Id\":\"a\",\"ContentLength\":1,\"Online\":true,\
                   \"GeoFootprint\":{\"coordinates\":[]}}")
        .is_none());
    assert!(entry("{\"Id\":\"a\",\"ContentLength\":1,\"Online\":true}").is_none());
    assert!(entry("[]").is_none());

    let list = |text: &str| parse_search_result(&serde_json::from_str(text).unwrap());
    assert_eq!(list("[]").unwrap().len(), 0);
    assert_eq!(list(&format!("[{},{}]", full, full)).unwrap().len(), 2);
    assert!(list(&format!("[{},{{}}]", full)).is_none());
    assert!(list("{}").is_none());
    assert!(parse_search_response("{\"values\":[]}").is_none());
    assert!(parse_search_response("not json").is_none());
}

#[test]
fn access_token_is_read_from_the_answer() {
    assert_eq!(
        access_token("{\"access_token\":\"abc.def\",\"expires_in\":600}"),
        Some("abc.def".to_string())
    );
    assert_eq!(access_token("{\"access_token\":5}"), None);
    assert_eq!(access_token("{\"error\":\"invalid_grant\"}"), None);
    assert_eq!(access_token("<html>"), None);
}

#[test]
fn compressed_text_decodes_to_the_input() {
    let input: Vec<u8> = (0..2000u32).map(|i| (i % 7) as u8).collect();
    let text = compress_and_encode(&input).unwrap();
    assert_ne!(text.as_bytes(), &input[..]);
    let packed =
        base64::Engine::decode(&base64::engine::general_purpose::STANDARD, &text).unwrap();
    assert_eq!(Some(packed.clone()), compress(&input));
    assert_eq!(&packed[0..6], &[0xFD, b'7', b'z', b'X', b'Z', 0]);
    let mut out = Vec::new();
    xz2::read::XzDecoder::new(&packed[..]).read_to_end(&mut out).unwrap();
    assert_eq!(out, input);
}

#[test]
fn base64_text_of_known_bytes() {
    assert_eq!(encode_text(b"hello world~"), Some("aGVsbG8gd29ybGR+".to_string()));
    assert_eq!(encode_text(b"a"), Some("YQ==".to_string()));
    assert_eq!(encode_text(b""), Some(String::new()));
}

#[test]
fn commands_of_a_request_body() {
    let body = |text: &str| -> serde_json::Value { serde_json::from_str(text).unwrap() };
    assert!(matches!(
        command_in(&body("{\"Command\":\"Change\",\"ID\":\"X\"}")),
        Command::Change { id } if id == "X"
    ));
    assert!(matches!(command_in(&body("{\"Command\":\"Change\"}")), Command::Invalid));
    assert!(matches!(command_in(&body("{\"Command\":\"Change\",\"ID\":7}")), Command::Invalid));
    assert!(matches!(command_in(&body("{\"Command\":\"New\"}")), Command::New));
    assert!(matches!(command_in(&body("{\"Command\":\"change\",\"ID\":\"X\"}")), Command::New));
    assert!(matches!(command_in(&body("{\"ID\":\"X\"}")), Command::Invalid));
    assert!(matches!(command_in(&body("{\"Command\":1}")), Command::Invalid));
    assert!(matches!(command_in(&body("[]")), Command::Invalid));
    assert!(matches!(
        command_in_input("{\"Command\":\"Change\",\"ID\":\"abc\"}"),
        Command::Change { id } if id == "abc"
    ));
    assert!(matches!(command_in_input("{\"Command\":\"Search\"}"), Command::New));
    assert!(matches!(command_in_input("{"), Command::Invalid));
}

#[test]
fn filter_of_a_request_body() {
    let body = |text: &str| -> serde_json::Value { serde_json::from_str(text).unwrap() };
    assert_eq!(requested_filter(&body("{\"Filter\":\"NDWI\"}")), FilterVariant::Ndwi);
    assert_eq!(requested_filter(&body("{\"Filter\":\"SWIR\"}")), FilterVariant::Swir);
    assert_eq!(requested_filter(&body("{\"Filter\":\"False Color\"}")), FilterVariant::FalseColor);
    assert_eq!(requested_filter(&body("{\"Filter\":\"Unknown\"}")), FilterVariant::TrueColor);
    assert_eq!(requested_filter(&body("{\"Filter\":3}")), FilterVariant::TrueColor);
    assert_eq!(requested_filter(&body("{}")), FilterVariant::TrueColor);
}

#[test]
fn geometry_in_the_catalogue_notation() {
    let point = |x: &str, y: &str| (x.to_string(), y.to_string());
    let ring = vec![point("4", "51"), point("5.5", "51"), point("5.5", "52.25"), point("4", "51")];
    assert_eq!(geometry_to_odata("Polygon", &ring), "POLYGON((4 51,5.5 51,5.5 52.25,4 51))");
    assert_eq!(geometry_to_odata("polygon", &vec![point("-1", "2")]), "POLYGON((-1 2))");
    assert_eq!(geometry_to_odata("Polygon", &Vec::new()), "POLYGON())");
}

#[test]
fn token_request_fields() {
    let pair = |a: &str, b: &str| (a.to_string(), b.to_string());
    assert_eq!(
        token_request("ann", "s3cret"),
        vec![
            pair("client_id", "cdse-public"),
            pair("username", "ann"),
            pair("password", "s3cret"),
            pair("grant_type", "password"),
        ]
    );
}

#[test]
fn compressed_stream_is_encoded_as_it_is() {
    assert_eq!(encode_compressed(None), None);
    assert_eq!(encode_compressed(Some(Vec::new())), Some(String::new()));
    assert_eq!(encode_compressed(Some(b"hello world~".to_vec())), Some("aGVsbG8gd29ybGR+".to_string()));
    let input = vec![9u8; 300];
    assert_eq!(compress_and_encode(&input), encode_compressed(compress(&input)));
    assert!(compress_and_encode(&[]).is_some());
    assert_ne!(compress_and_encode(&input), encode_text(&input));
}
