use lingua::IsoCode639_1;
use ssip_client::error::{ClientError, ErrorKind};
use ssip_client::language_detection::{
    detect_requests, multilingual_requests, new_detector, LanguageSection,
};
use ssip_client::request::Request;
use ssip_client::types::ClientScope;

fn section(language: &str, start: usize, end: usize) -> LanguageSection {
    LanguageSection { language: String::from(language), start, end }
}

#[test]
fn each_section_sets_its_language() {
    let text = "Bonjour à tous. Hello everybody.";
    let first = "Bonjour à tous. ".len();
    let requests =
        multilingual_requests(text, &vec![section("fr", 0, first), section("en", first, text.len())])
            .unwrap();
    assert_eq!(
        vec![
            Request::SetLanguage(ClientScope::Current, String::from("fr")),
            Request::SendLines(vec![String::from("Bonjour à tous. ")]),
            Request::SetLanguage(ClientScope::Current, String::from("en")),
            Request::SendLines(vec![String::from("Hello everybody.")]),
        ],
        requests
    );
    assert_eq!(Vec::<Request>::new(), multilingual_requests(text, &Vec::new()).unwrap());
    assert_eq!(
        vec![
            Request::SetLanguage(ClientScope::Current, String::from("fr")),
            Request::SendLines(vec![String::new()]),
        ],
        multilingual_requests("", &vec![section("fr", 0, 0)]).unwrap()
    );
}

#[test]
fn a_section_out_of_the_text_is_invalid_data() {
    let text = "Bonjour à tous";
    // Bytes 8 and 9 hold one character.
    for (start, end) in [(0, 16), (16, 16), (5, 4), (0, 9), (9, 15), (usize::MAX, 3)] {
        match multilingual_requests(text, &vec![section("fr", 0, 7), section("fr", start, end)]) {
            Err(ClientError::Io(err)) => {
                assert_eq!(ErrorKind::InvalidData, err.kind(), "section {}..{}", start, end)
            }
            other => panic!("unexpected result for {}..{}: {:?}", start, end, other),
        }
    }
    assert_eq!(
        Request::SendLines(vec![String::from("à")]),
        multilingual_requests(text, &vec![section("fr", 8, 10), section("fr", 0, 15)]).unwrap()[1]
    );
}

#[test]
fn a_detector_needs_a_language() {
    assert!(new_detector(&Vec::new()).is_none());
    assert!(new_detector(&vec![IsoCode639_1::EN]).is_some());
}

#[test]
fn the_detector_cuts_a_text_by_language() {
    let detector = new_detector(&vec![IsoCode639_1::EN, IsoCode639_1::FR]).unwrap();
    let text = "Parlez-vous français? Je ne parle pas très bien. \
                A little bit is better than nothing, I would say.";
    let requests = detect_requests(&detector, text).unwrap();
    assert_eq!(4, requests.len());
    assert_eq!(Request::SetLanguage(ClientScope::Current, String::from("fr")), requests[0]);
    assert_eq!(Request::SetLanguage(ClientScope::Current, String::from("en")), requests[2]);
    let mut spoken = String::new();
    for request in requests.iter() {
        if let Request::SendLines(lines) = request {
            assert_eq!(1, lines.len());
            spoken.push_str(&lines[0]);
        }
    }
    assert_eq!(text, spoken);
    assert_eq!(Vec::<Request>::new(), detect_requests(&detector, "").unwrap());
}
