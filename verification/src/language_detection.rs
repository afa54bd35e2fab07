//! Text in several languages: which part is spoken in which language.
//!
//! A language detector cuts a text into sections of one language each.
//! For each section the server is told the language and then given the
//! text of the section.

use crate::error::{invalid_data_failure, ClientError, ClientErrorView, ClientResult};
use crate::request::Request;
use crate::text::views_of;
use crate::types::ClientScope;
use lingua::{IsoCode639_1, LanguageDetector, LanguageDetectorBuilder};
use vstd::prelude::*;
use vstd::string::*;
use vstd::utf8::*;

verus! {

/// `lingua::LanguageDetector`, a detector of the languages of a text. Its
/// value is carried through and never looked into.
#[verifier::external_type_specification]
#[verifier::external_body]
pub struct ExLanguageDetector(LanguageDetector);

/// `lingua::IsoCode639_1`, the two-letter code of a language. Its value is
/// carried through and never looked into.
#[verifier::external_type_specification]
#[verifier::external_body]
pub struct ExIsoCode(IsoCode639_1);

/// A part of a text in one language: the code of the language, and where
/// the part begins and ends, counted in bytes of the text in UTF-8.
#[derive(Debug, Clone, PartialEq, Eq, Hash)]
pub struct LanguageSection {
    pub language: String,
    pub start: usize,
    pub end: usize,
}

/// Mathematical value of a [`LanguageSection`].
pub struct LanguageSectionView {
    pub language: Seq<char>,
    pub start: nat,
    pub end: nat,
}

impl View for LanguageSection {
    type V = LanguageSectionView;

    open spec fn view(&self) -> LanguageSectionView {
        LanguageSectionView {
            language: self.language@,
            start: self.start as nat,
            end: self.end as nat,
        }
    }
}

impl LanguageSectionView {
    /// Whether the section lies within `text` and cuts no character in
    /// two.
    pub open spec fn fits(self, text: Seq<char>) -> bool {
        let bytes = encode_utf8(text);
        &&& self.start <= self.end <= bytes.len()
        &&& is_char_boundary(bytes, self.start as int)
        &&& is_char_boundary(bytes, self.end as int)
    }

    /// The characters of the section.
    pub open spec fn text_in(self, text: Seq<char>) -> Seq<char> {
        decode_utf8(encode_utf8(text).subrange(self.start as int, self.end as int))
    }

    /// The lines that are sent for the section: the command that sets the
    /// language, then the text and the line that ends it.
    pub open spec fn wire_lines(self, text: Seq<char>) -> Seq<Seq<Seq<char>>> {
        seq![
            seq![crate::request::set_command("self"@, "LANGUAGE"@, self.language)],
            seq![self.text_in(text), crate::request::END_OF_DATA@],
        ]
    }
}

/// The lines of the requests that speak `text` section by section, or the
/// failure where a section does not fit the text.
pub open spec fn multilingual_lines(text: Seq<char>, sections: Seq<LanguageSectionView>) -> Result<
    Seq<Seq<Seq<char>>>,
    ClientErrorView,
>
    decreases sections.len(),
{
    if sections.len() == 0 {
        Ok(Seq::empty())
    } else {
        match multilingual_lines(text, sections.drop_last()) {
            Err(error) => Err(error),
            Ok(lines) => if sections.last().fits(text) {
                Ok(lines + sections.last().wire_lines(text))
            } else {
                Err(invalid_data_failure("language section out of the text"@))
            },
        }
    }
}

/// The lines of each request of `requests`.
pub open spec fn lines_of_requests(requests: Seq<Request>) -> Seq<Seq<Seq<char>>> {
    Seq::new(requests.len(), |i: int| requests[i].wire_lines())
}

/// What the requests of a result are written as.
pub open spec fn plan_view(plan: ClientResult<Vec<Request>>) -> Result<
    Seq<Seq<Seq<char>>>,
    ClientErrorView,
> {
    match plan {
        Ok(requests) => Ok(lines_of_requests(requests@)),
        Err(error) => Err(error@),
    }
}

/// The section from byte `start` up to, not including, byte `end`, of no
/// language in particular.
pub open spec fn span(start: usize, end: usize) -> LanguageSectionView {
    LanguageSectionView { language: Seq::empty(), start: start as nat, end: end as nat }
}

/// The part of `text` from byte `start` up to, not including, byte `end`.
fn section_text(text: &str, start: usize, end: usize) -> (part: Option<String>)
    ensures
        span(start, end).fits(text@) ==> part is Some && part->Some_0@ == span(start, end).text_in(
            text@,
        ),
        !span(start, end).fits(text@) ==> part is None,
{
    let length = text.as_bytes().len();
    if start <= end && end <= length && text.is_char_boundary(start) && text.is_char_boundary(end) {
        let ghost bytes = encode_utf8(text@);
        proof {
            vstd::utf8::encode_utf8_valid_utf8(text@);
            lemma_boundary_in_prefix(bytes, start as int, end as int);
        }
        let (head, _) = text.split_at(end);
        let (_, part) = head.split_at(start);
        let owned = part.to_string();
        proof {
            assert(part.spec_bytes() =~= bytes.subrange(start as int, end as int));
            vstd::utf8::encode_utf8_decode_utf8(part@);
        }
        Some(owned)
    } else {
        None
    }
}

/// A place that cuts no character of a text in two cuts none of a part of
/// the text that holds it and ends where no character is cut either.
proof fn lemma_boundary_in_prefix(bytes: Seq<u8>, start: int, end: int)
    requires
        valid_utf8(bytes),
        0 <= start <= end <= bytes.len(),
        is_char_boundary(bytes, start),
        is_char_boundary(bytes, end),
    ensures
        is_char_boundary(bytes.subrange(0, end), start),
{
    let front = bytes.subrange(0, end);
    vstd::utf8::valid_utf8_split(bytes, end);
    if start == end {
        vstd::utf8::is_char_boundary_start_end_of_seq(front);
    } else {
        vstd::utf8::is_char_boundary_iff_not_is_continuation_byte(bytes, start);
        vstd::utf8::is_char_boundary_iff_not_is_continuation_byte(front, start);
    }
}

/// The requests that speak `text` section by section: for each section,
/// the command that sets its language, then its text. A section that does
/// not lie within the text, or that cuts a character in two, is invalid
/// data.
pub fn multilingual_requests(text: &str, sections: &Vec<LanguageSection>) -> (plan: ClientResult<
    Vec<Request>,
>)
    ensures
        plan_view(plan) == multilingual_lines(text@, views_of(sections@)),
{
    let mut requests: Vec<Request> = Vec::new();
    let ghost all = views_of(sections@);
    let mut i: usize = 0;
    proof {
        assert(lines_of_requests(requests@) =~= Seq::<Seq<Seq<char>>>::empty());
    }
    while i < sections.len()
        invariant
            i <= sections.len(),
            all == views_of(sections@),
            multilingual_lines(text@, all.subrange(0, i as int)) == Ok::<
                Seq<Seq<Seq<char>>>,
                ClientErrorView,
            >(lines_of_requests(requests@)),
        decreases sections.len() - i,
    {
        let ghost done = all.subrange(0, i as int);
        let ghost next = all.subrange(0, i + 1);
        let ghost before = lines_of_requests(requests@);
        let section = &sections[i];
        proof {
            assert(next.drop_last() =~= done);
            assert(next.last() == section@);
        }
        match section_text(text, section.start, section.end) {
            None => {
                proof {
                    lemma_multilingual_fail(text@, all, i + 1);
                }
                return Err(ClientError::invalid_data("language section out of the text"));
            },
            Some(part) => {
                let language = Request::SetLanguage(ClientScope::Current, section.language.clone());
                let mut lines: Vec<String> = Vec::new();
                lines.push(part);
                let speech = Request::SendLines(lines);
                proof {
                    assert(speech.wire_lines() =~= section@.wire_lines(text@)[1]);
                    assert(language.wire_lines() =~= section@.wire_lines(text@)[0]);
                }
                requests.push(language);
                requests.push(speech);
                proof {
                    assert(lines_of_requests(requests@) =~= before + section@.wire_lines(text@));
                }
            },
        }
        i += 1;
    }
    proof {
        assert(all.subrange(0, i as int) =~= all);
    }
    Ok(requests)
}

/// Once the sections up to `k` hold one that does not fit, so do all the
/// sections.
proof fn lemma_multilingual_fail(text: Seq<char>, sections: Seq<LanguageSectionView>, k: int)
    requires
        0 <= k <= sections.len(),
        multilingual_lines(text, sections.subrange(0, k)) is Err,
    ensures
        multilingual_lines(text, sections) == multilingual_lines(text, sections.subrange(0, k)),
    decreases sections.len(),
{
    if k == sections.len() {
        assert(sections.subrange(0, k) =~= sections);
    } else {
        assert(sections.drop_last().subrange(0, k) =~= sections.subrange(0, k));
        lemma_multilingual_fail(text, sections.drop_last(), k);
    }
}

/// `LanguageDetectorBuilder::from_iso_codes_639_1`, then `build`: a
/// detector that tells the given languages apart. The list may not be
/// empty.
#[verifier::external_body]
fn build_detector(languages: &Vec<IsoCode639_1>) -> (detector: LanguageDetector)
    requires
        languages@.len() > 0,
{
    LanguageDetectorBuilder::from_iso_codes_639_1(languages.as_slice()).build()
}

/// `LanguageDetector::detect_multiple_languages_of`: the sections of
/// `text`, each with the code of its language in lower case. Nothing is
/// claimed of them.
#[verifier::external_body]
fn detect_sections(detector: &LanguageDetector, text: &str) -> (sections: Vec<LanguageSection>) {
    let mut sections: Vec<LanguageSection> = Vec::new();
    for result in detector.detect_multiple_languages_of(text) {
        sections.push(
            LanguageSection {
                language: result.language().iso_code_639_1().to_string(),
                start: result.start_index(),
                end: result.end_index(),
            },
        );
    }
    sections
}

/// A detector that tells the given languages apart, or nothing where no
/// language is given.
pub fn new_detector(languages: &Vec<IsoCode639_1>) -> (detector: Option<LanguageDetector>)
    ensures
        detector is Some <==> languages@.len() > 0,
{
    if languages.len() > 0 {
        Some(build_detector(languages))
    } else {
        None
    }
}

/// The requests that speak `text`, each part in the language that the
/// detector finds for it. They are the requests of some sections, as
/// [`multilingual_requests`] makes them: which sections, the detector
/// decides.
pub fn detect_requests(detector: &LanguageDetector, text: &str) -> (plan: ClientResult<
    Vec<Request>,
>)
    ensures
        exists|sections: Seq<LanguageSectionView>|
            plan_view(plan) == multilingual_lines(text@, sections),
{
    let sections = detect_sections(detector, text);
    multilingual_requests(text, &sections)
}

} // verus!
