//! Language detection and target-language selection.
//!
//! The source language of a request is either given explicitly or read from
//! an external classifier; the target language comes from the caller's
//! ordered list of destinations, avoiding a translation of a language into
//! itself when a second destination is available.

use vstd::prelude::*;
use whichlang::Lang;
use crate::strutil::str_eq;

verus! {

/// The languages the external classifier can name.
#[derive(Clone, Copy, Debug, PartialEq, Eq, Structural)]
pub enum DetectedLang {
    Ara,
    Cmn,
    Deu,
    Eng,
    Fra,
    Hin,
    Ita,
    Jpn,
    Kor,
    Nld,
    Por,
    Rus,
    Spa,
    Swe,
    Tur,
    Vie,
}

/// What the external classifier answers on a given text.
pub uninterp spec fn detected_lang_of(text: Seq<char>) -> DetectedLang;

/// Relies on whichlang::detect_language: a total classifier whose answer
/// depends on the characters of the text alone.
#[verifier::external_body]
fn detect_lang_tag(text: &str) -> (r: DetectedLang)
    ensures
        r == detected_lang_of(text@),
{
    match whichlang::detect_language(text) {
        Lang::Ara => DetectedLang::Ara, Lang::Cmn => DetectedLang::Cmn,
        Lang::Deu => DetectedLang::Deu, Lang::Eng => DetectedLang::Eng,
        Lang::Fra => DetectedLang::Fra, Lang::Hin => DetectedLang::Hin,
        Lang::Ita => DetectedLang::Ita, Lang::Jpn => DetectedLang::Jpn,
        Lang::Kor => DetectedLang::Kor, Lang::Nld => DetectedLang::Nld,
        Lang::Por => DetectedLang::Por, Lang::Rus => DetectedLang::Rus,
        Lang::Spa => DetectedLang::Spa, Lang::Swe => DetectedLang::Swe,
        Lang::Tur => DetectedLang::Tur, Lang::Vie => DetectedLang::Vie,
    }
}

/// The label every unsupported or undetectable language falls back to.
pub open spec fn fallback_language() -> Seq<char> {
    "英语"@
}

/// The human-readable label of each detectable language; languages without
/// a label of their own share the fallback label.
pub open spec fn lang_label(l: DetectedLang) -> Seq<char> {
    match l {
        DetectedLang::Cmn => "中文(简体)"@,
        DetectedLang::Jpn => "日语"@,
        DetectedLang::Kor => "韩语"@,
        DetectedLang::Rus => "俄语"@,
        DetectedLang::Spa => "西班牙语"@,
        DetectedLang::Fra => "法语"@,
        DetectedLang::Deu => "德语"@,
        DetectedLang::Ara => "阿拉伯语"@,
        DetectedLang::Por => "葡萄牙语"@,
        DetectedLang::Ita => "意大利语"@,
        DetectedLang::Vie => "越南语"@,
        _ => fallback_language(),
    }
}

/// Detects the language of a text and names it by its label.
pub fn detect_language(text: &str) -> (r: String)
    ensures
        r@ == lang_label(detected_lang_of(text@)),
{
    let detected = detect_lang_tag(text);
    match detected {
        DetectedLang::Cmn => "中文(简体)".to_owned(),
        DetectedLang::Jpn => "日语".to_owned(),
        DetectedLang::Kor => "韩语".to_owned(),
        DetectedLang::Rus => "俄语".to_owned(),
        DetectedLang::Spa => "西班牙语".to_owned(),
        DetectedLang::Fra => "法语".to_owned(),
        DetectedLang::Deu => "德语".to_owned(),
        DetectedLang::Ara => "阿拉伯语".to_owned(),
        DetectedLang::Por => "葡萄牙语".to_owned(),
        DetectedLang::Ita => "意大利语".to_owned(),
        DetectedLang::Vie => "越南语".to_owned(),
        _ => "英语".to_owned(),
    }
}

/// The target language for a resolved source and an ordered destination
/// list: the first destination, unless it equals the source and a second
/// destination exists; the fallback language when the list is empty.
pub open spec fn spec_target_language(dest: Seq<Seq<char>>, from: Seq<char>) -> Seq<char> {
    if dest.len() == 0 {
        fallback_language()
    } else if dest[0] == from && dest.len() > 1 {
        dest[1]
    } else {
        dest[0]
    }
}

/// With at least one destination whose first entry differs from the
/// resolved source, the target is that first destination.
pub proof fn lemma_target_first_destination(dest: Seq<Seq<char>>, from: Seq<char>)
    requires
        dest.len() > 0,
        dest[0] != from,
    ensures
        spec_target_language(dest, from) == dest[0],
{
}

/// With a second destination available and the first equal to the resolved
/// source, the target is the second destination.
pub proof fn lemma_target_second_when_first_is_source(dest: Seq<Seq<char>>, from: Seq<char>)
    requires
        dest.len() > 1,
        dest[0] == from,
    ensures
        spec_target_language(dest, from) == dest[1],
{
}

/// With no destinations at all, the target is always the fallback language,
/// whatever the source.
pub proof fn lemma_target_fallback(from: Seq<char>)
    ensures
        spec_target_language(Seq::<Seq<char>>::empty(), from) == fallback_language(),
{
}

/// Resolves the (source, target) language pair of a request: the source is
/// the explicit one when given and the detected one otherwise, and the
/// target follows the destination rule.
pub fn select_target_language(text: &str, destination: &[String], source: Option<&str>) -> (r: (
    String,
    String,
))
    ensures
        r.0@ == (if source is Some {
            source->0@
        } else {
            lang_label(detected_lang_of(text@))
        }),
        r.1@ == spec_target_language(destination.deep_view(), r.0@),
{
    let detected_lang: String = match source {
        Some(s) => s.to_owned(),
        None => detect_language(text),
    };
    proof {
        assert forall|k: int| 0 <= k < destination@.len() implies destination.deep_view()[k]
            == destination@[k]@ by {}
    }
    let target_lang: String = if destination.len() == 0 {
        "英语".to_owned()
    } else if str_eq(destination[0].as_str(), detected_lang.as_str()) && destination.len() > 1 {
        destination[1].clone()
    } else {
        destination[0].clone()
    };
    (detected_lang, target_lang)
}

} // verus!
