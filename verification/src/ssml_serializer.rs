//! SSML document builder and serializer. Currently only supports single
//! voice selection.
//!
//! A [`Speak`] document is a small tree of typed nodes; [`Speak::to_ssml_xml`]
//! renders it to the exact single-line XML wire form the synthesis service
//! expects. The rendered text is pinned down, character for character, by
//! [`spec_render`]: the root `speak` element carries the fixed protocol
//! version and namespace attributes and the language tag, its one `voice`
//! child carries language, gender and voice name, and the voice's segments
//! follow in order, plain text as escaped character content and expressive
//! text as an `mstts:express-as` element.

use crate::types::{spec_gender_str, spec_style_str, Style, VoiceGender, VoiceSettings};
use vstd::prelude::*;
use vstd::string::{StrSliceExecFns, StringExecFns};

verus! {

/// A speech-markup document: the root `speak` node, carrying the document
/// language tag and exactly one voice selection.
#[derive(Debug, PartialEq)]
pub struct Speak {
    pub xml_lang: String,
    pub voice: Voice,
}

/// A voice selection: language tag, grammatical gender and service voice
/// name, around an ordered sequence of segments.
#[derive(Debug, PartialEq)]
pub struct Voice {
    pub xml_lang: String,
    pub gender: VoiceGender,
    pub name: String,
    pub body: Vec<VoiceSegment>,
}

/// One ordered unit of spoken content: plain text, or text wrapped in an
/// expressive style.
#[derive(Debug, PartialEq)]
pub enum VoiceSegment {
    Plain(String),
    ExpressAs(ExpressAs),
}

/// Text spoken in one of the closed catalogue of expressive styles.
#[derive(Debug, PartialEq)]
pub struct ExpressAs {
    pub style: Style,
    pub body: String,
}

/// What one character of text content becomes in the rendered document:
/// the XML entity for `&`, `<`, `>` and `"`, the character itself otherwise.
pub open spec fn spec_escape_char(c: char) -> Seq<char> {
    if c == '&' {
        "&amp;"@
    } else if c == '<' {
        "&lt;"@
    } else if c == '>' {
        "&gt;"@
    } else if c == '"' {
        "&quot;"@
    } else {
        seq![c]
    }
}

/// Text content escaped per standard XML entity rules, character by
/// character.
pub open spec fn spec_escape(s: Seq<char>) -> Seq<char>
    decreases s.len(),
{
    if s.len() == 0 {
        Seq::empty()
    } else {
        spec_escape(s.drop_last()) + spec_escape_char(s.last())
    }
}

/// The rendered form of one segment: escaped character content for plain
/// text, an `mstts:express-as` element for expressive text.
pub open spec fn spec_render_segment(seg: VoiceSegment) -> Seq<char> {
    match seg {
        VoiceSegment::Plain(t) => spec_escape(t@),
        VoiceSegment::ExpressAs(e) => spec_render_express_as(e),
    }
}

/// The rendered form of an expressive span: explicit open and close tags,
/// the style attribute holding the segment's fixed style string.
pub open spec fn spec_render_express_as(e: ExpressAs) -> Seq<char> {
    "<mstts:express-as style=\""@ + spec_style_str(e.style) + "\">"@ + spec_escape(e.body@)
        + "</mstts:express-as>"@
}

/// The rendered forms of a segment sequence, concatenated in order with no
/// separators.
pub open spec fn spec_render_segments(segs: Seq<VoiceSegment>) -> Seq<char>
    decreases segs.len(),
{
    if segs.len() == 0 {
        Seq::empty()
    } else {
        spec_render_segments(segs.drop_last()) + spec_render_segment(segs.last())
    }
}

/// The rendered form of a voice selection: a `voice` element with language,
/// gender and name attributes, in that order, around the rendered segments.
pub open spec fn spec_render_voice(v: Voice) -> Seq<char> {
    "<voice xml:lang=\""@ + v.xml_lang@ + "\" xml:gender=\""@ + spec_gender_str(v.gender)
        + "\" name=\""@ + v.name@ + "\">"@ + spec_render_segments(v.body@) + "</voice>"@
}

/// The rendered form of a whole document: a `speak` element with the fixed
/// protocol version and namespace declarations and the document language
/// tag, around the rendered voice selection. No XML prolog, no inserted
/// whitespace.
pub open spec fn spec_render(d: Speak) -> Seq<char> {
    "<speak version=\"1.0\" xmlns=\"http://www.w3.org/2001/10/synthesis\" xmlns:mstts=\"https://www.w3.org/2001/mstts\" xml:lang=\""@
        + d.xml_lang@ + "\">"@ + spec_render_voice(d.voice) + "</speak>"@
}

/// Escaping one more character extends the escaped prefix by exactly that
/// character's escaped form.
proof fn lemma_escape_step(s: Seq<char>, i: int)
    requires
        0 <= i < s.len(),
    ensures
        spec_escape(s.subrange(0, i + 1)) == spec_escape(s.subrange(0, i)) + spec_escape_char(
            s[i],
        ),
{
    assert(s.subrange(0, i + 1).drop_last() =~= s.subrange(0, i));
    assert(s.subrange(0, i + 1).last() == s[i]);
}

/// Rendering one more segment extends the rendered prefix by exactly that
/// segment's rendered form.
proof fn lemma_render_segments_step(segs: Seq<VoiceSegment>, i: int)
    requires
        0 <= i < segs.len(),
    ensures
        spec_render_segments(segs.subrange(0, i + 1)) == spec_render_segments(
            segs.subrange(0, i),
        ) + spec_render_segment(segs[i]),
{
    assert(segs.subrange(0, i + 1).drop_last() =~= segs.subrange(0, i));
    assert(segs.subrange(0, i + 1).last() == segs[i]);
}

/// Appends `s`, escaped per standard XML entity rules, to `out`.
fn escape_into(out: &mut String, s: &str)
    ensures
        final(out)@ == old(out)@ + spec_escape(s@),
{
    let len = s.unicode_len();
    let mut i: usize = 0;
    while i < len
        invariant
            len == s@.len(),
            i <= len,
            out@ == old(out)@ + spec_escape(s@.subrange(0, i as int)),
        decreases len - i,
    {
        let c = s.get_char(i);
        proof {
            lemma_escape_step(s@, i as int);
        }
        if c == '&' {
            out.append("&amp;");
        } else if c == '<' {
            out.append("&lt;");
        } else if c == '>' {
            out.append("&gt;");
        } else if c == '"' {
            out.append("&quot;");
        } else {
            let piece = s.substring_char(i, i + 1);
            proof {
                assert(piece@ =~= seq![s@[i as int]]);
            }
            out.append(piece);
        }
        i = i + 1;
    }
    proof {
        assert(s@.subrange(0, len as int) =~= s@);
    }
}

/// Appends the rendered form of one segment to `out`.
fn render_segment_into(out: &mut String, seg: &VoiceSegment)
    ensures
        final(out)@ == old(out)@ + spec_render_segment(*seg),
{
    match seg {
        VoiceSegment::Plain(t) => {
            escape_into(out, t.as_str());
        }
        VoiceSegment::ExpressAs(e) => {
            out.append("<mstts:express-as style=\"");
            out.append(e.style.as_string());
            out.append("\">");
            escape_into(out, e.body.as_str());
            out.append("</mstts:express-as>");
            proof {
                assert(out@ =~= old(out)@ + spec_render_segment(*seg));
            }
        }
    }
}

/// Appends the rendered form of a voice selection to `out`.
fn render_voice_into(out: &mut String, v: &Voice)
    ensures
        final(out)@ == old(out)@ + spec_render_voice(*v),
{
    out.append("<voice xml:lang=\"");
    out.append(v.xml_lang.as_str());
    out.append("\" xml:gender=\"");
    out.append(v.gender.as_string());
    out.append("\" name=\"");
    out.append(v.name.as_str());
    out.append("\">");
    let ghost head = out@;
    let n = v.body.len();
    let mut j: usize = 0;
    while j < n
        invariant
            n == v.body@.len(),
            j <= n,
            out@ == head + spec_render_segments(v.body@.subrange(0, j as int)),
        decreases n - j,
    {
        proof {
            lemma_render_segments_step(v.body@, j as int);
        }
        render_segment_into(out, &v.body[j]);
        j = j + 1;
    }
    out.append("</voice>");
    proof {
        assert(v.body@.subrange(0, n as int) =~= v.body@);
        assert(out@ =~= old(out)@ + spec_render_voice(*v));
    }
}

impl Speak {
    /// Wraps an already-built voice selection in a document with the given
    /// language tag.
    pub fn new(language: &str, voice: Voice) -> (r: Self)
        ensures
            r.xml_lang@ == language@,
            r.voice == voice,
    {
        Self { xml_lang: language.to_owned(), voice }
    }

    /// Builds a single-segment plain-text document; language tag of the
    /// document and of its voice selection are set from the same value.
    pub fn with_text(language: &str, gender: VoiceGender, voice_name: &str, text: &str) -> (r:
        Self)
        ensures
            r.xml_lang@ == language@,
            r.voice.xml_lang@ == language@,
            r.voice.gender == gender,
            r.voice.name@ == voice_name@,
            r.voice.body@.len() == 1,
            r.voice.body@[0] is Plain,
            r.voice.body@[0]->Plain_0@ == text@,
    {
        let mut body: Vec<VoiceSegment> = Vec::new();
        body.push(VoiceSegment::Plain(text.to_owned()));
        let voice = Voice {
            xml_lang: language.to_owned(),
            gender,
            name: voice_name.to_owned(),
            body,
        };
        Self::new(language, voice)
    }

    /// Builds a document around an arbitrary ordered mix of plain and
    /// expressive segments.
    pub fn with_segments(
        language: &str,
        gender: VoiceGender,
        voice_name: &str,
        contents: Vec<VoiceSegment>,
    ) -> (r: Self)
        ensures
            r.xml_lang@ == language@,
            r.voice.xml_lang@ == language@,
            r.voice.gender == gender,
            r.voice.name@ == voice_name@,
            r.voice.body == contents,
    {
        let voice = Voice {
            xml_lang: language.to_owned(),
            gender,
            name: voice_name.to_owned(),
            body: contents,
        };
        Self::new(language, voice)
    }

    /// Builds a single-segment plain-text document from a settings bundle.
    pub fn text_with_voice_settings(voice_settings: &VoiceSettings, text: &str) -> (r: Self)
        ensures
            r.xml_lang@ == voice_settings.language@,
            r.voice.xml_lang@ == voice_settings.language@,
            r.voice.gender == voice_settings.gender,
            r.voice.name@ == voice_settings.name@,
            r.voice.body@.len() == 1,
            r.voice.body@[0] is Plain,
            r.voice.body@[0]->Plain_0@ == text@,
    {
        Self::with_text(
            voice_settings.language.as_str(),
            voice_settings.gender,
            voice_settings.name.as_str(),
            text,
        )
    }

    /// Builds a segment-sequence document from a settings bundle.
    pub fn segments_with_voice_settings(
        voice_settings: &VoiceSettings,
        contents: Vec<VoiceSegment>,
    ) -> (r: Self)
        ensures
            r.xml_lang@ == voice_settings.language@,
            r.voice.xml_lang@ == voice_settings.language@,
            r.voice.gender == voice_settings.gender,
            r.voice.name@ == voice_settings.name@,
            r.voice.body == contents,
    {
        Self::with_segments(
            voice_settings.language.as_str(),
            voice_settings.gender,
            voice_settings.name.as_str(),
            contents,
        )
    }

    /// Renders the document to its exact XML wire form: a pure function of
    /// the document, so repeated calls yield identical output.
    pub fn to_ssml_xml(&self) -> (r: String)
        ensures
            r@ == spec_render(*self),
    {
        let mut out = String::new();
        out.append(
            "<speak version=\"1.0\" xmlns=\"http://www.w3.org/2001/10/synthesis\" xmlns:mstts=\"https://www.w3.org/2001/mstts\" xml:lang=\"",
        );
        out.append(self.xml_lang.as_str());
        out.append("\">");
        render_voice_into(&mut out, &self.voice);
        out.append("</speak>");
        proof {
            assert(out@ =~= spec_render(*self));
        }
        out
    }
}

impl VoiceSegment {
    /// A plain-text segment.
    pub fn plain(text: &str) -> (r: Self)
        ensures
            r is Plain,
            r->Plain_0@ == text@,
    {
        VoiceSegment::Plain(text.to_owned())
    }

    /// A segment spoken in the given expressive style.
    pub fn with_expression(text: &str, style: Style) -> (r: Self)
        ensures
            r is ExpressAs,
            r->ExpressAs_0.style == style,
            r->ExpressAs_0.body@ == text@,
    {
        let express_as = ExpressAs { style, body: text.to_owned() };
        VoiceSegment::ExpressAs(express_as)
    }

    /// Renders this segment alone, exactly as it would appear inside a
    /// rendered document's voice element.
    pub fn to_ssml_fragment(&self) -> (r: String)
        ensures
            r@ == spec_render_segment(*self),
    {
        let mut out = String::new();
        render_segment_into(&mut out, self);
        out
    }
}

impl ExpressAs {
    /// Renders this expressive span alone, exactly as it would appear inside
    /// a rendered document's voice element.
    pub fn to_ssml_xml(&self) -> (r: String)
        ensures
            r@ == spec_render_express_as(*self),
    {
        let mut out = String::new();
        out.append("<mstts:express-as style=\"");
        out.append(self.style.as_string());
        out.append("\">");
        escape_into(&mut out, self.body.as_str());
        out.append("</mstts:express-as>");
        proof {
            assert(out@ =~= spec_render_express_as(*self));
        }
        out
    }
}

/// Segment sequences render in input order with no separators: the
/// rendering of one sequence followed by another is the rendering of the
/// first followed immediately by the rendering of the second.
pub proof fn lemma_render_segments_concat(s1: Seq<VoiceSegment>, s2: Seq<VoiceSegment>)
    ensures
        spec_render_segments(s1 + s2) == spec_render_segments(s1) + spec_render_segments(s2),
    decreases s2.len(),
{
    if s2.len() == 0 {
        assert(s1 + s2 =~= s1);
        assert(spec_render_segments(s1) + spec_render_segments(s2) =~= spec_render_segments(s1));
    } else {
        lemma_render_segments_concat(s1, s2.drop_last());
        assert((s1 + s2).drop_last() =~= s1 + s2.drop_last());
        assert((s1 + s2).last() == s2.last());
        assert(spec_render_segments(s1) + spec_render_segments(s2.drop_last())
            + spec_render_segment(s2.last()) =~= spec_render_segments(s1) + spec_render_segments(
            s2,
        ));
    }
}

/// Escaped text content never holds a raw `<`, `>` or `"`: each special
/// character leaves only as part of its entity, so escaped text can sit
/// inside an element without opening one.
pub proof fn lemma_escape_leaves_no_markup(s: Seq<char>)
    ensures
        forall|i: int|
            0 <= i < spec_escape(s).len() ==> spec_escape(s)[i] != '<' && spec_escape(s)[i] != '>'
                && spec_escape(s)[i] != '"',
    decreases s.len(),
{
    if s.len() > 0 {
        lemma_escape_leaves_no_markup(s.drop_last());
        let c = s.last();
        let e = spec_escape_char(c);
        reveal_strlit("&amp;");
        reveal_strlit("&lt;");
        reveal_strlit("&gt;");
        reveal_strlit("&quot;");
        assert forall|i: int| 0 <= i < e.len() implies e[i] != '<' && e[i] != '>' && e[i]
            != '"' by {
            if c == '&' || c == '<' || c == '>' || c == '"' {
            } else {
                assert(e == seq![c]);
            }
        }
        let p = spec_escape(s.drop_last());
        assert(spec_escape(s) == p + e);
        assert forall|i: int|
            0 <= i < spec_escape(s).len() implies spec_escape(s)[i] != '<' && spec_escape(s)[i]
            != '>' && spec_escape(s)[i] != '"' by {
            if i < p.len() {
                assert(spec_escape(s)[i] == p[i]);
            } else {
                assert(spec_escape(s)[i] == e[i - p.len()]);
            }
        }
    }
}

/// Rendering is deterministic: the rendered text is a function of the
/// document alone, so any two renderings of equal documents are equal.
pub proof fn lemma_render_deterministic(d1: Speak, d2: Speak)
    requires
        d1 == d2,
    ensures
        spec_render(d1) == spec_render(d2),
{
}

} // verus!
