use vstd::prelude::*;

use crate::errors::SynthesisError;

verus! {

/// How one character of spoken text appears inside the markup document: the
/// five XML-significant characters become entity references, every other
/// character stands as itself.
pub open spec fn xml_escape_char(c: char) -> Seq<char> {
    if c == '"' {
        "&quot;"@
    } else if c == '\'' {
        "&apos;"@
    } else if c == '<' {
        "&lt;"@
    } else if c == '>' {
        "&gt;"@
    } else if c == '&' {
        "&amp;"@
    } else {
        seq![c]
    }
}

/// The XML escaping of a whole string, character by character.
pub open spec fn xml_escape(s: Seq<char>) -> Seq<char>
    decreases s.len(),
{
    if s.len() == 0 {
        Seq::empty()
    } else {
        xml_escape_char(s[0]) + xml_escape(s.drop_first())
    }
}

/// The serialized speech-markup document: a single speak element that
/// declares the resolved voice's language and whose sole content is the
/// escaped input text, so the input is always plain spoken content.
pub open spec fn speak_document(lang: Seq<char>, text: Seq<char>) -> Seq<char> {
    "<speak version=\"1.0\" xmlns=\"http://www.w3.org/2001/10/synthesis\" xml:lang=\""@
        + xml_escape(lang) + "\">"@ + xml_escape(text) + "</speak>"@
}

/// Relies on ssml::speak and ssml::Serialize::serialize_to_string with the
/// default options: the document is one speak element with the version and
/// xmlns attributes, an xml:lang attribute holding the escaped language, and
/// the escaped text as its sole content, where escaping maps `"` `'` `<` `>`
/// `&` to their entity references and keeps every other character. The call
/// cannot fail: it writes into a `String`, whose formatting sink never
/// errors, and the writer's only other error arises from writing attributes
/// after children, which this document never does.
#[verifier::external_body]
fn serialize_speak(language: &str, text: &str) -> (r: Result<String, String>)
    ensures
        r is Ok,
        r->Ok_0@ == speak_document(language@, text@),
{
    ssml::Serialize::serialize_to_string(
        &ssml::speak(Some(language), [text]),
        &ssml::SerializeOptions::default(),
    ).map_err(|e| e.to_string())
}

/// Builds the speech-markup document for the given text in the given
/// language. Building always succeeds with this serializer; a serializer
/// that could fail would report the failure as the client-fault markup
/// error, which the taxonomy keeps for that purpose.
pub fn build_markup(text: &str, language: &str) -> (r: Result<String, SynthesisError>)
    ensures
        r is Ok,
        r->Ok_0@ == speak_document(language@, text@),
{
    match serialize_speak(language, text) {
        Ok(doc) => Ok(doc),
        Err(m) => Err(SynthesisError::SSMLError(m)),
    }
}

/// The characters the escaping rewrites.
pub open spec fn xml_special(c: char) -> bool {
    c == '"' || c == '\'' || c == '<' || c == '>' || c == '&'
}

/// Escaping loses nothing: two texts with the same escaping are the same
/// text, so a markup document determines its spoken content exactly.
pub proof fn lemma_escape_injective(s1: Seq<char>, s2: Seq<char>)
    requires
        xml_escape(s1) == xml_escape(s2),
    ensures
        s1 == s2,
    decreases s1.len(),
{
    reveal_strlit("&quot;");
    reveal_strlit("&apos;");
    reveal_strlit("&lt;");
    reveal_strlit("&gt;");
    reveal_strlit("&amp;");
    if s1.len() == 0 && s2.len() == 0 {
        assert(s1 =~= s2);
    } else if s1.len() == 0 {
        assert(xml_escape(s1).len() == 0);
        assert(xml_escape(s2) == xml_escape_char(s2[0]) + xml_escape(s2.drop_first()));
        assert(xml_escape_char(s2[0]).len() >= 1);
        assert(xml_escape(s2).len() >= 1);
        assert(false);
    } else if s2.len() == 0 {
        assert(xml_escape(s2).len() == 0);
        assert(xml_escape(s1) == xml_escape_char(s1[0]) + xml_escape(s1.drop_first()));
        assert(xml_escape_char(s1[0]).len() >= 1);
        assert(xml_escape(s1).len() >= 1);
        assert(false);
    } else {
        let a = s1[0];
        let b = s2[0];
        let ea = xml_escape_char(a);
        let eb = xml_escape_char(b);
        let ta = xml_escape(s1.drop_first());
        let tb = xml_escape(s2.drop_first());
        assert(xml_escape(s1) == ea + ta);
        assert(xml_escape(s2) == eb + tb);
        assert(ea.len() >= 1 && eb.len() >= 1);
        assert((ea + ta)[0] == ea[0]);
        assert((eb + tb)[0] == eb[0]);
        if !xml_special(a) && !xml_special(b) {
            assert(ea[0] == a && eb[0] == b);
            assert(a == b);
        } else if xml_special(a) && !xml_special(b) {
            assert(ea[0] == '&' && eb[0] == b);
            assert(false);
        } else if !xml_special(a) && xml_special(b) {
            assert(ea[0] == a && eb[0] == '&');
            assert(false);
        } else {
            assert(ea.len() >= 4 && eb.len() >= 4);
            assert((ea + ta)[1] == ea[1] && (ea + ta)[2] == ea[2]);
            assert((eb + tb)[1] == eb[1] && (eb + tb)[2] == eb[2]);
            assert(ea[1] == eb[1] && ea[2] == eb[2]);
            assert(a == b);
        }
        assert(ea == eb);
        assert(ta =~= tb) by {
            assert(ta.len() == tb.len());
            assert(forall|i: int|
                0 <= i < ta.len() ==> #[trigger] ta[i] == (ea + ta)[ea.len() + i]);
            assert(forall|i: int|
                0 <= i < tb.len() ==> #[trigger] tb[i] == (eb + tb)[eb.len() + i]);
        }
        lemma_escape_injective(s1.drop_first(), s2.drop_first());
        assert(s1 =~= s2) by {
            assert(forall|i: int|
                1 <= i < s1.len() ==> #[trigger] s1[i] == s1.drop_first()[i - 1]);
            assert(forall|i: int|
                1 <= i < s2.len() ==> #[trigger] s2[i] == s2.drop_first()[i - 1]);
        }
    }
}

/// Escaped text cannot open or close an element and cannot end the
/// enclosing attribute: no character of the escaping is `<`, `>` or `"`.
pub proof fn lemma_escape_never_injects(s: Seq<char>)
    ensures
        forall|i: int|
            0 <= i < xml_escape(s).len() ==> #[trigger] xml_escape(s)[i] != '<'
                && xml_escape(s)[i] != '>' && xml_escape(s)[i] != '"',
    decreases s.len(),
{
    reveal_strlit("&quot;");
    reveal_strlit("&apos;");
    reveal_strlit("&lt;");
    reveal_strlit("&gt;");
    reveal_strlit("&amp;");
    if s.len() == 0 {
    } else {
        lemma_escape_never_injects(s.drop_first());
        assert(forall|i: int|
            0 <= i < xml_escape_char(s[0]).len() ==> #[trigger] xml_escape_char(s[0])[i] != '<'
                && xml_escape_char(s[0])[i] != '>' && xml_escape_char(s[0])[i] != '"');
        assert(forall|i: int|
            0 <= i < xml_escape(s).len() ==> #[trigger] xml_escape(s)[i] != '<' && xml_escape(
                s,
            )[i] != '>' && xml_escape(s)[i] != '"') by {
            assert(xml_escape(s) == xml_escape_char(s[0]) + xml_escape(s.drop_first()));
            assert(forall|i: int|
                0 <= i < xml_escape(s).len() && i < xml_escape_char(s[0]).len()
                    ==> #[trigger] xml_escape(s)[i] == xml_escape_char(s[0])[i]);
            assert(forall|i: int|
                xml_escape_char(s[0]).len() <= i < xml_escape(s).len() ==> #[trigger] xml_escape(
                    s,
                )[i] == xml_escape(s.drop_first())[i - xml_escape_char(s[0]).len()]);
        }
    }
}

/// A markup document determines the language and the spoken text: two
/// documents agree only when both their languages and their texts agree. The
/// language attribute's end is unambiguous because escaped text never holds
/// a quote.
pub proof fn lemma_speak_document_injective(
    l1: Seq<char>,
    t1: Seq<char>,
    l2: Seq<char>,
    t2: Seq<char>,
)
    requires
        speak_document(l1, t1) == speak_document(l2, t2),
    ensures
        l1 == l2,
        t1 == t2,
{
    let p = "<speak version=\"1.0\" xmlns=\"http://www.w3.org/2001/10/synthesis\" xml:lang=\""@;
    let m = "\">"@;
    let s = "</speak>"@;
    let el1 = xml_escape(l1);
    let el2 = xml_escape(l2);
    let et1 = xml_escape(t1);
    let et2 = xml_escape(t2);
    let d1 = speak_document(l1, t1);
    let d2 = speak_document(l2, t2);
    lemma_escape_never_injects(l1);
    lemma_escape_never_injects(l2);
    reveal_strlit("\">");
    assert(m[0] == '"');
    assert(d1 == p + el1 + m + et1 + s);
    assert(d2 == p + el2 + m + et2 + s);
    if el1.len() < el2.len() {
        lemma_quote_position(p, el1, m, et1, s, el1.len() as int);
        lemma_language_position(p, el2, m, et2, s, el1.len() as int);
        assert(d1[p.len() + el1.len() as int] == m[0]);
        assert(d2[p.len() + el1.len() as int] == el2[el1.len() as int]);
        assert(false);
    } else if el2.len() < el1.len() {
        lemma_quote_position(p, el2, m, et2, s, el2.len() as int);
        lemma_language_position(p, el1, m, et1, s, el2.len() as int);
        assert(d2[p.len() + el2.len() as int] == m[0]);
        assert(d1[p.len() + el2.len() as int] == el1[el2.len() as int]);
        assert(false);
    }
    assert(el1.len() == el2.len());
    assert(el1 =~= el2) by {
        assert(forall|i: int|
            0 <= i < el1.len() ==> #[trigger] el1[i] == (p + el1 + m + et1 + s)[p.len() + i]);
        assert(forall|i: int|
            0 <= i < el2.len() ==> #[trigger] el2[i] == (p + el2 + m + et2 + s)[p.len() + i]);
    }
    assert(et1.len() == et2.len()) by {
        assert(d1.len() == p.len() + el1.len() + m.len() + et1.len() + s.len());
        assert(d2.len() == p.len() + el2.len() + m.len() + et2.len() + s.len());
    }
    assert(et1 =~= et2) by {
        assert(forall|i: int|
            0 <= i < et1.len() ==> #[trigger] et1[i] == (p + el1 + m + et1 + s)[p.len() + el1.len()
                + m.len() + i]);
        assert(forall|i: int|
            0 <= i < et2.len() ==> #[trigger] et2[i] == (p + el2 + m + et2 + s)[p.len() + el2.len()
                + m.len() + i]);
    }
    lemma_escape_injective(l1, l2);
    lemma_escape_injective(t1, t2);
}

/// In `p + el + m + et + s`, the character at the end of the language
/// segment, offset `el.len()` past `p`, is the opening character of `m`.
proof fn lemma_quote_position(
    p: Seq<char>,
    el: Seq<char>,
    m: Seq<char>,
    et: Seq<char>,
    s: Seq<char>,
    i: int,
)
    requires
        i == el.len(),
        m.len() > 0,
    ensures
        (p + el + m + et + s)[p.len() + i] == m[0],
{
    assert((p + el + m + et + s)[p.len() + i] == (p + el + m)[p.len() + i]);
}

/// In `p + el + m + et + s`, a position inside the language segment, offset
/// `i` past `p`, holds the language's own character.
proof fn lemma_language_position(
    p: Seq<char>,
    el: Seq<char>,
    m: Seq<char>,
    et: Seq<char>,
    s: Seq<char>,
    i: int,
)
    requires
        0 <= i < el.len(),
    ensures
        (p + el + m + et + s)[p.len() + i] == el[i],
{
    assert((p + el + m + et + s)[p.len() + i] == (p + el)[p.len() + i]);
}

/// The structure of the markup document is fixed: whatever the text, the
/// document is the fixed speak prefix, the escaped language, the fixed
/// attribute close, the escaped text, and the fixed speak close — and the
/// escaped text contributes no `<`, `>` or `"`, so markup-significant
/// characters in the input are spoken literally and never alter the
/// document's structure.
pub proof fn lemma_text_is_always_plain_content(lang: Seq<char>, text: Seq<char>)
    ensures
        speak_document(lang, text)
            == "<speak version=\"1.0\" xmlns=\"http://www.w3.org/2001/10/synthesis\" xml:lang=\""@
            + xml_escape(lang) + "\">"@ + xml_escape(text) + "</speak>"@,
        forall|i: int|
            0 <= i < xml_escape(text).len() ==> #[trigger] xml_escape(text)[i] != '<'
                && xml_escape(text)[i] != '>' && xml_escape(text)[i] != '"',
{
    lemma_escape_never_injects(text);
}

} // verus!
