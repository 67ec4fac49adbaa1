use tts_gateway::markup::build_markup;

#[test]
fn plain_text_document_is_exact() {
    let doc = build_markup("Hello world", "en-US").unwrap();
    assert_eq!(
        doc,
        "<speak version=\"1.0\" xmlns=\"http://www.w3.org/2001/10/synthesis\" xml:lang=\"en-US\">Hello world</speak>"
    );
}

#[test]
fn markup_significant_characters_are_escaped_not_injected() {
    let doc = build_markup("a<b&c\"d'e>f", "en-US").unwrap();
    assert_eq!(
        doc,
        "<speak version=\"1.0\" xmlns=\"http://www.w3.org/2001/10/synthesis\" xml:lang=\"en-US\">a&lt;b&amp;c&quot;d&apos;e&gt;f</speak>"
    );
    // The body holds no raw markup: the only element tags are the speak pair.
    assert!(!doc.contains("<b"));
    assert_eq!(doc.matches('<').count(), 2);
}

#[test]
fn injection_attempt_stays_spoken_text() {
    let doc = build_markup("</speak><speak>", "en-US").unwrap();
    assert!(!doc.contains("</speak><speak>"));
    assert!(doc.contains("&lt;/speak&gt;&lt;speak&gt;"));
}

#[test]
fn empty_text_yields_an_empty_speak_element() {
    let doc = build_markup("", "de-DE").unwrap();
    assert_eq!(
        doc,
        "<speak version=\"1.0\" xmlns=\"http://www.w3.org/2001/10/synthesis\" xml:lang=\"de-DE\"></speak>"
    );
}
