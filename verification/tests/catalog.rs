use tts_gateway::RawVoice;
use tts_gateway::VoiceCatalog;
use tts_gateway::registry::StartupError;
use tts_gateway::voices;

fn raw(id: &str, name: &str, language: &str, gender: i32) -> RawVoice {
    RawVoice {
        display_name: name.to_string(),
        id: id.to_string(),
        language: language.to_string(),
        description: format!("{name}, a {language} voice"),
        gender,
    }
}

#[test]
fn load_builds_catalog_in_enumeration_order() {
    let catalog = VoiceCatalog::load(vec![
        raw("v-1", "Alpha", "en-US", 0),
        raw("v-2", "Beta", "de-DE", 1),
    ])
    .unwrap();
    let list = voices(&catalog);
    assert_eq!(list.len(), 2);
    assert_eq!(list[0].id, "v-1");
    assert_eq!(list[0].display_name, "Alpha");
    assert_eq!(list[0].language, "en-US");
    assert_eq!(list[0].gender, "Male");
    assert_eq!(list[1].id, "v-2");
    assert_eq!(list[1].gender, "Female");
}

#[test]
fn load_rejects_unrecognized_gender_code() {
    let r = VoiceCatalog::load(vec![raw("v-1", "Alpha", "en-US", 0), raw("v-2", "Beta", "en-US", 7)]);
    assert_eq!(r, Err(StartupError::UnrecognizedGender(7)));
}

#[test]
fn load_rejects_empty_enumeration() {
    let r = VoiceCatalog::load(vec![]);
    assert_eq!(r, Err(StartupError::EmptyCatalog));
}

#[test]
fn voice_list_is_nonempty_and_stable_across_calls() {
    let catalog = VoiceCatalog::load(vec![raw("v-1", "Alpha", "en-US", 0)]).unwrap();
    let first = voices(&catalog).clone();
    let second = voices(&catalog).clone();
    assert!(!first.is_empty());
    assert_eq!(first, second);
}

#[test]
fn load_rejects_duplicate_voice_ids() {
    let r = VoiceCatalog::load(vec![
        raw("v-1", "Alpha", "en-US", 0),
        raw("dup", "Beta", "de-DE", 1),
        raw("dup", "Gamma", "fr-FR", 1),
    ]);
    assert_eq!(r, Err(StartupError::DuplicateVoiceId("dup".to_string())));
}

#[test]
fn lookup_finds_the_matching_entry() {
    let catalog = VoiceCatalog::load(vec![
        raw("v-1", "Alpha", "en-US", 0),
        raw("v-2", "Beta", "de-DE", 1),
    ])
    .unwrap();
    let v = catalog.lookup(&"v-2".to_string()).unwrap();
    assert_eq!(v.display_name, "Beta");
    assert_eq!(v.language, "de-DE");
}

#[test]
fn lookup_unknown_id_returns_none() {
    let catalog = VoiceCatalog::load(vec![raw("v-1", "Alpha", "en-US", 0)]).unwrap();
    assert!(catalog.lookup(&"does-not-exist".to_string()).is_none());
}
