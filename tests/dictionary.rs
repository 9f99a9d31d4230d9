use localtype::dictionary::{DictionaryEntry, PersonalDictionary};

#[test]
fn test_add_entry() {
    let mut dict = PersonalDictionary::new();
    assert_eq!(dict.entries.len(), 0);

    dict.add_entry(DictionaryEntry {
        term: "Localtype".to_string(),
        aliases: vec!["local type".to_string()],
        description: Some("A privacy-first voice typing app".to_string()),
    });

    assert_eq!(dict.entries.len(), 1);
    assert_eq!(dict.entries[0].term, "Localtype");
}

#[test]
fn test_update_entry() {
    let mut dict = PersonalDictionary::new();
    dict.add_entry(DictionaryEntry {
        term: "Localtype".to_string(),
        aliases: vec!["local type".to_string()],
        description: None,
    });

    let updated = dict.update_entry("Localtype", DictionaryEntry {
        term: "Localtype".to_string(),
        aliases: vec!["local type".to_string(), "local-type".to_string()],
        description: Some("Updated description".to_string()),
    });

    assert!(updated);
    assert_eq!(dict.entries[0].aliases.len(), 2);
    assert_eq!(dict.entries[0].description, Some("Updated description".to_string()));
}

#[test]
fn test_update_nonexistent_entry() {
    let mut dict = PersonalDictionary::new();
    let updated = dict.update_entry("NonExistent", DictionaryEntry {
        term: "Test".to_string(),
        aliases: vec![],
        description: None,
    });

    assert!(!updated);
}

#[test]
fn test_remove_entry() {
    let mut dict = PersonalDictionary::new();
    dict.add_entry(DictionaryEntry {
        term: "Localtype".to_string(),
        aliases: vec![],
        description: None,
    });

    assert_eq!(dict.entries.len(), 1);
    assert!(dict.remove_entry("Localtype"));
    assert_eq!(dict.entries.len(), 0);
}

#[test]
fn test_remove_nonexistent_entry() {
    let mut dict = PersonalDictionary::new();
    assert!(!dict.remove_entry("NonExistent"));
}

#[test]
fn dictionary_test_search_entries_empty_query() {
    let mut dict = PersonalDictionary::new();
    dict.add_entry(DictionaryEntry {
        term: "Localtype".to_string(),
        aliases: vec![],
        description: None,
    });
    dict.add_entry(DictionaryEntry {
        term: "BYOK".to_string(),
        aliases: vec![],
        description: None,
    });

    let results = dict.search_entries("");
    assert_eq!(results.len(), 2);
}

#[test]
fn test_search_entries_by_term() {
    let mut dict = PersonalDictionary::new();
    dict.add_entry(DictionaryEntry {
        term: "Localtype".to_string(),
        aliases: vec!["local type".to_string()],
        description: None,
    });
    dict.add_entry(DictionaryEntry {
        term: "BYOK".to_string(),
        aliases: vec!["bee yok".to_string()],
        description: None,
    });

    let results = dict.search_entries("local");
    assert_eq!(results.len(), 1);
    assert_eq!(results[0].term, "Localtype");
}

#[test]
fn test_search_entries_by_alias() {
    let mut dict = PersonalDictionary::new();
    dict.add_entry(DictionaryEntry {
        term: "Localtype".to_string(),
        aliases: vec!["local type".to_string()],
        description: None,
    });
    dict.add_entry(DictionaryEntry {
        term: "BYOK".to_string(),
        aliases: vec!["bee yok".to_string()],
        description: None,
    });

    let results = dict.search_entries("bee");
    assert_eq!(results.len(), 1);
    assert_eq!(results[0].term, "BYOK");
}

#[test]
fn test_search_entries_case_insensitive() {
    let mut dict = PersonalDictionary::new();
    dict.add_entry(DictionaryEntry {
        term: "Localtype".to_string(),
        aliases: vec!["local type".to_string()],
        description: None,
    });

    let results = dict.search_entries("LOCAL");
    assert_eq!(results.len(), 1);
    assert_eq!(results[0].term, "Localtype");
}

#[test]
fn test_search_entries_by_description() {
    let mut dict = PersonalDictionary::new();
    dict.add_entry(DictionaryEntry {
        term: "Localtype".to_string(),
        aliases: vec![],
        description: Some("privacy-first voice typing".to_string()),
    });
    dict.add_entry(DictionaryEntry {
        term: "BYOK".to_string(),
        aliases: vec![],
        description: Some("Bring Your Own Key".to_string()),
    });

    let results = dict.search_entries("privacy");
    assert_eq!(results.len(), 1);
    assert_eq!(results[0].term, "Localtype");
}

#[test]
fn test_get_terms() {
    let mut dict = PersonalDictionary::new();
    dict.add_entry(DictionaryEntry {
        term: "Localtype".to_string(),
        aliases: vec![],
        description: None,
    });
    dict.add_entry(DictionaryEntry {
        term: "BYOK".to_string(),
        aliases: vec![],
        description: None,
    });

    let terms = dict.get_terms();
    assert_eq!(terms.len(), 2);
    assert!(terms.contains(&"Localtype".to_string()));
    assert!(terms.contains(&"BYOK".to_string()));
}
