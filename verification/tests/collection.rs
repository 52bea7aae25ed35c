use std::borrow::Cow;
use stubs::{Stub, StubCollection};

#[test]
fn a_new_collection_is_empty() {
    let collection = StubCollection::new();
    assert!(collection.iter().is_empty());
    let by_default = StubCollection::default();
    assert_eq!(by_default.iter().len(), 0);
}

#[test]
fn three_encounters_of_one_stub_report_once() {
    let mut collection = StubCollection::new();
    let mut log: Vec<String> = Vec::new();
    for _ in 0..3 {
        if let Some(line) = collection.encounter(&Stub::Other("x".into())) {
            log.push(line);
        }
    }
    assert_eq!(log, vec![String::from("x")]);
    let seen = collection.iter();
    assert_eq!(seen.len(), 1);
    assert_eq!(*seen[0], Stub::Other("x".into()));
}

#[test]
fn first_encounter_reports_the_description() {
    let mut collection = StubCollection::new();
    let stub = Stub::Avm2Getter { class: Cow::Borrowed("Foo"), property: Cow::Borrowed("bar") };
    assert_eq!(collection.encounter(&stub), Some(String::from("AVM2 Foo.bar getter")));
    assert_eq!(collection.encounter(&stub), None);
    assert_eq!(stub, Stub::Avm2Getter { class: "Foo".into(), property: "bar".into() });
}

#[test]
fn repeated_encounters_report_once_for_any_count() {
    for count in 1..20 {
        let mut collection = StubCollection::new();
        let stub = Stub::Avm1Method { class: "Foo", method: "bar", specifics: None };
        let mut reports = 0;
        for _ in 0..count {
            if collection.encounter(&stub).is_some() {
                reports += 1;
            }
        }
        assert_eq!(reports, 1);
        let seen = collection.iter();
        assert_eq!(seen.iter().filter(|held| ***held == stub).count(), 1);
        assert_eq!(seen.len(), 1);
    }
}

#[test]
fn equal_stubs_built_apart_are_reported_once() {
    let mut collection = StubCollection::new();
    let first = Stub::Avm1Method { class: "Foo", method: "bar", specifics: None };
    let second = Stub::Avm1Method { class: "Foo", method: "bar", specifics: None };
    assert_eq!(collection.encounter(&first), Some(String::from("AVM1 Foo.bar()")));
    assert_eq!(collection.encounter(&second), None);
    assert_eq!(collection.iter().len(), 1);
}

#[test]
fn borrowed_and_owned_text_are_one_stub() {
    let mut collection = StubCollection::new();
    let borrowed = Stub::Other(Cow::Borrowed("x"));
    let owned = Stub::Other(Cow::Owned(String::from("x")));
    assert_eq!(collection.encounter(&borrowed), Some(String::from("x")));
    assert_eq!(collection.encounter(&owned), None);
    assert_eq!(collection.iter().len(), 1);
}

#[test]
fn stubs_that_differ_in_specifics_are_both_reported() {
    let mut collection = StubCollection::new();
    let plain = Stub::Avm1Method { class: "Foo", method: "bar", specifics: None };
    let specific = Stub::Avm1Method { class: "Foo", method: "bar", specifics: Some("x") };
    assert_eq!(collection.encounter(&plain), Some(String::from("AVM1 Foo.bar()")));
    assert_eq!(collection.encounter(&specific), Some(String::from("AVM1 Foo.bar() x")));
    assert_eq!(collection.encounter(&plain), None);
    assert_eq!(collection.encounter(&specific), None);
    let mut seen: Vec<Stub> = collection.iter().into_iter().cloned().collect();
    seen.sort();
    assert_eq!(seen, vec![plain, specific]);
}

#[test]
fn stubs_with_one_description_are_both_reported() {
    let mut collection = StubCollection::new();
    let structured = Stub::Avm2Constructor { class: "Foo" };
    let free_form = Stub::Other("AVM2 Foo constructor".into());
    assert_eq!(collection.encounter(&structured), Some(String::from("AVM2 Foo constructor")));
    assert_eq!(collection.encounter(&free_form), Some(String::from("AVM2 Foo constructor")));
    assert_eq!(collection.iter().len(), 2);
}

#[test]
fn interleaved_encounters_report_each_stub_once() {
    let mut collection = StubCollection::new();
    let stubs = vec![
        Stub::Other("a".into()),
        Stub::Avm2Constructor { class: "B" },
        Stub::Other("a".into()),
        Stub::Avm2Setter { class: "C".into(), property: "d".into() },
        Stub::Avm2Constructor { class: "B" },
        Stub::Other("a".into()),
    ];
    let mut log: Vec<String> = Vec::new();
    for stub in stubs.iter() {
        if let Some(line) = collection.encounter(stub) {
            log.push(line);
        }
    }
    assert_eq!(
        log,
        vec![String::from("a"), String::from("AVM2 B constructor"), String::from("AVM2 C.d setter")]
    );
    let mut seen: Vec<String> = collection.iter().iter().map(|stub| stub.to_string()).collect();
    seen.sort();
    log.sort();
    assert_eq!(seen, log);
}

#[test]
fn listing_does_not_change_the_collection() {
    let mut collection = StubCollection::new();
    collection.encounter(&Stub::Other("a".into()));
    collection.encounter(&Stub::Other("b".into()));
    let first: Vec<Stub> = collection.iter().into_iter().cloned().collect();
    let second: Vec<Stub> = collection.iter().into_iter().cloned().collect();
    assert_eq!(first, second);
    assert_eq!(first.len(), 2);
    assert_eq!(collection.encounter(&Stub::Other("a".into())), None);
}

#[test]
fn collections_do_not_share_what_they_have_seen() {
    let mut one = StubCollection::new();
    let mut other = StubCollection::new();
    let stub = Stub::Other("x".into());
    assert_eq!(one.encounter(&stub), Some(String::from("x")));
    assert_eq!(other.encounter(&stub), Some(String::from("x")));
    assert_eq!(one.iter().len(), 1);
    assert_eq!(other.iter().len(), 1);
}

#[test]
fn many_stubs_are_each_held_once() {
    let mut collection = StubCollection::new();
    for round in 0..3 {
        for i in 0..500 {
            let stub = Stub::Other(Cow::Owned(format!("stub {i}")));
            assert_eq!(collection.encounter(&stub).is_some(), round == 0);
        }
    }
    let mut seen: Vec<String> = collection.iter().iter().map(|stub| stub.to_string()).collect();
    assert_eq!(seen.len(), 500);
    seen.sort();
    seen.dedup();
    assert_eq!(seen.len(), 500);
}
