use pdf_content::{
    AttestedObject, AttestedValue, BlendMode, ContentExtGStateError, ContentExtGStateErrorKind,
    ContentExtGStateProfile, ContentExtGStateResource, ObjectRef, SceneUnit, SourceIdentity,
    SourceSnapshot, SourceValidator, SyntaxEntry, SyntaxObject,
};

fn snapshot(validator: u128) -> SourceSnapshot {
    SourceSnapshot::new(
        SourceIdentity { value: 1 },
        Some(100),
        SourceValidator { value: validator },
    )
}

fn entry(key: &[u8], value: SyntaxObject) -> SyntaxEntry {
    SyntaxEntry { key: key.to_vec(), value_start: 40, value }
}

fn object(number: u32, validator: u128, value: AttestedValue) -> AttestedObject {
    AttestedObject {
        reference: ObjectRef::new(number, 0).unwrap(),
        object_start: 20,
        snapshot: snapshot(validator),
        revision_id: 1,
        revision_startxref: 9,
        value,
    }
}

fn dictionary(entries: Vec<SyntaxEntry>) -> AttestedObject {
    object(5, 1, AttestedValue::Dictionary(entries))
}

fn resource(name: &[u8]) -> ContentExtGStateResource {
    ContentExtGStateResource::new(name.to_vec(), dictionary(Vec::new()))
        .unwrap_or_else(|_| panic!("expected a resource"))
}

fn kind<T>(result: Result<T, ContentExtGStateError>) -> ContentExtGStateErrorKind {
    match result {
        Ok(_) => panic!("expected an error"),
        Err(error) => error.kind(),
    }
}

#[test]
fn alphas_and_blend_modes_are_read() {
    let resource = ContentExtGStateResource::new(
        b"GS".to_vec(),
        dictionary(vec![
            entry(b"Type", SyntaxObject::Name(b"ExtGState".to_vec())),
            entry(b"CA", SyntaxObject::Real(b"0.5".to_vec())),
            entry(b"ca", SyntaxObject::Integer(1)),
            entry(b"BM", SyntaxObject::Name(b"Multiply".to_vec())),
        ]),
    )
    .unwrap_or_else(|_| panic!("expected a resource"));
    assert_eq!(resource.name(), b"GS");
    assert_eq!(resource.stroking_alpha(), Some(SceneUnit::from_u16(32_768)));
    assert_eq!(resource.nonstroking_alpha(), Some(SceneUnit::from_u16(65_535)));
    assert_eq!(resource.blend_mode(), Some(BlendMode::Multiply));
}

#[test]
fn absent_entries_leave_parameters_alone() {
    let resource = resource(b"GS");
    assert_eq!(resource.stroking_alpha(), None);
    assert_eq!(resource.nonstroking_alpha(), None);
    assert_eq!(resource.blend_mode(), None);
}

#[test]
fn malformed_and_unsupported_states_are_refused() {
    assert_eq!(
        kind(ContentExtGStateResource::new(Vec::new(), dictionary(Vec::new()))),
        ContentExtGStateErrorKind::InvalidName
    );
    assert_eq!(
        kind(ContentExtGStateResource::new(
            b"GS".to_vec(),
            object(5, 1, AttestedValue::NoDictionary { start: 30 }),
        )),
        ContentExtGStateErrorKind::InvalidDictionary
    );
    let with = |entries| ContentExtGStateResource::new(b"GS".to_vec(), dictionary(entries));
    assert_eq!(
        kind(with(vec![entry(b"SMask", SyntaxObject::Other)])),
        ContentExtGStateErrorKind::UnsupportedEntry
    );
    assert_eq!(
        kind(with(vec![entry(b"CA", SyntaxObject::Integer(2))])),
        ContentExtGStateErrorKind::InvalidValue
    );
    assert_eq!(
        kind(with(vec![
            entry(b"ca", SyntaxObject::Integer(1)),
            entry(b"ca", SyntaxObject::Integer(0)),
        ])),
        ContentExtGStateErrorKind::DuplicateEntry
    );
}

#[test]
fn registries_find_unique_names_of_one_revision() {
    let profile = ContentExtGStateProfile::new(vec![resource(b"A"), resource(b"B")])
        .unwrap_or_else(|_| panic!("expected a registry"));
    assert_eq!(profile.resources().len(), 2);
    assert_eq!(profile.find(b"B").unwrap().name(), b"B");
    assert!(profile.find(b"C").is_none());
    assert_eq!(
        kind(ContentExtGStateProfile::new(vec![resource(b"A"), resource(b"A")])),
        ContentExtGStateErrorKind::DuplicateEntry
    );
    let other = ContentExtGStateResource::new(
        b"B".to_vec(),
        object(6, 2, AttestedValue::Dictionary(Vec::new())),
    )
    .unwrap_or_else(|_| panic!("expected a resource"));
    assert_eq!(
        kind(ContentExtGStateProfile::new(vec![resource(b"A"), other])),
        ContentExtGStateErrorKind::InvalidDictionary
    );
}
