use porkg::expand;
use porkg::ExpandError;
use porkg::ExpandErrorKind;
use porkg::VarMap;

fn context() -> VarMap {
    let mut ctx = VarMap::new();
    ctx.set(b"FOO".to_vec(), b"foo".to_vec());
    ctx.set(b"BAR".to_vec(), b"bar".to_vec());
    ctx
}

#[test]
fn test_expand() {
    let context = context();

    assert_eq!(expand(b"hello", &context), Ok(b"hello".to_vec()));
    assert_eq!(expand(b"hello $FOO", &context), Ok(b"hello $FOO".to_vec()));
    assert_eq!(expand(b"hello ${FOO}", &context), Ok(b"hello foo".to_vec()));
    assert_eq!(
        expand(b"he\\\\ll\\\\o\\n \\${FOO} ${FOO}", &context),
        Ok(b"he\\ll\\o\n ${FOO} foo".to_vec())
    );
    assert_eq!(
        expand(b"hello \\f", &context),
        Err(ExpandError::new(6, ExpandErrorKind::InvalidEscapeSequence))
    );
    assert_eq!(
        expand(b"hello ${BAZ}", &context),
        Err(ExpandError::new(
            8,
            ExpandErrorKind::UnknownVariable {
                name: b"BAZ".to_vec(),
            },
        ))
    );

    assert_eq!(
        expand(b"hello ${BAZ", &context),
        Err(ExpandError::new(8, ExpandErrorKind::IncompleteExpansion))
    );
}

#[test]
fn expand_empty_input() {
    let context = context();
    assert_eq!(expand(b"", &context), Ok(b"".to_vec()));
}

#[test]
fn expand_second_variable() {
    let context = context();
    assert_eq!(
        expand(b"${FOO}-${BAR}", &context),
        Ok(b"foo-bar".to_vec())
    );
}

#[test]
fn expand_trailing_backslash() {
    let context = context();
    assert_eq!(
        expand(b"oops\\", &context),
        Err(ExpandError::new(4, ExpandErrorKind::InvalidEscapeSequence))
    );
}

#[test]
fn expand_dollar_at_end() {
    let context = context();
    assert_eq!(expand(b"cost: 5$", &context), Ok(b"cost: 5$".to_vec()));
}

#[test]
fn expand_escapes_tab_and_return() {
    let context = context();
    assert_eq!(expand(b"a\\tb\\rc", &context), Ok(b"a\tb\rc".to_vec()));
}

#[test]
fn expand_error_accessors() {
    let e = ExpandError::new(7, ExpandErrorKind::IncompleteExpansion);
    assert_eq!(e.offset(), 7);
    assert_eq!(*e.kind(), ExpandErrorKind::IncompleteExpansion);
}

#[test]
fn var_map_first_binding_wins_after_set() {
    let mut ctx = VarMap::new();
    ctx.set(b"X".to_vec(), b"one".to_vec());
    ctx.set(b"X".to_vec(), b"two".to_vec());
    assert_eq!(ctx.get(b"X").map(|v| v.clone()), Some(b"two".to_vec()));
    assert_eq!(ctx.get(b"Y"), None);
}
