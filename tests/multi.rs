use device_identity::{MultiDto, MultiError, MultiReader};

#[test]
fn multi_can_retrieve_field_from_single() {
    let val = MultiDto::Single("value");

    assert_eq!(*val.try_get(None, "c8y").unwrap(), "value");
}

#[test]
fn multi_can_retrieve_field_from_multi() {
    let val = MultiDto::Multi(vec![("key".to_owned(), "value")]);

    assert_eq!(*val.try_get(Some("key"), "c8y").unwrap(), "value");
}

#[test]
fn multi_gives_appropriate_error_retrieving_keyed_field_from_single() {
    let val = MultiDto::Single("value");

    assert_eq!(
        val.try_get(Some("unknown"), "c8y").unwrap_err().to_string(),
        "You are trying to access a named field, but the fields are not named"
    );
}

#[test]
fn multi_without_key_is_an_error() {
    let val = MultiDto::Multi(vec![("key".to_owned(), 1u32)]);
    let err = val.try_get(None, "c8y").unwrap_err();
    assert_eq!(err, MultiError::MultiNotSingle("c8y".to_owned()));
    assert_eq!(err.to_string(), "You need a name for the field c8y");
}

#[test]
fn multi_missing_key_is_an_error() {
    let val = MultiDto::Multi(vec![("key".to_owned(), 1u32)]);
    let err = val.try_get(Some("other"), "c8y").unwrap_err();
    assert_eq!(
        err,
        MultiError::MultiKeyNotFound("c8y".to_owned(), "other".to_owned())
    );
    assert_eq!(
        err.to_string(),
        "Key c8y.other not found in multi-value group"
    );
}

#[test]
fn try_get_mut_adds_a_missing_key_with_the_default() {
    let mut val = MultiDto::Multi(vec![("a".to_owned(), 1u32)]);
    *val.try_get_mut(Some("b"), "c8y").unwrap() += 5;
    *val.try_get_mut(Some("a"), "c8y").unwrap() += 1;
    assert_eq!(
        val,
        MultiDto::Multi(vec![("a".to_owned(), 2u32), ("b".to_owned(), 5u32)])
    );
}

#[test]
fn try_get_mut_on_single() {
    let mut val = MultiDto::Single(3u32);
    *val.try_get_mut(None, "c8y").unwrap() = 7;
    assert_eq!(val, MultiDto::Single(7));
    assert!(matches!(
        val.try_get_mut(Some("x"), "c8y"),
        Err(MultiError::SingleNotMulti(_, _))
    ));
    let mut multi = MultiDto::Multi(vec![("a".to_owned(), 1u32)]);
    assert!(matches!(
        multi.try_get_mut(None, "c8y"),
        Err(MultiError::MultiNotSingle(_))
    ));
}

#[test]
fn is_default_only_for_single_default() {
    assert!(MultiDto::Single(0u32).is_default());
    assert!(!MultiDto::Single(1u32).is_default());
    assert!(!MultiDto::<u32>::Multi(vec![]).is_default());
    assert!(MultiDto::<u32>::default().is_default());
}

#[test]
fn keys_of_single_and_multi() {
    assert_eq!(MultiDto::Single(1u32).keys(), vec![None]);
    let m = MultiDto::Multi(vec![("x".to_owned(), 1u32), ("y".to_owned(), 2u32)]);
    assert_eq!(m.keys(), vec![Some("x"), Some("y")]);
}

#[test]
fn map_keys_keeps_the_shape() {
    let m = MultiDto::Multi(vec![("x".to_owned(), 1u32), ("y".to_owned(), 2u32)]);
    let r = m.map_keys(|k| k.map(|s| s.len()).unwrap_or(0), "c8y");
    assert_eq!(
        r,
        MultiReader::Multi {
            map: vec![("x".to_owned(), 1usize), ("y".to_owned(), 1usize)],
            parent: "c8y",
        }
    );
    assert_eq!(*r.try_get(Some("y")).unwrap(), 1);
    assert_eq!(r.keys(), vec![Some("x"), Some("y")]);
    let s = MultiDto::Single(1u32).map_keys(|k| k.is_none(), "c8y");
    assert_eq!(
        s,
        MultiReader::Single {
            value: true,
            parent: "c8y"
        }
    );
    assert_eq!(
        s.try_get(Some("k")).unwrap_err(),
        MultiError::SingleNotMulti("c8y".to_owned(), "k".to_owned())
    );
}

#[test]
fn reader_errors_name_the_parent() {
    let r = MultiReader::Multi {
        map: vec![("a".to_owned(), 1u32)],
        parent: "mqtt",
    };
    assert_eq!(
        r.try_get(None).unwrap_err(),
        MultiError::MultiNotSingle("mqtt".to_owned())
    );
    assert_eq!(
        r.try_get(Some("b")).unwrap_err(),
        MultiError::MultiKeyNotFound("mqtt".to_owned(), "b".to_owned())
    );
}
