use safe_nd::{Error, PrivateSequence, PublicSequence, Version, XorName};

#[test]
fn append_public_data() {
    let mut data = PublicSequence::new(XorName([1; 32]), 10000);
    data.append(vec![b"hello".to_vec(), b"world".to_vec()], Some(0)).unwrap();
}

#[test]
fn append_private_data() {
    let mut data = PrivateSequence::new(XorName(rand::random()), 10);

    // Assert that the values are appended.
    let values1 = vec![
        b"VALUE0".to_vec(),
        b"VALUE1".to_vec(),
        b"VALUE2".to_vec(),
        b"VALUE3".to_vec(),
    ];
    data.append(values1, Some(0)).unwrap();
}

#[test]
fn in_range() {
    let mut data = PublicSequence::new(XorName(rand::random()), 10);
    let values = vec![
        b"value0".to_vec(),
        b"value1".to_vec(),
        b"value2".to_vec(),
        b"value3".to_vec(),
    ];
    data.append(values, Some(0)).unwrap();

    assert_eq!(
        data.in_range(Version::FromStart(0), Version::FromStart(0)),
        Some(vec![b"value0".to_vec()])
    );
    assert_eq!(
        data.in_range(Version::FromStart(0), Version::FromStart(2)),
        Some(vec![
            b"value0".to_vec(),
            b"value1".to_vec(),
            b"value2".to_vec(),
        ])
    );
    assert_eq!(
        data.in_range(Version::FromStart(0), Version::FromStart(3)),
        Some(vec![
            b"value0".to_vec(),
            b"value1".to_vec(),
            b"value2".to_vec(),
            b"value3".to_vec(),
        ])
    );

    assert_eq!(
        data.in_range(Version::FromEnd(3), Version::FromEnd(2)),
        Some(vec![b"value0".to_vec(), b"value1".to_vec(),])
    );
    assert_eq!(
        data.in_range(Version::FromEnd(3), Version::FromEnd(0)),
        Some(vec![
            b"value0".to_vec(),
            b"value1".to_vec(),
            b"value2".to_vec(),
            b"value3".to_vec(),
        ])
    );

    assert_eq!(
        data.in_range(Version::FromStart(0), Version::FromEnd(0)),
        Some(vec![
            b"value0".to_vec(),
            b"value1".to_vec(),
            b"value2".to_vec(),
            b"value3".to_vec(),
        ])
    );

    // start > end
    assert_eq!(
        data.in_range(Version::FromStart(1), Version::FromStart(0)),
        None
    );
    assert_eq!(
        data.in_range(Version::FromEnd(1), Version::FromEnd(2)),
        None
    );

    // overflow
    assert_eq!(
        data.in_range(Version::FromStart(0), Version::FromStart(5)),
        None
    );
    assert_eq!(
        data.in_range(Version::FromEnd(5), Version::FromEnd(0)),
        None
    );
}

#[test]
fn scenario_append_then_query() {
    let mut data = PublicSequence::new(XorName([3; 32]), 0);
    assert_eq!(data.len(), 0);

    data.append(
        vec![b"a".to_vec(), b"b".to_vec(), b"c".to_vec(), b"d".to_vec()],
        Some(0),
    )
    .unwrap();
    assert_eq!(data.len(), 4);

    assert_eq!(
        data.in_range(Version::FromStart(0), Version::FromStart(2)),
        Some(vec![b"a".to_vec(), b"b".to_vec(), b"c".to_vec()])
    );
    assert_eq!(
        data.in_range(Version::FromEnd(3), Version::FromEnd(2)),
        Some(vec![b"a".to_vec(), b"b".to_vec()])
    );
    assert_eq!(
        data.in_range(Version::FromStart(1), Version::FromStart(0)),
        None
    );
    assert_eq!(
        data.in_range(Version::FromStart(0), Version::FromStart(5)),
        None
    );
}

#[test]
fn first_and_last_entry() {
    let mut data = PublicSequence::new(XorName([4; 32]), 1);
    data.append(vec![b"first".to_vec()], Some(0)).unwrap();
    // On a log of length 1 the first and the last entry coincide.
    assert_eq!(
        data.in_range(Version::FromStart(0), Version::FromStart(0)),
        Some(vec![b"first".to_vec()])
    );
    data.append(vec![b"middle".to_vec(), b"last".to_vec()], Some(1)).unwrap();
    assert_eq!(
        data.in_range(Version::FromStart(0), Version::FromStart(0)),
        Some(vec![b"first".to_vec()])
    );
    assert_eq!(
        data.in_range(Version::FromEnd(0), Version::FromEnd(0)),
        Some(vec![b"last".to_vec()])
    );
}

#[test]
fn append_version_mismatch() {
    let mut data = PublicSequence::new(XorName([5; 32]), 2);
    data.append(vec![b"x".to_vec(), b"y".to_vec()], Some(0)).unwrap();

    // A stale guard leaves the log unchanged and reports the current length.
    assert_eq!(
        data.append(vec![b"z".to_vec()], Some(1)),
        Err(Error::VersionMismatch(2))
    );
    assert_eq!(data.len(), 2);
    assert_eq!(
        data.in_range(Version::FromStart(0), Version::FromEnd(0)),
        Some(vec![b"x".to_vec(), b"y".to_vec()])
    );

    // An unconditional append is accepted against any length.
    data.append(vec![b"z".to_vec()], None).unwrap();
    assert_eq!(data.len(), 3);
    assert_eq!(
        data.in_range(Version::FromEnd(0), Version::FromEnd(0)),
        Some(vec![b"z".to_vec()])
    );
}

#[test]
fn append_empty_batch() {
    let mut data = PublicSequence::new(XorName([6; 32]), 3);
    data.append(Vec::new(), Some(0)).unwrap();
    assert_eq!(data.len(), 0);
    assert_eq!(data.append(Vec::new(), Some(7)), Err(Error::VersionMismatch(0)));
    assert_eq!(data.len(), 0);
}

#[test]
fn empty_sequence_is_unresolvable() {
    let data = PrivateSequence::new(XorName([7; 32]), 4);
    assert_eq!(data.in_range(Version::FromStart(0), Version::FromStart(0)), None);
    assert_eq!(data.in_range(Version::FromEnd(0), Version::FromEnd(0)), None);
    assert_eq!(data.address(), XorName([7; 32]));
    assert_eq!(data.tag(), 4);
}
