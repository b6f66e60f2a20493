use game_core::ids::{
    encode_entity_id, encode_score, parse_entity_id, parse_score, EntityId, ParseEntityIdError, WireScore,
    WireUuid,
};
use uuid::Uuid;

#[test]
fn test_uuid_enc() {
    let t = Uuid::new_v4();
    assert_eq!(parse_entity_id(&encode_entity_id(EntityId(t.as_u128()))), EntityId(t.as_u128()));
}

#[test]
fn entity_id_halves() {
    let id = EntityId(0x0123_4567_89ab_cdef_fedc_ba98_7654_3210);
    let w = encode_entity_id(id);
    assert_eq!(w, WireUuid { lower: 0xfedc_ba98_7654_3210, upper: 0x0123_4567_89ab_cdef });
    assert_eq!(parse_entity_id(&w), id);
    let w2 = WireUuid { lower: 5, upper: 7 };
    assert_eq!(encode_entity_id(parse_entity_id(&w2)), w2);
    assert_eq!(parse_entity_id(&w2).0, (7u128 << 64) + 5);
}

#[test]
fn score_halves() {
    assert_eq!(encode_score(0), WireScore { lower: 0, upper: 0 });
    assert_eq!(encode_score(u128::MAX), WireScore { lower: u64::MAX, upper: u64::MAX });
    assert_eq!(encode_score(1u128 << 64), WireScore { lower: 0, upper: 1 });
    for s in [0u128, 1, 42, u64::MAX as u128, (u64::MAX as u128) + 1, u128::MAX] {
        assert_eq!(parse_score(&encode_score(s)), s);
    }
    let w = WireScore { lower: 9, upper: 3 };
    assert_eq!(encode_score(parse_score(&w)), w);
}

#[test]
fn new_entity_ids_are_random_v4_uuids() {
    let a = EntityId::new();
    let b = EntityId::new();
    assert_ne!(a, b);
    for id in [a, b] {
        assert_eq!((id.0 >> 76) & 0xf, 4);
        assert_eq!((id.0 >> 62) & 0x3, 2);
        assert_eq!(Uuid::from_u128(id.0).get_version_num(), 4);
    }
}

#[test]
fn entity_ids_parse_from_text() {
    let id = EntityId::parse("936da01f-9abd-4d9d-80c7-02af85c822a8").unwrap();
    assert_eq!(id.0, 0x936da01f_9abd_4d9d_80c7_02af85c822a8);
    let simple = EntityId::parse("936da01f9abd4d9d80c702af85c822a8").unwrap();
    assert_eq!(simple, id);
    let via_trait: EntityId = "936DA01F-9ABD-4D9D-80C7-02AF85C822A8".parse().unwrap();
    assert_eq!(via_trait, id);
    let urn = EntityId::parse("urn:uuid:936da01f-9abd-4d9d-80c7-02af85c822a8").unwrap();
    assert_eq!(urn, id);
    assert!(EntityId::parse("URN:UUID:936da01f-9abd-4d9d-80c7-02af85c822a8").is_err());
    assert!(EntityId::parse("936da01f-9abd4-d9d-80c7-02af85c822a8").is_err());
    assert!(EntityId::parse("936da01f9abd4d9d80c702af85c822a").is_err());
    assert!(EntityId::parse("936da01f9abd4d9d80c702af85c822ag").is_err());
    assert_eq!(
        EntityId::parse("not a uuid"),
        Err(ParseEntityIdError::InvalidUuid(Uuid::parse_str("not a uuid").unwrap_err()))
    );
    assert_eq!(EntityId::parse(""), Err(ParseEntityIdError::InvalidUuid(Uuid::parse_str("").unwrap_err())));
}

#[test]
fn entity_id_from_str_gives_the_uuid_error() {
    let refused: Result<EntityId, uuid::Error> = "bad".parse::<EntityId>();
    assert_eq!(refused, Err(Uuid::parse_str("bad").unwrap_err()));
    let parsed: Result<EntityId, uuid::Error> = "936da01f9abd4d9d80c702af85c822a8".parse::<EntityId>();
    assert_eq!(parsed, Ok(EntityId(0x936da01f_9abd_4d9d_80c7_02af85c822a8)));
}

#[test]
fn entity_id_from_parsed_value() {
    assert_eq!(EntityId::from_uuid_value(Ok(17)), Ok(EntityId(17)));
    let e = Uuid::parse_str("zz").unwrap_err();
    assert_eq!(EntityId::from_uuid_value(Err(e.clone())), Err(ParseEntityIdError::InvalidUuid(e)));
    assert_eq!(EntityId::default(), EntityId(0));
}
