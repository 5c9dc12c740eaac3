use rarity_cache::config::{Config, EntityType};

#[test]
fn test_event_type_const_values() {
    assert_eq!(1 << 0, EntityType::ATTACHMENT().bits());
    assert_eq!(1 << 1, EntityType::CHANNEL_CATEGORY().bits());
    assert_eq!(1 << 2, EntityType::CHANNEL_GROUP().bits());
    assert_eq!(1 << 3, EntityType::CHANNEL_PRIVATE().bits());
    assert_eq!(1 << 4, EntityType::CHANNEL_TEXT().bits());
    assert_eq!(1 << 5, EntityType::CHANNEL_VOICE().bits());
    assert_eq!(1 << 6, EntityType::EMOJI().bits());
    assert_eq!(1 << 7, EntityType::GUILD().bits());
    assert_eq!(1 << 8, EntityType::MEMBER().bits());
    assert_eq!(1 << 9, EntityType::MESSAGE().bits());
    assert_eq!(1 << 10, EntityType::PRESENCE().bits());
    assert_eq!(1 << 11, EntityType::ROLE().bits());
    assert_eq!(1 << 12, EntityType::USER().bits());
    assert_eq!(1 << 13, EntityType::USER_CURRENT().bits());
    assert_eq!(1 << 14, EntityType::VOICE_STATE().bits());
}

#[test]
fn test_defaults() {
    let mut conf = Config::default();
    *conf.entity_types_mut() = EntityType::all();
    *conf.message_cache_size_mut() = 100;
    let default = Config::default();
    assert_eq!(conf.entity_types(), default.entity_types());
    assert_eq!(conf.message_cache_size(), default.message_cache_size());
}

#[test]
fn test_config_fields() {
    // the two fields of the configuration, each through its accessors
    let mut conf = Config::default();
    *conf.entity_types_mut() = EntityType::GUILD();
    *conf.message_cache_size_mut() = 3;
    assert_eq!((conf.entity_types(), conf.message_cache_size()), (EntityType::GUILD(), 3));
}

#[test]
fn flags_are_distinct_bits_of_all() {
    let flags = vec![
        EntityType::ATTACHMENT(),
        EntityType::CHANNEL_CATEGORY(),
        EntityType::CHANNEL_GROUP(),
        EntityType::CHANNEL_PRIVATE(),
        EntityType::CHANNEL_TEXT(),
        EntityType::CHANNEL_VOICE(),
        EntityType::EMOJI(),
        EntityType::GUILD(),
        EntityType::MEMBER(),
        EntityType::MESSAGE(),
        EntityType::PRESENCE(),
        EntityType::ROLE(),
        EntityType::USER(),
        EntityType::USER_CURRENT(),
        EntityType::VOICE_STATE(),
    ];
    let mut united = EntityType::empty();
    for (i, flag) in flags.iter().enumerate() {
        assert_eq!(flag.bits(), 1u64 << i);
        assert!(EntityType::all().contains(*flag));
        assert!(!united.contains(*flag));
        united = united.union(*flag);
        assert!(united.contains(*flag));
    }
    assert_eq!(united, EntityType::all());
    assert_eq!(EntityType::all().bits(), 0x7fff);
}

#[test]
fn flag_sets() {
    let none = EntityType::empty();
    assert!(none.is_empty());
    assert_eq!(none.bits(), 0);
    assert!(!EntityType::all().is_empty());
    // every set contains the empty set
    assert!(none.contains(none));
    assert!(EntityType::ROLE().contains(none));
    assert!(!none.contains(EntityType::ROLE()));

    let two = EntityType::MESSAGE().union(EntityType::USER());
    assert_eq!(two.bits(), 0x1200);
    assert!(two.contains(EntityType::MESSAGE()));
    assert!(two.contains(EntityType::USER()));
    assert!(two.contains(two));
    assert!(!two.contains(EntityType::ROLE()));
    assert!(!two.contains(EntityType::MESSAGE().union(EntityType::ROLE())));
    assert!(!EntityType::MESSAGE().contains(two));

    let rest = EntityType::all().difference(two);
    assert_eq!(rest.bits(), 0x7fff & !0x1200);
    assert!(!rest.contains(EntityType::MESSAGE()));
    assert!(rest.contains(EntityType::ROLE()));
    assert_eq!(two.difference(EntityType::ROLE()), two);
    assert_eq!(two.difference(two), none);
    assert_eq!(rest.union(two), EntityType::all());
}

#[test]
fn config_defaults_to_all_types_and_one_hundred_messages() {
    let conf = Config::default();
    assert_eq!(conf.entity_types(), EntityType::all());
    assert_eq!(conf.message_cache_size(), 100);
    let copy = conf;
    assert_eq!(copy.entity_types().bits(), conf.entity_types().bits());
}
