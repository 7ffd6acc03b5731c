use xplora_quests::instructions::add_quest::add_quest_to_location;
use xplora_quests::instructions::create_location::{
    create_location_quests, create_location_quests_at,
};
use xplora_quests::instructions::delete_quest::delete_quest;
use xplora_quests::instructions::update_quest::update_quest;
use xplora_quests::utils::derive_location_quests_pda;
use xplora_quests::{
    Difficulty, Identity, LocationQuests, Quest, QuestRegistry, QuestType, XploraError,
};

fn authority() -> Identity {
    Identity::new([1; 32])
}

fn stranger() -> Identity {
    Identity::new([66; 32])
}

fn slot_address() -> Identity {
    Identity::new([42; 32])
}

fn derived() -> Option<(Identity, u8)> {
    Some((slot_address(), 254))
}

fn registry() -> QuestRegistry {
    QuestRegistry { authority: authority(), total_locations: 3, version: 1 }
}

fn quest(title: &str) -> Quest {
    Quest {
        title: title.to_string(),
        description: "Reach the temple before noon".to_string(),
        quest_type: QuestType::Exploration,
        difficulty: Difficulty::Easy,
        time_to_live_hours: 48,
        verifiable_landmark: "The golden roof".to_string(),
        landmark_name: "Pashupatinath".to_string(),
        latitude: 27.7104f64.to_bits(),
        longitude: 85.3487f64.to_bits(),
        created_at: 5,
    }
}

fn quests(count: usize) -> Vec<Quest> {
    let mut list = Vec::new();
    for i in 0..count {
        list.push(quest(&format!("quest {}", i)));
    }
    list
}

fn catalog(count: usize) -> LocationQuests {
    LocationQuests {
        location: "kathmandu".to_string(),
        quests: quests(count),
        initialized: true,
        created_at: 100,
        updated_at: 100,
    }
}

fn titles(catalog: &LocationQuests) -> Vec<String> {
    catalog.quests.iter().map(|q| q.title.clone()).collect()
}

#[test]
fn create_stores_the_catalog_and_counts_the_location() {
    let mut reg = registry();
    let mut slot = None;
    let result = create_location_quests_at(
        &mut reg,
        &mut slot,
        &authority(),
        derived(),
        &slot_address(),
        "kathmandu".to_string(),
        quests(2),
        1_000,
    );
    assert_eq!(result, Ok(()));
    assert_eq!(reg, QuestRegistry { authority: authority(), total_locations: 4, version: 1 });
    assert_eq!(
        slot,
        Some(LocationQuests {
            location: "kathmandu".to_string(),
            quests: quests(2),
            initialized: true,
            created_at: 1_000,
            updated_at: 1_000,
        })
    );
}

#[test]
fn create_rejects_an_empty_list() {
    let mut reg = registry();
    let mut slot = None;
    let result = create_location_quests_at(
        &mut reg,
        &mut slot,
        &authority(),
        derived(),
        &slot_address(),
        "kathmandu".to_string(),
        Vec::new(),
        1_000,
    );
    assert_eq!(result, Err(XploraError::EmptyQuestsArray));
    assert_eq!(reg, registry());
    assert_eq!(slot, None);
}

#[test]
fn create_accepts_ten_quests_and_rejects_eleven() {
    let mut reg = registry();
    let mut slot = None;
    let result = create_location_quests_at(
        &mut reg,
        &mut slot,
        &authority(),
        derived(),
        &slot_address(),
        "kathmandu".to_string(),
        quests(11),
        1_000,
    );
    assert_eq!(result, Err(XploraError::TooManyQuests));
    assert_eq!(reg, registry());
    assert_eq!(slot, None);

    let result = create_location_quests_at(
        &mut reg,
        &mut slot,
        &authority(),
        derived(),
        &slot_address(),
        "kathmandu".to_string(),
        quests(10),
        1_000,
    );
    assert_eq!(result, Ok(()));
    assert_eq!(slot.unwrap().quests.len(), 10);
    assert_eq!(reg.total_locations, 4);
}

#[test]
fn create_is_reserved_for_the_authority() {
    let mut reg = registry();
    let mut slot = None;
    let result = create_location_quests_at(
        &mut reg,
        &mut slot,
        &stranger(),
        derived(),
        &slot_address(),
        String::new(),
        Vec::new(),
        1_000,
    );
    assert_eq!(result, Err(XploraError::Unauthorized));
    assert_eq!(reg, registry());
    assert_eq!(slot, None);
}

#[test]
fn create_rejects_a_location_out_of_bounds() {
    let mut reg = registry();
    let mut slot = None;
    let result = create_location_quests_at(
        &mut reg,
        &mut slot,
        &authority(),
        derived(),
        &slot_address(),
        String::new(),
        Vec::new(),
        1_000,
    );
    assert_eq!(result, Err(XploraError::InvalidLocation));
    let result = create_location_quests_at(
        &mut reg,
        &mut slot,
        &authority(),
        derived(),
        &slot_address(),
        "k".repeat(65),
        quests(1),
        1_000,
    );
    assert_eq!(result, Err(XploraError::InvalidLocation));
    assert_eq!(reg, registry());
    assert_eq!(slot, None);
}

#[test]
fn create_reports_the_first_quest_that_is_not_valid() {
    let mut list = quests(4);
    list[1].time_to_live_hours = 0;
    list[2].title = String::new();
    let mut reg = registry();
    let mut slot = None;
    let result = create_location_quests_at(
        &mut reg,
        &mut slot,
        &authority(),
        derived(),
        &slot_address(),
        "kathmandu".to_string(),
        list,
        1_000,
    );
    assert_eq!(result, Err(XploraError::InvalidDifficulty));
    assert_eq!(reg, registry());
    assert_eq!(slot, None);
}

#[test]
fn create_needs_the_slot_derived_for_the_location() {
    let mut reg = registry();
    let mut slot = None;
    let result = create_location_quests_at(
        &mut reg,
        &mut slot,
        &authority(),
        derived(),
        &stranger(),
        "kathmandu".to_string(),
        quests(1),
        1_000,
    );
    assert_eq!(result, Err(XploraError::InvalidLocationPDA));
    let result = create_location_quests_at(
        &mut reg,
        &mut slot,
        &authority(),
        None,
        &slot_address(),
        "kathmandu".to_string(),
        quests(1),
        1_000,
    );
    assert_eq!(result, Err(XploraError::InvalidLocationPDA));
    assert_eq!(reg, registry());
    assert_eq!(slot, None);
}

#[test]
fn create_happens_once_per_location() {
    let mut reg = registry();
    let mut slot = Some(catalog(1));
    let result = create_location_quests_at(
        &mut reg,
        &mut slot,
        &authority(),
        derived(),
        &slot_address(),
        "kathmandu".to_string(),
        quests(2),
        1_000,
    );
    assert_eq!(result, Err(XploraError::LocationAlreadyExists));
    assert_eq!(reg, registry());
    assert_eq!(slot, Some(catalog(1)));
}

#[test]
fn create_fails_when_the_registry_cannot_count_higher() {
    let mut reg = registry();
    reg.total_locations = u64::MAX;
    let before = reg;
    let mut slot = None;
    let result = create_location_quests_at(
        &mut reg,
        &mut slot,
        &authority(),
        derived(),
        &slot_address(),
        "kathmandu".to_string(),
        quests(2),
        1_000,
    );
    assert_eq!(result, Err(XploraError::Overflow));
    assert_eq!(reg, before);
    assert_eq!(slot, None);
}

#[test]
fn create_derives_the_address_of_the_slot() {
    let program = Identity::new([7; 32]);
    let (address, _bump) = derive_location_quests_pda(&program, "kathmandu").unwrap();

    let mut reg = registry();
    let mut slot = None;
    let result = create_location_quests(
        &mut reg,
        &mut slot,
        &authority(),
        &program,
        &program,
        "kathmandu".to_string(),
        quests(1),
        1_000,
    );
    assert_eq!(result, Err(XploraError::InvalidLocationPDA));
    assert_eq!(slot, None);

    let (elsewhere, _bump) = derive_location_quests_pda(&program, "pokhara").unwrap();
    let result = create_location_quests(
        &mut reg,
        &mut slot,
        &authority(),
        &program,
        &elsewhere,
        "kathmandu".to_string(),
        quests(1),
        1_000,
    );
    assert_eq!(result, Err(XploraError::InvalidLocationPDA));
    assert_eq!(slot, None);
    assert_eq!(reg, registry());

    let result = create_location_quests(
        &mut reg,
        &mut slot,
        &authority(),
        &program,
        &address,
        "kathmandu".to_string(),
        quests(1),
        1_000,
    );
    assert_eq!(result, Ok(()));
    assert_eq!(slot.unwrap().location, "kathmandu");
    assert_eq!(reg.total_locations, 4);
}

#[test]
fn create_cannot_derive_a_slot_for_a_location_over_32_bytes() {
    let program = Identity::new([7; 32]);
    let location = "k".repeat(33);
    assert_eq!(derive_location_quests_pda(&program, &location), None);
    let mut reg = registry();
    let mut slot = None;
    let result = create_location_quests(
        &mut reg,
        &mut slot,
        &authority(),
        &program,
        &slot_address(),
        location,
        quests(1),
        1_000,
    );
    assert_eq!(result, Err(XploraError::InvalidLocationPDA));
    assert_eq!(reg, registry());
    assert_eq!(slot, None);
}

#[test]
fn add_appends_the_quest_with_the_time_of_the_addition() {
    let mut cat = catalog(2);
    let result = add_quest_to_location(&registry(), &mut cat, &authority(), quest("new"), 2_000);
    assert_eq!(result, Ok(()));
    let mut expected = catalog(2);
    let mut added = quest("new");
    added.created_at = 2_000;
    expected.quests.push(added);
    expected.updated_at = 2_000;
    assert_eq!(cat, expected);
}

#[test]
fn eleventh_quest_is_refused_until_one_is_deleted() {
    let mut cat = catalog(0);
    for i in 0..10 {
        let result = add_quest_to_location(
            &registry(),
            &mut cat,
            &authority(),
            quest(&format!("quest {}", i)),
            2_000 + i,
        );
        assert_eq!(result, Ok(()));
    }
    assert_eq!(cat.quests.len(), 10);
    let full = cat.clone();
    let result = add_quest_to_location(&registry(), &mut cat, &authority(), quest("late"), 3_000);
    assert_eq!(result, Err(XploraError::TooManyQuests));
    assert_eq!(cat, full);

    assert_eq!(delete_quest(&registry(), &mut cat, &authority(), 4, 3_001), Ok(()));
    assert_eq!(cat.quests.len(), 9);
    let result = add_quest_to_location(&registry(), &mut cat, &authority(), quest("late"), 3_002);
    assert_eq!(result, Ok(()));
    assert_eq!(cat.quests.len(), 10);
    assert_eq!(cat.quests[9].title, "late");
    let result = add_quest_to_location(&registry(), &mut cat, &authority(), quest("later"), 3_003);
    assert_eq!(result, Err(XploraError::TooManyQuests));
}

#[test]
fn full_catalog_refuses_even_a_quest_that_is_not_valid_as_too_many() {
    let mut cat = catalog(10);
    let result = add_quest_to_location(&registry(), &mut cat, &authority(), quest(""), 3_000);
    assert_eq!(result, Err(XploraError::TooManyQuests));
}

#[test]
fn add_refuses_strangers_catalogs_not_created_and_quests_out_of_bounds() {
    let mut cat = catalog(2);
    let result = add_quest_to_location(&registry(), &mut cat, &stranger(), quest("new"), 2_000);
    assert_eq!(result, Err(XploraError::Unauthorized));
    assert_eq!(cat, catalog(2));

    cat.initialized = false;
    let before = cat.clone();
    let result = add_quest_to_location(&registry(), &mut cat, &authority(), quest("new"), 2_000);
    assert_eq!(result, Err(XploraError::NotInitialized));
    assert_eq!(cat, before);

    let mut cat = catalog(2);
    let mut bad = quest("new");
    bad.latitude = 0.0f64.to_bits();
    let result = add_quest_to_location(&registry(), &mut cat, &authority(), bad, 2_000);
    assert_eq!(result, Err(XploraError::InvalidLatitude));
    assert_eq!(cat, catalog(2));
}

#[test]
fn update_replaces_in_place_and_keeps_the_creation_time() {
    let mut cat = catalog(3);
    cat.quests[1].created_at = 777;
    let mut replacement = quest("replaced");
    replacement.created_at = 123_456;
    replacement.difficulty = Difficulty::Hard;
    let result = update_quest(&registry(), &mut cat, &authority(), 1, replacement, 2_000);
    assert_eq!(result, Ok(()));

    let mut expected = catalog(3);
    let mut stored = quest("replaced");
    stored.difficulty = Difficulty::Hard;
    stored.created_at = 777;
    expected.quests[1] = stored;
    expected.updated_at = 2_000;
    assert_eq!(cat, expected);
    assert_eq!(cat.created_at, 100);
}

#[test]
fn update_refuses_what_it_cannot_do_and_changes_nothing() {
    let mut cat = catalog(3);
    let result = update_quest(&registry(), &mut cat, &authority(), 3, quest("x"), 2_000);
    assert_eq!(result, Err(XploraError::InvalidQuestIndex));
    let result = update_quest(&registry(), &mut cat, &authority(), 255, quest("x"), 2_000);
    assert_eq!(result, Err(XploraError::InvalidQuestIndex));
    let result = update_quest(&registry(), &mut cat, &stranger(), 0, quest("x"), 2_000);
    assert_eq!(result, Err(XploraError::Unauthorized));
    let result = update_quest(&registry(), &mut cat, &authority(), 0, quest(""), 2_000);
    assert_eq!(result, Err(XploraError::InvalidTitle));
    assert_eq!(cat, catalog(3));

    cat.initialized = false;
    let before = cat.clone();
    let result = update_quest(&registry(), &mut cat, &authority(), 0, quest("x"), 2_000);
    assert_eq!(result, Err(XploraError::NotInitialized));
    assert_eq!(cat, before);
}

#[test]
fn delete_moves_the_later_quests_down_by_one() {
    let mut cat = catalog(5);
    assert_eq!(delete_quest(&registry(), &mut cat, &authority(), 1, 2_000), Ok(()));
    assert_eq!(titles(&cat), vec!["quest 0", "quest 2", "quest 3", "quest 4"]);
    assert_eq!(cat.updated_at, 2_000);
    assert_eq!(cat.created_at, 100);
    let before = catalog(5);
    assert_eq!(cat.quests[0], before.quests[0]);
    for i in 1..4 {
        assert_eq!(cat.quests[i], before.quests[i + 1]);
    }

    assert_eq!(delete_quest(&registry(), &mut cat, &authority(), 3, 2_001), Ok(()));
    assert_eq!(titles(&cat), vec!["quest 0", "quest 2", "quest 3"]);
    assert_eq!(delete_quest(&registry(), &mut cat, &authority(), 0, 2_002), Ok(()));
    assert_eq!(titles(&cat), vec!["quest 2", "quest 3"]);
}

#[test]
fn delete_can_empty_a_catalog() {
    let mut cat = catalog(1);
    assert_eq!(delete_quest(&registry(), &mut cat, &authority(), 0, 2_000), Ok(()));
    assert!(cat.quests.is_empty());
    assert!(cat.initialized);
    let before = cat.clone();
    assert_eq!(
        delete_quest(&registry(), &mut cat, &authority(), 0, 2_001),
        Err(XploraError::InvalidQuestIndex)
    );
    assert_eq!(cat, before);
}

#[test]
fn delete_refuses_what_it_cannot_do_and_changes_nothing() {
    let mut cat = catalog(3);
    assert_eq!(
        delete_quest(&registry(), &mut cat, &authority(), 3, 2_000),
        Err(XploraError::InvalidQuestIndex)
    );
    assert_eq!(
        delete_quest(&registry(), &mut cat, &stranger(), 0, 2_000),
        Err(XploraError::Unauthorized)
    );
    assert_eq!(cat, catalog(3));
    cat.initialized = false;
    let before = cat.clone();
    assert_eq!(
        delete_quest(&registry(), &mut cat, &authority(), 0, 2_000),
        Err(XploraError::NotInitialized)
    );
    assert_eq!(cat, before);
}
