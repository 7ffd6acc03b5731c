use xplora_quests::{LocationQuests, Quest, QuestRegistry, QuestSubmission, UserProfile};

#[test]
fn reserved_sizes_are_the_sums_of_their_fields() {
    assert_eq!(QuestRegistry::LEN, 56);
    assert_eq!(Quest::max_size(), 304);
    assert_eq!(LocationQuests::space(), 8 + 68 + 4 + 10 * 304 + 1 + 8 + 8 + 6);
    assert_eq!(LocationQuests::space(), 3143);
    assert_eq!(QuestSubmission::space(), 442);
    assert_eq!(UserProfile::space(), 152);
}
