use screeps_colony::text::same_text;

#[test]
fn equal_texts_are_the_same() {
    assert!(same_text("", ""));
    assert!(same_text("harvester", "harvester"));
    assert!(same_text("Nöne ✓", "Nöne ✓"));
    let owned = String::from("fighter");
    assert!(same_text(owned.as_str(), "fighter"));
}

#[test]
fn texts_that_differ_are_not_the_same() {
    assert!(!same_text("", "a"));
    assert!(!same_text("a", ""));
    assert!(!same_text("harvester", "harvesteR"));
    assert!(!same_text("harvester", "harvest"));
    assert!(!same_text("xarvester", "harvester"));
    assert!(!same_text("é", "e"));
    assert!(!same_text("é", "ee"));
    assert!(!same_text("warn", "warm"));
}
