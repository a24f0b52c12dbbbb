use termgfx::slots::{header_slots, priority, status_slots, PrioritySlot, RegionSlots, SlotContent, Slots};

#[test]
fn test_region_slots() {
    let mut region = RegionSlots::new();

    // Set content
    region.set(status_slots::LEFT, "NORMAL");
    assert_eq!(region.get_text(status_slots::LEFT), "NORMAL");

    // Overwrite
    region.set(status_slots::LEFT, "OVERRIDE");
    assert_eq!(region.get_text(status_slots::LEFT), "OVERRIDE");

    // Check has
    assert!(region.has(status_slots::LEFT));
    assert!(!region.has(status_slots::RIGHT));
}

#[test]
fn test_slot_clear() {
    let mut region = RegionSlots::new();
    region.set(status_slots::CENTER, "message");
    assert!(region.has(status_slots::CENTER));

    region.clear(status_slots::CENTER);
    assert!(!region.has(status_slots::CENTER));
}

#[test]
fn test_slots_container() {
    let mut slots = Slots::new();

    // Header and status are separate
    slots.header.set(header_slots::TITLE, "My App");
    slots.status.set(status_slots::MODE, "NORMAL");

    assert_eq!(slots.header.get_text(header_slots::TITLE), "My App");
    assert_eq!(slots.status.get_text(status_slots::MODE), "NORMAL");

    // They don't interfere with each other
    assert!(!slots.header.has(status_slots::MODE));
    assert!(!slots.status.has(header_slots::TITLE));
}

#[test]
fn test_styled_content() {
    let mut region = RegionSlots::new();
    region.set(
        status_slots::MODE,
        SlotContent::styled("INSERT", "mode_insert"),
    );

    let content = region.get(status_slots::MODE).unwrap();
    assert_eq!(content.as_str(), "INSERT");
    assert_eq!(content.style_class(), Some("mode_insert"));
}

#[test]
fn test_set_if_changed() {
    let mut region = RegionSlots::new();

    // First set should change
    assert!(region.set_if_changed(status_slots::MODE, "NORMAL"));
    assert_eq!(region.get_text(status_slots::MODE), "NORMAL");

    // Same value should not change
    assert!(!region.set_if_changed(status_slots::MODE, "NORMAL"));

    // Different value should change
    assert!(region.set_if_changed(status_slots::MODE, "INSERT"));
    assert_eq!(region.get_text(status_slots::MODE), "INSERT");
}

#[test]
fn test_set_styled_if_changed() {
    let mut region = RegionSlots::new();

    // First set should change
    assert!(region.set_styled_if_changed(status_slots::MODE, "NORMAL", "mode_normal"));

    // Same text and class should not change
    assert!(!region.set_styled_if_changed(status_slots::MODE, "NORMAL", "mode_normal"));

    // Different text should change
    assert!(region.set_styled_if_changed(status_slots::MODE, "INSERT", "mode_normal"));

    // Different class should change
    assert!(region.set_styled_if_changed(status_slots::MODE, "INSERT", "mode_insert"));
}

#[test]
fn test_clear_if_set() {
    let mut region = RegionSlots::new();

    // Clear on empty should return false
    assert!(!region.clear_if_set(status_slots::MODE));

    // Set and clear should return true
    region.set(status_slots::MODE, "NORMAL");
    assert!(region.clear_if_set(status_slots::MODE));

    // Second clear should return false
    assert!(!region.clear_if_set(status_slots::MODE));
}

#[test]
fn test_priority_slot_basic() {
    let mut ps = PrioritySlot::default();

    // Set at normal priority
    ps.set(SlotContent::text("normal"), priority::NORMAL);
    assert_eq!(ps.get().unwrap().as_str(), "normal");
    assert_eq!(ps.current_priority(), Some(priority::NORMAL));
}

#[test]
fn test_priority_slot_layering() {
    let mut ps = PrioritySlot::default();

    // Set normal priority content
    ps.set(SlotContent::text("normal"), priority::NORMAL);
    assert_eq!(ps.get().unwrap().as_str(), "normal");

    // Higher priority overrides
    ps.set(SlotContent::text("temporary"), priority::TEMPORARY);
    assert_eq!(ps.get().unwrap().as_str(), "temporary");
    assert_eq!(ps.current_priority(), Some(priority::TEMPORARY));

    // Even higher priority overrides
    ps.set(SlotContent::text("overlay"), priority::OVERLAY);
    assert_eq!(ps.get().unwrap().as_str(), "overlay");

    // Clear overlay reveals temporary
    ps.clear(priority::OVERLAY);
    assert_eq!(ps.get().unwrap().as_str(), "temporary");

    // Clear temporary reveals normal
    ps.clear(priority::TEMPORARY);
    assert_eq!(ps.get().unwrap().as_str(), "normal");

    // Clear normal leaves empty
    ps.clear(priority::NORMAL);
    assert!(ps.is_empty());
}

#[test]
fn test_region_slots_priority() {
    let mut region = RegionSlots::new();

    // Set normal content
    region.set(status_slots::MESSAGE, "Status: OK");
    assert_eq!(region.get_text(status_slots::MESSAGE), "Status: OK");

    // Temporary message overrides
    region.set_at_priority(status_slots::MESSAGE, "File saved!", priority::TEMPORARY);
    assert_eq!(region.get_text(status_slots::MESSAGE), "File saved!");
    assert_eq!(
        region.current_priority(status_slots::MESSAGE),
        Some(priority::TEMPORARY)
    );

    // Clear temporary reveals normal
    region.clear_at_priority(status_slots::MESSAGE, priority::TEMPORARY);
    assert_eq!(region.get_text(status_slots::MESSAGE), "Status: OK");
    assert_eq!(
        region.current_priority(status_slots::MESSAGE),
        Some(priority::NORMAL)
    );
}

#[test]
fn test_priority_set_if_changed() {
    let mut region = RegionSlots::new();

    // Set at temporary priority
    assert!(region.set_if_changed_at_priority(
        status_slots::MESSAGE,
        "temp msg",
        priority::TEMPORARY
    ));

    // Same value at same priority should not change
    assert!(!region.set_if_changed_at_priority(
        status_slots::MESSAGE,
        "temp msg",
        priority::TEMPORARY
    ));

    // Same value at different priority SHOULD change (it's a different layer)
    assert!(region.set_if_changed_at_priority(
        status_slots::MESSAGE,
        "temp msg",
        priority::NORMAL
    ));

    // Now temp is still visible (higher priority)
    assert_eq!(region.get_text(status_slots::MESSAGE), "temp msg");
    assert_eq!(
        region.current_priority(status_slots::MESSAGE),
        Some(priority::TEMPORARY)
    );
}

#[test]
fn test_clear_all_priorities() {
    let mut region = RegionSlots::new();

    // Set at multiple priorities
    region.set_at_priority(status_slots::MESSAGE, "default", priority::DEFAULT);
    region.set_at_priority(status_slots::MESSAGE, "normal", priority::NORMAL);
    region.set_at_priority(status_slots::MESSAGE, "temp", priority::TEMPORARY);

    // Visible is temp
    assert_eq!(region.get_text(status_slots::MESSAGE), "temp");

    // Clear all removes everything
    region.clear_all(status_slots::MESSAGE);
    assert!(!region.has(status_slots::MESSAGE));
    assert_eq!(region.get_text(status_slots::MESSAGE), "");
}

