use sulis::inventory::Item;
use sulis::loot::{LootEntry, LootTable};

fn thing(id: &str) -> Item {
    Item { id: String::from(id), equippable: None }
}

fn table_of(weights: &[(&str, u32)], count: u32) -> LootTable {
    LootTable {
        entries: weights
            .iter()
            .map(|(id, weight)| LootEntry { item: thing(id), weight: *weight })
            .collect(),
        count,
    }
}

#[test]
fn a_number_picks_the_entry_whose_stretch_it_falls_in() {
    let table = table_of(&[("coin", 2), ("dust", 0), ("gem", 3)], 1);
    assert_eq!(table.pick(0), Some(0));
    assert_eq!(table.pick(1), Some(0));
    assert_eq!(table.pick(2), Some(2));
    assert_eq!(table.pick(3), Some(2));
    assert_eq!(table.pick(4), Some(2));
    assert_eq!(table.pick(5), None);
    assert_eq!(table.pick(u32::MAX), None);
    assert_eq!(table_of(&[], 1).pick(0), None);
    assert_eq!(table_of(&[("dust", 0)], 1).pick(0), None);
}

#[test]
fn numbers_are_rolled_below_the_sum_of_the_weights() {
    assert_eq!(table_of(&[("coin", 2), ("dust", 0), ("gem", 3)], 1).get_roll_bound(), 5);
    assert_eq!(table_of(&[], 4).get_roll_bound(), 0);
    assert_eq!(table_of(&[("a", u32::MAX), ("b", 5)], 1).get_roll_bound(), u32::MAX);
    assert_eq!(table_of(&[("a", u32::MAX - 1), ("b", 1)], 1).get_roll_bound(), u32::MAX);
    assert_eq!(table_of(&[("a", u32::MAX - 2), ("b", 1)], 1).get_roll_bound(), u32::MAX - 1);
}

#[test]
fn numbers_draw_items_in_their_order() {
    let table = table_of(&[("coin", 2), ("dust", 0), ("gem", 3)], 3);
    assert_eq!(table.draw(&vec![4, 0, 9, 2]), vec![thing("gem"), thing("coin"), thing("gem")]);
    assert_eq!(table.draw(&vec![]), Vec::<Item>::new());
    assert_eq!(table.draw(&vec![5, 6]), Vec::<Item>::new());
}

#[test]
fn the_die_has_to_pass_the_chance() {
    let table = table_of(&[("coin", 1)], 1);
    assert_eq!(table.resolve(100, 100, &vec![0]), vec![thing("coin")]);
    assert_eq!(table.resolve(100, 1, &vec![0]), vec![thing("coin")]);
    assert_eq!(table.resolve(50, 50, &vec![0]), vec![thing("coin")]);
    assert_eq!(table.resolve(50, 51, &vec![0]), Vec::<Item>::new());
    assert_eq!(table.resolve(0, 1, &vec![0]), Vec::<Item>::new());
    assert_eq!(table.resolve(100, 100, &vec![]), Vec::<Item>::new());
}

#[test]
fn as_many_numbers_are_rolled_as_the_table_asks_for() {
    let table = table_of(&[("coin", 2), ("gem", 3)], 40);
    let mut seen_high = false;
    for _ in 0..50 {
        let rolls = table.roll();
        assert_eq!(rolls.len(), 40);
        for roll in rolls {
            assert!(roll < 5);
            seen_high = seen_high || roll > 0;
        }
    }
    assert!(seen_high);
    assert!(table_of(&[], 40).roll().is_empty());
    assert!(table_of(&[("dust", 0)], 40).roll().is_empty());
    assert!(table_of(&[("coin", 2)], 0).roll().is_empty());
}

#[test]
fn a_sure_chance_always_yields_the_items_of_the_table() {
    let table = table_of(&[("coin", 1)], 2);
    for _ in 0..100 {
        assert_eq!(table.generate_with_chance(100), vec![thing("coin"), thing("coin")]);
        assert_eq!(table.generate_with_chance(0), Vec::<Item>::new());
    }
    let mixed = table_of(&[("coin", 1), ("gem", 1)], 3);
    for _ in 0..100 {
        let items = mixed.generate_with_chance(100);
        assert_eq!(items.len(), 3);
        for item in items {
            assert!(item == thing("coin") || item == thing("gem"));
        }
    }
}
