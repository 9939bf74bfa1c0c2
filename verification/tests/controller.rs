use cycle_list::use_cycle_list;
use cycle_list::use_cycle_list_with_options;
use cycle_list::NeverFound;
use cycle_list::UseCycleListOptions;

fn animals() -> Vec<String> {
    vec![
        "Dog".to_string(),
        "Cat".to_string(),
        "Lizard".to_string(),
        "Shark".to_string(),
        "Whale".to_string(),
        "Dolphin".to_string(),
        "Octopus".to_string(),
        "Seal".to_string(),
    ]
}

#[test]
fn defaults_and_prev_wrap() {
    let mut c = use_cycle_list(animals());
    assert_eq!(c.state(), "Dog");
    assert_eq!(c.index(), 0);
    c.prev();
    assert_eq!(c.state(), "Seal");
    assert_eq!(c.index(), 7);
}

#[test]
fn full_cycle_returns_to_start() {
    let list = animals();
    let n = list.len();
    let mut c = use_cycle_list(list.clone());
    for k in 0..n {
        assert_eq!(c.state(), &list[k]);
        c.next();
    }
    assert_eq!(c.state(), "Dog");
}

#[test]
fn full_cycle_from_initial_value() {
    let list = animals();
    let opts = UseCycleListOptions::default().initial_value("Whale".to_string());
    let mut c = use_cycle_list_with_options(list.clone(), opts);
    assert_eq!(c.state(), "Whale");
    assert_eq!(c.index(), 4);
    for _ in 0..list.len() {
        c.next();
    }
    assert_eq!(c.state(), "Whale");
}

#[test]
fn shift_round_trip() {
    let mut c = use_cycle_list(animals());
    c.shift(5);
    assert_eq!(c.state(), "Dolphin");
    c.shift(-5);
    assert_eq!(c.state(), "Dog");
    c.shift(-3);
    assert_eq!(c.state(), "Dolphin");
    c.shift(3);
    assert_eq!(c.state(), "Dog");
}

#[test]
fn shift_large_deltas() {
    let mut c = use_cycle_list(vec![10u64, 20, 30]);
    // i64::MAX is 1 modulo 3, so it moves one step forward.
    let v = c.shift(i64::MAX);
    assert_eq!(v, 20);
    assert_eq!(c.index(), 1);
    // i64::MIN is also 1 modulo 3.
    let v = c.shift(i64::MIN);
    assert_eq!(v, 30);
    assert_eq!(c.index(), 2);
}

#[test]
fn index_always_in_bounds() {
    let list = animals();
    let n = list.len();
    let mut c = use_cycle_list(list);
    assert!(c.index() < n);
    c.next();
    assert!(c.index() < n);
    c.prev();
    c.prev();
    assert!(c.index() < n);
    c.shift(-17);
    assert!(c.index() < n);
    c.set_index(usize::MAX);
    assert!(c.index() < n);
    c.set_list(vec!["Eel".to_string(), "Crab".to_string()]);
    assert!(c.index() < 2);
}

#[test]
fn set_index_wraps_modulo() {
    let mut a = use_cycle_list(vec![10u64, 20, 30]);
    let mut b = use_cycle_list(vec![10u64, 20, 30]);
    let va = a.set_index(10);
    let vb = b.set_index(10 % 3);
    assert_eq!(va, 20);
    assert_eq!(va, vb);
    assert_eq!(a.index(), b.index());
    assert_eq!(a.state(), b.state());
}

#[test]
fn set_index_returns_new_state() {
    let mut c = use_cycle_list(animals());
    let v = c.set_index(2);
    assert_eq!(&v, c.state());
    assert_eq!(v, "Lizard");
    let v = c.shift(4);
    assert_eq!(&v, c.state());
    assert_eq!(v, "Octopus");
}

#[test]
fn shrinking_list_resynchronizes() {
    let mut c = use_cycle_list(vec![
        "Dog".to_string(),
        "Cat".to_string(),
        "Lizard".to_string(),
    ]);
    c.set_state("Lizard".to_string());
    assert_eq!(c.index(), 2);
    c.set_list(vec!["Dog".to_string(), "Cat".to_string()]);
    assert_eq!(c.state(), "Dog");
    assert_eq!(c.index(), 0);
}

#[test]
fn reordered_list_keeps_value() {
    let mut c = use_cycle_list(vec!["Cat".to_string(), "Dog".to_string()]);
    c.next();
    assert_eq!(c.state(), "Dog");
    c.set_list(vec![
        "Dog".to_string(),
        "Cat".to_string(),
        "Lizard".to_string(),
    ]);
    assert_eq!(c.state(), "Dog");
    assert_eq!(c.index(), 0);
}

#[test]
fn never_found_resolver_forces_fallback() {
    let opts = UseCycleListOptions::default()
        .get_position(NeverFound)
        .fallback_index(1);
    let mut c = use_cycle_list_with_options(animals(), opts);
    assert_eq!(c.index(), 1);
    c.set_state("Seal".to_string());
    assert_eq!(c.index(), 1);
    c.next();
    assert_eq!(c.index(), 1);
}

#[test]
fn absent_state_falls_back_until_mutation() {
    let mut c = use_cycle_list(animals());
    c.set_state("Fox".to_string());
    assert_eq!(c.state(), "Fox");
    assert_eq!(c.index(), 0);
    c.next();
    assert_eq!(c.state(), "Cat");
    assert_eq!(c.index(), 1);
}

#[test]
fn set_state_to_present_value_resolves() {
    let mut c = use_cycle_list(animals());
    c.set_state("Whale".to_string());
    assert_eq!(c.index(), 4);
}

#[test]
fn duplicate_elements_resolve_to_first_match() {
    let mut c = use_cycle_list(vec!["a".to_string(), "b".to_string(), "a".to_string()]);
    let v = c.set_index(2);
    assert_eq!(v, "a");
    assert_eq!(c.index(), 0);
}

#[test]
fn fallback_index_out_of_range_is_reported() {
    let opts = UseCycleListOptions::default().fallback_index(5);
    let mut c = use_cycle_list_with_options(
        vec![1u64, 2, 3],
        opts.initial_value(9),
    );
    assert_eq!(c.index(), 5);
    let v = c.set_index(c.index());
    assert_eq!(v, 3);
    assert_eq!(c.index(), 2);
}

#[test]
fn single_element_list() {
    let mut c = use_cycle_list(vec!["Dog".to_string()]);
    c.next();
    assert_eq!(c.state(), "Dog");
    c.prev();
    assert_eq!(c.state(), "Dog");
    assert_eq!(c.index(), 0);
}

#[test]
fn empty_list_with_initial_value() {
    let opts = UseCycleListOptions::default().initial_value(7u64);
    let c = use_cycle_list_with_options(Vec::new(), opts);
    assert_eq!(*c.state(), 7);
    assert_eq!(c.index(), 0);
    assert_eq!(c.list().len(), 0);
}

#[test]
fn options_builder_sets_fields() {
    let opts = UseCycleListOptions::default()
        .initial_value(20u64)
        .fallback_index(2);
    let c = use_cycle_list_with_options(vec![10u64, 20, 30], opts);
    assert_eq!(*c.state(), 20);
    assert_eq!(c.index(), 1);
}

#[test]
fn list_snapshot_is_visible() {
    let mut c = use_cycle_list(vec![10u64, 20, 30]);
    assert_eq!(c.list(), &vec![10u64, 20, 30]);
    c.set_list(vec![40u64, 50]);
    assert_eq!(c.list(), &vec![40u64, 50]);
    assert_eq!(*c.state(), 40);
}
