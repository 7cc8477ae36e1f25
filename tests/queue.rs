use stm32wb_hal::linked_list::NodeArena;

#[test]
fn init_head_overwrites_stale_links() {
    let mut arena = NodeArena::new(4);
    arena.init_head(1);
    arena.insert_tail(1, 2);
    arena.insert_tail(1, 3);
    assert!(!arena.is_empty(1));
    // Re-initialising a head whose links point at other nodes empties it.
    arena.init_head(1);
    assert!(arena.is_empty(1));
    assert_eq!(arena.node(1).next, 1);
    assert_eq!(arena.node(1).prev, 1);
}

#[test]
fn empty_exactly_when_inserts_match_removes() {
    let mut arena = NodeArena::new(8);
    arena.init_head(0);
    assert!(arena.is_empty(0));
    arena.insert_tail(0, 3);
    assert!(!arena.is_empty(0));
    arena.insert_tail(0, 5);
    assert!(!arena.is_empty(0));
    assert_eq!(arena.remove_head(0), Some(3));
    assert!(!arena.is_empty(0));
    arena.insert_tail(0, 3);
    assert_eq!(arena.remove_head(0), Some(5));
    assert!(!arena.is_empty(0));
    assert_eq!(arena.remove_head(0), Some(3));
    assert!(arena.is_empty(0));
    assert_eq!(arena.remove_head(0), None);
    assert!(arena.is_empty(0));
}

#[test]
fn queue_is_first_in_first_out() {
    let mut arena = NodeArena::new(10);
    arena.init_head(9);
    let order = [4u32, 1, 7, 2, 8];
    for n in order.iter() {
        arena.insert_tail(9, *n);
    }
    let mut out = Vec::new();
    while let Some(n) = arena.remove_head(9) {
        out.push(n);
    }
    assert_eq!(out, vec![4, 1, 7, 2, 8]);
    assert!(arena.is_empty(9));
}

#[test]
fn two_queues_in_one_table_stay_apart() {
    let mut arena = NodeArena::new(8);
    arena.init_head(0);
    arena.init_head(1);
    arena.insert_tail(0, 2);
    arena.insert_tail(1, 3);
    arena.insert_tail(0, 4);
    assert_eq!(arena.remove_head(1), Some(3));
    assert!(arena.is_empty(1));
    assert_eq!(arena.remove_head(0), Some(2));
    assert_eq!(arena.remove_head(0), Some(4));
}

#[test]
fn links_form_a_cycle_through_the_head() {
    let mut arena = NodeArena::new(6);
    arena.init_head(0);
    arena.insert_tail(0, 3);
    arena.insert_tail(0, 5);
    assert_eq!(arena.node(0).next, 3);
    assert_eq!(arena.node(3).next, 5);
    assert_eq!(arena.node(5).next, 0);
    assert_eq!(arena.node(0).prev, 5);
    assert_eq!(arena.node(5).prev, 3);
    assert_eq!(arena.node(3).prev, 0);
}
