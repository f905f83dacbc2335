use heapscope::stress::StressBlock;
use heapscope::stress::StressBuffers;

#[test]
fn new_list_holds_no_block() {
    assert_eq!(StressBuffers::new().len(), 0);
}

#[test]
fn push_then_pop_gives_the_length_back() {
    let mut list = StressBuffers::new();
    list.push(1024, false);
    let before = list.len();
    list.push(4096, true);
    assert_eq!(list.len(), before + 1);
    list.pop();
    assert_eq!(list.len(), before);
    assert_eq!(list.block(0).bytes(), 1024);
}

#[test]
fn pop_of_an_empty_list_does_nothing() {
    let mut list = StressBuffers::new();
    list.pop();
    assert_eq!(list.len(), 0);
    list.pop();
    assert_eq!(list.len(), 0);
}

#[test]
fn pop_takes_the_youngest_block() {
    let mut list = StressBuffers::new();
    list.push(1, false);
    list.push(2, true);
    list.push(3, false);
    list.pop();
    assert_eq!(list.len(), 2);
    assert_eq!(list.block(0).bytes(), 1);
    assert!(!list.block(0).is_filled());
    assert_eq!(list.block(1).bytes(), 2);
    assert!(list.block(1).is_filled());
}

#[test]
fn block_remembers_what_was_asked_for() {
    let reserved = StressBlock::allocate(10 * 1024 * 1024, false);
    assert_eq!(reserved.bytes(), 10 * 1024 * 1024);
    assert!(!reserved.is_filled());
    let filled = StressBlock::allocate(4096, true);
    assert_eq!(filled.bytes(), 4096);
    assert!(filled.is_filled());
    let nothing = StressBlock::allocate(0, true);
    assert_eq!(nothing.bytes(), 0);
}
