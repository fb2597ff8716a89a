use libblockchain::{Block, Chain, Timestamp};

#[test]
fn is_trusty_chain_test1() {
    let mut chain = Chain::new(vec![]);

    let block0 = Block::new(0, vec![0; 256], 0);
    let block1 = block0.next(vec![1, 2]);
    let block2 = block1.next(vec![3, 4]);
    let block3 = block2.next(vec![5, 6]);

    chain.push(block0);
    chain.push(block1);
    chain.push(block2);
    chain.push(block3);

    assert!(chain.is_trusty_chain())
}

#[test]
fn is_trusty_chain_test2() {
    let mut chain = Chain::new(vec![]);

    let block0 = Block::new(0, vec![0; 256], 0);
    let block1 = block0.next(vec![1, 2]);
    let block2 = block1.next(vec![3, 4]);

    chain.push(block0);
    chain.push(block2);
    chain.push(block1);

    assert_eq!(chain.is_trusty_chain(), false)
}

#[test]
fn empty_chain_is_trusty() {
    let chain: Chain<Vec<i32>> = Chain::new(vec![]);
    assert!(chain.is_trusty_chain());
}

#[test]
fn single_block_chain_is_trusty() {
    let mut chain = Chain::new(vec![]);
    chain.push(Block::new(7, vec![1u8], 99));
    assert!(chain.is_trusty_chain());
}

#[test]
fn chain_of_one_pair_checks_that_pair() {
    let block0 = Block::new(0, vec![0u8; 4], 0);
    let block1 = block0.next(vec![1]);
    let stranger = Block::new(1, vec![1u8], 12345);

    let good = Chain::new(vec![block0.clone(), block1]);
    assert!(good.is_trusty_chain());

    let bad = Chain::new(vec![block0, stranger]);
    assert!(!bad.is_trusty_chain());
}

#[test]
fn link_from_odd_place_is_not_checked() {
    let block0 = Block::new(0, vec![0u8; 8], 0);
    let block1 = block0.next(vec![1]);
    // A third block whose back link does not name the second.
    let block2 = Block::new(2, vec![2u8], block1.previous_id.wrapping_add(1));
    assert!(!block2.is_trusty_for(&block1));
    let block3 = block2.next(vec![3]);

    let mut chain = Chain::new(vec![]);
    chain.push(block0);
    chain.push(block1);
    chain.push(block2);
    chain.push(block3);

    assert!(chain.is_trusty_chain());
}

#[test]
fn broken_second_pair_is_found() {
    let block0 = Block::new(0, vec![0u8; 8], 0);
    let block1 = block0.next(vec![1]);
    let block2 = block1.next(vec![2]);
    let block3 = Block::new(3, vec![3u8], 0);
    assert!(!block3.is_trusty_for(&block2));

    let chain = Chain::new(vec![block0, block1, block2, block3]);
    assert!(!chain.is_trusty_chain());
}

#[test]
fn unpaired_last_block_is_not_checked() {
    let block0 = Block::new(0, vec![0u8; 8], 0);
    let block1 = block0.next(vec![1]);
    let stranger = Block::new(40, vec![9u8], 77);
    assert!(!stranger.is_trusty_for(&block1));

    let chain = Chain::new(vec![block0, block1, stranger]);
    assert!(chain.is_trusty_chain());
}

#[test]
fn new_keeps_the_given_order() {
    let at = Timestamp { secs: 10, nanos: 0 };
    let block0 = Block::at(0, vec![0u8], 0, at);
    let block1 = block0.next_at(vec![1], at);

    // In order the pair is linked; turned round it is not.
    assert!(Chain::new(vec![block0.clone(), block1.clone()]).is_trusty_chain());
    assert!(!Chain::new(vec![block1, block0]).is_trusty_chain());
}

#[test]
fn push_always_succeeds() {
    let mut chain = Chain::new(vec![]);
    let block0 = Block::new(0, vec![0; 256], 0);
    let resp = chain.push(block0);
    assert_eq!(resp.is_some(), true);
    assert_eq!(chain.push(Block::new(5, vec![1], 5)), Some(()));
}

#[test]
fn push_appends_at_the_end() {
    let at = Timestamp { secs: 10, nanos: 0 };
    let block0 = Block::at(0, vec![0u8], 0, at);
    let block1 = block0.next_at(vec![1], at);

    let mut chain = Chain::new(vec![block0]);
    assert!(chain.is_trusty_chain());
    chain.push(block1);
    assert!(chain.is_trusty_chain());

    let mut other = Chain::new(vec![Block::at(0, vec![0u8], 0, at)]);
    other.push(Block::at(1, vec![1u8], 0, at));
    assert!(!other.is_trusty_chain());
}

#[test]
fn check_gives_the_same_answer_twice() {
    let block0 = Block::new(0, vec![0; 16], 0);
    let block1 = block0.next(vec![1, 2]);
    let chain = Chain::new(vec![block0, block1]);
    assert_eq!(chain.is_trusty_chain(), chain.is_trusty_chain());
    assert!(chain.is_trusty_chain());
}
