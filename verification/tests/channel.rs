use chain_extension::{Channel, DecodeError, OutOfWeight};

#[test]
fn new_channel_is_unread_and_uncharged() {
    let channel = Channel::new(vec![1, 2, 3], 500);
    assert_eq!(channel.input_len(), 3);
    assert_eq!(channel.weight_left(), 500);
    assert_eq!(channel.charged(), 0);
    assert!(channel.output().is_empty());
}

#[test]
fn bounded_reads_are_sequential() {
    let mut channel = Channel::new(vec![1, 0, 0, 0, 2, 0, 0, 0, 9], 0);
    assert_eq!(channel.read_bounded_u32(), Ok(1));
    assert_eq!(channel.input_len(), 5);
    assert_eq!(channel.read_bounded_u32(), Ok(2));
    assert_eq!(channel.input_len(), 1);
    assert_eq!(channel.read_bounded_u32(), Err(DecodeError));
    assert_eq!(channel.input_len(), 1);
}

#[test]
fn bounded_read_of_short_input_consumes_nothing() {
    let mut channel = Channel::new(vec![1, 2, 3], 0);
    assert_eq!(channel.read_bounded_u32(), Err(DecodeError));
    assert_eq!(channel.input_len(), 3);
    let mut empty = Channel::new(vec![], 0);
    assert_eq!(empty.read_bounded_u32(), Err(DecodeError));
}

#[test]
fn unbounded_read_takes_the_reported_length() {
    let mut channel = Channel::new(vec![12, 1, 2, 3], 0);
    let len = channel.input_len();
    assert_eq!(len, 4);
    let custom = channel.read_unbounded_custom(len).expect("a whole encoding");
    assert_eq!(custom.as_bytes(), &vec![1, 2, 3]);
    assert_eq!(channel.input_len(), 0);
}

#[test]
fn unbounded_read_follows_a_bounded_one() {
    let mut channel = Channel::new(vec![7, 0, 0, 0, 8, 5, 6], 0);
    assert_eq!(channel.read_bounded_u32(), Ok(7));
    let len = channel.input_len();
    let custom = channel.read_unbounded_custom(len).expect("the rest is an encoding");
    assert_eq!(custom.as_bytes(), &vec![5, 6]);
}

#[test]
fn unbounded_read_of_a_prefix_leaves_the_rest() {
    let mut channel = Channel::new(vec![4, 9, 1, 0, 0, 0], 0);
    let custom = channel.read_unbounded_custom(2).expect("two bytes hold an encoding");
    assert_eq!(custom.as_bytes(), &vec![9]);
    assert_eq!(channel.read_bounded_u32(), Ok(1));
}

#[test]
fn unbounded_read_fails_without_consuming() {
    let mut channel = Channel::new(vec![12, 1, 2], 0);
    assert_eq!(channel.read_unbounded_custom(3), Err(DecodeError));
    assert_eq!(channel.input_len(), 3);
    assert_eq!(channel.read_unbounded_custom(4), Err(DecodeError));
    assert_eq!(channel.input_len(), 3);
    assert_eq!(channel.read_unbounded_custom(usize::MAX), Err(DecodeError));
}

#[test]
fn last_write_is_the_output() {
    let mut channel = Channel::new(vec![], 0);
    channel.write_output(&[1, 2, 3]);
    assert_eq!(channel.output(), &vec![1, 2, 3]);
    channel.write_output(&[4]);
    assert_eq!(channel.output(), &vec![4]);
    channel.write_output(&[]);
    assert!(channel.output().is_empty());
}

#[test]
fn charges_accumulate() {
    let mut channel = Channel::new(vec![], 100);
    assert_eq!(channel.charge_weight(30), Ok(()));
    assert_eq!((channel.weight_left(), channel.charged()), (70, 30));
    assert_eq!(channel.charge_weight(70), Ok(()));
    assert_eq!((channel.weight_left(), channel.charged()), (0, 100));
    assert_eq!(channel.charge_weight(0), Ok(()));
    assert_eq!(channel.charge_weight(1), Err(OutOfWeight));
    assert_eq!((channel.weight_left(), channel.charged()), (0, 100));
}

#[test]
fn failed_charge_takes_nothing() {
    let mut channel = Channel::new(vec![], 10);
    assert_eq!(channel.charge_weight(11), Err(OutOfWeight));
    assert_eq!(channel.charge_weight(u64::MAX), Err(OutOfWeight));
    assert_eq!((channel.weight_left(), channel.charged()), (10, 0));
    let mut full = Channel::new(vec![], u64::MAX);
    assert_eq!(full.charge_weight(u64::MAX), Ok(()));
    assert_eq!((full.weight_left(), full.charged()), (0, u64::MAX));
}

#[test]
fn finish_hands_out_output_and_charge() {
    let mut channel = Channel::new(vec![1, 2, 3, 4], 50);
    channel.charge_weight(20).unwrap();
    channel.write_output(&[9, 9]);
    assert_eq!(channel.finish(), (vec![9, 9], 20));
}

#[test]
fn reads_do_not_touch_weight_or_output() {
    let mut channel = Channel::new(vec![1, 0, 0, 0], 5);
    channel.write_output(&[3]);
    channel.read_bounded_u32().unwrap();
    assert_eq!((channel.weight_left(), channel.charged()), (5, 0));
    assert_eq!(channel.output(), &vec![3]);
}
