use sub_lib::accumulate;
use sub_lib::StackProducer;

#[test]
fn accumulate_returns_empty_vec_for_immediate_none() {
    let mut producer: StackProducer<i32> = StackProducer::new(vec![]);

    let result: Vec<i32> = accumulate(&mut producer);

    assert_eq!(result.len(), 0);
}

#[test]
fn accumulate_can_mutate_environment() {
    let mut producer = StackProducer::new(vec![3, 2, 1]);

    let result = accumulate(&mut producer);

    assert_eq!(producer.into_stack(), vec![]);
    assert_eq!(result, vec![1, 2, 3]);
}

#[test]
fn accumulate_preserves_yield_order_and_drains_the_source() {
    let mut producer = StackProducer::new(vec![5u8, 4, 3, 2, 1]);

    let result = accumulate(&mut producer);

    assert_eq!(result, vec![1, 2, 3, 4, 5]);
    assert_eq!(producer.into_stack(), Vec::<u8>::new());
}
