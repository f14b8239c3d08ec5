use live_transcript::bridge::BatchQueue;
use live_transcript::mic::AudioData;

fn batch(samples: Vec<u32>, sample_rate: u32) -> AudioData {
    AudioData { samples, sample_rate }
}

#[test]
fn queue_is_first_in_first_out() {
    let mut q = BatchQueue::new();
    q.enqueue(batch(vec![1], 16000));
    q.enqueue(batch(vec![2], 16000));
    q.enqueue(batch(vec![3], 16000));
    assert_eq!(q.len(), 3);
    assert_eq!(q.dequeue().unwrap().samples, vec![1]);
    assert_eq!(q.dequeue().unwrap().samples, vec![2]);
    assert_eq!(q.dequeue().unwrap().samples, vec![3]);
    assert!(q.dequeue().is_none());
}

#[test]
fn dequeue_on_empty_queue_is_none() {
    let mut q = BatchQueue::new();
    assert!(!q.is_closed());
    assert!(q.dequeue().is_none());
    assert_eq!(q.len(), 0);
}

#[test]
fn enqueue_after_close_is_silently_dropped() {
    let mut q = BatchQueue::new();
    q.enqueue(batch(vec![1], 16000));
    q.close();
    assert!(q.is_closed());
    q.enqueue(batch(vec![2], 16000));
    assert_eq!(q.len(), 1);
    assert_eq!(q.dequeue().unwrap().samples, vec![1]);
    assert!(q.dequeue().is_none());
}
