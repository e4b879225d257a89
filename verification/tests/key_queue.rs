use ballista_tui::key_queue::KeyQueue;

#[test]
fn empty_queue_polls_nothing() {
    let mut q: KeyQueue<char> = KeyQueue::new();
    assert_eq!(q.poll(), None);
    assert_eq!(q.poll(), None);
}

#[test]
fn keys_come_out_in_the_order_they_went_in() {
    let mut q = KeyQueue::new();
    for k in ['h', 'e', 'l', 'l', 'o'] {
        q.push(k);
    }
    let mut out = Vec::new();
    while let Some(k) = q.poll() {
        out.push(k);
    }
    assert_eq!(out, vec!['h', 'e', 'l', 'l', 'o']);
    assert_eq!(q.poll(), None);
}

#[test]
fn interleaved_push_and_poll() {
    let mut q = KeyQueue::new();
    q.push(1);
    q.push(2);
    assert_eq!(q.poll(), Some(1));
    q.push(3);
    assert_eq!(q.poll(), Some(2));
    assert_eq!(q.poll(), Some(3));
    assert_eq!(q.poll(), None);
}
