use chess_dqn::replay_buffer::{BufferElement, ReplayBuffer};

fn transition(n: usize) -> BufferElement {
    BufferElement {
        actual_state: format!("state {}", n),
        action: n,
        reward: n as i64 * 10,
        next_state: format!("state {}", n + 1),
        done: false,
    }
}

fn actions(buffer: &ReplayBuffer) -> Vec<usize> {
    buffer.contents().iter().map(|e| e.action).collect()
}

#[test]
fn capacity_four_evicts_oldest() {
    let mut buffer = ReplayBuffer::new(4);
    for n in 0..5 {
        buffer.add(transition(n));
    }
    assert_eq!(buffer.len(), 4);
    assert_eq!(actions(&buffer), vec![1, 2, 3, 4]);
    let contents = buffer.contents();
    assert_eq!(contents[0].actual_state, "state 1");
    assert_eq!(contents[3].next_state, "state 5");
    assert_eq!(contents[3].reward, 40);
}

#[test]
fn holds_most_recent_in_order() {
    for capacity in 1..6usize {
        let mut buffer = ReplayBuffer::new(capacity);
        for n in 0..13usize {
            buffer.add(transition(n));
            let kept = (n + 1).min(capacity);
            assert_eq!(buffer.len(), kept);
            let expected: Vec<usize> = (n + 1 - kept..n + 1).collect();
            assert_eq!(actions(&buffer), expected);
        }
    }
}

#[test]
fn grows_until_full() {
    let mut buffer = ReplayBuffer::new(3);
    assert_eq!(buffer.len(), 0);
    buffer.add(transition(7));
    buffer.add(transition(8));
    assert_eq!(actions(&buffer), vec![7, 8]);
}

#[test]
fn samples_are_distinct_members() {
    let mut buffer = ReplayBuffer::new(6);
    for n in 0..9 {
        buffer.add(transition(n));
    }
    for amount in 0..=6usize {
        let samples = buffer.get_samples(amount);
        assert_eq!(samples.len(), amount);
        let mut seen: Vec<usize> = samples.iter().map(|e| e.action).collect();
        for a in &seen {
            assert!((3..9).contains(a));
        }
        seen.sort();
        seen.dedup();
        assert_eq!(seen.len(), amount);
        for s in &samples {
            assert_eq!(s.actual_state, format!("state {}", s.action));
        }
    }
}

#[test]
fn cursor_slot_holds_oldest_once_full() {
    // capacity 3, seven additions: slots hold 6, 4, 5 and the cursor (7 % 3 = 1)
    // points at 4, the oldest kept; the next addition overwrites it
    let mut buffer = ReplayBuffer::new(3);
    for n in 0..7 {
        buffer.add(transition(n));
    }
    assert_eq!(actions(&buffer), vec![4, 5, 6]);
    buffer.add(transition(7));
    assert_eq!(actions(&buffer), vec![5, 6, 7]);
}
