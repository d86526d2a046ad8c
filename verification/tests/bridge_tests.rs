use gpt_pipe::bridge::produce_all;
use gpt_pipe::bridge::stream_through_channel;
use gpt_pipe::channel::Channel;
use gpt_pipe::host::Fetch;
use gpt_pipe::host::fetch_next;
use gpt_pipe::limits::BATCH_SIZE;
use gpt_pipe::limits::CHANNEL_CAPACITY;
use gpt_pipe::limits::SAMPLE_SIZE;
use gpt_pipe::producer::Producer;

fn lines_of(texts: &[&str]) -> Vec<String> {
    texts.iter().map(|t| t.to_string()).collect()
}

fn numbered_lines(count: usize) -> Vec<String> {
    (0..count).map(|i| format!("line-{}", i)).collect()
}

#[test]
fn three_lines_one_batch() {
    let lines = lines_of(&["a", "b", "c"]);
    let (sample, delivered) = stream_through_channel(&lines);
    assert_eq!(sample, lines);
    assert_eq!(delivered.len(), 1);
    assert_eq!(delivered[0], lines);
}

#[test]
fn empty_input_no_batches() {
    let lines: Vec<String> = Vec::new();
    let (sample, delivered) = stream_through_channel(&lines);
    assert!(sample.is_empty());
    assert!(delivered.is_empty());
}

#[test]
fn empty_input_reports_end_of_stream_at_once() {
    let mut chan = Channel::new();
    chan.close();
    match fetch_next(&mut chan) {
        Fetch::EndOfInput => {}
        Fetch::Lines(_) => panic!("empty closed channel handed out data"),
    }
    match fetch_next(&mut chan) {
        Fetch::EndOfInput => {}
        Fetch::Lines(_) => panic!("end-of-stream was not permanent"),
    }
}

#[test]
fn sample_is_first_twenty_lines() {
    let lines = numbered_lines(25);
    let (sample, delivered) = produce_all(&lines);
    assert_eq!(sample.len(), SAMPLE_SIZE);
    assert_eq!(&sample[..], &lines[..SAMPLE_SIZE]);
    let joined: Vec<String> = delivered.into_iter().flatten().collect();
    assert_eq!(joined, lines);
    assert_eq!(&joined[..SAMPLE_SIZE], &sample[..]);
}

#[test]
fn short_input_sample_is_everything() {
    let lines = numbered_lines(7);
    let (sample, delivered) = produce_all(&lines);
    assert_eq!(sample, lines);
    assert_eq!(delivered.len(), 1);
    assert_eq!(delivered[0], lines);
}

#[test]
fn exact_batch_size_gives_one_full_batch() {
    let lines = numbered_lines(BATCH_SIZE);
    let (_, delivered) = produce_all(&lines);
    assert_eq!(delivered.len(), 1);
    assert_eq!(delivered[0].len(), BATCH_SIZE);
}

#[test]
fn one_line_over_batch_size_gives_partial_second_batch() {
    let lines = numbered_lines(BATCH_SIZE + 1);
    let (_, delivered) = stream_through_channel(&lines);
    assert_eq!(delivered.len(), 2);
    assert_eq!(delivered[0].len(), BATCH_SIZE);
    assert_eq!(delivered[1].len(), 1);
    let joined: Vec<String> = delivered.into_iter().flatten().collect();
    assert_eq!(joined, lines);
}

#[test]
fn many_batches_keep_order() {
    let lines = numbered_lines(3 * BATCH_SIZE + 17);
    let (_, delivered) = stream_through_channel(&lines);
    assert_eq!(delivered.len(), 4);
    for full in &delivered[..3] {
        assert_eq!(full.len(), BATCH_SIZE);
    }
    assert_eq!(delivered[3].len(), 17);
    let joined: Vec<String> = delivered.into_iter().flatten().collect();
    assert_eq!(joined, lines);
}

#[test]
fn producer_emits_batch_only_when_full() {
    let mut p = Producer::new();
    for i in 0..BATCH_SIZE - 1 {
        assert!(p.push_line(format!("x{}", i)).is_none());
    }
    let full = p.push_line("last".to_string());
    let batch = full.expect("a full batch was due");
    assert_eq!(batch.len(), BATCH_SIZE);
    assert!(p.flush().is_none());
}

#[test]
fn producer_flush_hands_out_partial_batch() {
    let mut p = Producer::new();
    assert!(p.push_line("a".to_string()).is_none());
    assert!(p.push_line("b".to_string()).is_none());
    let rest = p.flush().expect("two lines were pending");
    assert_eq!(rest, lines_of(&["a", "b"]));
    assert!(p.flush().is_none());
}

#[test]
fn producer_sample_completes_at_twenty() {
    let mut p = Producer::new();
    for i in 0..SAMPLE_SIZE - 1 {
        p.push_line(format!("s{}", i));
        assert!(!p.sample_complete());
    }
    p.push_line("s-last".to_string());
    assert!(p.sample_complete());
    assert_eq!(p.sample_lines().len(), SAMPLE_SIZE);
    p.push_line("beyond".to_string());
    assert_eq!(p.sample_lines().len(), SAMPLE_SIZE);
    assert!(!p.sample_lines().contains(&"beyond".to_string()));
}

#[test]
fn channel_occupancy_never_exceeds_capacity() {
    let mut chan = Channel::new();
    for i in 0..CHANNEL_CAPACITY {
        assert!(!chan.is_full());
        let sent = chan.send(vec![format!("b{}", i)]);
        assert!(sent.is_ok());
        assert_eq!(chan.in_flight(), i + 1);
    }
    assert!(chan.is_full());
    assert_eq!(chan.in_flight(), CHANNEL_CAPACITY);
    let first = chan.recv().expect("a batch was in flight");
    assert_eq!(first, vec!["b0".to_string()]);
    assert_eq!(chan.in_flight(), CHANNEL_CAPACITY - 1);
    assert!(chan.send(vec!["again".to_string()]).is_ok());
    assert_eq!(chan.in_flight(), CHANNEL_CAPACITY);
}

#[test]
fn channel_delivers_in_send_order() {
    let mut chan = Channel::new();
    chan.send(vec!["first".to_string()]).unwrap();
    chan.send(vec!["second".to_string()]).unwrap();
    chan.close();
    assert_eq!(chan.recv(), Some(vec!["first".to_string()]));
    assert_eq!(chan.recv(), Some(vec!["second".to_string()]));
    assert_eq!(chan.recv(), None);
    assert_eq!(chan.recv(), None);
}

#[test]
fn dropped_receiver_fails_send_without_blocking() {
    let mut chan = Channel::new();
    chan.drop_receiver();
    let batch = vec!["a".to_string(), "b".to_string()];
    match chan.send(batch.clone()) {
        Err(rejected) => assert_eq!(rejected, batch),
        Ok(_) => panic!("send succeeded although the receiver was gone"),
    }
    assert_eq!(chan.in_flight(), 0);
}

#[test]
fn fetch_hands_out_batches_then_end_of_input_forever() {
    let mut chan = Channel::new();
    chan.send(lines_of(&["a", "b"])).unwrap();
    chan.close();
    match fetch_next(&mut chan) {
        Fetch::Lines(batch) => assert_eq!(batch, lines_of(&["a", "b"])),
        Fetch::EndOfInput => panic!("a batch was in flight"),
    }
    for _ in 0..3 {
        match fetch_next(&mut chan) {
            Fetch::EndOfInput => {}
            Fetch::Lines(_) => panic!("data after end-of-stream"),
        }
    }
}
