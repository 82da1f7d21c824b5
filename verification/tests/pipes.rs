use std::sync::Arc;
use std::sync::Mutex;

use process_control::control::pipe::apply_verdict;
use process_control::control::pipe::new_bytes;
use process_control::control::pipe::read_to_end;
use process_control::control::pipe::Pipe;
use process_control::control::pipe::PipeFilter;
use process_control::error::Error;
use process_control::unix::read::check_poll;
use process_control::unix::read::classify_end;
use process_control::unix::read::read2;
use process_control::unix::read::AsyncPipe;

const WOULD_BLOCK: Result<(), Error> = Err(Error::WouldBlock);

/// Keeps a copy of all that it is shown and rejects every third chunk.
struct EveryThird {
    seen: Arc<Mutex<Vec<Vec<u8>>>>,
}

impl PipeFilter for EveryThird {
    fn filter(&mut self, chunk: &[u8]) -> Result<bool, Error> {
        let mut seen = self.seen.lock().unwrap();
        seen.push(chunk.to_vec());
        Ok(seen.len() % 3 != 0)
    }
}

/// Accepts chunks until it has seen as many as it allows, then fails.
struct FailsAfter {
    allowed: usize,
}

impl PipeFilter for FailsAfter {
    fn filter(&mut self, _: &[u8]) -> Result<bool, Error> {
        if self.allowed == 0 {
            return Err(Error::Other);
        }
        self.allowed -= 1;
        Ok(true)
    }
}

/// Notes for each chunk which stream it came from.
struct Tagging {
    stderr: bool,
    streams: Arc<Mutex<Vec<(bool, Vec<u8>)>>>,
}

impl PipeFilter for Tagging {
    fn filter(&mut self, chunk: &[u8]) -> Result<bool, Error> {
        self.streams
            .lock()
            .unwrap()
            .push((self.stderr, chunk.to_vec()));
        Ok(true)
    }
}

fn every_third() -> (Pipe, Arc<Mutex<Vec<Vec<u8>>>>) {
    let seen = Arc::new(Mutex::new(Vec::new()));
    let filter = EveryThird {
        seen: Arc::clone(&seen),
    };
    (Pipe::new(Some(Box::new(filter))), seen)
}

#[test]
fn test_apply_verdict() {
    let mut buffer = b"foobar".to_vec();
    assert_eq!(Ok(()), apply_verdict(&mut buffer, 3, Ok(true)));
    assert_eq!(b"foobar".to_vec(), buffer);

    assert_eq!(Ok(()), apply_verdict(&mut buffer, 3, Ok(false)));
    assert_eq!(b"foo".to_vec(), buffer);

    assert_eq!(
        Err(Error::Os(5)),
        apply_verdict(&mut buffer, 1, Err(Error::Os(5))),
    );
    assert_eq!(b"foo".to_vec(), buffer);

    assert_eq!(Ok(()), apply_verdict(&mut buffer, 5, Ok(false)));
    assert_eq!(b"foo".to_vec(), buffer);

    assert_eq!(Ok(()), apply_verdict(&mut buffer, 0, Ok(false)));
    assert!(buffer.is_empty());
}

#[test]
fn test_run_filter_without_filter_keeps_everything() {
    let mut pipe = Pipe::new(None);
    let mut buffer = b"foobar".to_vec();
    assert_eq!(Ok(()), pipe.run_filter(&mut buffer, 3));
    assert_eq!(b"foobar".to_vec(), buffer);
}

#[test]
fn test_run_filter_shows_only_the_new_bytes() {
    let (mut pipe, seen) = every_third();
    let mut buffer = b"foobar".to_vec();
    assert_eq!(Ok(()), pipe.run_filter(&mut buffer, 3));
    assert_eq!(vec![b"bar".to_vec()], *seen.lock().unwrap());
    assert_eq!(b"foobar".to_vec(), buffer);
}

#[test]
fn test_filter_rejecting_every_third_chunk() {
    let (mut pipe, seen) = every_third();
    let reads: Vec<Vec<u8>> = (0..10u8).map(|i| vec![b'a' + i; 3]).collect();
    let output = read_to_end(&mut pipe, &reads).unwrap();

    assert_eq!(b"aaabbbdddeeeggghhhjjj".to_vec(), output);
    assert_eq!(reads, *seen.lock().unwrap());
}

#[test]
fn test_read_to_end_without_filter() {
    let mut pipe = Pipe::new(None);
    let reads = vec![b"foo".to_vec(), Vec::new(), b"bar".to_vec()];
    assert_eq!(Ok(b"foobar".to_vec()), read_to_end(&mut pipe, &reads));
    assert_eq!(Ok(Vec::new()), read_to_end(&mut pipe, &Vec::new()));
}

#[test]
fn test_read_to_end_stops_at_filter_failure() {
    let mut pipe = Pipe::new(Some(Box::new(FailsAfter { allowed: 2 })));
    let reads = vec![b"a".to_vec(), b"b".to_vec(), b"c".to_vec()];
    assert_eq!(Err(Error::Other), read_to_end(&mut pipe, &reads));
}

#[test]
fn test_classify_end() {
    assert_eq!(Ok(false), classify_end(Ok(())));
    assert_eq!(Ok(true), classify_end(WOULD_BLOCK));
    assert_eq!(
        Err(Error::Interrupted),
        classify_end(Err(Error::Interrupted)),
    );
    assert_eq!(
        Err(Error::Os(libc::EIO)),
        classify_end(Err(Error::Os(libc::EIO))),
    );
    assert_eq!(Err(Error::Other), classify_end(Err(Error::Other)));
}

#[test]
fn test_check_poll() {
    assert_eq!(Ok(true), check_poll(Ok(())));
    assert_eq!(Ok(false), check_poll(Err(Error::Interrupted)));
    assert_eq!(
        Err(Error::WouldBlock),
        check_poll(Err(Error::WouldBlock)),
    );
    assert_eq!(
        Err(Error::Os(libc::EBADF)),
        check_poll(Err(Error::Os(libc::EBADF))),
    );
    assert_eq!(Err(Error::NotFound), check_poll(Err(Error::NotFound)));
}

#[test]
fn test_next_result_appends_until_the_end() {
    let mut pipe = AsyncPipe::new(Pipe::new(None));
    assert_eq!(Ok(true), pipe.next_result(b"foo".to_vec(), WOULD_BLOCK));
    assert_eq!(Ok(true), pipe.next_result(Vec::new(), WOULD_BLOCK));
    assert_eq!(Ok(false), pipe.next_result(b"bar".to_vec(), Ok(())));
    assert_eq!(b"foobar".to_vec(), pipe.into_buffer());
}

#[test]
fn test_next_result_drops_rejected_bytes() {
    let (pipe, seen) = every_third();
    let mut pipe = AsyncPipe::new(pipe);
    assert_eq!(Ok(true), pipe.next_result(b"1".to_vec(), WOULD_BLOCK));
    assert_eq!(Ok(true), pipe.next_result(b"22".to_vec(), WOULD_BLOCK));
    assert_eq!(Ok(true), pipe.next_result(b"333".to_vec(), WOULD_BLOCK));
    assert_eq!(Ok(false), pipe.next_result(b"4444".to_vec(), Ok(())));
    assert_eq!(b"1224444".to_vec(), pipe.into_buffer());
    assert_eq!(4, seen.lock().unwrap().len());
}

#[test]
fn test_next_result_read_failure() {
    let (pipe, seen) = every_third();
    let mut pipe = AsyncPipe::new(pipe);
    assert_eq!(Ok(true), pipe.next_result(b"foo".to_vec(), WOULD_BLOCK));
    assert_eq!(
        Err(Error::Os(libc::EIO)),
        pipe.next_result(b"bar".to_vec(), Err(Error::Os(libc::EIO))),
    );
    assert_eq!(1, seen.lock().unwrap().len());
    assert_eq!(b"foo".to_vec(), pipe.into_buffer());
}

#[test]
fn test_next_result_filter_failure() {
    let mut pipe = AsyncPipe::new(Pipe::new(Some(Box::new(FailsAfter { allowed: 1 }))));
    assert_eq!(Ok(true), pipe.next_result(b"foo".to_vec(), WOULD_BLOCK));
    assert_eq!(
        Err(Error::Other),
        pipe.next_result(b"bar".to_vec(), WOULD_BLOCK),
    );
}

#[test]
fn test_read2_without_pipes_is_finished() {
    let reader = read2(None, None);
    assert!(reader.is_finished());
    assert_eq!((0, 0), reader.wait_set());
    assert_eq!((Vec::new(), Vec::new()), reader.finish());
}

#[test]
fn test_read2_with_stderr_only() {
    let mut reader = read2(None, Some(Pipe::new(None)));
    assert_eq!((0, 1), reader.wait_set());
    assert!(reader.is_active(0));
    assert!(!reader.is_active(1));
    assert_eq!(Ok(()), reader.ready(0, b"oops".to_vec(), Ok(())));
    assert!(reader.is_finished());
    assert_eq!((Vec::new(), b"oops".to_vec()), reader.finish());
}

#[test]
fn test_read2_with_stdout_only() {
    let mut reader = read2(Some(Pipe::new(None)), None);
    assert_eq!((0, 1), reader.wait_set());
    assert_eq!(Ok(()), reader.ready(0, b"fine".to_vec(), WOULD_BLOCK));
    assert!(!reader.is_finished());
    assert_eq!(Ok(()), reader.ready(0, Vec::new(), Ok(())));
    assert!(reader.is_finished());
    assert_eq!((b"fine".to_vec(), Vec::new()), reader.finish());
}

#[test]
fn test_read2_window_follows_the_open_pipe() {
    let mut reader = read2(Some(Pipe::new(None)), Some(Pipe::new(None)));
    assert_eq!((0, 2), reader.wait_set());

    assert_eq!(Ok(()), reader.ready(0, b"a".to_vec(), Ok(())));
    assert_eq!((1, 1), reader.wait_set());
    assert!(!reader.is_active(0));
    assert!(reader.is_active(1));

    assert_eq!(Ok(()), reader.ready(1, b"b".to_vec(), Ok(())));
    assert!(reader.is_finished());
    assert_eq!((b"a".to_vec(), b"b".to_vec()), reader.finish());

    let mut reader = read2(Some(Pipe::new(None)), Some(Pipe::new(None)));
    assert_eq!(Ok(()), reader.ready(1, b"b".to_vec(), Ok(())));
    assert_eq!((0, 1), reader.wait_set());
    assert!(reader.is_active(0));
    assert!(!reader.is_active(1));
    assert_eq!(Ok(()), reader.ready(0, b"a".to_vec(), Ok(())));
    assert!(reader.is_finished());
    assert_eq!((b"a".to_vec(), b"b".to_vec()), reader.finish());
}

#[test]
fn test_read2_both_pipes_end_in_one_round() {
    let mut reader = read2(Some(Pipe::new(None)), Some(Pipe::new(None)));
    let (start, length) = reader.wait_set();
    for index in start..start + usize::from(length) {
        assert_eq!(Ok(()), reader.ready(index, vec![index as u8], Ok(())));
    }
    assert!(reader.is_finished());
    assert_eq!((vec![0], vec![1]), reader.finish());
}

#[test]
fn test_read2_failure_ends_the_read() {
    let mut reader = read2(Some(Pipe::new(None)), Some(Pipe::new(None)));
    assert_eq!(
        Err(Error::Os(libc::EIO)),
        reader.ready(1, Vec::new(), Err(Error::Os(libc::EIO))),
    );
    assert_eq!((0, 2), reader.wait_set());
}

#[test]
fn test_read2_large_output_in_any_interleaving() {
    const BUFFER_COUNT: usize = 1024;
    const BUFFER_LENGTH: usize = 1024;
    const OUTPUT_LENGTH: usize = BUFFER_COUNT * BUFFER_LENGTH;

    fn test_output(output: Vec<u8>, byte: u8) {
        assert_eq!(OUTPUT_LENGTH, output.len());
        assert!(output.into_iter().all(|x| x == byte));
    }

    fn test_stream_output(stream: &[(bool, Vec<u8>)], byte: u8) {
        let mut buffer = Vec::new();
        for (_, output) in stream {
            buffer.extend(output);
        }
        test_output(buffer, byte);
    }

    // The pipes are found ready in turns of uneven length.
    for (stdout_turn, stderr_turn) in [(1, 1), (3, 1), (1, 5), (7, 2), (1024, 1024)] {
        let streams = Arc::new(Mutex::new(Vec::new()));
        let create_filter = |stderr| -> Option<Box<dyn PipeFilter>> {
            Some(Box::new(Tagging {
                stderr,
                streams: Arc::clone(&streams),
            }))
        };
        let mut reader = read2(
            Some(Pipe::new(create_filter(false))),
            Some(Pipe::new(create_filter(true))),
        );

        let mut left = [BUFFER_COUNT, BUFFER_COUNT];
        while !reader.is_finished() {
            for (index, turn) in [(0, stdout_turn), (1, stderr_turn)] {
                for _ in 0..turn {
                    if !reader.is_active(index) {
                        break;
                    }
                    let byte = if index == 0 { b'a' } else { b'b' };
                    let (chunk, end) = if left[index] == 0 {
                        (Vec::new(), Ok(()))
                    } else {
                        left[index] -= 1;
                        (vec![byte; BUFFER_LENGTH], WOULD_BLOCK)
                    };
                    assert_eq!(Ok(()), reader.ready(index, chunk, end));
                }
            }
        }

        let (stdout, stderr) = reader.finish();
        test_output(stdout, b'a');
        test_output(stderr, b'b');

        let mut streams = streams.lock().unwrap();
        let unordered_streams = streams.clone();
        streams.sort();
        if stdout_turn < BUFFER_COUNT {
            assert_ne!(*streams, unordered_streams);
        }
        let (stdout, stderr) = streams
            .iter()
            .position(|(x, _)| x == &true)
            .map(|x| streams.split_at(x))
            .expect("missing stderr");
        assert!(stdout.len() >= 2);
        assert!(stderr.len() >= 2);
        test_stream_output(stdout, b'a');
        test_stream_output(stderr, b'b');
    }
}

#[test]
fn test_new_bytes() {
    let buffer = b"foobar".to_vec();
    assert_eq!(b"bar", new_bytes(&buffer, 3));
    assert_eq!(b"foobar", new_bytes(&buffer, 0));
    assert!(new_bytes(&buffer, 6).is_empty());
}
