use std::path::Path;
use virtual_disk::errno::ENOENT;
use virtual_disk::transfer::{
    classify_source_open_failure, destination_path, CopyRequest, CopyStage, TransferError,
    TransferJob, CHUNK_SIZE,
};

/// A source and a destination held in memory, on which a copy's requests
/// are carried out. A read delivers at most `read_limit` bytes.
struct MemoryFiles {
    source: Vec<u8>,
    position: usize,
    buffer: Vec<u8>,
    destination: Vec<u8>,
    read_limit: usize,
    log: Vec<CopyRequest>,
}

impl MemoryFiles {
    fn new(source: Vec<u8>, old_destination: Vec<u8>, read_limit: usize) -> MemoryFiles {
        MemoryFiles {
            source,
            position: 0,
            buffer: vec![0; CHUNK_SIZE],
            destination: old_destination,
            read_limit,
            log: Vec::new(),
        }
    }

    fn perform(&mut self, request: CopyRequest) -> usize {
        self.log.push(request);
        match request {
            CopyRequest::OpenSource => {
                self.position = 0;
                0
            }
            CopyRequest::OpenDestination => {
                self.destination.clear();
                0
            }
            CopyRequest::Read { capacity } => {
                assert_eq!(capacity, self.buffer.len());
                let left = self.source.len() - self.position;
                let count = left.min(capacity).min(self.read_limit);
                self.buffer[..count]
                    .copy_from_slice(&self.source[self.position..self.position + count]);
                self.position += count;
                count
            }
            CopyRequest::WriteAll { length } => {
                self.destination.extend_from_slice(&self.buffer[..length]);
                0
            }
            CopyRequest::Finished(_) => unreachable!(),
        }
    }
}

fn copy(files: &mut MemoryFiles) -> Result<(), TransferError> {
    let mut job = TransferJob::new(String::from("/srv/source.bin"), String::from("file.txt"));
    loop {
        match job.request() {
            CopyRequest::Finished(result) => return result,
            request => {
                let count = files.perform(request);
                job.advance(Ok(count));
            }
        }
        assert!(files.log.len() <= 100_000);
    }
}

fn pattern(length: usize) -> Vec<u8> {
    (0..length).map(|i| (i * 31 % 251) as u8).collect()
}

#[test]
fn new_job_has_nothing_done() {
    let job = TransferJob::new(
        String::from("/path/to/your/source/file.txt"),
        String::from("file.txt"),
    );
    assert_eq!(job.source_path(), "/path/to/your/source/file.txt");
    assert_eq!(job.destination_relative_path(), "file.txt");
    assert_eq!(job.stage(), CopyStage::OpeningSource);
    assert_eq!(job.request(), CopyRequest::OpenSource);
    assert_eq!(job.destination_path("/tmp/virtual_disk"), "/tmp/virtual_disk/file.txt");
}

#[test]
fn chunk_size_is_four_kibibytes() {
    assert_eq!(CHUNK_SIZE, 4096);
}

#[test]
fn ten_byte_file_is_copied_in_one_chunk() {
    let source = b"0123456789".to_vec();
    let mut files = MemoryFiles::new(source.clone(), Vec::new(), CHUNK_SIZE);
    assert_eq!(copy(&mut files), Ok(()));
    assert_eq!(files.destination, source);
    assert_eq!(
        files.log,
        vec![
            CopyRequest::OpenSource,
            CopyRequest::OpenDestination,
            CopyRequest::Read { capacity: 4096 },
            CopyRequest::WriteAll { length: 10 },
            CopyRequest::Read { capacity: 4096 },
        ]
    );
}

#[test]
fn long_file_is_copied_chunk_by_chunk() {
    let source = pattern(10_000);
    let mut files = MemoryFiles::new(source.clone(), Vec::new(), CHUNK_SIZE);
    assert_eq!(copy(&mut files), Ok(()));
    assert_eq!(files.destination, source);
    let writes: Vec<usize> = files
        .log
        .iter()
        .filter_map(|r| match r {
            CopyRequest::WriteAll { length } => Some(*length),
            _ => None,
        })
        .collect();
    assert_eq!(writes, vec![4096, 4096, 1808]);
}

#[test]
fn file_of_whole_chunks_is_copied() {
    let source = pattern(2 * CHUNK_SIZE);
    let mut files = MemoryFiles::new(source.clone(), Vec::new(), CHUNK_SIZE);
    assert_eq!(copy(&mut files), Ok(()));
    assert_eq!(files.destination, source);
}

#[test]
fn short_reads_do_not_lose_bytes() {
    for limit in [1usize, 7, 1000, 4095] {
        let source = pattern(9001);
        let mut files = MemoryFiles::new(source.clone(), Vec::new(), limit);
        assert_eq!(copy(&mut files), Ok(()));
        assert_eq!(files.destination, source);
    }
}

#[test]
fn empty_source_gives_empty_destination() {
    let mut files = MemoryFiles::new(Vec::new(), Vec::new(), CHUNK_SIZE);
    assert_eq!(copy(&mut files), Ok(()));
    assert!(files.destination.is_empty());
    assert_eq!(
        files.log,
        vec![
            CopyRequest::OpenSource,
            CopyRequest::OpenDestination,
            CopyRequest::Read { capacity: 4096 },
        ]
    );
}

#[test]
fn old_destination_contents_do_not_survive() {
    let source = b"new".to_vec();
    let mut files = MemoryFiles::new(source.clone(), b"something much longer".to_vec(), CHUNK_SIZE);
    assert_eq!(copy(&mut files), Ok(()));
    assert_eq!(files.destination, source);
}

#[test]
fn missing_source_is_source_not_found() {
    let mut job = TransferJob::new(String::from("/nowhere"), String::from("file.txt"));
    job.advance(Err(ENOENT));
    assert_eq!(job.stage(), CopyStage::Failed(TransferError::SourceNotFound));
    assert_eq!(job.request(), CopyRequest::Finished(Err(TransferError::SourceNotFound)));
}

#[test]
fn other_source_failures_are_source_unreadable() {
    for code in [1, 13, 21, 0, -1] {
        let mut job = TransferJob::new(String::from("/secret"), String::from("file.txt"));
        job.advance(Err(code));
        assert_eq!(
            job.request(),
            CopyRequest::Finished(Err(TransferError::SourceUnreadable(code)))
        );
    }
}

#[test]
fn destination_failure_is_destination_unwritable() {
    for code in [2, 13, 30] {
        let mut job = TransferJob::new(String::from("/srv/a"), String::from("file.txt"));
        job.advance(Ok(0));
        assert_eq!(job.request(), CopyRequest::OpenDestination);
        job.advance(Err(code));
        assert_eq!(
            job.request(),
            CopyRequest::Finished(Err(TransferError::DestinationUnwritable(code)))
        );
    }
}

#[test]
fn read_failure_is_io() {
    let mut job = TransferJob::new(String::from("/srv/a"), String::from("file.txt"));
    job.advance(Ok(0));
    job.advance(Ok(0));
    assert_eq!(job.request(), CopyRequest::Read { capacity: CHUNK_SIZE });
    job.advance(Err(5));
    assert_eq!(job.request(), CopyRequest::Finished(Err(TransferError::Io(5))));
}

#[test]
fn write_failure_is_io_even_for_a_missing_file_code() {
    let mut job = TransferJob::new(String::from("/srv/a"), String::from("file.txt"));
    job.advance(Ok(0));
    job.advance(Ok(0));
    job.advance(Ok(4096));
    assert_eq!(job.stage(), CopyStage::Writing(4096));
    assert_eq!(job.request(), CopyRequest::WriteAll { length: 4096 });
    job.advance(Err(28));
    assert_eq!(job.request(), CopyRequest::Finished(Err(TransferError::Io(28))));

    let mut job = TransferJob::new(String::from("/srv/a"), String::from("file.txt"));
    job.advance(Ok(0));
    job.advance(Ok(0));
    job.advance(Ok(1));
    job.advance(Err(ENOENT));
    assert_eq!(job.request(), CopyRequest::Finished(Err(TransferError::Io(2))));
}

#[test]
fn failure_after_some_chunks_ends_the_copy() {
    let mut job = TransferJob::new(String::from("/srv/a"), String::from("file.txt"));
    job.advance(Ok(0));
    job.advance(Ok(0));
    job.advance(Ok(4096));
    job.advance(Ok(4096));
    assert_eq!(job.stage(), CopyStage::Reading);
    job.advance(Ok(100));
    job.advance(Ok(0));
    job.advance(Err(5));
    assert_eq!(job.stage(), CopyStage::Failed(TransferError::Io(5)));
}

#[test]
fn finished_copy_ignores_further_outcomes() {
    let mut job = TransferJob::new(String::from("/srv/a"), String::from("file.txt"));
    job.advance(Ok(0));
    job.advance(Ok(0));
    job.advance(Ok(0));
    assert_eq!(job.stage(), CopyStage::Copied);
    job.advance(Err(5));
    job.advance(Ok(77));
    assert_eq!(job.stage(), CopyStage::Copied);
    assert_eq!(job.request(), CopyRequest::Finished(Ok(())));
    assert_eq!(job.source_path(), "/srv/a");
    assert_eq!(job.destination_relative_path(), "file.txt");

    let mut job = TransferJob::new(String::from("/srv/a"), String::from("file.txt"));
    job.advance(Err(2));
    job.advance(Ok(10));
    assert_eq!(job.stage(), CopyStage::Failed(TransferError::SourceNotFound));
}

#[test]
fn open_outcomes_do_not_look_at_the_count() {
    let mut job = TransferJob::new(String::from("/srv/a"), String::from("file.txt"));
    job.advance(Ok(123_456));
    assert_eq!(job.stage(), CopyStage::OpeningDestination);
    job.advance(Ok(usize::MAX));
    assert_eq!(job.stage(), CopyStage::Reading);
}

#[test]
fn source_open_failures_are_classified_by_number() {
    assert_eq!(classify_source_open_failure(2), TransferError::SourceNotFound);
    assert_eq!(classify_source_open_failure(libc::ENOENT), TransferError::SourceNotFound);
    assert_eq!(classify_source_open_failure(13), TransferError::SourceUnreadable(13));
    assert_eq!(classify_source_open_failure(0), TransferError::SourceUnreadable(0));
    assert_eq!(classify_source_open_failure(-2), TransferError::SourceUnreadable(-2));
}

#[test]
fn destination_path_puts_a_separator_between() {
    assert_eq!(destination_path("/tmp/virtual_disk", "file.txt"), "/tmp/virtual_disk/file.txt");
    assert_eq!(destination_path("mnt", "a/b.txt"), "mnt/a/b.txt");
}

#[test]
fn destination_path_keeps_a_separator_that_is_there() {
    assert_eq!(destination_path("/tmp/virtual_disk/", "file.txt"), "/tmp/virtual_disk/file.txt");
    assert_eq!(destination_path("/", "file.txt"), "/file.txt");
}

#[test]
fn destination_path_of_a_rooted_name_is_that_name() {
    assert_eq!(destination_path("/tmp/virtual_disk", "/etc/passwd"), "/etc/passwd");
    assert_eq!(destination_path("", "/x"), "/x");
}

#[test]
fn destination_path_with_an_empty_part() {
    assert_eq!(destination_path("", "file.txt"), "file.txt");
    assert_eq!(destination_path("/mnt", ""), "/mnt/");
    assert_eq!(destination_path("/mnt/", ""), "/mnt/");
    assert_eq!(destination_path("", ""), "");
}

#[test]
fn destination_path_counts_characters_not_bytes() {
    assert_eq!(destination_path("/mnt/caf\u{e9}", "\u{fc}ber.txt"), "/mnt/caf\u{e9}/\u{fc}ber.txt");
    assert_eq!(destination_path("/mnt/\u{e9}/", "x"), "/mnt/\u{e9}/x");
}

#[test]
fn destination_path_agrees_with_the_standard_library() {
    let directories = ["", "/", "/tmp/virtual_disk", "/tmp/virtual_disk/", "mnt", "mnt//", "a b", "/mnt/\u{e9}"];
    let names = ["", "file.txt", "/file.txt", "a/b", "./x", "../x", "//x", "x/", "\u{fc}"];
    for directory in directories {
        for name in names {
            let expected = Path::new(directory).join(name);
            assert_eq!(destination_path(directory, name), expected.to_str().unwrap());
        }
    }
}
