use tapeview::file_loader::{BlockCursor, FileBuffer, LoaderStep, ReadOutcome};

/// Plays the loader's `next` against a file held in memory.
fn next_block(cursor: &mut BlockCursor, file: &[u8]) -> Option<FileBuffer> {
    loop {
        let offset = cursor.read_offset() as usize;
        let size = cursor.block_size();
        let end = (offset + size).min(file.len());
        let chunk = if offset < file.len() { &file[offset..end] } else { &file[0..0] };
        match cursor.on_read(ReadOutcome::Read(chunk.len())) {
            LoaderStep::Block => return Some(FileBuffer::new(chunk)),
            LoaderStep::Rewind => continue,
            LoaderStep::Exhausted => return None,
            LoaderStep::Error => unreachable!(),
        }
    }
}

fn as_number(buffer: &FileBuffer) -> u32 {
    std::str::from_utf8(buffer.data()).unwrap().parse::<u32>().unwrap()
}

#[test]
fn blocks_come_in_order_then_stop() {
    let file = b"000001002003004";
    let mut cursor = BlockCursor::new(3, false);
    for index in 0..5 {
        let block = next_block(&mut cursor, file).unwrap();
        assert_eq!(as_number(&block), index);
    }
    assert!(next_block(&mut cursor, file).is_none());
    assert!(next_block(&mut cursor, file).is_none());
}

#[test]
fn trailing_partial_block_is_dropped() {
    let file = b"00000100";
    let mut cursor = BlockCursor::new(3, false);
    assert_eq!(as_number(&next_block(&mut cursor, file).unwrap()), 0);
    assert_eq!(as_number(&next_block(&mut cursor, file).unwrap()), 1);
    assert!(next_block(&mut cursor, file).is_none());
}

#[test]
fn looping_starts_over() {
    let file = b"001002003";
    let mut cursor = BlockCursor::new(3, true);
    for expected in [1, 2, 3, 1, 2, 3, 1] {
        assert_eq!(as_number(&next_block(&mut cursor, file).unwrap()), expected);
    }
}

#[test]
fn offsets_follow_blocks() {
    let mut cursor = BlockCursor::new(4, false);
    assert_eq!(cursor.read_offset(), 0);
    assert_eq!(cursor.on_read(ReadOutcome::Read(4)), LoaderStep::Block);
    assert_eq!(cursor.read_offset(), 4);
    assert_eq!(cursor.on_read(ReadOutcome::Read(10)), LoaderStep::Block);
    assert_eq!(cursor.read_offset(), 8);
}

#[test]
fn failed_read_changes_nothing() {
    let mut cursor = BlockCursor::new(4, true);
    cursor.on_read(ReadOutcome::Read(4));
    assert_eq!(cursor.on_read(ReadOutcome::Failed), LoaderStep::Error);
    assert_eq!(cursor.read_offset(), 4);
}

#[test]
fn short_read_without_loop_stays_put() {
    let mut cursor = BlockCursor::new(4, false);
    cursor.on_read(ReadOutcome::Read(4));
    assert_eq!(cursor.on_read(ReadOutcome::Read(2)), LoaderStep::Exhausted);
    assert_eq!(cursor.read_offset(), 4);
}

#[test]
fn short_read_with_loop_rewinds() {
    let mut cursor = BlockCursor::new(4, true);
    cursor.on_read(ReadOutcome::Read(4));
    cursor.on_read(ReadOutcome::Read(4));
    assert_eq!(cursor.on_read(ReadOutcome::Read(0)), LoaderStep::Rewind);
    assert_eq!(cursor.read_offset(), 0);
}

#[test]
fn file_buffer_copies_bytes() {
    let bytes = [9u8, 8, 7];
    let buffer = FileBuffer::new(&bytes);
    assert_eq!(buffer.data(), &[9u8, 8, 7]);
}
