use vstd::prelude::*;

verus! {

/// One block of a file, as the loader hands it out.
pub struct FileBuffer {
    data: Vec<u8>,
}

impl View for FileBuffer {
    type V = Seq<u8>;

    closed spec fn view(&self) -> Seq<u8> {
        self.data@
    }
}

impl FileBuffer {
    /// A buffer that holds a copy of `buff`.
    pub fn new(buff: &[u8]) -> (buffer: Self)
        ensures
            buffer@ == buff@,
    {
        FileBuffer { data: vstd::slice::slice_to_vec(buff) }
    }

    /// The bytes of the block.
    pub fn data(&self) -> (data: &[u8])
        ensures
            data@ == self@,
    {
        self.data.as_slice()
    }
}

/// What a positional read of one block from the file came back with.
pub enum ReadOutcome {
    /// The read failed.
    Failed,
    /// The read returned this many bytes.
    Read(usize),
}

/// What the loader does with a read.
#[derive(Debug, Clone, Copy, PartialEq, Eq, Structural)]
pub enum LoaderStep {
    /// A whole block was read: hand it out; the next read is of the following block.
    Block,
    /// The file ended inside the block and the loader loops: read again from the first block.
    Rewind,
    /// The file ended inside the block and the loader does not loop: there is no block.
    Exhausted,
    /// The read failed: report it; the next read is of the same block.
    Error,
}

/// Where a file loader stands in its file: the block to read next, the size of the
/// blocks, and whether it starts over at the end of the file.
pub struct BlockCursor {
    current_block: usize,
    block_size: usize,
    enable_loop: bool,
}

/// Bytes that a positional read of `size` bytes at `offset` gets from a file of `len`
/// bytes that hands out every byte asked for.
pub open spec fn bytes_read(len: nat, offset: nat, size: nat) -> nat {
    if offset >= len {
        0
    } else if len - offset >= size {
        size
    } else {
        (len - offset) as nat
    }
}

impl BlockCursor {
    /// Index of the block to read next.
    pub closed spec fn block(self) -> nat {
        self.current_block as nat
    }

    /// Size of a block in bytes.
    pub closed spec fn size(self) -> nat {
        self.block_size as nat
    }

    /// Whether the loader starts over at the end of the file.
    pub closed spec fn looping(self) -> bool {
        self.enable_loop
    }

    /// Byte offset of the block to read next.
    pub open spec fn offset(self) -> nat {
        self.block() * self.size()
    }

    /// A cursor at the first block.
    pub closed spec fn fresh(size: usize, looping: bool) -> Self {
        BlockCursor { current_block: 0, block_size: size, enable_loop: looping }
    }

    /// The cursor after a read with the given outcome, and what the loader does with it.
    pub closed spec fn transition(self, outcome: ReadOutcome) -> (Self, LoaderStep) {
        match outcome {
            ReadOutcome::Failed => (self, LoaderStep::Error),
            ReadOutcome::Read(n) => {
                if n < self.block_size {
                    if self.enable_loop {
                        (BlockCursor { current_block: 0, ..self }, LoaderStep::Rewind)
                    } else {
                        (self, LoaderStep::Exhausted)
                    }
                } else {
                    (
                        BlockCursor { current_block: (self.current_block + 1) as usize, ..self },
                        LoaderStep::Block,
                    )
                }
            },
        }
    }

    pub fn new(block_size: usize, enable_loop: bool) -> (cursor: Self)
        ensures
            cursor == Self::fresh(block_size, enable_loop),
            cursor.block() == 0,
            cursor.size() == block_size,
            cursor.looping() == enable_loop,
    {
        BlockCursor { current_block: 0, block_size, enable_loop }
    }

    /// Index of the block to read next.
    pub fn current_block(&self) -> (block: usize)
        ensures
            block == self.block(),
    {
        self.current_block
    }

    pub fn block_size(&self) -> (size: usize)
        ensures
            size == self.size(),
    {
        self.block_size
    }

    /// Byte offset at which the next block is read.
    pub fn read_offset(&self) -> (offset: u64)
        requires
            self.offset() <= usize::MAX,
        ensures
            offset == self.offset(),
    {
        (self.current_block * self.block_size) as u64
    }

    /// Takes the outcome of reading the next block. A failed read changes nothing; a
    /// whole block moves on to the following block; a short read starts over at the
    /// first block when looping and changes nothing otherwise.
    pub fn on_read(&mut self, outcome: ReadOutcome) -> (step: LoaderStep)
        requires
            (outcome matches ReadOutcome::Read(n) && n >= old(self).size()) ==> old(self).block()
                + 1 <= usize::MAX,
        ensures
            (*final(self), step) == old(self).transition(outcome),
            final(self).size() == old(self).size(),
            final(self).looping() == old(self).looping(),
            match outcome {
                ReadOutcome::Failed => step == LoaderStep::Error && *final(self) == *old(self),
                ReadOutcome::Read(n) => if n < old(self).size() {
                    if old(self).looping() {
                        step == LoaderStep::Rewind && final(self).block() == 0
                    } else {
                        step == LoaderStep::Exhausted && *final(self) == *old(self)
                    }
                } else {
                    step == LoaderStep::Block && final(self).block() == old(self).block() + 1
                },
            },
    {
        match outcome {
            ReadOutcome::Failed => LoaderStep::Error,
            ReadOutcome::Read(n) => {
                if n < self.block_size {
                    if self.enable_loop {
                        self.current_block = 0;
                        LoaderStep::Rewind
                    } else {
                        LoaderStep::Exhausted
                    }
                } else {
                    self.current_block = self.current_block + 1;
                    LoaderStep::Block
                }
            },
        }
    }

    /// One call of the loader's `next` on a file of `len` bytes: the cursor after it and
    /// the index of the block handed out, if any. After a rewind the first block is read
    /// at once.
    pub closed spec fn next_on(self, len: nat) -> (Self, Option<nat>) {
        let n = bytes_read(len, self.offset(), self.size());
        let (c1, s1) = self.transition(ReadOutcome::Read(n as usize));
        if s1 == LoaderStep::Block {
            (c1, Some(self.block()))
        } else if s1 == LoaderStep::Rewind {
            let m = bytes_read(len, 0, self.size());
            let (c2, s2) = c1.transition(ReadOutcome::Read(m as usize));
            if s2 == LoaderStep::Block {
                (c2, Some(0))
            } else {
                (c2, None)
            }
        } else {
            (c1, None)
        }
    }

    /// The cursor after `k` calls of `next` on a file of `len` bytes.
    pub closed spec fn after_calls(self, len: nat, k: nat) -> Self
        decreases k,
    {
        if k == 0 {
            self
        } else {
            self.after_calls(len, (k - 1) as nat).next_on(len).0
        }
    }

    /// The block handed out by call number `k` (from 0) of `next` on a file of `len` bytes.
    pub closed spec fn block_of_call(self, len: nat, k: nat) -> Option<nat> {
        self.after_calls(len, k).next_on(len).1
    }
}

proof fn lemma_read_at_block(len: nat, size: nat, b: nat)
    requires
        size > 0,
    ensures
        b < len / size ==> bytes_read(len, b * size, size) == size,
        b == len / size ==> bytes_read(len, b * size, size) < size,
{
    let nb = len / size;
    vstd::arithmetic::div_mod::lemma_fundamental_div_mod(len as int, size as int);
    assert(len == size * nb + len % size);
    if b < nb {
        assert((b + 1) * size <= nb * size) by (nonlinear_arith)
            requires
                b + 1 <= nb,
        ;
        assert(b * size + size == (b + 1) * size) by (nonlinear_arith);
    }
    if b == nb {
        assert(b * size == size * nb) by (nonlinear_arith)
            requires
                b == nb,
        ;
    }
}

proof fn lemma_no_loop_state(size: usize, len: nat, k: nat)
    requires
        size > 0,
        len / (size as nat) < usize::MAX,
    ensures
        BlockCursor::fresh(size, false).after_calls(len, k) == (BlockCursor {
            current_block: (if k < len / (size as nat) {
                k
            } else {
                len / (size as nat)
            }) as usize,
            block_size: size,
            enable_loop: false,
        }),
    decreases k,
{
    let nb = len / (size as nat);
    if k > 0 {
        lemma_no_loop_state(size, len, (k - 1) as nat);
        let c = BlockCursor::fresh(size, false).after_calls(len, (k - 1) as nat);
        lemma_read_at_block(len, size as nat, c.block());
    }
}

proof fn lemma_mod_step(x: nat, n: nat)
    requires
        n > 0,
    ensures
        (x + 1) % n == if x % n + 1 == n {
            0
        } else {
            x % n + 1
        },
        x % n < n,
{
    let q = x / n;
    let r = x % n;
    vstd::arithmetic::div_mod::lemma_fundamental_div_mod(x as int, n as int);
    assert(x == q * n + r) by (nonlinear_arith)
        requires
            x == n * q + r,
    ;
    if r + 1 == n {
        assert(x + 1 == (q + 1) * n + 0) by (nonlinear_arith)
            requires
                x == q * n + r,
                r + 1 == n,
        ;
        vstd::arithmetic::div_mod::lemma_fundamental_div_mod_converse(
            (x + 1) as int,
            n as int,
            (q + 1) as int,
            0,
        );
    } else {
        vstd::arithmetic::div_mod::lemma_fundamental_div_mod_converse(
            (x + 1) as int,
            n as int,
            q as int,
            (r + 1) as int,
        );
    }
}

proof fn lemma_loop_state(size: usize, len: nat, k: nat)
    requires
        size > 0,
        len >= size,
        len / (size as nat) < usize::MAX,
    ensures
        BlockCursor::fresh(size, true).after_calls(len, k) == (BlockCursor {
            current_block: (if k == 0 {
                0
            } else {
                ((k - 1) as nat) % (len / (size as nat)) + 1
            }) as usize,
            block_size: size,
            enable_loop: true,
        }),
    decreases k,
{
    let nb = len / (size as nat);
    vstd::arithmetic::div_mod::lemma_div_is_ordered(size as int, len as int, size as int);
    vstd::arithmetic::div_mod::lemma_div_multiples_vanish(1, size as int);
    assert(nb >= 1);
    if k > 0 {
        lemma_loop_state(size, len, (k - 1) as nat);
        let c = BlockCursor::fresh(size, true).after_calls(len, (k - 1) as nat);
        lemma_read_at_block(len, size as nat, c.block());
        lemma_read_at_block(len, size as nat, 0);
        assert(0 * (size as nat) == 0);
        if k == 1 {
            vstd::arithmetic::div_mod::lemma_small_mod(0, nb);
        } else {
            lemma_mod_step((k - 2) as nat, nb);
            assert(((k - 1) as nat) == ((k - 2) as nat) + 1);
        }
    }
}

/// Without looping, the loader hands out the blocks of the file in order, one per
/// call, and then no block on every later call.
pub proof fn lemma_blocks_in_order(size: usize, len: nat, k: nat)
    requires
        size > 0,
        len / (size as nat) < usize::MAX,
    ensures
        BlockCursor::fresh(size, false).block_of_call(len, k) == if k < len / (size as nat) {
            Some(k)
        } else {
            None::<nat>
        },
{
    lemma_no_loop_state(size, len, k);
    lemma_read_at_block(len, size as nat, if k < len / (size as nat) { k } else { len / (size as nat) });
}

/// With looping, a file of at least one block is played round and round: call number
/// `k` hands out block `k` modulo the number of whole blocks in the file.
pub proof fn lemma_blocks_loop(size: usize, len: nat, k: nat)
    requires
        size > 0,
        len >= size,
        len / (size as nat) < usize::MAX,
    ensures
        BlockCursor::fresh(size, true).block_of_call(len, k) == Some(k % (len / (size as nat))),
{
    let nb = len / (size as nat);
    vstd::arithmetic::div_mod::lemma_div_is_ordered(size as int, len as int, size as int);
    vstd::arithmetic::div_mod::lemma_div_multiples_vanish(1, size as int);
    lemma_loop_state(size, len, k);
    let c = BlockCursor::fresh(size, true).after_calls(len, k);
    lemma_read_at_block(len, size as nat, c.block());
    lemma_read_at_block(len, size as nat, 0);
    if k == 0 {
        vstd::arithmetic::div_mod::lemma_small_mod(0, nb);
    } else {
        lemma_mod_step((k - 1) as nat, nb);
    }
}

} // verus!
