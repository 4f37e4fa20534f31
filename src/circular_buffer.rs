//! A fixed-capacity circular store of samples with one write cursor.
use vstd::prelude::*;

verus! {

/// Index into the storage of the sample written `k` steps before the most
/// recent one, for a cursor `wp` in a store of `n` samples.
pub open spec fn age_index(wp: int, n: int, k: int) -> int {
    if k < wp {
        wp - 1 - k
    } else {
        wp + n - 1 - k
    }
}

/// The offset actually read for a requested `offset`: anything past the end
/// falls back to the most recent sample.
pub open spec fn clamp_offset(offset: int, n: int) -> int {
    if offset >= n {
        0
    } else {
        offset
    }
}

/// The store seen newest first after writing `s` into `v`.
pub open spec fn after_write(v: Seq<i32>, s: i32) -> Seq<i32> {
    seq![s] + v.drop_last()
}

/// The store seen newest first after writing each of `inputs` in order.
pub open spec fn after_writes(v: Seq<i32>, inputs: Seq<i32>) -> Seq<i32>
    decreases inputs.len(),
{
    if inputs.len() == 0 {
        v
    } else {
        after_write(after_writes(v, inputs.drop_last()), inputs.last())
    }
}

/// `n` silent samples.
pub open spec fn silence(n: nat) -> Seq<i32> {
    Seq::new(n, |k: int| 0i32)
}

/// A delay line: `capacity` samples, written one at a time at a cursor that
/// wraps around. Read back by age, `0` being the newest sample.
pub struct CircleBuffer {
    sample_rate: u32,
    num_samples: usize,
    buffer: Vec<i32>,
    write_pos: usize,
}

impl View for CircleBuffer {
    type V = Seq<i32>;

    /// The stored samples, newest first.
    closed spec fn view(&self) -> Seq<i32> {
        Seq::new(
            self.num_samples as nat,
            |k: int| self.buffer@[age_index(self.write_pos as int, self.num_samples as int, k)],
        )
    }
}

impl CircleBuffer {
    pub closed spec fn wf(&self) -> bool {
        &&& self.buffer@.len() == self.num_samples
        &&& (self.num_samples == 0 ==> self.write_pos == 0)
        &&& (self.num_samples > 0 ==> self.write_pos < self.num_samples)
    }

    /// Number of samples held.
    pub closed spec fn capacity(&self) -> nat {
        self.num_samples as nat
    }

    /// The host sample rate, in hertz, of the last resize.
    pub closed spec fn rate(&self) -> u32 {
        self.sample_rate
    }

    /// An empty line: no storage until `resize` is called.
    pub fn new() -> (r: Self)
        ensures
            r.wf(),
            r.capacity() == 0,
            r@.len() == 0,
    {
        let buffer: Vec<i32> = Vec::new();
        let sample_rate: u32 = 1;
        CircleBuffer { sample_rate, num_samples: 0, buffer, write_pos: 0 }
    }

    /// Allocates `sample_rate * max_delay_seconds` silent samples and moves
    /// the cursor to the start.
    pub fn resize(&mut self, sample_rate: u32, max_delay_seconds: usize)
        requires
            sample_rate > 0,
            sample_rate as int * max_delay_seconds as int <= usize::MAX,
        ensures
            final(self).wf(),
            final(self).capacity() == sample_rate as int * max_delay_seconds as int,
            final(self).rate() == sample_rate,
            final(self)@ == silence(final(self).capacity()),
    {
        let n: usize = (sample_rate as usize) * max_delay_seconds;
        let mut buffer: Vec<i32> = Vec::with_capacity(n);
        let mut i: usize = 0;
        while i < n
            invariant
                i <= n,
                buffer@.len() == i,
                forall|j: int| 0 <= j < i ==> buffer@[j] == 0i32,
            decreases n - i,
        {
            buffer.push(0);
            i = i + 1;
        }
        self.sample_rate = sample_rate;
        self.num_samples = n;
        self.buffer = buffer;
        self.write_pos = 0;
        assert(self@ =~= Seq::new(n as nat, |k: int| 0i32));
    }

    /// Number of samples held.
    pub fn samples(&self) -> (r: usize)
        requires
            self.wf(),
        ensures
            r == self.capacity(),
            r == self@.len(),
    {
        self.num_samples
    }

    /// Stores `sample` at the cursor and advances the cursor by one.
    pub fn write(&mut self, sample: i32)
        requires
            old(self).wf(),
            old(self).capacity() > 0,
        ensures
            final(self).wf(),
            final(self).capacity() == old(self).capacity(),
            final(self).rate() == old(self).rate(),
            final(self)@ == after_write(old(self)@, sample),
    {
        let ghost before = self@;
        let wp = self.write_pos;
        self.buffer.set(wp, sample);
        self.write_pos = if wp + 1 == self.num_samples {
            0
        } else {
            wp + 1
        };
        assert(self@ =~= after_write(before, sample));
    }

    /// The sample written `read_offset` steps before the newest one; an offset
    /// past the end reads the newest sample.
    pub fn read(&self, read_offset: usize) -> (r: i32)
        requires
            self.wf(),
            self.capacity() > 0,
        ensures
            r == self@[clamp_offset(read_offset as int, self@.len() as int)],
    {
        let read_pos = self.get_read_pos(read_offset);
        self.buffer[read_pos]
    }

    fn get_read_pos(&self, read_offset: usize) -> (r: usize)
        requires
            self.wf(),
            self.capacity() > 0,
        ensures
            r < self.capacity(),
            r == age_index(
                self.write_pos as int,
                self.num_samples as int,
                clamp_offset(read_offset as int, self.num_samples as int),
            ),
    {
        let n = self.num_samples;
        let wp = self.write_pos;
        let offset = if read_offset >= n {
            0
        } else {
            read_offset
        };
        if offset < wp {
            wp - 1 - offset
        } else {
            (n - 1 - offset) + wp
        }
    }

    /// Writes `sample`, then reads at `read_offset` from the new cursor.
    pub fn write_and_read(&mut self, sample: i32, read_offset: usize) -> (r: i32)
        requires
            old(self).wf(),
            old(self).capacity() > 0,
        ensures
            final(self).wf(),
            final(self).capacity() == old(self).capacity(),
            final(self).rate() == old(self).rate(),
            final(self)@ == after_write(old(self)@, sample),
            r == final(self)@[clamp_offset(read_offset as int, final(self)@.len() as int)],
    {
        self.write(sample);
        self.read(read_offset)
    }

    /// Silences every sample and moves the cursor to the start, keeping the
    /// capacity.
    pub fn clear(&mut self)
        requires
            old(self).wf(),
        ensures
            final(self).wf(),
            final(self).capacity() == old(self).capacity(),
            final(self).rate() == old(self).rate(),
            final(self)@ == silence(final(self).capacity()),
    {
        let n = self.num_samples;
        let mut i: usize = 0;
        while i < n
            invariant
                i <= n,
                n == self.num_samples,
                self.sample_rate == old(self).sample_rate,
                self.buffer@.len() == n,
                forall|j: int| 0 <= j < i ==> self.buffer@[j] == 0i32,
            decreases n - i,
        {
            self.buffer.set(i, 0);
            i = i + 1;
        }
        self.write_pos = 0;
        assert(self@ =~= Seq::new(n as nat, |k: int| 0i32));
    }
}

/// Reading at offset `0` right after writing `s` gives back `s`, and a write
/// keeps the number of samples held.
pub proof fn lemma_read_newest(line: CircleBuffer, s: i32)
    requires
        line.wf(),
        line.capacity() > 0,
    ensures
        after_write(line@, s).len() == line.capacity(),
        after_write(line@, s)[0] == s,
{
}

/// Writing a sequence of samples keeps the number of samples held, and
/// afterwards the line holds the newest of them in reverse write order,
/// followed by what it held before.
pub proof fn lemma_after_writes(v: Seq<i32>, inputs: Seq<i32>)
    requires
        v.len() > 0,
    ensures
        after_writes(v, inputs).len() == v.len(),
        forall|k: int|
            0 <= k < v.len() && k < inputs.len() ==> after_writes(v, inputs)[k] == inputs[inputs.len()
                - 1 - k],
        forall|k: int|
            inputs.len() <= k < v.len() ==> after_writes(v, inputs)[k] == v[k - inputs.len()],
    decreases inputs.len(),
{
    if inputs.len() > 0 {
        lemma_after_writes(v, inputs.drop_last());
    }
}

/// Writing exactly `capacity` samples and then reading offsets `0` up to
/// `capacity - 1` gives them back newest first.
pub proof fn lemma_round_trip(line: CircleBuffer, inputs: Seq<i32>)
    requires
        line.wf(),
        line.capacity() > 0,
        inputs.len() == line.capacity(),
    ensures
        after_writes(line@, inputs).len() == line.capacity(),
        forall|k: int|
            0 <= k < line.capacity() ==> after_writes(line@, inputs)[k] == inputs[inputs.len() - 1
                - k],
{
    lemma_after_writes(line@, inputs);
}

/// One silent delay line per channel, each holding
/// `sample_rate * max_delay_seconds` samples.
pub fn channel_lines(sample_rate: u32, max_delay_seconds: usize, channels: usize) -> (r: Vec<
    CircleBuffer,
>)
    requires
        sample_rate > 0,
        sample_rate as int * max_delay_seconds as int <= usize::MAX,
    ensures
        r@.len() == channels,
        forall|c: int|
            0 <= c < channels ==> {
                &&& r@[c].wf()
                &&& r@[c].capacity() == sample_rate as int * max_delay_seconds as int
                &&& r@[c].rate() == sample_rate
                &&& r@[c]@ == silence(r@[c].capacity())
            },
{
    let mut lines: Vec<CircleBuffer> = Vec::with_capacity(channels);
    let mut c: usize = 0;
    while c < channels
        invariant
            c <= channels,
            sample_rate > 0,
            sample_rate as int * max_delay_seconds as int <= usize::MAX,
            lines@.len() == c,
            forall|k: int|
                0 <= k < c ==> {
                    &&& lines@[k].wf()
                    &&& lines@[k].capacity() == sample_rate as int * max_delay_seconds as int
                    &&& lines@[k].rate() == sample_rate
                    &&& lines@[k]@ == silence(lines@[k].capacity())
                },
        decreases channels - c,
    {
        let mut line = CircleBuffer::new();
        line.resize(sample_rate, max_delay_seconds);
        lines.push(line);
        c = c + 1;
    }
    lines
}

} // verus!
