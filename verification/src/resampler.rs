//! Block bookkeeping for sample-rate conversion.
//!
//! The conversion of one block is floating-point work done by a transform
//! engine outside this crate. What is fixed here is everything around it:
//! how input is cut into blocks of `CHUNK_SIZE` samples, how the last block
//! is padded, how the output is collected and trimmed, and how a stream of
//! uneven inputs is gathered into full blocks.

use vstd::prelude::*;

verus! {

/// Samples in one block handed to the transform.
pub const CHUNK_SIZE: usize = 1024;

/// Sub-blocks the transform works with.
pub const SUB_CHUNKS: usize = 2;

/// Samples kept beyond the expected length when a batch result is trimmed.
pub const TRIM_MARGIN: usize = 100;

/// Length of `input_len` samples after conversion, rounded down.
pub open spec fn expected_len(input_len: nat, from_rate: nat, to_rate: nat) -> nat
    recommends
        from_rate > 0,
{
    input_len * to_rate / from_rate
}

/// The longest batch result for an input of `input_len` samples: the
/// expected length and the margin, capped at `usize::MAX`.
pub open spec fn output_limit(input_len: nat, from_rate: nat, to_rate: nat) -> nat
    recommends
        from_rate > 0,
{
    let wanted = expected_len(input_len, from_rate, to_rate) + TRIM_MARGIN as nat;
    if wanted <= usize::MAX {
        wanted
    } else {
        usize::MAX as nat
    }
}

/// The block that starts at `pos`: the next `CHUNK_SIZE` samples, with
/// silence where the input has ended.
pub open spec fn block_at(input: Seq<u32>, pos: int) -> Seq<u32> {
    Seq::new(
        CHUNK_SIZE as nat,
        |i: int|
            if 0 <= pos + i < input.len() {
                input[pos + i]
            } else {
                0u32
            },
    )
}

/// Where the block after the one at `pos` starts: `CHUNK_SIZE` further, or
/// at the end of the input.
pub open spec fn next_pos(len: nat, pos: nat) -> nat {
    if pos + CHUNK_SIZE <= len {
        pos + CHUNK_SIZE as nat
    } else {
        len
    }
}

/// A batch result of `produced` samples after trimming to `limit`.
pub open spec fn trimmed(produced: Seq<u32>, limit: nat) -> Seq<u32> {
    if produced.len() <= limit {
        produced
    } else {
        produced.take(limit as int)
    }
}

/// Computes `output_limit`.
pub fn batch_output_limit(input_len: usize, from_rate: u32, to_rate: u32) -> (limit: usize)
    requires
        from_rate > 0,
    ensures
        limit == output_limit(input_len as nat, from_rate as nat, to_rate as nat),
{
    proof {
        assert(input_len * to_rate <= 0xffff_ffff_ffff_ffff * 0xffff_ffff) by (nonlinear_arith)
            requires
                0 <= input_len <= 0xffff_ffff_ffff_ffff,
                0 <= to_rate <= 0xffff_ffff,
        ;
        assert(input_len * to_rate / (from_rate as int) <= input_len * to_rate) by (nonlinear_arith)
            requires
                input_len * to_rate >= 0,
                from_rate >= 1,
        ;
    }
    let product: u128 = (input_len as u128) * (to_rate as u128);
    let wanted: u128 = product / (from_rate as u128) + (TRIM_MARGIN as u128);
    if wanted > usize::MAX as u128 {
        usize::MAX
    } else {
        wanted as usize
    }
}

/// One conversion of a whole buffer, block by block.
pub struct BatchJob {
    input: Vec<u32>,
    pos: usize,
    output: Vec<u32>,
    limit: usize,
    passthrough: bool,
}

impl BatchJob {
    /// The samples to convert.
    pub closed spec fn input(&self) -> Seq<u32> {
        self.input@
    }

    /// Start of the next block; the length of the input once all is done.
    pub closed spec fn position(&self) -> nat {
        self.pos as nat
    }

    /// The output collected so far.
    pub closed spec fn collected(&self) -> Seq<u32> {
        self.output@
    }

    /// The length the result is trimmed to.
    pub closed spec fn limit(&self) -> nat {
        self.limit as nat
    }

    /// Whether the rates agree, so that no transform is needed.
    pub closed spec fn is_passthrough(&self) -> bool {
        self.passthrough
    }

    pub closed spec fn wf(&self) -> bool {
        &&& self.pos <= self.input@.len()
        &&& self.passthrough ==> self.pos == self.input@.len()
    }

    /// Plans the conversion of `samples`. With equal rates the plan is
    /// complete at once and its result is the input, unchanged.
    pub fn new(samples: &[u32], from_rate: u32, to_rate: u32) -> (job: BatchJob)
        requires
            from_rate == to_rate || from_rate > 0,
        ensures
            job.wf(),
            job.input() == samples@,
            job.is_passthrough() == (from_rate == to_rate),
            from_rate == to_rate ==> job.position() == samples@.len() && job.collected()
                == samples@ && job.limit() == samples@.len(),
            from_rate != to_rate ==> job.position() == 0 && job.collected() == Seq::<u32>::empty()
                && job.limit() == output_limit(
                samples@.len(),
                from_rate as nat,
                to_rate as nat,
            ),
    {
        let input = vstd::slice::slice_to_vec(samples);
        if from_rate == to_rate {
            let output = vstd::slice::slice_to_vec(samples);
            BatchJob { pos: input.len(), limit: input.len(), input, output, passthrough: true }
        } else {
            let limit = batch_output_limit(samples.len(), from_rate, to_rate);
            BatchJob { input, pos: 0, output: Vec::new(), limit, passthrough: false }
        }
    }

    /// Whether the transform engine is needed at all.
    pub fn needs_transform(&self) -> (needed: bool)
        ensures
            needed == !self.is_passthrough(),
    {
        !self.passthrough
    }

    /// The next block for the transform, padded with silence to
    /// `CHUNK_SIZE`, or `None` when the whole input has been handed out.
    pub fn next_block(&self) -> (block: Option<Vec<u32>>)
        requires
            self.wf(),
        ensures
            self.position() >= self.input().len() <==> block is None,
            block matches Some(b) ==> b@ == block_at(self.input(), self.position() as int),
    {
        if self.pos >= self.input.len() {
            return None;
        }
        let mut block: Vec<u32> = Vec::new();
        let mut i: usize = 0;
        while i < CHUNK_SIZE
            invariant
                i <= CHUNK_SIZE,
                self.pos < self.input@.len(),
                block@.len() == i,
                forall|k: int|
                    0 <= k < i ==> #[trigger] block@[k] == block_at(self.input@, self.pos as int)[k],
            decreases CHUNK_SIZE - i,
        {
            let sample: u32 = if i < self.input.len() - self.pos {
                self.input[self.pos + i]
            } else {
                0
            };
            block.push(sample);
            i = i + 1;
        }
        proof {
            assert(block@ =~= block_at(self.input@, self.pos as int));
        }
        Some(block)
    }

    /// Takes what the transform made of the current block and moves on to
    /// the next one.
    pub fn accept(&mut self, produced: &[u32])
        requires
            old(self).wf(),
            old(self).position() < old(self).input().len(),
        ensures
            final(self).wf(),
            final(self).input() == old(self).input(),
            final(self).limit() == old(self).limit(),
            final(self).is_passthrough() == old(self).is_passthrough(),
            final(self).collected() == old(self).collected() + produced@,
            final(self).position() == next_pos(old(self).input().len(), old(self).position()),
    {
        let ghost before = self.output@;
        let mut i: usize = 0;
        while i < produced.len()
            invariant
                i <= produced@.len(),
                self.output@ == before + produced@.take(i as int),
                self.input == old(self).input,
                self.pos == old(self).pos,
                self.limit == old(self).limit,
                self.passthrough == old(self).passthrough,
            decreases produced.len() - i,
        {
            self.output.push(produced[i]);
            proof {
                assert(produced@.take(i + 1) =~= produced@.take(i as int).push(produced@[i as int]));
            }
            i = i + 1;
        }
        proof {
            assert(produced@.take(produced@.len() as int) =~= produced@);
        }
        if self.input.len() - self.pos <= CHUNK_SIZE {
            self.pos = self.input.len();
        } else {
            self.pos = self.pos + CHUNK_SIZE;
        }
    }

    /// The result: what was collected, cut down to the limit. Nothing is
    /// cut that lies within the expected length and the margin.
    pub fn finish(self) -> (result: Vec<u32>)
        ensures
            result@ == trimmed(self.collected(), self.limit()),
    {
        let mut output = self.output;
        output.truncate(self.limit);
        output
    }
}

/// Gathers a stream of uneven inputs into full blocks.
pub struct StreamBuffer {
    pending: Vec<u32>,
}

impl View for StreamBuffer {
    type V = Seq<u32>;

    /// The samples received and not yet handed out, oldest first.
    closed spec fn view(&self) -> Seq<u32> {
        self.pending@
    }
}

impl StreamBuffer {
    /// An empty buffer.
    pub fn new() -> (buffer: StreamBuffer)
        ensures
            buffer@ == Seq::<u32>::empty(),
    {
        StreamBuffer { pending: Vec::new() }
    }

    /// Adds `samples` to the buffer. If it then holds a full block, the
    /// oldest `CHUNK_SIZE` samples leave it as the block to transform;
    /// otherwise more input is needed and `None` is returned.
    pub fn feed(&mut self, samples: &[u32]) -> (block: Option<Vec<u32>>)
        ensures
            old(self)@.len() + samples@.len() < CHUNK_SIZE ==> block is None && final(self)@ == old(
                self,
            )@ + samples@,
            old(self)@.len() + samples@.len() >= CHUNK_SIZE ==> {
                &&& block matches Some(b)
                &&& b@ == (old(self)@ + samples@).take(CHUNK_SIZE as int)
                &&& final(self)@ == (old(self)@ + samples@).skip(CHUNK_SIZE as int)
            },
    {
        let ghost before = self.pending@;
        let mut i: usize = 0;
        while i < samples.len()
            invariant
                i <= samples@.len(),
                self.pending@ == before + samples@.take(i as int),
            decreases samples.len() - i,
        {
            self.pending.push(samples[i]);
            proof {
                assert(samples@.take(i + 1) =~= samples@.take(i as int).push(samples@[i as int]));
            }
            i = i + 1;
        }
        proof {
            assert(samples@.take(samples@.len() as int) =~= samples@);
        }
        if self.pending.len() >= CHUNK_SIZE {
            let mut rest = self.pending.split_off(CHUNK_SIZE);
            std::mem::swap(&mut self.pending, &mut rest);
            Some(rest)
        } else {
            None
        }
    }
}

/// What a streaming conversion hands on: the first `frames_written` samples
/// of the transform's output buffer, or `None` when it wrote nothing.
pub fn stream_output(output: &[u32], frames_written: usize) -> (produced: Option<Vec<u32>>)
    requires
        frames_written <= output@.len(),
    ensures
        frames_written == 0 <==> produced is None,
        produced matches Some(p) ==> p@ == output@.take(frames_written as int),
{
    if frames_written > 0 {
        Some(vstd::slice::slice_to_vec(vstd::slice::slice_subrange(output, 0, frames_written)))
    } else {
        None
    }
}

/// Length law of the batch conversion: the result is never longer than the
/// expected length plus the margin, and trimming never cuts into the
/// expected length: a transform that produced at least that much keeps at
/// least that much.
pub proof fn lemma_batch_length(produced: Seq<u32>, input_len: nat, from_rate: nat, to_rate: nat)
    requires
        from_rate > 0,
    ensures
        trimmed(produced, output_limit(input_len, from_rate, to_rate)).len() <= expected_len(
            input_len,
            from_rate,
            to_rate,
        ) + TRIM_MARGIN,
        produced.len() >= expected_len(input_len, from_rate, to_rate) && expected_len(
            input_len,
            from_rate,
            to_rate,
        ) <= usize::MAX ==> trimmed(
            produced,
            output_limit(input_len, from_rate, to_rate),
        ).len() >= expected_len(input_len, from_rate, to_rate),
        trimmed(produced, output_limit(input_len, from_rate, to_rate)) == produced.take(
            trimmed(produced, output_limit(input_len, from_rate, to_rate)).len() as int,
        ),
{
    let limit = output_limit(input_len, from_rate, to_rate);
    assert(produced.take(produced.len() as int) =~= produced);
}

/// With equal rates the expected length is the length of the input.
pub proof fn lemma_same_rate_length(input_len: nat, rate: nat)
    requires
        rate > 0,
    ensures
        expected_len(input_len, rate, rate) == input_len,
{
    vstd::arithmetic::div_mod::lemma_div_multiples_vanish(input_len as int, rate as int);
    assert(input_len * rate == rate * input_len) by (nonlinear_arith);
}

/// The number of whole blocks that cover `amount`: `amount / unit`, rounded
/// up.
pub open spec fn rounded_up(amount: nat, unit: nat) -> nat
    recommends
        unit > 0,
{
    (amount + unit - 1) as nat / unit
}

/// Length law of a round trip from rate `a` to rate `b` and back, for an
/// input of `len` samples, where `there` and `back` are what the transform
/// produced on the two passes. The result is never longer than the input
/// plus one margin for each pass, the first one carried back to rate `a`.
/// Where the transform produced the expected length on both passes, the
/// result is shorter than the input by less than one sample of rate `b`
/// counted in samples of rate `a`, rounded up.
pub proof fn lemma_round_trip_length(len: nat, a: nat, b: nat, there: Seq<u32>, back: Seq<u32>)
    requires
        a > 0,
        b > 0,
    ensures
        ({
            let middle = trimmed(there, output_limit(len, a, b));
            let end = trimmed(back, output_limit(middle.len(), b, a));
            &&& end.len() <= len + TRIM_MARGIN + rounded_up(TRIM_MARGIN as nat * a, b)
            &&& (there.len() <= usize::MAX && back.len() <= usize::MAX && there.len()
                >= expected_len(len, a, b) && back.len() >= expected_len(middle.len(), b, a))
                ==> end.len() + rounded_up(a, b) >= len
        }),
{
    let e1 = expected_len(len, a, b) as int;
    let middle = trimmed(there, output_limit(len, a, b));
    let m = middle.len() as int;
    let e2 = expected_len(middle.len(), b, a) as int;
    let end = trimmed(back, output_limit(middle.len(), b, a));
    let ai = a as int;
    let bi = b as int;
    let li = len as int;
    let margin = TRIM_MARGIN as int;
    // what the first pass expects, taken back to rate `a`, is at most the input
    vstd::arithmetic::div_mod::lemma_fundamental_div_mod(li * bi, ai);
    vstd::arithmetic::div_mod::lemma_mod_pos_bound(li * bi, ai);
    assert(e1 == (li * bi) / ai);
    assert(e1 * ai <= li * bi && li * bi < e1 * ai + ai) by (nonlinear_arith)
        requires
            li * bi == ai * e1 + (li * bi) % ai,
            0 <= (li * bi) % ai < ai,
    ;
    // upper bound
    assert(m <= e1 + margin);
    assert(m * ai <= li * bi + margin * ai) by (nonlinear_arith)
        requires
            m <= e1 + margin,
            e1 * ai <= li * bi,
            ai > 0,
            m >= 0,
    ;
    vstd::arithmetic::div_mod::lemma_div_is_ordered(m * ai, li * bi + margin * ai, bi);
    vstd::arithmetic::div_mod::lemma_hoist_over_denominator(margin * ai, li, b);
    vstd::arithmetic::div_mod::lemma_div_is_ordered(margin * ai, margin * ai + bi - 1, bi);
    assert(margin * ai + li * bi == li * bi + margin * ai);
    assert(e2 == (m * ai) / bi);
    assert(e2 <= li + (margin * ai + bi - 1) / bi);
    assert(end.len() <= e2 + margin);
    // lower bound
    if there.len() <= usize::MAX && back.len() <= usize::MAX && there.len() >= e1 && back.len()
        >= e2 {
        assert(m >= e1);
        assert(end.len() >= e2);
        let f = (e1 * ai) / bi;
        assert(m * ai >= e1 * ai) by (nonlinear_arith)
            requires
                m >= e1,
                ai > 0,
        ;
        vstd::arithmetic::div_mod::lemma_div_is_ordered(e1 * ai, m * ai, bi);
        assert(e2 >= f);
        vstd::arithmetic::div_mod::lemma_fundamental_div_mod(e1 * ai, bi);
        vstd::arithmetic::div_mod::lemma_mod_pos_bound(e1 * ai, bi);
        let q = (ai + bi - 1) / bi;
        vstd::arithmetic::div_mod::lemma_fundamental_div_mod(ai + bi - 1, bi);
        vstd::arithmetic::div_mod::lemma_mod_pos_bound(ai + bi - 1, bi);
        assert(li <= f + q) by (nonlinear_arith)
            requires
                li * bi < e1 * ai + ai,
                e1 * ai == bi * f + (e1 * ai) % bi,
                0 <= (e1 * ai) % bi < bi,
                ai + bi - 1 == bi * q + (ai + bi - 1) % bi,
                0 <= (ai + bi - 1) % bi < bi,
                bi > 0,
        ;
    }
}

} // verus!
