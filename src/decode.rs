use vstd::prelude::*;

verus! {

/// The 32-bit word whose little-endian bytes are `b0`, `b1`, `b2`, `b3`.
pub open spec fn le_word(b0: u8, b1: u8, b2: u8, b3: u8) -> int {
    b0 as int + 256 * b1 as int + 65536 * b2 as int + 16777216 * b3 as int
}

/// The complete little-endian words in `bytes`, in order; a trailing partial word
/// is left out.
pub open spec fn words_of(bytes: Seq<u8>) -> Seq<u32> {
    Seq::new(
        (bytes.len() / 4) as nat,
        |i: int| le_word(bytes[4 * i], bytes[4 * i + 1], bytes[4 * i + 2], bytes[4 * i + 3]) as u32,
    )
}

/// The bytes of a trailing partial word in `bytes`.
pub open spec fn partial_tail(bytes: Seq<u8>) -> Seq<u8> {
    bytes.skip(4 * (bytes.len() / 4) as int)
}

/// Splits a stream of raw 32-bit little-endian PCM, arriving in chunks of any size,
/// into sample words, carrying a word cut between two chunks over to the next one.
pub struct PcmDecoder {
    pending: Vec<u8>,
}

impl View for PcmDecoder {
    type V = Seq<u8>;

    /// The bytes of a word begun in an earlier chunk.
    closed spec fn view(&self) -> Seq<u8> {
        self.pending@
    }
}

impl PcmDecoder {
    /// Fewer bytes than a word are ever carried over.
    pub open spec fn wf(&self) -> bool {
        self@.len() < 4
    }

    /// A decoder with nothing carried over.
    pub fn new() -> (d: PcmDecoder)
        ensures
            d.wf(),
            d@ == Seq::<u8>::empty(),
    {
        PcmDecoder { pending: Vec::new() }
    }

    /// The sample words completed by `chunk`, in order, after the bytes carried over;
    /// the bytes of a word left incomplete are kept for the next chunk.
    pub fn decode(&mut self, chunk: &[u8]) -> (words: Vec<u32>)
        requires
            old(self).wf(),
            old(self)@.len() + chunk@.len() <= usize::MAX,
        ensures
            final(self).wf(),
            words@ == words_of(old(self)@ + chunk@),
            final(self)@ == partial_tail(old(self)@ + chunk@),
    {
        let mut all: Vec<u8> = Vec::new();
        let mut i: usize = 0;
        while i < self.pending.len()
            invariant
                i <= self.pending@.len(),
                all@ == self.pending@.take(i as int),
            decreases self.pending@.len() - i,
        {
            all.push(self.pending[i]);
            i = i + 1;
        }
        let mut j: usize = 0;
        while j < chunk.len()
            invariant
                j <= chunk@.len(),
                all@ == self.pending@ + chunk@.take(j as int),
            decreases chunk@.len() - j,
        {
            all.push(chunk[j]);
            j = j + 1;
        }
        assert(all@ == old(self)@ + chunk@) by {
            assert(self.pending@.take(self.pending@.len() as int) =~= self.pending@);
            assert(chunk@.take(chunk@.len() as int) =~= chunk@);
        }
        let n: usize = all.len() / 4;
        let mut words: Vec<u32> = Vec::new();
        let mut k: usize = 0;
        while k < n
            invariant
                n == all@.len() / 4,
                all@.len() <= usize::MAX,
                k <= n,
                words@ == words_of(all@).take(k as int),
            decreases n - k,
        {
            assert(4 * k + 4 <= all@.len()) by (nonlinear_arith)
                requires
                    k < n,
                    n == all@.len() / 4,
            ;
            let w: u32 = all[4 * k] as u32 + all[4 * k + 1] as u32 * 256 + all[4 * k + 2] as u32
                * 65536 + all[4 * k + 3] as u32 * 16777216;
            words.push(w);
            assert(words@ =~= words_of(all@).take(k + 1));
            k = k + 1;
        }
        assert(words@ =~= words_of(all@));
        let mut rest: Vec<u8> = Vec::new();
        let mut m: usize = 4 * n;
        while m < all.len()
            invariant
                n == all@.len() / 4,
                4 * n <= m <= all@.len(),
                rest@ == all@.subrange(4 * n as int, m as int),
            decreases all@.len() - m,
        {
            rest.push(all[m]);
            assert(rest@ =~= all@.subrange(4 * n as int, m + 1));
            m = m + 1;
        }
        assert(rest@ =~= partial_tail(all@));
        self.pending = rest;
        words
    }
}

} // verus!
