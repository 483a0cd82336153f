//! The context: a capability database, an output buffer, a scratch buffer,
//! and a random-number source.

use vstd::prelude::*;

use crate::caps;
use crate::error::Error;
use crate::random;

verus! {

/// Translates named, optionally parameterized terminal capabilities into
/// concrete byte sequences and writes them to its output buffer.
pub struct Context<'a> {
    /// The capability database; read-only, owned elsewhere.
    pub db: &'a terminfo::Database,
    /// The output sink: every operation appends its bytes here.
    pub out: Vec<u8>,
    /// Scratch buffer reused across random-byte runs.
    pub buf: Vec<u8>,
    /// The random-number source for printable-byte runs.
    pub rng: rand::rngs::ThreadRng,
}

/// What a capability operation leaves behind: on success the expansion of the
/// named capability was appended to the output and its length returned; on
/// failure the output is unchanged and the error says exactly why.
pub open spec fn emits(
    db: terminfo::Database,
    pre_out: Seq<u8>,
    post_out: Seq<u8>,
    r: Result<usize, Error>,
    name: Seq<char>,
    params: Seq<u16>,
) -> bool {
    match r {
        Ok(n) => {
            &&& caps::sequence_for(db, name, params) is Ok
            &&& post_out == pre_out + caps::sequence_for(db, name, params)->Ok_0
            &&& n == caps::sequence_for(db, name, params)->Ok_0.len()
        },
        Err(e) => {
            &&& caps::sequence_for(db, name, params) == Err::<Seq<u8>, Error>(e)
            &&& post_out == pre_out
        },
    }
}

/// Appends all of `src` to `dst`.
fn push_all(dst: &mut Vec<u8>, src: &[u8])
    ensures
        final(dst)@ == old(dst)@ + src@,
{
    let mut i: usize = 0;
    while i < src.len()
        invariant
            i <= src@.len(),
            dst@ == old(dst)@ + src@.take(i as int),
        decreases src@.len() - i,
    {
        dst.push(src[i]);
        i += 1;
    }
    proof {
        assert(src@.take(src@.len() as int) == src@);
    }
}

impl<'a> Context<'a> {
    /// A fresh context over `db`, with an empty output buffer.
    pub fn new(db: &'a terminfo::Database) -> (r: Context<'a>)
        ensures
            r.db == db,
            r.out@ == Seq::<u8>::empty(),
            r.buf@ == Seq::<u8>::empty(),
    {
        Context { db, out: Vec::new(), buf: Vec::new(), rng: random::fresh_rng() }
    }

    /// Looks `name` up, expands it with `params`, appends the bytes to the
    /// output and returns their number; fails with `CapabilityMissing` where
    /// the database lacks the capability and with `Expansion` where its
    /// template falls outside the accepted subset or cannot be expanded.
    fn emit(&mut self, name: &str, params: &Vec<u16>) -> (r: Result<usize, Error>)
        ensures
            final(self).db == old(self).db,
            final(self).buf == old(self).buf,
            emits(*old(self).db, old(self).out@, final(self).out@, r, name@, params@),
    {
        match caps::lookup_cap(self.db, name) {
            None => Err(Error::CapabilityMissing),
            Some(template) => {
                if !caps::scan_template(&template) {
                    Err(Error::Expansion)
                } else {
                    match caps::expand_template(&template, params) {
                        None => Err(Error::Expansion),
                        Some(bytes) => {
                            let n = bytes.len();
                            push_all(&mut self.out, bytes.as_slice());
                            Ok(n)
                        },
                    }
                }
            },
        }
    }

    /// Enter alternate-screen mode.
    pub fn smcup(&mut self) -> (r: Result<usize, Error>)
        ensures
            final(self).db == old(self).db,
            final(self).buf == old(self).buf,
            emits(*old(self).db, old(self).out@, final(self).out@, r, "smcup"@, Seq::<u16>::empty()),
    {
        let params: Vec<u16> = Vec::new();
        self.emit("smcup", &params)
    }

    /// Exit alternate-screen mode.
    pub fn rmcup(&mut self) -> (r: Result<usize, Error>)
        ensures
            final(self).db == old(self).db,
            final(self).buf == old(self).buf,
            emits(*old(self).db, old(self).out@, final(self).out@, r, "rmcup"@, Seq::<u16>::empty()),
    {
        let params: Vec<u16> = Vec::new();
        self.emit("rmcup", &params)
    }

    /// Move the cursor to the given row and column.
    pub fn cup(&mut self, line: u16, col: u16) -> (r: Result<usize, Error>)
        ensures
            final(self).db == old(self).db,
            final(self).buf == old(self).buf,
            emits(*old(self).db, old(self).out@, final(self).out@, r, "cup"@, seq![line, col]),
    {
        let mut params: Vec<u16> = Vec::new();
        params.push(line);
        params.push(col);
        proof {
            assert(params@ =~= seq![line, col]);
        }
        self.emit("cup", &params)
    }

    /// Set the foreground color to the given index.
    pub fn setaf(&mut self, v: u16) -> (r: Result<usize, Error>)
        ensures
            final(self).db == old(self).db,
            final(self).buf == old(self).buf,
            emits(*old(self).db, old(self).out@, final(self).out@, r, "setaf"@, seq![v]),
    {
        let mut params: Vec<u16> = Vec::new();
        params.push(v);
        proof {
            assert(params@ =~= seq![v]);
        }
        self.emit("setaf", &params)
    }

    /// Reset text attributes to their defaults.
    pub fn sgr0(&mut self) -> (r: Result<usize, Error>)
        ensures
            final(self).db == old(self).db,
            final(self).buf == old(self).buf,
            emits(*old(self).db, old(self).out@, final(self).out@, r, "sgr0"@, Seq::<u16>::empty()),
    {
        let params: Vec<u16> = Vec::new();
        self.emit("sgr0", &params)
    }

    /// Set the scroll region to the given top and bottom rows.
    pub fn csr(&mut self, top: u16, bottom: u16) -> (r: Result<usize, Error>)
        ensures
            final(self).db == old(self).db,
            final(self).buf == old(self).buf,
            emits(*old(self).db, old(self).out@, final(self).out@, r, "csr"@, seq![top, bottom]),
    {
        let mut params: Vec<u16> = Vec::new();
        params.push(top);
        params.push(bottom);
        proof {
            assert(params@ =~= seq![top, bottom]);
        }
        self.emit("csr", &params)
    }

    /// Write `count` random printable ASCII bytes (code points 32 through
    /// 126 inclusive) to the output, bypassing capability lookup. The
    /// scratch buffer is cleared first and left holding exactly the
    /// appended run.
    pub fn write_ascii(&mut self, count: usize) -> (r: Result<usize, Error>)
        ensures
            final(self).db == old(self).db,
            r == Ok::<usize, Error>(count),
            final(self).out@.len() == old(self).out@.len() + count,
            final(self).out@.take(old(self).out@.len() as int) == old(self).out@,
            forall|i: int| old(self).out@.len() <= i < final(self).out@.len()
                ==> 32 <= #[trigger] final(self).out@[i] <= 126,
            final(self).buf@.len() == count,
            final(self).buf@ == final(self).out@.skip(old(self).out@.len() as int),
    {
        self.buf.clear();
        let mut k: usize = 0;
        while k < count
            invariant
                k <= count,
                self.db == old(self).db,
                self.out@ == old(self).out@,
                self.buf@.len() == k,
                forall|i: int| 0 <= i < k ==> 32 <= #[trigger] self.buf@[i] <= 126,
            decreases count - k,
        {
            let b = random::random_printable(&mut self.rng);
            self.buf.push(b);
            k += 1;
        }
        push_all(&mut self.out, self.buf.as_slice());
        proof {
            assert(final(self).out@.take(old(self).out@.len() as int) =~= old(self).out@);
            assert(final(self).buf@ =~= final(self).out@.skip(old(self).out@.len() as int));
        }
        Ok(count)
    }

    /// Raw write interface: appends the bytes to the output buffer and
    /// returns how many were written (always all of them).
    pub fn write(&mut self, bytes: &[u8]) -> (r: usize)
        ensures
            final(self).db == old(self).db,
            final(self).buf == old(self).buf,
            final(self).out@ == old(self).out@ + bytes@,
            r == bytes@.len(),
    {
        push_all(&mut self.out, bytes);
        bytes.len()
    }

    /// Flush is a no-op: the output buffer holds the bytes already.
    pub fn flush(&mut self)
        ensures
            *final(self) == *old(self),
    {
    }
}

} // verus!
